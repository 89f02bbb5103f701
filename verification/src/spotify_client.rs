//! The client of the music API: which calls a command takes, in which
//! order, and what each reply decides.
//!
//! The client sends nothing itself. [`SpotifyClient::step`] is told what came
//! back and says what to do next.

use vstd::prelude::*;
use vstd::string::StringExecFns;
use crate::api_spec::{
    ApiRequest,
    ApiRequestSpec,
    Extraction,
    Method,
    NoBody,
    NoResponse,
    OptionalResponse,
};
use crate::cache::Cache;
use crate::describe::{describe_joined, described, Describe};
use crate::http::{body_is_empty, extract_text, extraction_text, Response, ResponseError};
use crate::music::MusicCommands;
use crate::spotify_api_handler::SpotifyApiHandler;
use crate::spotify_api_spec::{
    is_basic,
    is_play_body,
    is_with_params,
    search_pairs,
    GetCurrentTrack,
    GetPlaybackState,
    GetTopTracks,
    GotoNextTrack,
    GotoPrevTrack,
    Pause,
    Play,
    PlayBody,
    PlayingState,
    Resume,
    SaveTrackBody,
    SaveTracks,
    Search,
    SetShuffle,
    SpotifySearchType,
};
use crate::spotify_auth::{AuthError, InitialAuthError};
use crate::spotify_model::{
    search_results_text,
    spotify_search_results_to_string,
    CurrentTrack,
    PlaybackState,
    SpotifySearchResults,
    TopTracksResponse,
};
use crate::text::{bool_text, clone_strings, join_text, labelled};
use crate::token::Token;

verus! {

/// The client of the music API.
#[derive(Debug)]
pub struct SpotifyClient {
    pub api_handler: SpotifyApiHandler,
}

/// Why a command was not carried out.
#[derive(Debug)]
pub enum SpotifyError {
    /// Nothing plays anywhere: there is no device to act on.
    NoActiveDevice,
    /// The command makes no sense in the state that the player is in.
    UnwantedPlayingState(PlayingState),
    /// A call of the API failed.
    ApiRequestError(ResponseError),
    /// The user could not be authenticated.
    FailedInitialAuth(InitialAuthError),
}

/// A call of the API, with what it carries.
#[derive(Debug)]
pub enum ApiCall {
    GetPlaybackState,
    Pause,
    Resume,
    Play(Play),
    GotoNextTrack,
    GotoPrevTrack,
    SetShuffle(SetShuffle),
    Search(Search),
    SaveTracks(SaveTracks),
    GetTopTracks(GetTopTracks),
    GetCurrentTrack,
}

/// What a call of the API carries as its body.
#[derive(Debug)]
pub enum ApiBody {
    Play(PlayBody),
    SaveTracks(SaveTrackBody),
}

/// What a call of the API expects as its reply.
#[derive(Clone, Copy, Debug, PartialEq, Eq, Structural)]
pub enum ReplyKind {
    /// No data.
    NoResponse,
    /// The state of the player, where there is one.
    PlaybackState,
    /// What a search found.
    Search,
    /// The user's top tracks.
    TopTracks,
    /// The track that is being played.
    CurrentTrack,
}

/// What a call of the API gave.
#[derive(Debug)]
pub enum ApiReply {
    PlaybackState(OptionalResponse<PlaybackState>),
    NoResponse,
    Search(SpotifySearchResults),
    TopTracks(TopTracksResponse),
    CurrentTrack(CurrentTrack),
}

/// Where the work on a command stands.
#[derive(Clone, Copy, Debug, PartialEq, Eq, Structural)]
pub enum ClientStage {
    /// Nothing has been done yet.
    Start,
    /// A toggle looks at the player to choose between pausing and resuming.
    Choosing,
    /// The player is looked at before the command's own call.
    Checking,
    /// A toggle has chosen: it goes on as the command that wants the player
    /// in the given state.
    CheckingToggled(PlayingState),
    /// The command's own call has been made.
    Acting,
    /// The command has ended.
    Done,
}

/// What happened outside, as the client is told.
#[derive(Debug)]
pub enum ClientEvent {
    /// The command is to be carried out.
    Begin,
    /// The call that was asked for has ended.
    Replied(Result<ApiReply, ResponseError>),
}

/// What a command that succeeded leaves for the user.
#[derive(Debug)]
pub enum ClientOutput {
    /// Nothing.
    Nothing,
    /// A text to show.
    Print(String),
    /// A warning to show: nothing was done.
    Warn(String),
}

/// What is to be done next for a command.
#[derive(Debug)]
pub enum ClientAction {
    /// Make this call and report what it gave.
    Request(ApiCall),
    /// The command has ended with this outcome.
    Finish(Result<ClientOutput, SpotifyError>),
    /// Nothing: the event does not belong to the stage.
    Ignore,
}

/// Whether the player plays, by what it reports; `None` where it reports
/// nothing, which means that no device is active.
pub open spec fn playing_state_of(reply: OptionalResponse<PlaybackState>) -> Option<PlayingState> {
    match reply {
        OptionalResponse::Present(state) => Some(
            if state.is_playing {
                PlayingState::Playing
            } else {
                PlayingState::Paused
            },
        ),
        OptionalResponse::Absent(_) => None,
    }
}

/// What the state of the player means for a command that wants it to be
/// `expected`.
pub open spec fn checked_state(state: Option<PlayingState>, expected: PlayingState) -> Result<
    (),
    SpotifyError,
> {
    match state {
        Some(found) => if found != expected {
            Err(SpotifyError::UnwantedPlayingState(found))
        } else {
            Ok(())
        },
        None => Err(SpotifyError::NoActiveDevice),
    }
}

/// What the state of the player means for a command that needs a device.
pub open spec fn checked_device(state: Option<PlayingState>) -> Result<(), SpotifyError> {
    match state {
        Some(_) => Ok(()),
        None => Err(SpotifyError::NoActiveDevice),
    }
}

/// What is to be played, by what the user gave. A context wins over a
/// track, which then says where in the context to start. With neither there
/// is nothing to play.
pub open spec fn play_of(track: Option<String>, context: Option<String>) -> Option<Play> {
    match context {
        Some(uri) => Some(Play::Context { uri, track }),
        None => match track {
            Some(id) => Some(Play::Track { id }),
            None => None,
        },
    }
}

/// The warning for a command to play that names nothing to play.
pub open spec fn nothing_to_play_text() -> Seq<char> {
    "WARNING: Play called without id or context to play, this is a code problem\n"@
}

/// The text that says that no track is being played.
pub open spec fn no_current_track_text() -> Seq<char> {
    "There's no track currently playing"@
}

/// The text that shows what a search for things of the kind `search_type`
/// found.
pub open spec fn search_text(results: SpotifySearchResults, search_type: SpotifySearchType) -> Seq<
    char,
> {
    match search_type {
        SpotifySearchType::Track => match results.tracks {
            Some(found) => search_results_text(Some(found.items)),
            None => search_results_text::<crate::spotify_model::SpotifyTrack>(None),
        },
        SpotifySearchType::Album => match results.albums {
            Some(found) => search_results_text(Some(found.items)),
            None => search_results_text::<crate::spotify_model::SpotifySimplifiedAlbum>(None),
        },
        SpotifySearchType::Artist => match results.artists {
            Some(found) => search_results_text(Some(found.items)),
            None => search_results_text::<crate::spotify_model::SpotifyArtist>(None),
        },
        SpotifySearchType::Playlist => match results.playlists {
            Some(found) => search_results_text(Some(found.items)),
            None => search_results_text::<crate::spotify_model::SpotifySimplifiedPlaylist>(None),
        },
    }
}

/// The text that shows the track that is being played.
pub open spec fn current_track_text(current: CurrentTrack) -> Seq<char> {
    match current.item {
        Some(track) => track.text(),
        None => no_current_track_text(),
    }
}

/// The text that shows the tracks that the user played most.
pub open spec fn top_tracks_text(top: TopTracksResponse) -> Seq<char> {
    join_text(described(top.items@), "\n\n"@)
}

impl SpotifyClient {
    /// The client for the token that authentication gave, and the cache
    /// updated with it. Where authentication failed there is no client, and
    /// the cache stays as it was.
    pub fn new(cache: &mut Cache, authed: Result<Token, AuthError>) -> (r: Result<Self, AuthError>)
        ensures
            match authed {
                Ok(token) => {
                    &&& r matches Ok(client)
                    &&& client.api_handler.auth@ == token
                    &&& final(cache).token() == Some(token)
                },
                Err(e) => r == Err::<SpotifyClient, AuthError>(e) && *final(cache) == *old(cache),
            },
    {
        match SpotifyApiHandler::new(cache, authed) {
            Ok(api_handler) => Ok(SpotifyClient { api_handler }),
            Err(e) => Err(e),
        }
    }

    /// Whether the player plays, by the reply to the question. A failed
    /// call is a failed command.
    pub fn get_playing_state(reply: Result<OptionalResponse<PlaybackState>, ResponseError>) -> (r:
        Result<Option<PlayingState>, SpotifyError>)
        ensures
            match reply {
                Ok(state) => r == Ok::<Option<PlayingState>, SpotifyError>(
                    playing_state_of(state),
                ),
                Err(e) => r == Err::<Option<PlayingState>, SpotifyError>(
                    SpotifyError::ApiRequestError(e),
                ),
            },
    {
        match reply {
            Ok(state) => match state.into_option() {
                Some(state) => Ok(Some(PlayingState::from(state.is_playing))),
                None => Ok(None),
            },
            Err(e) => Err(SpotifyError::ApiRequestError(e)),
        }
    }

    /// Holds the state of the player against the one that a command wants:
    /// another state refuses the command and is named; no state at all
    /// means that no device is active.
    pub fn verify_playing_state(state: Option<PlayingState>, excpected_state: PlayingState) -> (r:
        Result<(), SpotifyError>)
        ensures
            r == checked_state(state, excpected_state),
    {
        match state {
            Some(found) => {
                if found != excpected_state {
                    Err(SpotifyError::UnwantedPlayingState(found))
                } else {
                    Ok(())
                }
            },
            None => Err(SpotifyError::NoActiveDevice),
        }
    }

    /// Whether there is a device to act on: there is where the player
    /// reports a state.
    pub fn verify_active_device(state: Option<PlayingState>) -> (r: Result<(), SpotifyError>)
        ensures
            r == checked_device(state),
    {
        match state {
            Some(_) => Ok(()),
            None => Err(SpotifyError::NoActiveDevice),
        }
    }

    /// What is to be played, by what the user gave.
    pub fn play(id: Option<String>, context: Option<String>) -> (r: Option<Play>)
        ensures
            r == play_of(id, context),
    {
        match context {
            Some(uri) => Some(Play::Context { uri, track: id }),
            None => match id {
                Some(id) => Some(Play::Track { id }),
                None => None,
            },
        }
    }

    /// The search for `query` among things of one kind.
    pub fn search(query: String, search_type: SpotifySearchType) -> (r: Search)
        ensures
            r.query == query,
            r.search_type@ == seq![search_type],
    {
        let mut kinds: Vec<SpotifySearchType> = Vec::new();
        kinds.push(search_type);
        Search { query, search_type: kinds }
    }

    /// The text that shows what a search for things of the kind
    /// `search_type` found.
    pub fn search_results(results: SpotifySearchResults, search_type: SpotifySearchType) -> (r:
        String)
        ensures
            r@ == search_text(results, search_type),
    {
        match search_type {
            SpotifySearchType::Track => spotify_search_results_to_string(
                match results.tracks {
                    Some(found) => Some(found.items),
                    None => None,
                },
            ),
            SpotifySearchType::Album => spotify_search_results_to_string(
                match results.albums {
                    Some(found) => Some(found.items),
                    None => None,
                },
            ),
            SpotifySearchType::Artist => spotify_search_results_to_string(
                match results.artists {
                    Some(found) => Some(found.items),
                    None => None,
                },
            ),
            SpotifySearchType::Playlist => spotify_search_results_to_string(
                match results.playlists {
                    Some(found) => Some(found.items),
                    None => None,
                },
            ),
        }
    }

    /// The text that shows the track that is being played.
    pub fn print_current_track(curr_track: CurrentTrack) -> (r: String)
        ensures
            r@ == current_track_text(curr_track),
    {
        match curr_track.item {
            Some(track) => track.to_string(),
            None => String::from_str("There's no track currently playing"),
        }
    }

    /// The text that shows the tracks that the user played most.
    pub fn get_top_tracks(top: TopTracksResponse) -> (r: String)
        ensures
            r@ == top_tracks_text(top),
    {
        describe_joined(&top.items, "\n\n")
    }
}

/// The state of the player that a command wants before it acts; `None`
/// where any state will do, as long as a device is active.
pub open spec fn expected_state(command: MusicCommands) -> Option<PlayingState> {
    match command {
        MusicCommands::Pause => Some(PlayingState::Playing),
        MusicCommands::Resume => Some(PlayingState::Paused),
        _ => None,
    }
}

/// Whether the command looks at the player before its own call.
pub open spec fn checks_first(command: MusicCommands) -> bool {
    match command {
        MusicCommands::Pause => true,
        MusicCommands::Resume => true,
        MusicCommands::Play(_) => true,
        MusicCommands::Next => true,
        MusicCommands::Prev => true,
        MusicCommands::SetShuffle { .. } => true,
        MusicCommands::CurrTrack => true,
        _ => false,
    }
}

/// Whether `r` is the first step of the command. A toggle looks at the
/// player to choose; the commands that need a device look at the player to
/// check; a search, a save and the top tracks make their call at once.
/// Authentication is no command for the client.
pub open spec fn is_first_step(command: MusicCommands, r: (ClientStage, ClientAction)) -> bool {
    match command {
        MusicCommands::Toggle => r.0 == ClientStage::Choosing && r.1 == ClientAction::Request(
            ApiCall::GetPlaybackState,
        ),
        MusicCommands::Search { query, search_type } => {
            &&& r.0 == ClientStage::Acting
            &&& r.1 matches ClientAction::Request(ApiCall::Search(search))
            &&& search.query == query
            &&& search.search_type@ == seq![search_type]
        },
        MusicCommands::Save { ids } => {
            &&& r.0 == ClientStage::Acting
            &&& r.1 matches ClientAction::Request(ApiCall::SaveTracks(save))
            &&& save.ids@ == ids@
        },
        MusicCommands::TopTracks { time_range } => r.0 == ClientStage::Acting && r.1
            == ClientAction::Request(ApiCall::GetTopTracks(GetTopTracks { time_range })),
        MusicCommands::Auth => r.0 == ClientStage::Start && r.1 is Ignore,
        MusicCommands::Unauth => r.0 == ClientStage::Start && r.1 is Ignore,
        _ => r.0 == ClientStage::Checking && r.1 == ClientAction::Request(
            ApiCall::GetPlaybackState,
        ),
    }
}

/// Whether `r` is the step of a command whose check of the player has
/// passed: its own call; for a command to play that names nothing to play,
/// the end with a warning.
pub open spec fn is_own_call(command: MusicCommands, r: (ClientStage, ClientAction)) -> bool {
    match command {
        MusicCommands::Pause => r.0 == ClientStage::Acting && r.1 == ClientAction::Request(
            ApiCall::Pause,
        ),
        MusicCommands::Resume => r.0 == ClientStage::Acting && r.1 == ClientAction::Request(
            ApiCall::Resume,
        ),
        MusicCommands::Play(args) => match play_of(args.track, args.context) {
            Some(play) => r.0 == ClientStage::Acting && r.1 == ClientAction::Request(
                ApiCall::Play(play),
            ),
            None => {
                &&& r.0 == ClientStage::Done
                &&& r.1 matches ClientAction::Finish(Ok(ClientOutput::Warn(text)))
                &&& text@ == nothing_to_play_text()
            },
        },
        MusicCommands::Next => r.0 == ClientStage::Acting && r.1 == ClientAction::Request(
            ApiCall::GotoNextTrack,
        ),
        MusicCommands::Prev => r.0 == ClientStage::Acting && r.1 == ClientAction::Request(
            ApiCall::GotoPrevTrack,
        ),
        MusicCommands::SetShuffle { state } => r.0 == ClientStage::Acting && r.1
            == ClientAction::Request(ApiCall::SetShuffle(SetShuffle { state: state is On })),
        MusicCommands::CurrTrack => r.0 == ClientStage::Acting && r.1 == ClientAction::Request(
            ApiCall::GetCurrentTrack,
        ),
        _ => false,
    }
}

/// Whether `r` is the end of a command with the failure `e`.
pub open spec fn is_failure(r: (ClientStage, ClientAction), e: SpotifyError) -> bool {
    r.0 == ClientStage::Done && r.1 == ClientAction::Finish(Err(e))
}

/// Whether `r` is the step that an event outside its stage gets: nothing
/// changes.
pub open spec fn is_ignored(stage: ClientStage, r: (ClientStage, ClientAction)) -> bool {
    r.0 == stage && r.1 is Ignore
}

/// Whether `r` is the step of a command that hears, while it checks, what
/// the player reports. A failed call ends the command; so does a player in
/// the wrong state, or none; else the command makes its own call.
pub open spec fn is_check_step(
    command: MusicCommands,
    reply: Result<ApiReply, ResponseError>,
    r: (ClientStage, ClientAction),
) -> bool {
    match reply {
        Err(e) => is_failure(r, SpotifyError::ApiRequestError(e)),
        Ok(ApiReply::PlaybackState(reported)) => {
            let checked = match expected_state(command) {
                Some(expected) => checked_state(playing_state_of(reported), expected),
                None => checked_device(playing_state_of(reported)),
            };
            match checked {
                Ok(_) => is_own_call(command, r),
                Err(e) => is_failure(r, e),
            }
        },
        Ok(_) => is_ignored(ClientStage::Checking, r),
    }
}

/// Whether `r` is the step of a toggle that hears what the player reports
/// and chooses: to pause what plays, to resume anything else. Either way
/// the player is looked at once more, as the chosen command does.
pub open spec fn is_choice_step(
    reply: Result<ApiReply, ResponseError>,
    r: (ClientStage, ClientAction),
) -> bool {
    match reply {
        Err(e) => is_failure(r, SpotifyError::ApiRequestError(e)),
        Ok(ApiReply::PlaybackState(reported)) => r.0 == ClientStage::CheckingToggled(
            if playing_state_of(reported) == Some(PlayingState::Playing) {
                PlayingState::Playing
            } else {
                PlayingState::Paused
            },
        ) && r.1 == ClientAction::Request(ApiCall::GetPlaybackState),
        Ok(_) => is_ignored(ClientStage::Choosing, r),
    }
}

/// Whether `r` is the step of a toggle that has chosen and hears what the
/// player reports now: it goes on as a pause where it wants the player
/// playing, as a resume where it wants it paused.
pub open spec fn is_toggled_step(
    expected: PlayingState,
    reply: Result<ApiReply, ResponseError>,
    r: (ClientStage, ClientAction),
) -> bool {
    match reply {
        Err(e) => is_failure(r, SpotifyError::ApiRequestError(e)),
        Ok(ApiReply::PlaybackState(reported)) => match checked_state(
            playing_state_of(reported),
            expected,
        ) {
            Ok(_) => r.0 == ClientStage::Acting && r.1 == ClientAction::Request(
                if expected is Playing {
                    ApiCall::Pause
                } else {
                    ApiCall::Resume
                },
            ),
            Err(e) => is_failure(r, e),
        },
        Ok(_) => is_ignored(ClientStage::CheckingToggled(expected), r),
    }
}

/// Whether `r` is the end of a command with the text `text` to show.
pub open spec fn is_shown(r: (ClientStage, ClientAction), text: Seq<char>) -> bool {
    &&& r.0 == ClientStage::Done
    &&& r.1 matches ClientAction::Finish(Ok(ClientOutput::Print(shown)))
    &&& shown@ == text
}

/// Whether `r` is the step of a command that hears what its own call gave.
/// A failed call ends the command as a failure. A search, the current
/// track and the top tracks end with the text that shows what came; every
/// other command ends with nothing to show.
pub open spec fn is_act_step(
    command: MusicCommands,
    reply: Result<ApiReply, ResponseError>,
    r: (ClientStage, ClientAction),
) -> bool {
    match reply {
        Err(e) => is_failure(r, SpotifyError::ApiRequestError(e)),
        Ok(given) => match command {
            MusicCommands::Search { query, search_type } => match given {
                ApiReply::Search(results) => is_shown(r, search_text(results, search_type)),
                _ => is_ignored(ClientStage::Acting, r),
            },
            MusicCommands::CurrTrack => match given {
                ApiReply::CurrentTrack(current) => is_shown(r, current_track_text(current)),
                _ => is_ignored(ClientStage::Acting, r),
            },
            MusicCommands::TopTracks { time_range } => match given {
                ApiReply::TopTracks(top) => is_shown(r, top_tracks_text(top)),
                _ => is_ignored(ClientStage::Acting, r),
            },
            _ => r.0 == ClientStage::Done && r.1 == ClientAction::Finish(
                Ok(ClientOutput::Nothing),
            ),
        },
    }
}

impl SpotifyClient {
    /// One step of the work on `command`.
    ///
    /// See [`is_first_step`], [`is_choice_step`], [`is_check_step`],
    /// [`is_toggled_step`] and [`is_act_step`] for what each stage does
    /// with what it hears. A command that has ended stays ended, and an
    /// event that does not belong to the stage changes nothing.
    pub fn step(command: &MusicCommands, stage: ClientStage, event: ClientEvent) -> (r: (
        ClientStage,
        ClientAction,
    ))
        ensures
            match (stage, event) {
                (ClientStage::Start, ClientEvent::Begin) => is_first_step(*command, r),
                (ClientStage::Choosing, ClientEvent::Replied(reply)) => is_choice_step(reply, r),
                (ClientStage::Checking, ClientEvent::Replied(reply)) => if checks_first(
                    *command,
                ) {
                    is_check_step(*command, reply, r)
                } else {
                    is_ignored(stage, r)
                },
                (ClientStage::CheckingToggled(expected), ClientEvent::Replied(reply)) =>
                    is_toggled_step(expected, reply, r),
                (ClientStage::Acting, ClientEvent::Replied(reply)) => is_act_step(
                    *command,
                    reply,
                    r,
                ),
                _ => is_ignored(stage, r),
            },
    {
        match (stage, event) {
            (ClientStage::Start, ClientEvent::Begin) => Self::first_step(command),
            (ClientStage::Choosing, ClientEvent::Replied(reply)) => match Self::reported_state(
                reply,
            ) {
                Ok(Some(state)) => (
                    ClientStage::CheckingToggled(
                        match state {
                            Some(PlayingState::Playing) => PlayingState::Playing,
                            _ => PlayingState::Paused,
                        },
                    ),
                    ClientAction::Request(ApiCall::GetPlaybackState),
                ),
                Ok(None) => (stage, ClientAction::Ignore),
                Err(e) => (ClientStage::Done, ClientAction::Finish(Err(e))),
            },
            (ClientStage::Checking, ClientEvent::Replied(reply)) => {
                if !Self::looks_first(command) {
                    return (stage, ClientAction::Ignore);
                }
                match Self::reported_state(reply) {
                    Ok(Some(state)) => {
                        let checked = match command {
                            MusicCommands::Pause => Self::verify_playing_state(
                                state,
                                PlayingState::Playing,
                            ),
                            MusicCommands::Resume => Self::verify_playing_state(
                                state,
                                PlayingState::Paused,
                            ),
                            _ => Self::verify_active_device(state),
                        };
                        match checked {
                            Ok(_) => Self::own_call(command),
                            Err(e) => (ClientStage::Done, ClientAction::Finish(Err(e))),
                        }
                    },
                    Ok(None) => (stage, ClientAction::Ignore),
                    Err(e) => (ClientStage::Done, ClientAction::Finish(Err(e))),
                }
            },
            (ClientStage::CheckingToggled(expected), ClientEvent::Replied(reply)) => {
                match Self::reported_state(reply) {
                    Ok(Some(state)) => match Self::verify_playing_state(state, expected) {
                        Ok(_) => (
                            ClientStage::Acting,
                            ClientAction::Request(
                                match expected {
                                    PlayingState::Playing => ApiCall::Pause,
                                    PlayingState::Paused => ApiCall::Resume,
                                },
                            ),
                        ),
                        Err(e) => (ClientStage::Done, ClientAction::Finish(Err(e))),
                    },
                    Ok(None) => (stage, ClientAction::Ignore),
                    Err(e) => (ClientStage::Done, ClientAction::Finish(Err(e))),
                }
            },
            (ClientStage::Acting, ClientEvent::Replied(reply)) => match reply {
                Err(e) => (
                    ClientStage::Done,
                    ClientAction::Finish(Err(SpotifyError::ApiRequestError(e))),
                ),
                Ok(given) => Self::last_step(command, given),
            },
            (stage, _) => (stage, ClientAction::Ignore),
        }
    }

    fn looks_first(command: &MusicCommands) -> (r: bool)
        ensures
            r == checks_first(*command),
    {
        match command {
            MusicCommands::Pause => true,
            MusicCommands::Resume => true,
            MusicCommands::Play(_) => true,
            MusicCommands::Next => true,
            MusicCommands::Prev => true,
            MusicCommands::SetShuffle { .. } => true,
            MusicCommands::CurrTrack => true,
            _ => false,
        }
    }

    /// What the player reports, out of the reply to the question: `None`
    /// where the reply is one to another call.
    fn reported_state(reply: Result<ApiReply, ResponseError>) -> (r: Result<
        Option<Option<PlayingState>>,
        SpotifyError,
    >)
        ensures
            match reply {
                Err(e) => r == Err::<Option<Option<PlayingState>>, SpotifyError>(
                    SpotifyError::ApiRequestError(e),
                ),
                Ok(ApiReply::PlaybackState(reported)) => r == Ok::<
                    Option<Option<PlayingState>>,
                    SpotifyError,
                >(Some(playing_state_of(reported))),
                Ok(_) => r == Ok::<Option<Option<PlayingState>>, SpotifyError>(None),
            },
    {
        match reply {
            Err(e) => Err(SpotifyError::ApiRequestError(e)),
            Ok(ApiReply::PlaybackState(reported)) => match Self::get_playing_state(Ok(reported)) {
                Ok(state) => Ok(Some(state)),
                Err(e) => Err(e),
            },
            Ok(_) => Ok(None),
        }
    }

    fn first_step(command: &MusicCommands) -> (r: (ClientStage, ClientAction))
        ensures
            is_first_step(*command, r),
    {
        match command {
            MusicCommands::Toggle => (
                ClientStage::Choosing,
                ClientAction::Request(ApiCall::GetPlaybackState),
            ),
            MusicCommands::Search { query, search_type } => (
                ClientStage::Acting,
                ClientAction::Request(ApiCall::Search(Self::search(query.clone(), *search_type))),
            ),
            MusicCommands::Save { ids } => (
                ClientStage::Acting,
                ClientAction::Request(ApiCall::SaveTracks(SaveTracks { ids: clone_strings(ids) })),
            ),
            MusicCommands::TopTracks { time_range } => (
                ClientStage::Acting,
                ClientAction::Request(
                    ApiCall::GetTopTracks(GetTopTracks { time_range: *time_range }),
                ),
            ),
            MusicCommands::Auth => (ClientStage::Start, ClientAction::Ignore),
            MusicCommands::Unauth => (ClientStage::Start, ClientAction::Ignore),
            _ => (ClientStage::Checking, ClientAction::Request(ApiCall::GetPlaybackState)),
        }
    }

    fn own_call(command: &MusicCommands) -> (r: (ClientStage, ClientAction))
        requires
            checks_first(*command),
        ensures
            is_own_call(*command, r),
    {
        match command {
            MusicCommands::Pause => (ClientStage::Acting, ClientAction::Request(ApiCall::Pause)),
            MusicCommands::Resume => (ClientStage::Acting, ClientAction::Request(ApiCall::Resume)),
            MusicCommands::Play(args) => {
                let track = match &args.track {
                    Some(id) => Some(id.clone()),
                    None => None,
                };
                let context = match &args.context {
                    Some(uri) => Some(uri.clone()),
                    None => None,
                };
                match Self::play(track, context) {
                    Some(play) => (
                        ClientStage::Acting,
                        ClientAction::Request(ApiCall::Play(play)),
                    ),
                    None => (
                        ClientStage::Done,
                        ClientAction::Finish(
                            Ok(
                                ClientOutput::Warn(
                                    String::from_str(
                                        "WARNING: Play called without id or context to play, this is a code problem\n",
                                    ),
                                ),
                            ),
                        ),
                    ),
                }
            },
            MusicCommands::Next => (
                ClientStage::Acting,
                ClientAction::Request(ApiCall::GotoNextTrack),
            ),
            MusicCommands::Prev => (
                ClientStage::Acting,
                ClientAction::Request(ApiCall::GotoPrevTrack),
            ),
            MusicCommands::SetShuffle { state } => (
                ClientStage::Acting,
                ClientAction::Request(ApiCall::SetShuffle(SetShuffle { state: state.into_bool() })),
            ),
            _ => (ClientStage::Acting, ClientAction::Request(ApiCall::GetCurrentTrack)),
        }
    }

    fn last_step(command: &MusicCommands, given: ApiReply) -> (r: (ClientStage, ClientAction))
        ensures
            is_act_step(*command, Ok(given), r),
    {
        match command {
            MusicCommands::Search { query, search_type } => match given {
                ApiReply::Search(results) => (
                    ClientStage::Done,
                    ClientAction::Finish(
                        Ok(ClientOutput::Print(Self::search_results(results, *search_type))),
                    ),
                ),
                _ => (ClientStage::Acting, ClientAction::Ignore),
            },
            MusicCommands::CurrTrack => match given {
                ApiReply::CurrentTrack(current) => (
                    ClientStage::Done,
                    ClientAction::Finish(
                        Ok(ClientOutput::Print(Self::print_current_track(current))),
                    ),
                ),
                _ => (ClientStage::Acting, ClientAction::Ignore),
            },
            MusicCommands::TopTracks { time_range } => match given {
                ApiReply::TopTracks(top) => (
                    ClientStage::Done,
                    ClientAction::Finish(Ok(ClientOutput::Print(Self::get_top_tracks(top)))),
                ),
                _ => (ClientStage::Acting, ClientAction::Ignore),
            },
            _ => (ClientStage::Done, ClientAction::Finish(Ok(ClientOutput::Nothing))),
        }
    }
}

/// Whether `request` is the description of the call `call`: the
/// description that the operation of that name gives, its body, where it
/// has one, as an [`ApiBody`].
pub open spec fn is_request_of(request: ApiRequest<ApiBody>, call: ApiCall) -> bool {
    match call {
        ApiCall::GetPlaybackState => is_basic(request, Method::Get, "me/player"@),
        ApiCall::Pause => is_basic(request, Method::Put, "me/player/pause"@),
        ApiCall::Resume => is_basic(request, Method::Put, "me/player/play"@),
        ApiCall::Play(play) => {
            &&& request.method == Method::Put
            &&& request.endpoint@ == "me/player/play"@
            &&& request.headers is None
            &&& request.params is None
            &&& request.body matches Some(ApiBody::Play(body))
            &&& is_play_body(body, play)
        },
        ApiCall::GotoNextTrack => is_basic(request, Method::Post, "me/player/next"@),
        ApiCall::GotoPrevTrack => is_basic(request, Method::Post, "me/player/previous"@),
        ApiCall::SetShuffle(shuffle) => is_with_params(
            request,
            Method::Put,
            "me/player/shuffle"@,
            seq![("state"@, bool_text(shuffle.state))],
        ),
        ApiCall::Search(search) => is_with_params(
            request,
            Method::Get,
            "search"@,
            search_pairs(search),
        ),
        ApiCall::SaveTracks(save) => {
            &&& request.method == Method::Put
            &&& request.endpoint@ == "me/tracks"@
            &&& request.headers is None
            &&& request.params is None
            &&& request.body matches Some(ApiBody::SaveTracks(body))
            &&& body.ids@ == save.ids@
        },
        ApiCall::GetTopTracks(top) => is_with_params(
            request,
            Method::Get,
            "me/top/tracks"@,
            seq![("time_range"@, top.time_range.text())],
        ),
        ApiCall::GetCurrentTrack => is_basic(
            request,
            Method::Get,
            "me/player/currently-playing"@,
        ),
    }
}

fn without_body(request: ApiRequest<NoBody>) -> (r: ApiRequest<ApiBody>)
    requires
        request.body is None,
    ensures
        r.method == request.method,
        r.endpoint == request.endpoint,
        r.headers == request.headers,
        r.params == request.params,
        r.body is None,
{
    ApiRequest {
        method: request.method,
        endpoint: request.endpoint,
        headers: request.headers,
        params: request.params,
        body: None,
    }
}

impl ApiCall {
    /// What the call expects as its reply.
    pub open spec fn reply_kind(self) -> ReplyKind {
        match self {
            ApiCall::GetPlaybackState => ReplyKind::PlaybackState,
            ApiCall::Search(_) => ReplyKind::Search,
            ApiCall::GetTopTracks(_) => ReplyKind::TopTracks,
            ApiCall::GetCurrentTrack => ReplyKind::CurrentTrack,
            _ => ReplyKind::NoResponse,
        }
    }

    /// What the call expects as its reply.
    pub fn expects(&self) -> (r: ReplyKind)
        ensures
            r == self.reply_kind(),
    {
        match self {
            ApiCall::GetPlaybackState => ReplyKind::PlaybackState,
            ApiCall::Search(_) => ReplyKind::Search,
            ApiCall::GetTopTracks(_) => ReplyKind::TopTracks,
            ApiCall::GetCurrentTrack => ReplyKind::CurrentTrack,
            _ => ReplyKind::NoResponse,
        }
    }

    /// The description of the call.
    pub fn request(&self) -> (r: ApiRequest<ApiBody>)
        ensures
            is_request_of(r, *self),
    {
        match self {
            ApiCall::GetPlaybackState => without_body(GetPlaybackState.request()),
            ApiCall::Pause => without_body(Pause.request()),
            ApiCall::Resume => without_body(Resume.request()),
            ApiCall::Play(play) => {
                let described = play.request();
                ApiRequest {
                    method: described.method,
                    endpoint: described.endpoint,
                    headers: described.headers,
                    params: described.params,
                    body: match described.body {
                        Some(body) => Some(ApiBody::Play(body)),
                        None => None,
                    },
                }
            },
            ApiCall::GotoNextTrack => without_body(GotoNextTrack.request()),
            ApiCall::GotoPrevTrack => without_body(GotoPrevTrack.request()),
            ApiCall::SetShuffle(shuffle) => without_body(shuffle.request()),
            ApiCall::Search(search) => without_body(search.request()),
            ApiCall::SaveTracks(save) => {
                let described = save.request();
                ApiRequest {
                    method: described.method,
                    endpoint: described.endpoint,
                    headers: described.headers,
                    params: described.params,
                    body: match described.body {
                        Some(body) => Some(ApiBody::SaveTracks(body)),
                        None => None,
                    },
                }
            },
            ApiCall::GetTopTracks(top) => without_body(top.request()),
            ApiCall::GetCurrentTrack => without_body(GetCurrentTrack.request()),
        }
    }
}

impl ReplyKind {
    /// What is left to do with an accepted reply of this kind. Where no
    /// data is expected, a reply without text is done with, and any other
    /// goes to the reader as it is. Where data is expected, the reader gets
    /// the body, or the empty JSON object for a reply without text.
    pub fn reading(self, accepted: Response) -> (r: Extraction<ApiReply>)
        ensures
            match self {
                ReplyKind::NoResponse => if body_is_empty(accepted) {
                    r == Extraction::Done(ApiReply::NoResponse)
                } else {
                    r == Extraction::<ApiReply>::Read(accepted.body->0)
                },
                _ => r matches Extraction::Read(text) && text@ == extraction_text(accepted),
            },
    {
        match self {
            ReplyKind::NoResponse => match NoResponse::extraction(accepted) {
                Extraction::Done(_) => Extraction::Done(ApiReply::NoResponse),
                Extraction::Read(text) => Extraction::Read(text),
            },
            _ => Extraction::Read(extract_text(accepted)),
        }
    }
}

impl Describe for SpotifyError {
    open spec fn text(&self) -> Seq<char> {
        match *self {
            SpotifyError::NoActiveDevice => "There is no actively playing Spotify device"@,
            SpotifyError::UnwantedPlayingState(state) =>
                "Action can't be performed when music is "@ + state.text(),
            SpotifyError::ApiRequestError(cause) => "Theres an error in the API request: "@
                + cause.text(),
            SpotifyError::FailedInitialAuth(cause) => "Failed to initial authentication: "@
                + cause.text(),
        }
    }

    fn to_string(&self) -> (r: String) {
        match self {
            SpotifyError::NoActiveDevice => String::from_str(
                "There is no actively playing Spotify device",
            ),
            SpotifyError::UnwantedPlayingState(state) => labelled(
                "Action can't be performed when music is ",
                state.to_string().as_str(),
            ),
            SpotifyError::ApiRequestError(cause) => labelled(
                "Theres an error in the API request: ",
                cause.to_string().as_str(),
            ),
            SpotifyError::FailedInitialAuth(cause) => labelled(
                "Failed to initial authentication: ",
                cause.to_string().as_str(),
            ),
        }
    }
}

} // verus!
