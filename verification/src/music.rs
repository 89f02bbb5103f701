//! The music module: what the user can ask for, and how a request is
//! routed.

use vstd::prelude::*;
use vstd::string::StringExecFns;
use crate::cache::Cache;
use crate::config::{Config, SpotifyConfig};
use crate::describe::Describe;
use crate::music_client::MusicClient;
use crate::spotify_api_spec::{ShuffleState, SpotifySearchType, SpotifyTimeRange};
use crate::spotify_auth::{AuthError, InitialAuthError, SpotifyAuthClient};
use crate::spotify_client::{SpotifyClient, SpotifyError};
use crate::text::labelled;
use crate::token::Token;

verus! {

/// The arguments of the music module.
#[derive(Debug)]
pub struct MusicArgs {
    pub command: MusicCommands,
}

/// What the user can ask of the music module.
#[derive(Debug)]
pub enum MusicCommands {
    /// Pause the music if it's playing, resume it if it's paused.
    Toggle,
    /// Pause the currently playing track.
    Pause,
    /// Resume the currently playing track.
    Resume,
    /// Play a track or a context.
    Play(PlayArgs),
    /// Go to the next track.
    Next,
    /// Go to the previous track.
    Prev,
    /// Show what the catalogue holds for a query.
    Search { query: String, search_type: SpotifySearchType },
    /// Turn shuffling on or off.
    SetShuffle { state: ShuffleState },
    /// Add tracks to the user's saved tracks.
    Save { ids: Vec<String> },
    /// Show the user's top tracks.
    TopTracks { time_range: SpotifyTimeRange },
    /// Show the current track.
    CurrTrack,
    /// Authenticate at the provider.
    Auth,
    /// Forget the authentication.
    Unauth,
}

/// What to play: a track, a context, or a context starting at a track.
#[derive(Debug)]
pub struct PlayArgs {
    pub track: Option<String>,
    pub context: Option<String>,
}

/// Why a request to the music module failed.
#[derive(Debug)]
pub enum MusicError {
    /// The configuration holds no credentials for the provider.
    MissingConfig,
    /// The command could not be carried out.
    FailedAction(SpotifyError),
    /// No usable token could be had.
    FailedAuth(AuthError),
}

/// The music module.
#[derive(Clone, Copy, Debug)]
pub struct Music {}

/// The way that a request to the music module takes.
#[derive(Debug)]
pub enum MusicRoute {
    /// The authorization-code grant. No client is made.
    Authenticate,
    /// The kept token is forgotten. The provider is not contacted.
    Forget,
    /// A client is made from the kept token and given the command.
    Command(MusicCommands),
}

impl Describe for Music {
    open spec fn text(&self) -> Seq<char> {
        "Music"@
    }

    fn to_string(&self) -> (r: String) {
        String::from_str("Music")
    }
}

impl Music {
    /// The credentials and the way of a request. Without credentials in
    /// the configuration the request fails before anything else is looked
    /// at.
    pub fn route(args: MusicArgs, config: &Config) -> (r: Result<
        (&SpotifyConfig, MusicRoute),
        MusicError,
    >)
        ensures
            match config.modules.spotify {
                None => r == Err::<(&SpotifyConfig, MusicRoute), MusicError>(
                    MusicError::MissingConfig,
                ),
                Some(credentials) => r matches Ok(way) && *way.0 == credentials && way.1 == (
                match args.command {
                    MusicCommands::Auth => MusicRoute::Authenticate,
                    MusicCommands::Unauth => MusicRoute::Forget,
                    command => MusicRoute::Command(command),
                }),
            },
            r matches Ok(way) ==> (way.1 matches MusicRoute::Command(command)
                ==> Self::is_for_client(command)),
    {
        match &config.modules.spotify {
            None => Err(MusicError::MissingConfig),
            Some(credentials) => Ok(
                (
                    credentials,
                    match args.command {
                        MusicCommands::Auth => MusicRoute::Authenticate,
                        MusicCommands::Unauth => MusicRoute::Forget,
                        command => MusicRoute::Command(command),
                    },
                ),
            ),
        }
    }

    /// The client for an authenticated user, and the cache updated. A
    /// failed authentication is a failure of the request, and leaves the
    /// cache as it was.
    pub fn generate_client(cache: &mut Cache, authed: Result<Token, AuthError>) -> (r: Result<
        SpotifyClient,
        MusicError,
    >)
        ensures
            match authed {
                Ok(token) => {
                    &&& r matches Ok(client)
                    &&& client.api_handler.auth@ == token
                    &&& final(cache).token() == Some(token)
                },
                Err(e) => r == Err::<SpotifyClient, MusicError>(MusicError::FailedAuth(e))
                    && *final(cache) == *old(cache),
            },
    {
        match SpotifyClient::new(cache, authed) {
            Ok(client) => Ok(client),
            Err(e) => Err(MusicError::FailedAuth(e)),
        }
    }

    /// Keeps the token that the authorization-code grant gave. A failed
    /// grant is a failed action, and leaves the cache as it was.
    pub fn authenticate(cache: &mut Cache, granted: Result<Token, InitialAuthError>) -> (r: Result<
        (),
        MusicError,
    >)
        ensures
            match granted {
                Ok(token) => r is Ok && final(cache).token() == Some(token),
                Err(e) => r == Err::<(), MusicError>(
                    MusicError::FailedAction(SpotifyError::FailedInitialAuth(e)),
                ) && *final(cache) == *old(cache),
            },
    {
        match SpotifyAuthClient::add_auth_to_cache(cache, granted) {
            Ok(_) => Ok(()),
            Err(e) => Err(MusicError::FailedAction(SpotifyError::FailedInitialAuth(e))),
        }
    }

    /// Whether the command is one that a client carries out.
    pub open spec fn is_for_client(command: MusicCommands) -> bool {
        !(command is Auth) && !(command is Unauth)
    }

    /// What a command amounts to for the client `music_client`: each
    /// command stands for one method of the client, called with the
    /// command's own arguments, and `done` is a report of that call.
    pub open spec fn is_report_of<C: MusicClient<Error = SpotifyError>>(
        done: Result<(), SpotifyError>,
        command: MusicCommands,
        music_client: &C,
    ) -> bool {
        match command {
            MusicCommands::Toggle => call_ensures(C::toggle, (music_client,), done),
            MusicCommands::Pause => call_ensures(C::pause, (music_client,), done),
            MusicCommands::Resume => call_ensures(C::resume, (music_client,), done),
            MusicCommands::Play(args) => call_ensures(
                C::play,
                (music_client, args.track, args.context),
                done,
            ),
            MusicCommands::Next => call_ensures(C::goto_next_track, (music_client,), done),
            MusicCommands::Prev => call_ensures(C::goto_prev_track, (music_client,), done),
            MusicCommands::SetShuffle { state } => call_ensures(
                C::set_shuffle_state,
                (music_client, &state),
                done,
            ),
            MusicCommands::Save { ids } => call_ensures(C::save_tracks, (music_client, ids), done),
            MusicCommands::TopTracks { time_range } => call_ensures(
                C::get_top_tracks,
                (music_client, time_range),
                done,
            ),
            MusicCommands::Search { query, search_type } => call_ensures(
                C::search,
                (music_client, query, search_type),
                done,
            ),
            MusicCommands::CurrTrack => call_ensures(
                C::print_current_track,
                (music_client,),
                done,
            ),
            MusicCommands::Auth => false,
            MusicCommands::Unauth => false,
        }
    }

    /// Gives the command to the client: each command goes to the one method
    /// of the client that stands for it, and what the method reports is the
    /// outcome, a failure as a failed action.
    pub fn run<C: MusicClient<Error = SpotifyError>>(command: MusicCommands, music_client: &C) -> (r:
        Result<(), MusicError>)
        requires
            Self::is_for_client(command),
        ensures
            match r {
                Ok(_) => Self::is_report_of(Ok(()), command, music_client),
                Err(e) => e matches MusicError::FailedAction(cause) && Self::is_report_of(
                    Err(cause),
                    command,
                    music_client,
                ),
            },
    {
        let done = match command {
            MusicCommands::Toggle => music_client.toggle(),
            MusicCommands::Pause => music_client.pause(),
            MusicCommands::Resume => music_client.resume(),
            MusicCommands::Play(args) => music_client.play(args.track, args.context),
            MusicCommands::Next => music_client.goto_next_track(),
            MusicCommands::Prev => music_client.goto_prev_track(),
            MusicCommands::SetShuffle { state } => music_client.set_shuffle_state(&state),
            MusicCommands::Save { ids } => music_client.save_tracks(ids),
            MusicCommands::TopTracks { time_range } => music_client.get_top_tracks(time_range),
            MusicCommands::Search { query, search_type } => music_client.search(query, search_type),
            MusicCommands::CurrTrack => music_client.print_current_track(),
            MusicCommands::Auth => Ok(()),
            MusicCommands::Unauth => Ok(()),
        };
        match done {
            Ok(unit) => {
                assert(done == Ok::<(), SpotifyError>(()));
                Ok(())
            },
            Err(e) => Err(MusicError::FailedAction(e)),
        }
    }
}

impl Describe for MusicError {
    open spec fn text(&self) -> Seq<char> {
        match *self {
            MusicError::MissingConfig => "No configuration for Spotify found in the config file"@,
            MusicError::FailedAction(cause) => "Failed to perform action: "@ + cause.text(),
            MusicError::FailedAuth(cause) => "Failed to authenticate to API: "@ + cause.text(),
        }
    }

    fn to_string(&self) -> (r: String) {
        match self {
            MusicError::MissingConfig => String::from_str(
                "No configuration for Spotify found in the config file",
            ),
            MusicError::FailedAction(cause) => labelled(
                "Failed to perform action: ",
                cause.to_string().as_str(),
            ),
            MusicError::FailedAuth(cause) => labelled(
                "Failed to authenticate to API: ",
                cause.to_string().as_str(),
            ),
        }
    }
}

} // verus!
