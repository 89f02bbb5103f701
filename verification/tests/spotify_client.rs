use aerial_utils::api_spec::{NoResponse, OptionalResponse};
use aerial_utils::cache::Cache;
use aerial_utils::describe::Describe;
use aerial_utils::http::{ResponseError, ResponseValidationError};
use aerial_utils::music::{MusicCommands, PlayArgs};
use aerial_utils::spotify_api_spec::{
    Play, PlayingState, ShuffleState, SpotifySearchType, SpotifyTimeRange,
};
use aerial_utils::spotify_auth::{AuthError, InitialAuthError};
use aerial_utils::api_spec::{Extraction, Method};
use aerial_utils::http::Response;
use aerial_utils::spotify_api_spec::{GetTopTracks, SaveTracks, Search, SetShuffle};
use aerial_utils::spotify_client::{
    ApiBody, ApiCall, ApiReply, ClientAction, ClientEvent, ClientOutput, ClientStage, ReplyKind,
    SpotifyClient, SpotifyError,
};
use aerial_utils::spotify_model::{
    CurrentTrack, PlaybackState, SpotifyDevice, SpotifySearchArtistsResults, SpotifySearchResults,
    SpotifySearchTracksResults, SpotifyArtist, SpotifySimplifiedAlbum, SpotifySimplifiedArtist,
    SpotifyTrack, TopTracksResponse,
};
use aerial_utils::time::{TimeSpan, Timestamp};
use aerial_utils::token::Token;

fn playback(is_playing: bool) -> PlaybackState {
    PlaybackState {
        device: SpotifyDevice {
            id: Some("d".to_string()),
            is_active: true,
            name: "Laptop".to_string(),
            device_type: "Computer".to_string(),
        },
        is_playing,
    }
}

fn state_reply(state: Option<bool>) -> ClientEvent {
    ClientEvent::Replied(Ok(ApiReply::PlaybackState(match state {
        Some(p) => OptionalResponse::Present(playback(p)),
        None => OptionalResponse::Absent(NoResponse {}),
    })))
}

fn failed() -> ResponseError {
    ResponseError::InvalidResposne(ResponseValidationError::BadStatusCode(
        404,
        "NO_ACTIVE_DEVICE".to_string(),
    ))
}

fn track(name: &str) -> SpotifyTrack {
    SpotifyTrack {
        name: name.to_string(),
        album: SpotifySimplifiedAlbum {
            name: "Al".to_string(),
            album_type: "album".to_string(),
            total_tracks: 1,
            artists: vec![],
            release_date: "2001".to_string(),
            release_date_precision: "year".to_string(),
            id: "al".to_string(),
        },
        artists: vec![SpotifySimplifiedArtist { name: "Ar".to_string() }],
        id: "t".to_string(),
    }
}

#[test]
fn client_is_made_from_a_token_and_updates_the_cache() {
    let mut cache = Cache::default();
    let token = Token {
        access_token: "A".to_string(),
        token_type: "Bearer".to_string(),
        expires_in: TimeSpan { secs: 1, nanos: 0 },
        time_set: Timestamp { secs: 2, nanos: 0 },
        refresh_token: "R".to_string(),
    };
    let client = SpotifyClient::new(&mut cache, Ok(token)).unwrap();
    assert_eq!(client.api_handler.auth.token().access_token, "A");
    assert_eq!(cache.modules.spotify.unwrap().token.refresh_token, "R");
}

#[test]
fn client_is_not_made_without_a_token() {
    let mut cache = Cache::default();
    let r = SpotifyClient::new(&mut cache, Err(AuthError::NeedsInitialAuth));
    assert!(matches!(r, Err(AuthError::NeedsInitialAuth)));
    assert!(cache.modules.spotify.is_none());
}

#[test]
fn playing_state_of_a_reply() {
    let s = SpotifyClient::get_playing_state(Ok(OptionalResponse::Present(playback(true))));
    assert_eq!(s.unwrap(), Some(PlayingState::Playing));
    let s = SpotifyClient::get_playing_state(Ok(OptionalResponse::Present(playback(false))));
    assert_eq!(s.unwrap(), Some(PlayingState::Paused));
    let s = SpotifyClient::get_playing_state(Ok(OptionalResponse::Absent(NoResponse {})));
    assert_eq!(s.unwrap(), None);
    let s = SpotifyClient::get_playing_state(Err(failed()));
    assert!(matches!(s, Err(SpotifyError::ApiRequestError(_))));
}

#[test]
fn verify_playing_state_cases() {
    assert!(SpotifyClient::verify_playing_state(
        Some(PlayingState::Playing),
        PlayingState::Playing
    )
    .is_ok());
    assert!(matches!(
        SpotifyClient::verify_playing_state(Some(PlayingState::Paused), PlayingState::Playing),
        Err(SpotifyError::UnwantedPlayingState(PlayingState::Paused))
    ));
    assert!(matches!(
        SpotifyClient::verify_playing_state(Some(PlayingState::Playing), PlayingState::Paused),
        Err(SpotifyError::UnwantedPlayingState(PlayingState::Playing))
    ));
    assert!(matches!(
        SpotifyClient::verify_playing_state(None, PlayingState::Playing),
        Err(SpotifyError::NoActiveDevice)
    ));
}

#[test]
fn verify_active_device_cases() {
    assert!(SpotifyClient::verify_active_device(Some(PlayingState::Playing)).is_ok());
    assert!(SpotifyClient::verify_active_device(Some(PlayingState::Paused)).is_ok());
    assert!(matches!(
        SpotifyClient::verify_active_device(None),
        Err(SpotifyError::NoActiveDevice)
    ));
}

#[test]
fn play_prefers_the_context() {
    match SpotifyClient::play(Some("t".to_string()), Some("album:1".to_string())) {
        Some(Play::Context { uri, track }) => {
            assert_eq!(uri, "album:1");
            assert_eq!(track, Some("t".to_string()));
        }
        other => panic!("unexpected {:?}", other),
    }
    match SpotifyClient::play(None, Some("album:1".to_string())) {
        Some(Play::Context { uri, track }) => {
            assert_eq!(uri, "album:1");
            assert_eq!(track, None);
        }
        other => panic!("unexpected {:?}", other),
    }
    match SpotifyClient::play(Some("t".to_string()), None) {
        Some(Play::Track { id }) => assert_eq!(id, "t"),
        other => panic!("unexpected {:?}", other),
    }
    assert!(SpotifyClient::play(None, None).is_none());
}

fn begin(command: &MusicCommands) -> (ClientStage, ClientAction) {
    SpotifyClient::step(command, ClientStage::Start, ClientEvent::Begin)
}

#[test]
fn pause_checks_then_pauses() {
    let command = MusicCommands::Pause;
    let (stage, action) = begin(&command);
    assert_eq!(stage, ClientStage::Checking);
    assert!(matches!(action, ClientAction::Request(ApiCall::GetPlaybackState)));
    let (stage, action) = SpotifyClient::step(&command, stage, state_reply(Some(true)));
    assert_eq!(stage, ClientStage::Acting);
    assert!(matches!(action, ClientAction::Request(ApiCall::Pause)));
    let (stage, action) =
        SpotifyClient::step(&command, stage, ClientEvent::Replied(Ok(ApiReply::NoResponse)));
    assert_eq!(stage, ClientStage::Done);
    assert!(matches!(action, ClientAction::Finish(Ok(ClientOutput::Nothing))));
}

#[test]
fn pause_of_a_paused_player_is_refused() {
    let command = MusicCommands::Pause;
    let (stage, action) =
        SpotifyClient::step(&command, ClientStage::Checking, state_reply(Some(false)));
    assert_eq!(stage, ClientStage::Done);
    assert!(matches!(
        action,
        ClientAction::Finish(Err(SpotifyError::UnwantedPlayingState(PlayingState::Paused)))
    ));
}

#[test]
fn resume_of_a_playing_player_is_refused() {
    let command = MusicCommands::Resume;
    let (stage, action) =
        SpotifyClient::step(&command, ClientStage::Checking, state_reply(Some(true)));
    assert_eq!(stage, ClientStage::Done);
    assert!(matches!(
        action,
        ClientAction::Finish(Err(SpotifyError::UnwantedPlayingState(PlayingState::Playing)))
    ));
    let (stage, action) =
        SpotifyClient::step(&command, ClientStage::Checking, state_reply(Some(false)));
    assert_eq!(stage, ClientStage::Acting);
    assert!(matches!(action, ClientAction::Request(ApiCall::Resume)));
}

#[test]
fn commands_that_need_a_device_fail_without_one() {
    let commands = [
        MusicCommands::Pause,
        MusicCommands::Resume,
        MusicCommands::Next,
        MusicCommands::Prev,
        MusicCommands::CurrTrack,
        MusicCommands::SetShuffle { state: ShuffleState::On },
        MusicCommands::Play(PlayArgs { track: Some("t".to_string()), context: None }),
    ];
    for command in commands {
        let (stage, action) = begin(&command);
        assert_eq!(stage, ClientStage::Checking);
        assert!(matches!(action, ClientAction::Request(ApiCall::GetPlaybackState)));
        let (stage, action) = SpotifyClient::step(&command, stage, state_reply(None));
        assert_eq!(stage, ClientStage::Done);
        assert!(matches!(action, ClientAction::Finish(Err(SpotifyError::NoActiveDevice))));
    }
}

#[test]
fn failed_state_call_fails_the_command() {
    let command = MusicCommands::Next;
    let (stage, action) =
        SpotifyClient::step(&command, ClientStage::Checking, ClientEvent::Replied(Err(failed())));
    assert_eq!(stage, ClientStage::Done);
    match action {
        ClientAction::Finish(Err(SpotifyError::ApiRequestError(
            ResponseError::InvalidResposne(ResponseValidationError::BadStatusCode(404, body)),
        ))) => assert!(body.contains("NO_ACTIVE_DEVICE")),
        other => panic!("unexpected {:?}", other),
    }
}

#[test]
fn next_prev_shuffle_and_current_track_make_their_call_after_the_check() {
    let (_, action) =
        SpotifyClient::step(&MusicCommands::Next, ClientStage::Checking, state_reply(Some(false)));
    assert!(matches!(action, ClientAction::Request(ApiCall::GotoNextTrack)));
    let (_, action) =
        SpotifyClient::step(&MusicCommands::Prev, ClientStage::Checking, state_reply(Some(true)));
    assert!(matches!(action, ClientAction::Request(ApiCall::GotoPrevTrack)));
    let (_, action) = SpotifyClient::step(
        &MusicCommands::SetShuffle { state: ShuffleState::On },
        ClientStage::Checking,
        state_reply(Some(true)),
    );
    assert!(matches!(action, ClientAction::Request(ApiCall::SetShuffle(s)) if s.state));
    let (_, action) = SpotifyClient::step(
        &MusicCommands::SetShuffle { state: ShuffleState::Off },
        ClientStage::Checking,
        state_reply(Some(true)),
    );
    assert!(matches!(action, ClientAction::Request(ApiCall::SetShuffle(s)) if !s.state));
    let (stage, action) = SpotifyClient::step(
        &MusicCommands::CurrTrack,
        ClientStage::Checking,
        state_reply(Some(true)),
    );
    assert_eq!(stage, ClientStage::Acting);
    assert!(matches!(action, ClientAction::Request(ApiCall::GetCurrentTrack)));
}

#[test]
fn play_makes_the_call_for_what_was_given() {
    let command = MusicCommands::Play(PlayArgs {
        track: Some("t".to_string()),
        context: Some("album:1".to_string()),
    });
    let (stage, action) =
        SpotifyClient::step(&command, ClientStage::Checking, state_reply(Some(false)));
    assert_eq!(stage, ClientStage::Acting);
    match action {
        ClientAction::Request(ApiCall::Play(Play::Context { uri, track })) => {
            assert_eq!(uri, "album:1");
            assert_eq!(track, Some("t".to_string()));
        }
        other => panic!("unexpected {:?}", other),
    }
}

#[test]
fn play_without_anything_to_play_ends_with_a_warning() {
    let command = MusicCommands::Play(PlayArgs { track: None, context: None });
    let (stage, action) =
        SpotifyClient::step(&command, ClientStage::Checking, state_reply(Some(true)));
    assert_eq!(stage, ClientStage::Done);
    match action {
        ClientAction::Finish(Ok(ClientOutput::Warn(text))) => assert_eq!(
            text,
            "WARNING: Play called without id or context to play, this is a code problem\n"
        ),
        other => panic!("unexpected {:?}", other),
    }
}

#[test]
fn toggle_pauses_what_plays() {
    let command = MusicCommands::Toggle;
    let (stage, action) = begin(&command);
    assert_eq!(stage, ClientStage::Choosing);
    assert!(matches!(action, ClientAction::Request(ApiCall::GetPlaybackState)));
    let (stage, action) = SpotifyClient::step(&command, stage, state_reply(Some(true)));
    assert_eq!(stage, ClientStage::CheckingToggled(PlayingState::Playing));
    assert!(matches!(action, ClientAction::Request(ApiCall::GetPlaybackState)));
    let (stage, action) = SpotifyClient::step(&command, stage, state_reply(Some(true)));
    assert_eq!(stage, ClientStage::Acting);
    assert!(matches!(action, ClientAction::Request(ApiCall::Pause)));
    let (stage, action) =
        SpotifyClient::step(&command, stage, ClientEvent::Replied(Ok(ApiReply::NoResponse)));
    assert_eq!(stage, ClientStage::Done);
    assert!(matches!(action, ClientAction::Finish(Ok(ClientOutput::Nothing))));
}

#[test]
fn toggle_resumes_what_is_paused() {
    let command = MusicCommands::Toggle;
    let (stage, _) = SpotifyClient::step(&command, ClientStage::Choosing, state_reply(Some(false)));
    assert_eq!(stage, ClientStage::CheckingToggled(PlayingState::Paused));
    let (stage, action) = SpotifyClient::step(&command, stage, state_reply(Some(false)));
    assert_eq!(stage, ClientStage::Acting);
    assert!(matches!(action, ClientAction::Request(ApiCall::Resume)));
}

#[test]
fn toggle_without_a_device_tries_to_resume_and_fails() {
    let command = MusicCommands::Toggle;
    let (stage, _) = SpotifyClient::step(&command, ClientStage::Choosing, state_reply(None));
    assert_eq!(stage, ClientStage::CheckingToggled(PlayingState::Paused));
    let (stage, action) = SpotifyClient::step(&command, stage, state_reply(None));
    assert_eq!(stage, ClientStage::Done);
    assert!(matches!(action, ClientAction::Finish(Err(SpotifyError::NoActiveDevice))));
}

#[test]
fn toggle_fails_when_the_state_changed_in_between() {
    let command = MusicCommands::Toggle;
    let (stage, action) = SpotifyClient::step(
        &command,
        ClientStage::CheckingToggled(PlayingState::Playing),
        state_reply(Some(false)),
    );
    assert_eq!(stage, ClientStage::Done);
    assert!(matches!(
        action,
        ClientAction::Finish(Err(SpotifyError::UnwantedPlayingState(PlayingState::Paused)))
    ));
}

#[test]
fn search_calls_at_once_and_shows_the_kind_asked_for() {
    let command = MusicCommands::Search {
        query: "one more".to_string(),
        search_type: SpotifySearchType::Track,
    };
    let (stage, action) = begin(&command);
    assert_eq!(stage, ClientStage::Acting);
    match action {
        ClientAction::Request(ApiCall::Search(search)) => {
            assert_eq!(search.query, "one more");
            assert_eq!(search.search_type, vec![SpotifySearchType::Track]);
        }
        other => panic!("unexpected {:?}", other),
    }
    let results = SpotifySearchResults {
        tracks: Some(SpotifySearchTracksResults {
            tracks_num: 2,
            items: vec![track("a"), track("b")],
        }),
        albums: None,
        artists: Some(SpotifySearchArtistsResults {
            tracks_num: 1,
            items: vec![SpotifyArtist {
                name: "x".to_string(),
                genres: vec![],
                id: "i".to_string(),
            }],
        }),
        playlists: None,
    };
    let (stage, action) =
        SpotifyClient::step(&command, stage, ClientEvent::Replied(Ok(ApiReply::Search(results))));
    assert_eq!(stage, ClientStage::Done);
    match action {
        ClientAction::Finish(Ok(ClientOutput::Print(text))) => {
            assert_eq!(text, format!("{}\n\n{}", track("a").to_string(), track("b").to_string()))
        }
        other => panic!("unexpected {:?}", other),
    }
}

#[test]
fn search_for_a_kind_that_did_not_come_back_says_so() {
    let results =
        SpotifySearchResults { tracks: None, albums: None, artists: None, playlists: None };
    assert_eq!(
        SpotifyClient::search_results(results, SpotifySearchType::Album),
        "No search results returned"
    );
}

#[test]
fn current_track_text_cases() {
    let with = CurrentTrack { item: Some(track("a")), context: None };
    assert_eq!(SpotifyClient::print_current_track(with), track("a").to_string());
    let without = CurrentTrack { item: None, context: None };
    assert_eq!(
        SpotifyClient::print_current_track(without),
        "There's no track currently playing"
    );
}

#[test]
fn current_track_command_shows_the_track() {
    let command = MusicCommands::CurrTrack;
    let (stage, action) = SpotifyClient::step(
        &command,
        ClientStage::Acting,
        ClientEvent::Replied(Ok(ApiReply::CurrentTrack(CurrentTrack {
            item: None,
            context: None,
        }))),
    );
    assert_eq!(stage, ClientStage::Done);
    assert!(matches!(
        action,
        ClientAction::Finish(Ok(ClientOutput::Print(ref t))) if t == "There's no track currently playing"
    ));
}

#[test]
fn save_and_top_tracks_call_at_once() {
    let command = MusicCommands::Save { ids: vec!["a".to_string(), "b".to_string()] };
    let (stage, action) = begin(&command);
    assert_eq!(stage, ClientStage::Acting);
    match action {
        ClientAction::Request(ApiCall::SaveTracks(save)) => {
            assert_eq!(save.ids, vec!["a".to_string(), "b".to_string()])
        }
        other => panic!("unexpected {:?}", other),
    }
    let command = MusicCommands::TopTracks { time_range: SpotifyTimeRange::Short };
    let (stage, action) = begin(&command);
    assert_eq!(stage, ClientStage::Acting);
    assert!(matches!(
        action,
        ClientAction::Request(ApiCall::GetTopTracks(g)) if g.time_range == SpotifyTimeRange::Short
    ));
    let top = TopTracksResponse {
        items: vec![track("a")],
        total: 1,
        limit: 20,
        offset: 0,
        href: "h".to_string(),
        previous: None,
        next: None,
    };
    let (stage, action) =
        SpotifyClient::step(&command, stage, ClientEvent::Replied(Ok(ApiReply::TopTracks(top))));
    assert_eq!(stage, ClientStage::Done);
    assert!(matches!(
        action,
        ClientAction::Finish(Ok(ClientOutput::Print(ref t))) if *t == track("a").to_string()
    ));
}

#[test]
fn failed_own_call_fails_the_command() {
    let (stage, action) = SpotifyClient::step(
        &MusicCommands::Pause,
        ClientStage::Acting,
        ClientEvent::Replied(Err(failed())),
    );
    assert_eq!(stage, ClientStage::Done);
    assert!(matches!(action, ClientAction::Finish(Err(SpotifyError::ApiRequestError(_)))));
}

#[test]
fn ended_command_stays_ended() {
    let (stage, action) =
        SpotifyClient::step(&MusicCommands::Pause, ClientStage::Done, ClientEvent::Begin);
    assert_eq!(stage, ClientStage::Done);
    assert!(matches!(action, ClientAction::Ignore));
    let (stage, action) =
        SpotifyClient::step(&MusicCommands::Pause, ClientStage::Done, state_reply(Some(true)));
    assert_eq!(stage, ClientStage::Done);
    assert!(matches!(action, ClientAction::Ignore));
}

#[test]
fn replies_of_another_kind_are_ignored() {
    let (stage, action) = SpotifyClient::step(
        &MusicCommands::Pause,
        ClientStage::Checking,
        ClientEvent::Replied(Ok(ApiReply::NoResponse)),
    );
    assert_eq!(stage, ClientStage::Checking);
    assert!(matches!(action, ClientAction::Ignore));
    let (stage, action) = SpotifyClient::step(
        &MusicCommands::CurrTrack,
        ClientStage::Acting,
        ClientEvent::Replied(Ok(ApiReply::NoResponse)),
    );
    assert_eq!(stage, ClientStage::Acting);
    assert!(matches!(action, ClientAction::Ignore));
}

#[test]
fn authentication_is_no_command_for_the_client() {
    for command in [MusicCommands::Auth, MusicCommands::Unauth] {
        let (stage, action) = begin(&command);
        assert_eq!(stage, ClientStage::Start);
        assert!(matches!(action, ClientAction::Ignore));
    }
}

#[test]
fn spotify_error_texts() {
    assert_eq!(
        SpotifyError::NoActiveDevice.to_string(),
        "There is no actively playing Spotify device"
    );
    assert_eq!(
        SpotifyError::UnwantedPlayingState(PlayingState::Paused).to_string(),
        "Action can't be performed when music is paused"
    );
    assert_eq!(
        SpotifyError::ApiRequestError(failed()).to_string(),
        "Theres an error in the API request: Got an invalid resposne: Got a bad status code 404, body:\nNO_ACTIVE_DEVICE"
    );
    assert_eq!(
        SpotifyError::FailedInitialAuth(InitialAuthError::FailedToOpenAuthWindow(
            "x".to_string()
        ))
        .to_string(),
        "Failed to initial authentication: Failed to open the Spotify authorization window: x"
    );
}

fn pairs(items: &[(&str, &str)]) -> Vec<(String, String)> {
    items.iter().map(|(k, v)| (k.to_string(), v.to_string())).collect()
}

#[test]
fn calls_without_body_or_params_are_described() {
    let cases = [
        (ApiCall::GetPlaybackState, Method::Get, "me/player", ReplyKind::PlaybackState),
        (ApiCall::Pause, Method::Put, "me/player/pause", ReplyKind::NoResponse),
        (ApiCall::Resume, Method::Put, "me/player/play", ReplyKind::NoResponse),
        (ApiCall::GotoNextTrack, Method::Post, "me/player/next", ReplyKind::NoResponse),
        (ApiCall::GotoPrevTrack, Method::Post, "me/player/previous", ReplyKind::NoResponse),
        (
            ApiCall::GetCurrentTrack,
            Method::Get,
            "me/player/currently-playing",
            ReplyKind::CurrentTrack,
        ),
    ];
    for (call, method, endpoint, kind) in cases {
        let request = call.request();
        assert_eq!(request.method, method);
        assert_eq!(request.endpoint, endpoint);
        assert!(request.headers.is_none());
        assert!(request.params.is_none());
        assert!(request.body.is_none());
        assert_eq!(call.expects(), kind);
    }
}

#[test]
fn calls_with_params_are_described() {
    let call = ApiCall::SetShuffle(SetShuffle { state: true });
    assert_eq!(call.request().params.unwrap().to_pairs(), pairs(&[("state", "true")]));
    assert_eq!(call.request().endpoint, "me/player/shuffle");
    assert_eq!(call.expects(), ReplyKind::NoResponse);
    let call = ApiCall::Search(Search {
        query: "abba".to_string(),
        search_type: vec![SpotifySearchType::Artist],
    });
    let request = call.request();
    assert_eq!(request.method, Method::Get);
    assert_eq!(request.endpoint, "search");
    assert_eq!(request.params.unwrap().to_pairs(), pairs(&[("q", "abba"), ("type", "artist")]));
    assert!(request.body.is_none());
    assert_eq!(call.expects(), ReplyKind::Search);
    let call = ApiCall::GetTopTracks(GetTopTracks { time_range: SpotifyTimeRange::Medium });
    assert_eq!(call.request().params.unwrap().to_pairs(), pairs(&[("time_range", "medium_term")]));
    assert_eq!(call.request().endpoint, "me/top/tracks");
    assert_eq!(call.expects(), ReplyKind::TopTracks);
}

#[test]
fn calls_with_a_body_are_described() {
    let call = ApiCall::Play(Play::Track { id: "t".to_string() });
    let request = call.request();
    assert_eq!(request.method, Method::Put);
    assert_eq!(request.endpoint, "me/player/play");
    assert!(request.params.is_none());
    match request.body {
        Some(ApiBody::Play(body)) => {
            assert_eq!(body.uris, Some(vec!["spotify:track:t".to_string()]))
        }
        other => panic!("unexpected {:?}", other),
    }
    assert_eq!(call.expects(), ReplyKind::NoResponse);
    let call = ApiCall::SaveTracks(SaveTracks { ids: vec!["a".to_string()] });
    let request = call.request();
    assert_eq!(request.endpoint, "me/tracks");
    match request.body {
        Some(ApiBody::SaveTracks(body)) => assert_eq!(body.ids, vec!["a".to_string()]),
        other => panic!("unexpected {:?}", other),
    }
    assert_eq!(call.expects(), ReplyKind::NoResponse);
}

#[test]
fn reading_of_an_empty_reply_where_nothing_is_expected_is_done() {
    let r = ReplyKind::NoResponse.reading(Response { status: 204, body: None });
    assert!(matches!(r, Extraction::Done(ApiReply::NoResponse)));
    let r = ReplyKind::NoResponse.reading(Response { status: 200, body: Some(String::new()) });
    assert!(matches!(r, Extraction::Done(ApiReply::NoResponse)));
    let r = ReplyKind::NoResponse.reading(Response { status: 200, body: Some("{}".to_string()) });
    assert!(matches!(r, Extraction::Read(ref t) if t == "{}"));
}

#[test]
fn reading_where_data_is_expected_goes_to_the_reader() {
    for kind in [
        ReplyKind::PlaybackState,
        ReplyKind::Search,
        ReplyKind::TopTracks,
        ReplyKind::CurrentTrack,
    ] {
        let r = kind.reading(Response { status: 200, body: Some("{\"a\":1}".to_string()) });
        assert!(matches!(r, Extraction::Read(ref t) if t == "{\"a\":1}"));
        let r = kind.reading(Response { status: 204, body: None });
        assert!(matches!(r, Extraction::Read(ref t) if t == "{}"));
        let r = kind.reading(Response { status: 200, body: Some(String::new()) });
        assert!(matches!(r, Extraction::Read(ref t) if t == "{}"));
    }
}
