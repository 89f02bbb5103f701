use aerial_utils::api_spec::Method;
use aerial_utils::cache::{Cache, ModulesCache, SpotifyCache};
use aerial_utils::describe::Describe;
use aerial_utils::http::{
    Response, ResponseError, ResponseExtractionError, ResponseValidationError,
};
use aerial_utils::params::Params;
use aerial_utils::server::{Request, RequestFromStringError, TcpServerError};
use aerial_utils::spotify_auth::{
    authorize_url, basic_authorization, check_credentials, form_request, get_code_from_callback,
    open_auth_window, redirect_uri, refresh_request, token_request, AuthError, CachedAuth,
    GrantAction, GrantEvent, GrantStage, InitialAuthError, RefreshAction, RefreshEvent,
    RefreshStage, SpotifyAuthClient, REDIRECT_PORT,
};
use aerial_utils::time::{TimeSpan, Timestamp};
use aerial_utils::token::{RefreshTokenFromApi, Token, TokenFromApi};

fn pairs(items: &[(&str, &str)]) -> Vec<(String, String)> {
    items.iter().map(|(k, v)| (k.to_string(), v.to_string())).collect()
}

fn token(issued: u64, lifetime: u64) -> Token {
    Token {
        access_token: "ACCESS".to_string(),
        token_type: "Bearer".to_string(),
        expires_in: TimeSpan { secs: lifetime, nanos: 0 },
        time_set: Timestamp { secs: issued, nanos: 0 },
        refresh_token: "R1".to_string(),
    }
}

fn cache_with(t: Token) -> Cache {
    Cache { modules: ModulesCache { spotify: Some(SpotifyCache { token: t }) } }
}

fn at(secs: u64) -> Timestamp {
    Timestamp { secs, nanos: 0 }
}

fn callback(line: &str) -> Result<Request, TcpServerError> {
    Request::try_from(vec![line.to_string()]).map_err(TcpServerError::FailedToParseRequest)
}

#[test]
fn redirect_uri_is_local_callback_on_the_port() {
    assert_eq!(redirect_uri(8888), "http://localhost:8888/callback");
    assert_eq!(redirect_uri(0), "http://localhost:0/callback");
    assert_eq!(redirect_uri(u16::MAX), "http://localhost:65535/callback");
    assert_eq!(REDIRECT_PORT, 8888);
}

#[test]
fn authorize_url_is_the_consent_page_with_its_query() {
    assert_eq!(
        authorize_url("my-client").unwrap(),
        "https://accounts.spotify.com/authorize?response_type=code&client_id=my-client&redirect_uri=http%3A%2F%2Flocalhost%3A8888%2Fcallback&scope=user-read-playback-state+user-modify-playback-state+user-library-modify"
    );
}

#[test]
fn authorize_url_holds_each_parameter_exactly_once() {
    for client_id in ["abc", "", "scope=1&client_id=2", "a b/c?d#e", "ключ"] {
        let url = url::Url::parse(&authorize_url(client_id).unwrap()).unwrap();
        let found: Vec<(String, String)> = url.query_pairs().into_owned().collect();
        for name in ["response_type", "client_id", "redirect_uri", "scope"] {
            assert_eq!(found.iter().filter(|(k, _)| k == name).count(), 1, "{}", name);
        }
        assert_eq!(found.len(), 4);
        assert_eq!(found[0], ("response_type".to_string(), "code".to_string()));
        assert_eq!(found[1], ("client_id".to_string(), client_id.to_string()));
        assert_eq!(
            found[2],
            ("redirect_uri".to_string(), "http://localhost:8888/callback".to_string())
        );
        assert_eq!(
            found[3],
            (
                "scope".to_string(),
                "user-read-playback-state user-modify-playback-state user-library-modify"
                    .to_string()
            )
        );
        assert_eq!(url.path(), "/authorize");
        assert_eq!(url.host_str(), Some("accounts.spotify.com"));
    }
}

#[test]
fn open_auth_window_maps_the_launch() {
    assert!(open_auth_window(Ok(())).is_ok());
    match open_auth_window(Err("no browser".to_string())) {
        Err(InitialAuthError::FailedToOpenAuthWindow(m)) => assert_eq!(m, "no browser"),
        other => panic!("unexpected {:?}", other),
    }
}

#[test]
fn code_is_taken_from_the_callback() {
    let code =
        get_code_from_callback(callback("GET /callback?code=ABC123&state=xyz HTTP/1.1")).unwrap();
    assert_eq!(code, "ABC123");
}

#[test]
fn callback_without_code_fails_with_the_params_attached() {
    match get_code_from_callback(callback("GET /callback?error=access_denied HTTP/1.1")) {
        Err(InitialAuthError::CodeNotFoundInRedirect(params)) => {
            assert_eq!(params.to_pairs(), pairs(&[("error", "access_denied")]));
            assert_eq!(params.len(), 1);
            assert_eq!(params.get("error"), Some(&"access_denied".to_string()));
        }
        other => panic!("unexpected {:?}", other),
    }
}

#[test]
fn callback_without_any_params_fails_with_an_empty_map() {
    match get_code_from_callback(callback("GET /callback HTTP/1.1")) {
        Err(InitialAuthError::CodeNotFoundInRedirect(params)) => assert_eq!(params.len(), 0),
        other => panic!("unexpected {:?}", other),
    }
}

#[test]
fn failed_receiver_is_a_failure_to_read_the_redirect() {
    match get_code_from_callback(Err(TcpServerError::FailedToGetStream("x".to_string()))) {
        Err(InitialAuthError::FailedToReadRedirect(TcpServerError::FailedToGetStream(m))) => {
            assert_eq!(m, "x")
        }
        other => panic!("unexpected {:?}", other),
    }
    match get_code_from_callback(callback("nonsense")) {
        Err(InitialAuthError::FailedToReadRedirect(TcpServerError::FailedToParseRequest(
            RequestFromStringError::StringIsEmpty,
        ))) => {}
        other => panic!("unexpected {:?}", other),
    }
}

#[test]
fn basic_authorization_puts_the_scheme_in_front() {
    assert_eq!(basic_authorization("aWQ6c2VjcmV0"), "Basic aWQ6c2VjcmV0");
    assert_eq!(basic_authorization(""), "Basic ");
}

#[test]
fn credentials_of_ordinary_length_fit() {
    assert!(check_credentials("id", "secret"));
    assert!(check_credentials("", ""));
}

#[test]
fn form_request_is_a_post_to_the_token_endpoint() {
    let r = form_request("Basic xyz".to_string(), "a=b".to_string());
    assert_eq!(r.method, Method::Post);
    assert_eq!(r.url, "https://accounts.spotify.com/api/token");
    assert_eq!(
        r.headers,
        pairs(&[
            ("Authorization", "Basic xyz"),
            ("Content-Type", "application/x-www-form-urlencoded")
        ])
    );
    assert_eq!(r.body, Some("a=b".to_string()));
}

#[test]
fn token_request_carries_code_credentials_and_redirect() {
    let r = token_request("ABC123", "id", "secret");
    assert_eq!(r.method, Method::Post);
    assert_eq!(r.url, "https://accounts.spotify.com/api/token");
    assert_eq!(
        r.headers,
        pairs(&[
            ("Authorization", "Basic aWQ6c2VjcmV0"),
            ("Content-Type", "application/x-www-form-urlencoded")
        ])
    );
    assert_eq!(
        r.body,
        Some(
            "grant_type=authorization_code&code=ABC123&redirect_uri=http%3A%2F%2Flocalhost%3A8888%2Fcallback"
                .to_string()
        )
    );
}

#[test]
fn token_request_encodes_what_needs_it() {
    let r = token_request("a b&c=d", "Aladdin", "open sesame");
    assert_eq!(r.headers[0].1, "Basic QWxhZGRpbjpvcGVuIHNlc2FtZQ==");
    assert_eq!(
        r.body,
        Some(
            "grant_type=authorization_code&code=a+b%26c%3Dd&redirect_uri=http%3A%2F%2Flocalhost%3A8888%2Fcallback"
                .to_string()
        )
    );
}

#[test]
fn refresh_request_carries_the_old_refresh_token() {
    let r = refresh_request(&token(0, 1), "id", "secret");
    assert_eq!(r.method, Method::Post);
    assert_eq!(r.url, "https://accounts.spotify.com/api/token");
    assert_eq!(r.headers[0], ("Authorization".to_string(), "Basic aWQ6c2VjcmV0".to_string()));
    assert_eq!(r.body, Some("grant_type=refresh_token&refresh_token=R1".to_string()));
}

#[test]
fn absent_cache_needs_initial_auth() {
    let cache = Cache::default();
    assert!(matches!(SpotifyAuthClient::auth(&cache, at(5)), Err(AuthError::NeedsInitialAuth)));
    assert!(SpotifyAuthClient::get_token_from_cache(&cache).is_none());
}

#[test]
fn absent_cache_gives_no_client_and_stays_absent() {
    let mut cache = Cache::default();
    let authed = SpotifyAuthClient::auth(&cache, at(5)).map(|_| token(0, 1));
    let r = SpotifyAuthClient::new(&mut cache, authed);
    assert!(matches!(r, Err(AuthError::NeedsInitialAuth)));
    assert!(cache.modules.spotify.is_none());
}

#[test]
fn valid_cached_token_is_used_as_it_is() {
    let cache = cache_with(token(1_000, 3_600));
    match SpotifyAuthClient::auth(&cache, at(4_599)).unwrap() {
        CachedAuth::Valid(t) => {
            assert_eq!(t.access_token, "ACCESS");
            assert_eq!(t.refresh_token, "R1");
            assert_eq!(t.time_set, at(1_000));
        }
        other => panic!("unexpected {:?}", other),
    }
}

#[test]
fn expired_cached_token_needs_refresh() {
    let cache = cache_with(token(1_000, 3_600));
    match SpotifyAuthClient::auth(&cache, at(4_600)).unwrap() {
        CachedAuth::Expired(t) => assert_eq!(t.refresh_token, "R1"),
        other => panic!("unexpected {:?}", other),
    }
}

#[test]
fn new_client_overwrites_the_cache_entry() {
    let mut cache = cache_with(token(1_000, 3_600));
    let mut fresh = token(5_000, 3_600);
    fresh.access_token = "NEW".to_string();
    let client = SpotifyAuthClient::new(&mut cache, Ok(fresh)).unwrap();
    assert_eq!(client.token().access_token, "NEW");
    let kept = &cache.modules.spotify.as_ref().unwrap().token;
    assert_eq!(kept.access_token, "NEW");
    assert_eq!(kept.time_set, at(5_000));
}

#[test]
fn failed_auth_leaves_the_cache_as_it_was() {
    let mut cache = cache_with(token(1_000, 3_600));
    let failure = AuthError::FailedTokenRefresh(ResponseError::InvalidResposne(
        ResponseValidationError::BadStatusCode(400, "invalid_grant".to_string()),
    ));
    let r = SpotifyAuthClient::new(&mut cache, Err(failure));
    match r {
        Err(AuthError::FailedTokenRefresh(ResponseError::InvalidResposne(
            ResponseValidationError::BadStatusCode(400, body),
        ))) => assert_eq!(body, "invalid_grant"),
        other => panic!("unexpected {:?}", other),
    }
    assert_eq!(cache.modules.spotify.as_ref().unwrap().token.access_token, "ACCESS");
}

#[test]
fn unauth_clears_the_cache_entry() {
    let mut cache = cache_with(token(1_000, 3_600));
    SpotifyAuthClient::remove_auth_from_cache(&mut cache);
    assert!(cache.modules.spotify.is_none());
    SpotifyAuthClient::remove_auth_from_cache(&mut cache);
    assert!(cache.modules.spotify.is_none());
}

#[test]
fn granted_token_is_kept() {
    let mut cache = Cache::default();
    assert!(SpotifyAuthClient::add_auth_to_cache(&mut cache, Ok(token(7, 8))).is_ok());
    assert_eq!(cache.modules.spotify.as_ref().unwrap().token.time_set, at(7));
}

#[test]
fn failed_grant_keeps_the_cache_as_it_was() {
    let mut cache = cache_with(token(1_000, 3_600));
    let r = SpotifyAuthClient::add_auth_to_cache(
        &mut cache,
        Err(InitialAuthError::FailedToOpenAuthWindow("x".to_string())),
    );
    assert!(matches!(r, Err(InitialAuthError::FailedToOpenAuthWindow(_))));
    assert_eq!(cache.modules.spotify.as_ref().unwrap().token.access_token, "ACCESS");
}

fn grant(stage: GrantStage, event: GrantEvent) -> (GrantStage, GrantAction) {
    assert!(check_credentials("id", "secret"));
    SpotifyAuthClient::initial_auth(stage, event, "id", "secret")
}

#[test]
fn grant_runs_through_its_stages() {
    let (stage, action) = grant(GrantStage::Start, GrantEvent::Begin);
    assert_eq!(stage, GrantStage::AwaitingBrowser);
    match action {
        GrantAction::OpenBrowser(url) => assert_eq!(url, authorize_url("id").unwrap()),
        other => panic!("unexpected {:?}", other),
    }
    let (stage, action) = grant(stage, GrantEvent::BrowserOpened(Ok(())));
    assert_eq!(stage, GrantStage::AwaitingRedirect);
    assert!(matches!(action, GrantAction::Listen(8888)));
    let (stage, action) =
        grant(stage, GrantEvent::Redirect(callback("GET /callback?code=ABC123 HTTP/1.1")));
    assert_eq!(stage, GrantStage::AwaitingReply);
    match action {
        GrantAction::Send(request) => {
            assert_eq!(request.url, "https://accounts.spotify.com/api/token");
            assert_eq!(
                request.body,
                Some(
                    "grant_type=authorization_code&code=ABC123&redirect_uri=http%3A%2F%2Flocalhost%3A8888%2Fcallback"
                        .to_string()
                )
            );
            assert_eq!(request.headers[0].1, "Basic aWQ6c2VjcmV0");
        }
        other => panic!("unexpected {:?}", other),
    }
    let body = "{\"access_token\":\"A\",\"token_type\":\"Bearer\",\"expires_in\":3600,\"refresh_token\":\"R\"}";
    let (stage, action) = grant(
        stage,
        GrantEvent::Reply(Ok(Response { status: 200, body: Some(body.to_string()) })),
    );
    assert_eq!(stage, GrantStage::AwaitingToken);
    match action {
        GrantAction::ReadToken(text) => assert_eq!(text, body),
        other => panic!("unexpected {:?}", other),
    }
    let answer = TokenFromApi {
        access_token: "A".to_string(),
        token_type: "Bearer".to_string(),
        expires_in: 3600,
        refresh_token: "R".to_string(),
    };
    let (stage, action) = grant(stage, GrantEvent::TokenRead(Ok(answer), at(99)));
    assert_eq!(stage, GrantStage::Done);
    match action {
        GrantAction::Finish(Ok(t)) => {
            assert_eq!(t.access_token, "A");
            assert_eq!(t.token_type, "Bearer");
            assert_eq!(t.expires_in, TimeSpan { secs: 3600, nanos: 0 });
            assert_eq!(t.time_set, at(99));
            assert_eq!(t.refresh_token, "R");
        }
        other => panic!("unexpected {:?}", other),
    }
}

#[test]
fn grant_fails_at_the_browser() {
    let (stage, action) =
        grant(GrantStage::AwaitingBrowser, GrantEvent::BrowserOpened(Err("none".to_string())));
    assert_eq!(stage, GrantStage::Done);
    assert!(matches!(
        action,
        GrantAction::Finish(Err(InitialAuthError::FailedToOpenAuthWindow(_)))
    ));
}

#[test]
fn grant_fails_at_a_redirect_without_code() {
    let (stage, action) = grant(
        GrantStage::AwaitingRedirect,
        GrantEvent::Redirect(callback("GET /callback?error=access_denied HTTP/1.1")),
    );
    assert_eq!(stage, GrantStage::Done);
    match action {
        GrantAction::Finish(Err(InitialAuthError::CodeNotFoundInRedirect(params))) => {
            assert_eq!(params.to_pairs(), pairs(&[("error", "access_denied")]))
        }
        other => panic!("unexpected {:?}", other),
    }
}

#[test]
fn grant_fails_at_a_failed_receiver() {
    let (stage, action) = grant(
        GrantStage::AwaitingRedirect,
        GrantEvent::Redirect(Err(TcpServerError::FailedToCreateTcpListener("in use".to_string()))),
    );
    assert_eq!(stage, GrantStage::Done);
    assert!(matches!(
        action,
        GrantAction::Finish(Err(InitialAuthError::FailedToReadRedirect(
            TcpServerError::FailedToCreateTcpListener(_)
        )))
    ));
}

#[test]
fn grant_fails_at_a_refusing_token_endpoint() {
    let (stage, action) = grant(
        GrantStage::AwaitingReply,
        GrantEvent::Reply(Ok(Response { status: 400, body: Some("bad code".to_string()) })),
    );
    assert_eq!(stage, GrantStage::Done);
    match action {
        GrantAction::Finish(Err(InitialAuthError::FailedToGetToken(
            ResponseError::InvalidResposne(ResponseValidationError::BadStatusCode(400, body)),
        ))) => assert_eq!(body, "bad code"),
        other => panic!("unexpected {:?}", other),
    }
    let (stage, action) =
        grant(GrantStage::AwaitingReply, GrantEvent::Reply(Err("offline".to_string())));
    assert_eq!(stage, GrantStage::Done);
    assert!(matches!(
        action,
        GrantAction::Finish(Err(InitialAuthError::FailedToGetToken(
            ResponseError::InvalidResposne(ResponseValidationError::FailedToSendRequest(_))
        )))
    ));
}

#[test]
fn grant_fails_at_an_unreadable_answer() {
    let (stage, action) = grant(
        GrantStage::AwaitingToken,
        GrantEvent::TokenRead(Err("missing field `access_token`".to_string()), at(1)),
    );
    assert_eq!(stage, GrantStage::Done);
    match action {
        GrantAction::Finish(Err(InitialAuthError::FailedToGetToken(
            ResponseError::InvalidExtraction(ResponseExtractionError::FailedToExtractFromJSON(
                m,
            )),
        ))) => assert_eq!(m, "missing field `access_token`"),
        other => panic!("unexpected {:?}", other),
    }
}

#[test]
fn grant_ignores_events_out_of_place() {
    let (stage, action) = grant(GrantStage::Start, GrantEvent::BrowserOpened(Ok(())));
    assert_eq!(stage, GrantStage::Start);
    assert!(matches!(action, GrantAction::Ignore));
    let (stage, action) = grant(GrantStage::Done, GrantEvent::Begin);
    assert_eq!(stage, GrantStage::Done);
    assert!(matches!(action, GrantAction::Ignore));
    let (stage, action) = grant(GrantStage::AwaitingReply, GrantEvent::Begin);
    assert_eq!(stage, GrantStage::AwaitingReply);
    assert!(matches!(action, GrantAction::Ignore));
}

fn refresh(stage: RefreshStage, event: RefreshEvent, prev: &Token) -> (RefreshStage, RefreshAction) {
    assert!(check_credentials("id", "secret"));
    SpotifyAuthClient::refresh_token(stage, event, prev, "id", "secret")
}

#[test]
fn refresh_round_trip_carries_the_refresh_token_forward() {
    let old = token(1_000, 3_600);
    let (stage, action) = refresh(RefreshStage::Start, RefreshEvent::Begin, &old);
    assert_eq!(stage, RefreshStage::AwaitingReply);
    match action {
        RefreshAction::Send(request) => {
            assert_eq!(request.body, Some("grant_type=refresh_token&refresh_token=R1".to_string()))
        }
        other => panic!("unexpected {:?}", other),
    }
    let body = "{\"access_token\":\"A2\",\"token_type\":\"Bearer\",\"expires_in\":1800}";
    let (stage, action) = refresh(
        stage,
        RefreshEvent::Reply(Ok(Response { status: 200, body: Some(body.to_string()) })),
        &old,
    );
    assert_eq!(stage, RefreshStage::AwaitingToken);
    assert!(matches!(action, RefreshAction::ReadToken(ref t) if t == body));
    let answer = RefreshTokenFromApi {
        access_token: "A2".to_string(),
        token_type: "Bearer".to_string(),
        expires_in: 1800,
        refresh_token: None,
    };
    let (stage, action) = refresh(stage, RefreshEvent::TokenRead(Ok(answer), at(6_000)), &old);
    assert_eq!(stage, RefreshStage::Done);
    match action {
        RefreshAction::Finish(Ok(t)) => {
            assert_eq!(t.refresh_token, "R1");
            assert_eq!(t.access_token, "A2");
            assert_eq!(t.time_set, at(6_000));
            assert_eq!(t.expires_in, TimeSpan { secs: 1800, nanos: 0 });
            assert!(t.is_valid(at(6_000)));
        }
        other => panic!("unexpected {:?}", other),
    }
}

#[test]
fn refresh_rejected_by_the_provider_is_told_apart() {
    let old = token(1_000, 3_600);
    let (stage, action) = refresh(
        RefreshStage::AwaitingReply,
        RefreshEvent::Reply(Ok(Response {
            status: 400,
            body: Some("{\"error\":\"invalid_grant\"}".to_string()),
        })),
        &old,
    );
    assert_eq!(stage, RefreshStage::Done);
    match action {
        RefreshAction::Finish(Err(AuthError::FailedTokenRefresh(
            ResponseError::InvalidResposne(ResponseValidationError::BadStatusCode(400, body)),
        ))) => assert_eq!(body, "{\"error\":\"invalid_grant\"}"),
        other => panic!("unexpected {:?}", other),
    }
}

#[test]
fn refresh_with_an_unreadable_answer_fails() {
    let old = token(1_000, 3_600);
    let (stage, action) = refresh(
        RefreshStage::AwaitingToken,
        RefreshEvent::TokenRead(Err("eof".to_string()), at(1)),
        &old,
    );
    assert_eq!(stage, RefreshStage::Done);
    assert!(matches!(
        action,
        RefreshAction::Finish(Err(AuthError::FailedTokenRefresh(
            ResponseError::InvalidExtraction(_)
        )))
    ));
}

#[test]
fn refresh_ignores_events_out_of_place() {
    let old = token(1_000, 3_600);
    let (stage, action) = refresh(RefreshStage::Done, RefreshEvent::Begin, &old);
    assert_eq!(stage, RefreshStage::Done);
    assert!(matches!(action, RefreshAction::Ignore));
    let (stage, action) = refresh(RefreshStage::Start, RefreshEvent::Reply(Err("x".into())), &old);
    assert_eq!(stage, RefreshStage::Start);
    assert!(matches!(action, RefreshAction::Ignore));
}

#[test]
fn auth_error_texts() {
    assert_eq!(
        AuthError::NeedsInitialAuth.to_string(),
        "You are unauthenticated, run `music auth` to to authenticate"
    );
    assert_eq!(
        AuthError::FailedTokenRefresh(ResponseError::InvalidResposne(
            ResponseValidationError::FailedToSendRequest("x".to_string())
        ))
        .to_string(),
        "Failed to refresh authentication token: Got an invalid resposne: Failed to send HTTP request: x"
    );
}

#[test]
fn initial_auth_error_texts() {
    assert_eq!(
        InitialAuthError::FailedCallbackUrlCreation("empty host".to_string()).to_string(),
        "Failed to create a valid callback URL, this is usually a problem in the code: empty host"
    );
    assert_eq!(
        InitialAuthError::FailedToOpenAuthWindow("none".to_string()).to_string(),
        "Failed to open the Spotify authorization window: none"
    );
    assert_eq!(
        InitialAuthError::FailedToReadRedirect(TcpServerError::FailedToGetStream("r".to_string()))
            .to_string(),
        "Failed to read the the redirect: Failed to get a stream for a request: r"
    );
    assert_eq!(
        InitialAuthError::CodeNotFoundInRedirect(Params::from_pairs(pairs(&[(
            "error",
            "access_denied"
        )])))
        .to_string(),
        "Code param not found in redirect, given params: {\"error\": \"access_denied\"}"
    );
    assert_eq!(
        InitialAuthError::FailedToGetToken(ResponseError::InvalidExtraction(
            ResponseExtractionError::FailedToExtractFromJSON("eof".to_string())
        ))
        .to_string(),
        "Failed to get a token: Couldn't extract data from response: Failed to extract data from response JSON:\neof"
    );
}
