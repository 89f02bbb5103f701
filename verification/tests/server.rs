use aerial_utils::describe::Describe;
use aerial_utils::server::{
    close_tab_response, listen_address, listener_result, listener_step, ok_response,
    ListenerAction, ListenerEvent, ListenerState, Request, RequestFromStringError, TcpServerError,
};

fn lines(items: &[&str]) -> Vec<String> {
    items.iter().map(|s| s.to_string()).collect()
}

#[test]
fn callback_request_line_parses_to_path_and_params() {
    let r = Request::try_from(lines(&["GET /callback?code=ABC123&state=xyz HTTP/1.1"])).unwrap();
    assert_eq!(r.request_type, "GET");
    assert_eq!(r.path, "/callback");
    assert_eq!(r.params.len(), 2);
    assert_eq!(r.params.get("code"), Some(&"ABC123".to_string()));
    assert_eq!(r.params.get("state"), Some(&"xyz".to_string()));
}

#[test]
fn request_uses_only_the_first_line() {
    let r = Request::try_from(lines(&[
        "GET /callback?code=Z HTTP/1.1",
        "Host: localhost:8888",
        "POST /other?code=Q HTTP/1.1",
    ]))
    .unwrap();
    assert_eq!(r.request_type, "GET");
    assert_eq!(r.path, "/callback");
    assert_eq!(r.params.get("code"), Some(&"Z".to_string()));
}

#[test]
fn request_without_query_has_no_params() {
    let r = Request::try_from(lines(&["GET /callback HTTP/1.1"])).unwrap();
    assert_eq!(r.path, "/callback");
    assert_eq!(r.params.len(), 0);
}

#[test]
fn request_query_is_decoded() {
    let r = Request::try_from(lines(&["GET /cb?msg=hello+world%21&a=%C3%A9 HTTP/1.1"])).unwrap();
    assert_eq!(r.params.get("msg"), Some(&"hello world!".to_string()));
    assert_eq!(r.params.get("a"), Some(&"é".to_string()));
}

#[test]
fn request_repeated_param_keeps_the_last() {
    let r = Request::try_from(lines(&["GET /cb?code=1&code=2 HTTP/1.1"])).unwrap();
    assert_eq!(r.params.len(), 1);
    assert_eq!(r.params.get("code"), Some(&"2".to_string()));
}

#[test]
fn request_path_is_the_one_the_url_parser_gives() {
    let r = Request::try_from(lines(&["GET /a/../b/./c HTTP/1.1"])).unwrap();
    assert_eq!(r.path, "/b/c");
}

#[test]
fn no_lines_is_the_empty_error() {
    let e = Request::try_from(Vec::new()).unwrap_err();
    assert!(matches!(e, RequestFromStringError::StringIsEmpty));
}

#[test]
fn request_line_with_two_words_is_refused() {
    let e = Request::try_from(lines(&["GET /callback"])).unwrap_err();
    assert!(matches!(e, RequestFromStringError::StringIsEmpty));
}

#[test]
fn request_line_with_four_words_is_refused() {
    let e = Request::try_from(lines(&["GET /callback HTTP/1.1 extra"])).unwrap_err();
    assert!(matches!(e, RequestFromStringError::StringIsEmpty));
}

#[test]
fn blank_request_line_is_refused() {
    let e = Request::try_from(lines(&["   "])).unwrap_err();
    assert!(matches!(e, RequestFromStringError::StringIsEmpty));
}

#[test]
fn target_that_is_no_path_is_refused_with_the_url_tried() {
    let e = Request::try_from(lines(&["GET :bad HTTP/1.1"])).unwrap_err();
    match e {
        RequestFromStringError::InvalidPath(url) => assert_eq!(url, "https://example.com:bad"),
        other => panic!("unexpected {:?}", other),
    }
}

#[test]
fn ok_response_counts_bytes() {
    assert_eq!(ok_response("abc"), "HTTP/1.1 200 OK\r\nContent-Length: 3\r\n\r\nabc");
    assert_eq!(ok_response(""), "HTTP/1.1 200 OK\r\nContent-Length: 0\r\n\r\n");
    assert_eq!(ok_response("é"), "HTTP/1.1 200 OK\r\nContent-Length: 2\r\n\r\né");
}

#[test]
fn close_tab_response_is_the_fixed_page() {
    assert_eq!(
        close_tab_response(),
        "HTTP/1.1 200 OK\r\nContent-Length: 35\r\n\r\n<h1>You can close this tab now</h1>"
    );
}

#[test]
fn listener_bind_failure_ends_it() {
    let (state, action) =
        listener_step(ListenerState::Listening, ListenerEvent::BindFailed("in use".to_string()));
    assert!(matches!(state, ListenerState::Closed));
    match action {
        ListenerAction::Fail(TcpServerError::FailedToCreateTcpListener(m)) => {
            assert_eq!(m, "in use")
        }
        other => panic!("unexpected {:?}", other),
    }
}

#[test]
fn listener_accept_failure_ends_it() {
    let (state, action) =
        listener_step(ListenerState::Listening, ListenerEvent::AcceptFailed("reset".to_string()));
    assert!(matches!(state, ListenerState::Closed));
    match action {
        ListenerAction::Fail(TcpServerError::FailedToGetStream(m)) => assert_eq!(m, "reset"),
        other => panic!("unexpected {:?}", other),
    }
}

fn run_listener(input: &[&str]) -> (String, Result<Request, RequestFromStringError>, usize) {
    let (mut state, mut action) = listener_step(ListenerState::Listening, ListenerEvent::Connected);
    let mut read = 0;
    loop {
        match action {
            ListenerAction::ReadLine => {
                let event = match input.get(read) {
                    Some(line) => ListenerEvent::Line(line.to_string()),
                    None => ListenerEvent::EndOfInput,
                };
                read += 1;
                let next = listener_step(state, event);
                state = next.0;
                action = next.1;
            }
            ListenerAction::Reply { response, outcome } => {
                assert!(matches!(state, ListenerState::Closed));
                return (response, outcome, read);
            }
            other => panic!("unexpected {:?}", other),
        }
    }
}

#[test]
fn listener_reads_up_to_the_blank_line_and_answers() {
    let (response, outcome, read) = run_listener(&[
        "GET /callback?code=ABC123&state=xyz HTTP/1.1",
        "Host: localhost:8888",
        "",
        "never read",
    ]);
    assert_eq!(read, 3);
    assert_eq!(response, close_tab_response());
    let request = outcome.unwrap();
    assert_eq!(request.path, "/callback");
    assert_eq!(request.params.get("code"), Some(&"ABC123".to_string()));
}

#[test]
fn listener_answers_a_malformed_request_too() {
    let (response, outcome, _) = run_listener(&["nonsense", ""]);
    assert_eq!(response, close_tab_response());
    assert!(matches!(outcome, Err(RequestFromStringError::StringIsEmpty)));
}

#[test]
fn listener_ends_at_the_end_of_input() {
    let (response, outcome, read) = run_listener(&["GET /callback?code=7 HTTP/1.1"]);
    assert_eq!(read, 2);
    assert_eq!(response, close_tab_response());
    assert_eq!(outcome.unwrap().params.get("code"), Some(&"7".to_string()));
}

#[test]
fn listener_with_a_connection_that_sends_nothing_is_malformed() {
    let (_, outcome, read) = run_listener(&[]);
    assert_eq!(read, 1);
    assert!(matches!(outcome, Err(RequestFromStringError::StringIsEmpty)));
}

#[test]
fn listener_is_single_use() {
    for event in [
        ListenerEvent::Connected,
        ListenerEvent::Line("GET / HTTP/1.1".to_string()),
        ListenerEvent::EndOfInput,
        ListenerEvent::BindFailed("x".to_string()),
        ListenerEvent::AcceptFailed("x".to_string()),
    ] {
        let (state, action) = listener_step(ListenerState::Closed, event);
        assert!(matches!(state, ListenerState::Closed));
        assert!(matches!(action, ListenerAction::Ignore));
    }
}

#[test]
fn listener_ignores_events_out_of_place() {
    let (state, action) =
        listener_step(ListenerState::Listening, ListenerEvent::Line("x".to_string()));
    assert!(matches!(state, ListenerState::Listening));
    assert!(matches!(action, ListenerAction::Ignore));
    let (state, action) =
        listener_step(ListenerState::Reading(lines(&["a"])), ListenerEvent::Connected);
    match state {
        ListenerState::Reading(kept) => assert_eq!(kept, lines(&["a"])),
        other => panic!("unexpected {:?}", other),
    }
    assert!(matches!(action, ListenerAction::Ignore));
}

#[test]
fn listener_result_wraps_a_parse_failure() {
    let r = listener_result(Err(RequestFromStringError::StringIsEmpty));
    assert!(matches!(
        r,
        Err(TcpServerError::FailedToParseRequest(RequestFromStringError::StringIsEmpty))
    ));
    let ok = listener_result(Request::try_from(lines(&["GET /x HTTP/1.1"])));
    assert_eq!(ok.unwrap().path, "/x");
}

#[test]
fn server_error_texts() {
    assert_eq!(RequestFromStringError::StringIsEmpty.to_string(), "The given string");
    assert_eq!(
        RequestFromStringError::InvalidFirstLine("x y".to_string()).to_string(),
        "The first line could not be parsed: x y"
    );
    assert_eq!(
        RequestFromStringError::InvalidPath("u".to_string()).to_string(),
        "The path the request was submitted to couldn't be parsed: u"
    );
    assert_eq!(
        TcpServerError::FailedToCreateTcpListener("in use".to_string()).to_string(),
        "Failed to create TCP listener: in use"
    );
    assert_eq!(
        TcpServerError::FailedToGetStream("reset".to_string()).to_string(),
        "Failed to get a stream for a request: reset"
    );
    assert_eq!(
        TcpServerError::FailedToParseRequest(RequestFromStringError::StringIsEmpty).to_string(),
        "Failed parse the request made to the server: The given string"
    );
}

#[test]
fn listen_address_is_the_local_host_and_the_port() {
    assert_eq!(listen_address(8888), "localhost:8888");
    assert_eq!(listen_address(0), "localhost:0");
    assert_eq!(listen_address(u16::MAX), "localhost:65535");
}
