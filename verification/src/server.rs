//! The one-shot receiver of the provider's redirect: what a request that
//! came in says, what to answer, and when to stop reading.
//!
//! The socket is the caller's. It reports what happened as a
//! [`ListenerEvent`] and does what [`listener_step`] hands back.

use vstd::prelude::*;
use vstd::string::StringExecFns;
use vstd::string::StringSliceAdditionalSpecFns;
use vstd::utf8::is_ascii_chars_encode_utf8;
use crate::encoding::{parse_path_and_query, url_path_and_query};
use crate::describe::Describe;
use crate::params::{pairs_to_map, Params};
use crate::text::{decimal, decimal_text, labelled, split_whitespace, texts, words};

verus! {

/// Why the receiver gave no request.
#[derive(Debug)]
pub enum TcpServerError {
    /// The port could not be bound; the text is the system's message.
    FailedToCreateTcpListener(String),
    /// No connection could be accepted; the text is the system's message.
    FailedToGetStream(String),
    /// A connection came, and what it sent was no request.
    FailedToParseRequest(RequestFromStringError),
}

/// The first request of a connection: its method, and the path and query
/// parameters of its target.
#[derive(Debug)]
pub struct Request {
    pub request_type: String,
    pub path: String,
    pub params: Params,
}

/// Why the lines of a request could not be read as one.
#[derive(Debug)]
pub enum RequestFromStringError {
    /// There is no first line, or it is not made of a method, a target and
    /// a version.
    StringIsEmpty,
    /// The first line could not be read; the text is the line.
    /// [`Request::try_from`] does not tell this apart from
    /// [`RequestFromStringError::StringIsEmpty`] and never hands it out.
    InvalidFirstLine(String),
    /// The target is no path; the text is the URL that was tried.
    InvalidPath(String),
}

/// What a request says, as plain values.
pub struct RequestModel {
    pub request_type: Seq<char>,
    pub path: Seq<char>,
    pub params: Map<Seq<char>, Seq<char>>,
}

/// What the lines of a request amount to.
pub enum RequestReading {
    /// A request.
    Parsed(RequestModel),
    /// No request line of three words.
    NoRequestLine,
    /// A request line whose target, put behind the given origin, is no URL.
    BadTarget(Seq<char>),
}

/// The origin that a request target is read against.
pub open spec fn target_origin() -> Seq<char> {
    "https://example.com"@
}

/// What the lines `lines` of a request amount to. The first line must be
/// three words: the method, the target, the version. The target's path and
/// query parameters are those of the URL made of [`target_origin`] and the
/// target; of a parameter that repeats, the last value is kept.
pub open spec fn read_request(lines: Seq<Seq<char>>) -> RequestReading {
    if lines.len() == 0 || words(lines[0]).len() != 3 {
        RequestReading::NoRequestLine
    } else {
        let parts = words(lines[0]);
        let url = target_origin() + parts[1];
        match url_path_and_query(url) {
            None => RequestReading::BadTarget(url),
            Some(found) => RequestReading::Parsed(
                RequestModel {
                    request_type: parts[0],
                    path: found.0,
                    params: pairs_to_map(found.1),
                },
            ),
        }
    }
}

/// Whether `outcome` is what `reading` asks for.
pub open spec fn request_outcome_is(
    outcome: Result<Request, RequestFromStringError>,
    reading: RequestReading,
) -> bool {
    match reading {
        RequestReading::Parsed(model) => outcome matches Ok(request) && request@ == model,
        RequestReading::NoRequestLine => outcome matches Err(
            RequestFromStringError::StringIsEmpty,
        ),
        RequestReading::BadTarget(url) => outcome matches Err(
            RequestFromStringError::InvalidPath(tried),
        ) && tried@ == url,
    }
}

impl View for Request {
    type V = RequestModel;

    open spec fn view(&self) -> RequestModel {
        RequestModel {
            request_type: self.request_type@,
            path: self.path@,
            params: self.params@,
        }
    }
}

impl Request {
    /// Reads the lines of a request, the request line first.
    pub fn try_from(value: Vec<String>) -> (r: Result<Request, RequestFromStringError>)
        ensures
            request_outcome_is(r, read_request(texts(value@))),
    {
        if value.len() == 0 {
            return Err(RequestFromStringError::StringIsEmpty);
        }
        let parts = split_whitespace(value[0].as_str());
        assert(texts(value@)[0] == value[0]@);
        if parts.len() != 3 {
            assert(texts(parts@).len() == parts.len());
            return Err(RequestFromStringError::StringIsEmpty);
        }
        assert(texts(parts@).len() == parts.len());
        assert(texts(parts@)[0] == parts[0]@);
        assert(texts(parts@)[1] == parts[1]@);
        let mut url = String::from_str("https://example.com");
        url.append(parts[1].as_str());
        match parse_path_and_query(url.as_str()) {
            Err(_) => Err(RequestFromStringError::InvalidPath(url)),
            Ok(found) => {
                let (path, pairs) = found;
                Ok(
                    Request {
                        request_type: parts[0].clone(),
                        path,
                        params: Params::from_pairs(pairs),
                    },
                )
            },
        }
    }
}

/// The address that the receiver binds for the port `port`: the local host
/// and the port.
pub open spec fn listen_address_text(port: u16) -> Seq<char> {
    "localhost:"@ + decimal_text(port as nat)
}

/// The address that the receiver binds for the port `port`.
pub fn listen_address(port: u16) -> (r: String)
    ensures
        r@ == listen_address_text(port),
{
    labelled("localhost:", decimal(port as u64).as_str())
}

/// The page that tells the user that the browser tab has done its work.
pub open spec fn close_tab_content() -> Seq<char> {
    "<h1>You can close this tab now</h1>"@
}

/// A complete HTTP/1.1 response with status 200 that carries `content`:
/// the status line, the length of the content in bytes, a blank line, the
/// content.
pub open spec fn ok_response_text(content: Seq<char>, content_bytes: nat) -> Seq<char> {
    "HTTP/1.1 200 OK"@ + "\r\nContent-Length: "@ + decimal_text(content_bytes) + "\r\n\r\n"@
        + content
}

/// The response with status 200 that carries `content`.
pub fn ok_response(content: &str) -> (r: String)
    ensures
        r@ == ok_response_text(content@, content.spec_bytes().len()),
{
    let length = content.as_bytes().len();
    let mut r = String::from_str("HTTP/1.1 200 OK");
    r.append("\r\nContent-Length: ");
    r.append(decimal(length as u64).as_str());
    r.append("\r\n\r\n");
    r.append(content);
    r
}

/// The response that the receiver sends to whatever request came.
pub fn close_tab_response() -> (r: String)
    ensures
        r@ == ok_response_text(close_tab_content(), 35),
{
    proof {
        reveal_strlit("<h1>You can close this tab now</h1>");
        is_ascii_chars_encode_utf8(close_tab_content());
    }
    ok_response("<h1>You can close this tab now</h1>")
}

/// Where the receiver stands.
#[derive(Debug)]
pub enum ListenerState {
    /// Waiting for the one connection.
    Listening,
    /// Reading the head of the request; the lines read so far.
    Reading(Vec<String>),
    /// Done. The receiver takes no second connection.
    Closed,
}

/// What the socket reports.
#[derive(Debug)]
pub enum ListenerEvent {
    /// The port could not be bound.
    BindFailed(String),
    /// No connection could be accepted.
    AcceptFailed(String),
    /// A connection came.
    Connected,
    /// A line of the request, without its line ending.
    Line(String),
    /// The connection gave no further line: its end, or a failed read.
    EndOfInput,
}

/// What the caller does next.
#[derive(Debug)]
pub enum ListenerAction {
    /// Read one more line and report it.
    ReadLine,
    /// Write `response` to the connection, close it, and give `outcome` back.
    Reply { response: String, outcome: Result<Request, RequestFromStringError> },
    /// Give the error back; there is no connection to answer.
    Fail(TcpServerError),
    /// Nothing: the event does not belong to the state.
    Ignore,
}

/// Whether the line ends the head of a request: the blank line.
pub open spec fn ends_head(line: Seq<char>) -> bool {
    line.len() == 0
}

/// One step of the receiver.
///
/// While it listens, a failure ends it with the error, and a connection
/// makes it read. While it reads, a line that is not blank is kept and the
/// next one asked for; the blank line, or the end of the input, ends the
/// head: the close-tab page is sent whatever the lines amount to, and the
/// outcome is what [`read_request`] says of them. Once closed it stays
/// closed.
pub fn listener_step(state: ListenerState, event: ListenerEvent) -> (r: (
    ListenerState,
    ListenerAction,
))
    ensures
        match state {
            ListenerState::Listening => match event {
                ListenerEvent::BindFailed(message) => r.0 is Closed && r.1
                    == ListenerAction::Fail(TcpServerError::FailedToCreateTcpListener(message)),
                ListenerEvent::AcceptFailed(message) => r.0 is Closed && r.1
                    == ListenerAction::Fail(TcpServerError::FailedToGetStream(message)),
                ListenerEvent::Connected => r.0 matches ListenerState::Reading(kept)
                    && kept@.len() == 0 && r.1 is ReadLine,
                _ => r.0 is Listening && r.1 is Ignore,
            },
            ListenerState::Reading(lines) => {
                let ended = match event {
                    ListenerEvent::Line(line) => ends_head(line@),
                    ListenerEvent::EndOfInput => true,
                    _ => false,
                };
                if ended {
                    &&& r.0 is Closed
                    &&& r.1 matches ListenerAction::Reply { response, outcome }
                    &&& response@ == ok_response_text(close_tab_content(), 35)
                    &&& request_outcome_is(outcome, read_request(texts(lines@)))
                } else {
                    match event {
                        ListenerEvent::Line(line) => r.0 matches ListenerState::Reading(kept)
                            && kept@ == lines@.push(line) && r.1 is ReadLine,
                        _ => r.0 == ListenerState::Reading(lines) && r.1 is Ignore,
                    }
                }
            },
            ListenerState::Closed => r.0 is Closed && r.1 is Ignore,
        },
{
    match state {
        ListenerState::Listening => match event {
            ListenerEvent::BindFailed(message) => (
                ListenerState::Closed,
                ListenerAction::Fail(TcpServerError::FailedToCreateTcpListener(message)),
            ),
            ListenerEvent::AcceptFailed(message) => (
                ListenerState::Closed,
                ListenerAction::Fail(TcpServerError::FailedToGetStream(message)),
            ),
            ListenerEvent::Connected => (
                ListenerState::Reading(Vec::new()),
                ListenerAction::ReadLine,
            ),
            _ => (ListenerState::Listening, ListenerAction::Ignore),
        },
        ListenerState::Reading(lines) => match event {
            ListenerEvent::Line(line) => {
                if line.as_str().is_empty() {
                    finish_head(lines)
                } else {
                    let mut kept = lines;
                    kept.push(line);
                    (ListenerState::Reading(kept), ListenerAction::ReadLine)
                }
            },
            ListenerEvent::EndOfInput => finish_head(lines),
            _ => (ListenerState::Reading(lines), ListenerAction::Ignore),
        },
        ListenerState::Closed => (ListenerState::Closed, ListenerAction::Ignore),
    }
}

fn finish_head(lines: Vec<String>) -> (r: (ListenerState, ListenerAction))
    ensures
        r.0 is Closed,
        r.1 matches ListenerAction::Reply { response, outcome } && response@ == ok_response_text(
            close_tab_content(),
            35,
        ) && request_outcome_is(outcome, read_request(texts(lines@))),
{
    let response = close_tab_response();
    let outcome = Request::try_from(lines);
    (ListenerState::Closed, ListenerAction::Reply { response, outcome })
}

/// What a finished exchange means to the caller of the receiver: a request
/// that could not be read is a failure of the receiver.
pub fn listener_result(outcome: Result<Request, RequestFromStringError>) -> (r: Result<
    Request,
    TcpServerError,
>)
    ensures
        match outcome {
            Ok(request) => r == Ok::<Request, TcpServerError>(request),
            Err(e) => r == Err::<Request, TcpServerError>(TcpServerError::FailedToParseRequest(e)),
        },
{
    match outcome {
        Ok(request) => Ok(request),
        Err(e) => Err(TcpServerError::FailedToParseRequest(e)),
    }
}

impl Describe for RequestFromStringError {
    open spec fn text(&self) -> Seq<char> {
        match *self {
            RequestFromStringError::StringIsEmpty => "The given string"@,
            RequestFromStringError::InvalidFirstLine(line) =>
                "The first line could not be parsed: "@ + line@,
            RequestFromStringError::InvalidPath(url) =>
                "The path the request was submitted to couldn't be parsed: "@ + url@,
        }
    }

    fn to_string(&self) -> (r: String) {
        match self {
            RequestFromStringError::StringIsEmpty => String::from_str("The given string"),
            RequestFromStringError::InvalidFirstLine(line) => labelled(
                "The first line could not be parsed: ",
                line.as_str(),
            ),
            RequestFromStringError::InvalidPath(url) => labelled(
                "The path the request was submitted to couldn't be parsed: ",
                url.as_str(),
            ),
        }
    }
}

impl Describe for TcpServerError {
    open spec fn text(&self) -> Seq<char> {
        match *self {
            TcpServerError::FailedToCreateTcpListener(message) =>
                "Failed to create TCP listener: "@ + message@,
            TcpServerError::FailedToGetStream(message) =>
                "Failed to get a stream for a request: "@ + message@,
            TcpServerError::FailedToParseRequest(cause) =>
                "Failed parse the request made to the server: "@ + cause.text(),
        }
    }

    fn to_string(&self) -> (r: String) {
        match self {
            TcpServerError::FailedToCreateTcpListener(message) => labelled(
                "Failed to create TCP listener: ",
                message.as_str(),
            ),
            TcpServerError::FailedToGetStream(message) => labelled(
                "Failed to get a stream for a request: ",
                message.as_str(),
            ),
            TcpServerError::FailedToParseRequest(cause) => labelled(
                "Failed parse the request made to the server: ",
                cause.to_string().as_str(),
            ),
        }
    }
}

} // verus!
