//! What a reply of the provider means: sent or not, accepted or refused,
//! and what text goes to the reader of its body.

use vstd::prelude::*;
use vstd::string::StringExecFns;
use crate::describe::Describe;
use crate::text::{decimal, decimal_text, labelled};

verus! {

/// A reply as it came in: the status code, and the body as text where it
/// could be read.
#[derive(Debug)]
pub struct Response {
    pub status: u16,
    pub body: Option<String>,
}

/// Why a request gave no usable answer.
#[derive(Debug)]
pub enum ResponseError {
    /// No reply came, or one that refuses the request.
    InvalidResposne(ResponseValidationError),
    /// The reply was accepted and its body could not be read as data.
    InvalidExtraction(ResponseExtractionError),
}

/// Why a reply is no success.
#[derive(Debug)]
pub enum ResponseValidationError {
    /// The request could not be sent; the text is the transport's message.
    FailedToSendRequest(String),
    /// The status code is outside 200 to 299; the body is kept as it came.
    BadStatusCode(u16, String),
}

/// Why the body of an accepted reply is no data.
#[derive(Debug)]
pub enum ResponseExtractionError {
    /// The body is not JSON of the expected shape; the text is the reader's
    /// message.
    FailedToExtractFromJSON(String),
}

/// Whether a status code reports success.
pub open spec fn is_success(status: u16) -> bool {
    200 <= status <= 299
}

/// The text that stands for a body that could not be read.
pub open spec fn missing_body_text() -> Seq<char> {
    "No body returned"@
}

/// The text that is read as data where a reply has no body: the empty JSON
/// object.
pub open spec fn empty_object_text() -> Seq<char> {
    "{}"@
}

/// Whether a reply carries no text: no readable body, or an empty one.
pub open spec fn body_is_empty(response: Response) -> bool {
    match response.body {
        Some(text) => text@.len() == 0,
        None => true,
    }
}

/// The text of a reply that is handed to the reader of its data: the body,
/// or the empty JSON object where the reply carries no text.
pub open spec fn extraction_text(response: Response) -> Seq<char> {
    match response.body {
        Some(text) => if text@.len() == 0 {
            empty_object_text()
        } else {
            text@
        },
        None => empty_object_text(),
    }
}

/// Whether a request was answered with success.
pub open spec fn is_accepted(sent: Result<Response, String>) -> bool {
    sent matches Ok(response) && is_success(response.status)
}

/// Whether `e` is the failure that the outcome `sent` amounts to: for a
/// reply, its status with its body kept as it came; for a request that could
/// not be sent, the transport's message.
pub open spec fn is_refusal_of(e: ResponseValidationError, sent: Result<Response, String>) -> bool {
    match sent {
        Ok(response) => {
            &&& !is_success(response.status)
            &&& e matches ResponseValidationError::BadStatusCode(status, body)
            &&& status == response.status
            &&& match response.body {
                Some(text) => body == text,
                None => body@ == missing_body_text(),
            }
        },
        Err(message) => e == ResponseValidationError::FailedToSendRequest(message),
    }
}

/// Sorts the outcome of sending a request: a reply with a status from 200
/// to 299 is a success and comes back unchanged; any other reply is a
/// failure that carries the status and the body; a request that could not be
/// sent is a failure of its own kind.
pub fn validate(sent: Result<Response, String>) -> (r: Result<Response, ResponseValidationError>)
    ensures
        is_accepted(sent) ==> r == Ok::<Response, ResponseValidationError>(sent->Ok_0),
        !is_accepted(sent) ==> (r matches Err(e) && is_refusal_of(e, sent)),
{
    match sent {
        Ok(response) => {
            if 200 <= response.status && response.status <= 299 {
                Ok(response)
            } else {
                let body = match response.body {
                    Some(text) => text,
                    None => String::from_str("No body returned"),
                };
                Err(ResponseValidationError::BadStatusCode(response.status, body))
            }
        },
        Err(message) => Err(ResponseValidationError::FailedToSendRequest(message)),
    }
}

/// The text of an accepted reply that goes to the reader of its data.
pub fn extract_text(response: Response) -> (r: String)
    ensures
        r@ == extraction_text(response),
{
    match response.body {
        Some(text) => {
            if text.as_str().is_empty() {
                String::from_str("{}")
            } else {
                text
            }
        },
        None => String::from_str("{}"),
    }
}

/// What the reader of the data made of the text: its value, or its message
/// as a failure to extract.
pub fn extract<T>(read: Result<T, String>) -> (r: Result<T, ResponseExtractionError>)
    ensures
        match read {
            Ok(value) => r == Ok::<T, ResponseExtractionError>(value),
            Err(message) => r == Err::<T, ResponseExtractionError>(
                ResponseExtractionError::FailedToExtractFromJSON(message),
            ),
        },
{
    match read {
        Ok(value) => Ok(value),
        Err(message) => Err(ResponseExtractionError::FailedToExtractFromJSON(message)),
    }
}

impl From<ResponseValidationError> for ResponseError {
    fn from(value: ResponseValidationError) -> (r: Self) {
        ResponseError::InvalidResposne(value)
    }
}

impl vstd::std_specs::convert::FromSpecImpl<ResponseValidationError> for ResponseError {
    open spec fn obeys_from_spec() -> bool {
        true
    }

    open spec fn from_spec(value: ResponseValidationError) -> Self {
        ResponseError::InvalidResposne(value)
    }
}

impl From<ResponseExtractionError> for ResponseError {
    fn from(value: ResponseExtractionError) -> (r: Self) {
        ResponseError::InvalidExtraction(value)
    }
}

impl vstd::std_specs::convert::FromSpecImpl<ResponseExtractionError> for ResponseError {
    open spec fn obeys_from_spec() -> bool {
        true
    }

    open spec fn from_spec(value: ResponseExtractionError) -> Self {
        ResponseError::InvalidExtraction(value)
    }
}

/// The whole way from the outcome of sending to the text for the reader of
/// the data: [`validate`], then [`extract_text`]; a failure on the way is a
/// failed request.
pub fn accepted_text(sent: Result<Response, String>) -> (r: Result<String, ResponseError>)
    ensures
        is_accepted(sent) ==> (r matches Ok(text) && text@ == extraction_text(sent->Ok_0)),
        !is_accepted(sent) ==> (r matches Err(ResponseError::InvalidResposne(e)) && is_refusal_of(
            e,
            sent,
        )),
{
    match validate(sent) {
        Ok(response) => Ok(extract_text(response)),
        Err(e) => Err(ResponseError::from(e)),
    }
}

/// What the reader of the data made of the text, as the outcome of the
/// request.
pub fn extracted<T>(read: Result<T, String>) -> (r: Result<T, ResponseError>)
    ensures
        match read {
            Ok(value) => r == Ok::<T, ResponseError>(value),
            Err(message) => r == Err::<T, ResponseError>(extraction_failure(message)),
        },
{
    match extract(read) {
        Ok(value) => Ok(value),
        Err(e) => Err(ResponseError::from(e)),
    }
}

/// The failed request that a message of the reader of the data stands for.
pub open spec fn extraction_failure(message: String) -> ResponseError {
    ResponseError::InvalidExtraction(ResponseExtractionError::FailedToExtractFromJSON(message))
}

impl Describe for ResponseValidationError {
    open spec fn text(&self) -> Seq<char> {
        match *self {
            ResponseValidationError::FailedToSendRequest(message) => "Failed to send HTTP request: "@
                + message@,
            ResponseValidationError::BadStatusCode(status, body) => "Got a bad status code "@
                + decimal_text(status as nat) + ", body:\n"@ + body@,
        }
    }

    fn to_string(&self) -> (r: String) {
        match self {
            ResponseValidationError::FailedToSendRequest(message) => labelled(
                "Failed to send HTTP request: ",
                message.as_str(),
            ),
            ResponseValidationError::BadStatusCode(status, body) => {
                let mut r = labelled("Got a bad status code ", decimal(*status as u64).as_str());
                r.append(", body:\n");
                r.append(body.as_str());
                r
            },
        }
    }
}

impl Describe for ResponseExtractionError {
    open spec fn text(&self) -> Seq<char> {
        match *self {
            ResponseExtractionError::FailedToExtractFromJSON(message) =>
                "Failed to extract data from response JSON:\n"@ + message@,
        }
    }

    fn to_string(&self) -> (r: String) {
        match self {
            ResponseExtractionError::FailedToExtractFromJSON(message) => labelled(
                "Failed to extract data from response JSON:\n",
                message.as_str(),
            ),
        }
    }
}

impl Describe for ResponseError {
    open spec fn text(&self) -> Seq<char> {
        match *self {
            ResponseError::InvalidResposne(cause) => "Got an invalid resposne: "@ + cause.text(),
            ResponseError::InvalidExtraction(cause) => "Couldn't extract data from response: "@
                + cause.text(),
        }
    }

    fn to_string(&self) -> (r: String) {
        match self {
            ResponseError::InvalidResposne(cause) => labelled(
                "Got an invalid resposne: ",
                cause.to_string().as_str(),
            ),
            ResponseError::InvalidExtraction(cause) => labelled(
                "Couldn't extract data from response: ",
                cause.to_string().as_str(),
            ),
        }
    }
}

} // verus!
