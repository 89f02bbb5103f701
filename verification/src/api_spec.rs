//! The description of one call of the API, and the request it turns into.
//!
//! A description is data: a method, a path below the API's base, optional
//! headers, query parameters and a body. It sends nothing.

use vstd::prelude::*;
use vstd::string::StringExecFns;
use crate::encoding::{check_url_input, url_input_fits, url_with_params, url_with_params_text};
use crate::http::{body_is_empty, Response};
use crate::params::{pair_texts, PairSeq, Params};

verus! {

/// The method of a request.
#[derive(Clone, Copy, Debug, PartialEq, Eq, Structural)]
pub enum Method {
    Get,
    Post,
    Put,
    Delete,
    Patch,
}

impl Method {
    /// The method as it stands in a request line.
    pub open spec fn text(self) -> Seq<char> {
        match self {
            Method::Get => "GET"@,
            Method::Post => "POST"@,
            Method::Put => "PUT"@,
            Method::Delete => "DELETE"@,
            Method::Patch => "PATCH"@,
        }
    }

    /// The method as it stands in a request line.
    pub fn as_str(&self) -> (r: &'static str)
        ensures
            r@ == self.text(),
    {
        match self {
            Method::Get => "GET",
            Method::Post => "POST",
            Method::Put => "PUT",
            Method::Delete => "DELETE",
            Method::Patch => "PATCH",
        }
    }
}

/// One call of the API, described.
#[derive(Debug)]
pub struct ApiRequest<T> {
    pub method: Method,
    pub endpoint: String,
    pub headers: Option<Vec<(String, String)>>,
    pub params: Option<Params>,
    pub body: Option<T>,
}

/// A request ready to be sent: the full URL, the headers in order, and the
/// body still as a value.
#[derive(Debug)]
pub struct HttpRequest<T> {
    pub method: Method,
    pub url: String,
    pub headers: Vec<(String, String)>,
    pub body: Option<T>,
}

/// An operation of the API: each implements this once, and is dispatched
/// like every other.
pub trait ApiRequestSpec {
    /// What a successful reply carries.
    type Resposne;

    /// What the request carries.
    type Body;

    /// The description of the call.
    fn request(&self) -> ApiRequest<Self::Body>;
}

impl<T> ApiRequest<T> {
    /// The query parameters as a list, empty where there are none.
    pub open spec fn param_pairs(self) -> PairSeq {
        match self.params {
            Some(params) => params.pair_seq(),
            None => Seq::empty(),
        }
    }

    /// The headers as a list, empty where there are none.
    pub open spec fn header_pairs(self) -> PairSeq {
        match self.headers {
            Some(headers) => pair_texts(headers@),
            None => Seq::empty(),
        }
    }

    /// The address of the call below `api_endpoint`, before the query is
    /// added: the base, a slash, the path.
    pub open spec fn address(self, api_endpoint: Seq<char>) -> Seq<char> {
        api_endpoint + seq!['/'] + self.endpoint@
    }

    /// Whether the call is short enough to be made into a request below
    /// `api_endpoint`: see [`url_input_fits`].
    pub open spec fn url_fits(self, api_endpoint: Seq<char>) -> bool {
        url_input_fits(self.address(api_endpoint), self.param_pairs())
    }

    /// Whether the call is short enough to be made into a request below
    /// `api_endpoint`.
    pub fn fits(&self, api_endpoint: &str) -> (r: bool)
        ensures
            r == self.url_fits(api_endpoint@),
    {
        let address = self.address_below(api_endpoint);
        let pairs = self.pairs();
        check_url_input(address.as_str(), &pairs)
    }

    fn address_below(&self, api_endpoint: &str) -> (r: String)
        ensures
            r@ == self.address(api_endpoint@),
    {
        let mut address = String::from_str(api_endpoint);
        proof {
            reveal_strlit("/");
        }
        address.append("/");
        address.append(self.endpoint.as_str());
        assert(address@ =~= self.address(api_endpoint@));
        address
    }

    fn pairs(&self) -> (r: Vec<(String, String)>)
        ensures
            pair_texts(r@) == self.param_pairs(),
    {
        let pairs = match &self.params {
            Some(params) => params.to_pairs(),
            None => Vec::new(),
        };
        assert(pair_texts(pairs@) =~= self.param_pairs());
        pairs
    }

    /// A call with neither parameters nor body.
    pub fn basic(method: Method, endpoint: &str) -> (r: Self)
        ensures
            r.method == method,
            r.endpoint@ == endpoint@,
            r.headers is None,
            r.params is None,
            r.body is None,
    {
        Self::basic_with_params(method, endpoint, None)
    }

    /// A call with query parameters and no body.
    pub fn basic_with_params(method: Method, endpoint: &str, params: Option<Params>) -> (r: Self)
        ensures
            r.method == method,
            r.endpoint@ == endpoint@,
            r.headers is None,
            r.params == params,
            r.body is None,
    {
        ApiRequest { method, endpoint: String::from_str(endpoint), headers: None, params, body: None }
    }

    /// A call with a body and no query parameters.
    pub fn basic_with_body(method: Method, endpoint: &str, body: T) -> (r: Self)
        ensures
            r.method == method,
            r.endpoint@ == endpoint@,
            r.headers is None,
            r.params is None,
            r.body == Some(body),
    {
        ApiRequest {
            method,
            endpoint: String::from_str(endpoint),
            headers: None,
            params: None,
            body: Some(body),
        }
    }

    /// The request that the call turns into below the base `api_endpoint`.
    ///
    /// Its URL is what the `url` crate makes of the address and the query
    /// parameters; where the address is no URL, the crate's error comes
    /// back. Method, headers and body are those of the description.
    ///
    /// The call has to be short enough for the URL to be made:
    /// [`ApiRequest::fits`] tests it.
    pub fn build(self, api_endpoint: &str) -> (r: Result<HttpRequest<T>, url::ParseError>)
        requires
            self.url_fits(api_endpoint@),
        ensures
            match r {
                Ok(built) => {
                    &&& url_with_params_text(self.address(api_endpoint@), self.param_pairs())
                        == Some(built.url@)
                    &&& built.method == self.method
                    &&& pair_texts(built.headers@) == self.header_pairs()
                    &&& built.body == self.body
                },
                Err(_) => url_with_params_text(self.address(api_endpoint@), self.param_pairs())
                    is None,
            },
    {
        let address = self.address_below(api_endpoint);
        let pairs = self.pairs();
        let headers = match self.headers {
            Some(headers) => headers,
            None => Vec::new(),
        };
        assert(pair_texts(headers@) =~= self.header_pairs());
        match url_with_params(address.as_str(), &pairs) {
            Ok(url) => Ok(HttpRequest { method: self.method, url, headers, body: self.body }),
            Err(e) => Err(e),
        }
    }
}

impl<T> HttpRequest<T> {
    /// The request with one more header at the end.
    pub fn header(self, name: &str, value: String) -> (r: Self)
        ensures
            r.method == self.method,
            r.url == self.url,
            r.body == self.body,
            pair_texts(r.headers@) == pair_texts(self.headers@).push((name@, value@)),
    {
        let mut headers = self.headers;
        headers.push((String::from_str(name), value));
        assert(pair_texts(headers@) =~= pair_texts(self.headers@).push((name@, value@)));
        HttpRequest { method: self.method, url: self.url, headers, body: self.body }
    }
}

/// The reply of a call that is expected to carry no data.
#[derive(Clone, Copy, Debug, PartialEq, Eq, Structural)]
pub struct NoResponse {}

/// The body of a call that carries none.
#[derive(Clone, Copy, Debug, PartialEq, Eq, Structural)]
pub struct NoBody {}

/// The reply of a call whose data may be there or not, as the provider's
/// state has it.
#[derive(Debug)]
pub enum OptionalResponse<T> {
    /// The data is there.
    Present(T),
    /// The reply carries no data.
    Absent(NoResponse),
}

/// What is left to do with an accepted reply.
#[derive(Debug)]
pub enum Extraction<T> {
    /// Nothing: the value is known without reading.
    Done(T),
    /// This text is to be read as data of the expected type.
    Read(String),
}

impl NoResponse {
    /// What an accepted reply gives where no data is expected. A reply
    /// without text is the sentinel itself, no reading and no failure; any
    /// other is handed to the reader as it is.
    pub fn extraction(response: Response) -> (r: Extraction<NoResponse>)
        ensures
            body_is_empty(response) ==> r is Done,
            !body_is_empty(response) ==> r == Extraction::<NoResponse>::Read(response.body->0),
    {
        match response.body {
            Some(text) => {
                if text.as_str().is_empty() {
                    Extraction::Done(NoResponse {  })
                } else {
                    Extraction::Read(text)
                }
            },
            None => Extraction::Done(NoResponse {  }),
        }
    }
}

impl<T> OptionalResponse<T> {
    /// Chooses between the two readings of one text: as the data, and as a
    /// reply without data. The data wins where it could be read; else the
    /// reply counts as absent where that reading holds; else the text is
    /// neither, and the failure carries `message`.
    pub fn from_readings(
        present: Result<T, String>,
        absent: Result<NoResponse, String>,
        message: String,
    ) -> (r: Result<
        OptionalResponse<T>,
        String,
    >)
        ensures
            match present {
                Ok(value) => r == Ok::<OptionalResponse<T>, String>(OptionalResponse::Present(value)),
                Err(_) => match absent {
                    Ok(none) => r == Ok::<OptionalResponse<T>, String>(
                        OptionalResponse::Absent(none),
                    ),
                    Err(_) => r == Err::<OptionalResponse<T>, String>(message),
                },
            },
    {
        match present {
            Ok(value) => Ok(OptionalResponse::Present(value)),
            Err(_) => match absent {
                Ok(none) => Ok(OptionalResponse::Absent(none)),
                Err(_) => Err(message),
            },
        }
    }

    /// The data, where it is there.
    pub fn into_option(self) -> (r: Option<T>)
        ensures
            match self {
                OptionalResponse::Present(value) => r == Some(value),
                OptionalResponse::Absent(_) => r is None,
            },
    {
        match self {
            OptionalResponse::Present(value) => Some(value),
            OptionalResponse::Absent(_) => None,
        }
    }
}

} // verus!
