//! The handler of calls to the music API: it signs what is described and
//! says what a reply amounts to.

use vstd::prelude::*;
use vstd::string::StringExecFns;
use crate::api_handler::ApiHandler;
use crate::api_spec::{ApiRequest, HttpRequest};
use crate::auth_client::{authorization_header, AuthClient};
use crate::cache::Cache;
use crate::encoding::url_with_params_text;
use crate::params::pair_texts;
use crate::spotify_auth::{AuthError, SpotifyAuthClient};
use crate::token::Token;

verus! {

/// The base address of the API.
pub open spec fn api_endpoint() -> Seq<char> {
    "https://api.spotify.com/v1"@
}

/// The handler of calls to the API, with the client that signs them.
#[derive(Debug)]
pub struct SpotifyApiHandler {
    pub auth: SpotifyAuthClient,
}

impl SpotifyApiHandler {
    /// The handler for the token that authentication gave, and the cache
    /// updated with it. Where authentication failed there is no handler,
    /// and the cache stays as it was.
    pub fn new(cache: &mut Cache, authed: Result<Token, AuthError>) -> (r: Result<Self, AuthError>)
        ensures
            match authed {
                Ok(token) => {
                    &&& r matches Ok(handler)
                    &&& handler.auth@ == token
                    &&& final(cache).token() == Some(token)
                },
                Err(e) => r == Err::<SpotifyApiHandler, AuthError>(e) && *final(cache) == *old(cache),
            },
    {
        match SpotifyAuthClient::new(cache, authed) {
            Ok(auth) => Ok(SpotifyApiHandler { auth }),
            Err(e) => Err(e),
        }
    }
}

impl ApiHandler for SpotifyApiHandler {
    open spec fn endpoint(&self) -> Seq<char> {
        api_endpoint()
    }

    fn fits<T>(&self, request: &ApiRequest<T>) -> (r: bool) {
        request.fits("https://api.spotify.com/v1")
    }

    /// The request that the call `request` turns into: its URL below the
    /// base of the API, its own headers, then the `Authorization` of the
    /// handler's token and the content type of JSON. The body stays a
    /// value. Where the `url` crate refuses the address, its error comes
    /// back.
    fn make_request<T>(&self, request: ApiRequest<T>) -> (r: Result<
        HttpRequest<T>,
        url::ParseError,
    >)
        ensures
            match r {
                Ok(built) => {
                    &&& url_with_params_text(request.address(api_endpoint()), request.param_pairs())
                        == Some(built.url@)
                    &&& built.method == request.method
                    &&& pair_texts(built.headers@) == request.header_pairs().push(
                        (authorization_header(), self.auth@.auth_text()),
                    ).push(("Content-Type"@, "application/json"@))
                    &&& built.body == request.body
                },
                Err(_) => url_with_params_text(
                    request.address(api_endpoint()),
                    request.param_pairs(),
                ) is None,
            },
    {
        proof {
            self.auth.lemma_authorization();
        }
        match request.build("https://api.spotify.com/v1") {
            Ok(built) => Ok(
                built.auth(&self.auth).header("Content-Type", String::from_str("application/json")),
            ),
            Err(e) => Err(e),
        }
    }
}

} // verus!
