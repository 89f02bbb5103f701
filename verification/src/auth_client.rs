//! What signs a request.

use vstd::prelude::*;
use crate::api_spec::HttpRequest;
use crate::params::pair_texts;

verus! {

/// The name of the header that carries the credentials of a request.
pub open spec fn authorization_header() -> Seq<char> {
    "Authorization"@
}

/// A client that signs requests with its credentials.
pub trait AuthClient {
    /// The value of the `Authorization` header that the client signs with.
    spec fn authorization(&self) -> Seq<char>;

    /// The request, signed: one `Authorization` header more, at the end,
    /// and nothing else changed.
    fn add_auth<T>(&self, request: HttpRequest<T>) -> (r: HttpRequest<T>)
        ensures
            r.method == request.method,
            r.url == request.url,
            r.body == request.body,
            pair_texts(r.headers@) == pair_texts(request.headers@).push(
                (authorization_header(), self.authorization()),
            ),
    ;
}

impl<T> HttpRequest<T> {
    /// The request, signed by `client`.
    pub fn auth<C: AuthClient>(self, client: &C) -> (r: Self)
        ensures
            r.method == self.method,
            r.url == self.url,
            r.body == self.body,
            pair_texts(r.headers@) == pair_texts(self.headers@).push(
                (authorization_header(), client.authorization()),
            ),
    {
        client.add_auth(self)
    }
}

} // verus!
