//! What turns the description of a call into a request.

use vstd::prelude::*;
use crate::api_spec::{ApiRequest, HttpRequest};
use crate::encoding::url_with_params_text;

verus! {

/// A handler of calls to an API: it knows the base address and signs.
pub trait ApiHandler {
    /// The base address of the API.
    spec fn endpoint(&self) -> Seq<char>;

    /// Whether the call `request` is short enough to be made into a request
    /// below the base address.
    fn fits<T>(&self, request: &ApiRequest<T>) -> (r: bool)
        ensures
            r == request.url_fits(self.endpoint()),
    ;

    /// The request that the call `request` turns into, or the error of the
    /// `url` crate where the address is no URL. The URL is what that crate
    /// makes of the address below the base and of the query parameters;
    /// method and body are those of the description.
    fn make_request<T>(&self, request: ApiRequest<T>) -> (r: Result<HttpRequest<T>, url::ParseError>)
        requires
            request.url_fits(self.endpoint()),
        ensures
            match r {
                Ok(built) => {
                    &&& url_with_params_text(
                        request.address(self.endpoint()),
                        request.param_pairs(),
                    ) == Some(built.url@)
                    &&& built.method == request.method
                    &&& built.body == request.body
                },
                Err(_) => url_with_params_text(
                    request.address(self.endpoint()),
                    request.param_pairs(),
                ) is None,
            },
    ;
}

} // verus!
