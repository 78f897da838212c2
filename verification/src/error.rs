//! The closed error taxonomy of the request pipeline.

use vstd::prelude::*;

verus! {

/// Error type for API calls.
///
/// Failure can come from the HTTP transport, from decoding the response
/// body, or from the Alexandria server itself.  Business-level negative
/// outcomes (a missing book, a rejected checkout, a duplicate ISBN) are not
/// errors: they come back as `Option`/`bool` values in the success channel.
#[derive(Clone, Copy, Debug, PartialEq, Eq, Structural)]
pub enum Error {
    /// Connection or request-lifecycle failure at the transport layer.
    HttpError,
    /// The response body was not a valid encoding of the expected payload.
    JsonError,
    /// Failure reading or writing bytes on an otherwise-open stream.
    IoError,
    /// The server responded 404.
    NotFound,
    /// The server responded 500.
    InternalError,
    /// The server didn't return HTTP 200, something went wrong.
    ApiSaidNo,
    /// Couldn't authenticate with the given credentials (HTTP 401).
    AuthError,
    /// For some reason, it returned HTTP 200 but also null.
    GotNull,
}

pub type APIResult<T> = Result<T, Error>;

} // verus!
