//! The request executor.
//!
//! Every endpoint reduces to one run of this pipeline: describe the request
//! (address, method, optional encoded body), let a transport perform it,
//! then classify the transport's outcome and decode the body.  The
//! classification and decoding half is the executor proper: it is one
//! generic function, so every endpoint shares identical error handling.

use vstd::prelude::*;

use crate::error::APIResult;
use crate::error::Error;
use crate::wire::Decoded;
use crate::wire::Wire;
use crate::wire::decoded_deep_view;

verus! {

/// HTTP method of a request.
#[derive(Clone, Copy, Debug, PartialEq, Eq, Structural)]
pub enum Method {
    Get,
    Post,
    Put,
    Delete,
}

/// Everything a transport needs to perform one request: the full address,
/// the method, and the encoded body, if any.
pub struct RequestDescriptor {
    pub url: String,
    pub method: Method,
    pub body: Option<String>,
}

/// What came back from reading a 200 response's body.
pub enum BodyRead {
    /// The whole body, as text.
    Text(String),
    /// Reading the body failed mid-stream.
    Failed,
}

/// A transport's account of one request/response cycle.  Each failure
/// variant names the step of the cycle that failed; a response carries the
/// status code and, when the status was 200, the outcome of reading the
/// body (for any other status the body is not read and is ignored here).
pub enum WireOutcome {
    /// The request could not be created.
    ConnectFailed,
    /// The request stream could not be started.
    StartFailed,
    /// Writing the encoded body onto the stream failed.
    WriteFailed,
    /// Sending the request or obtaining a response failed.
    SendFailed,
    /// A response arrived with this status code.
    Response(u16, BodyRead),
}

/// The text of an optional request body.
pub open spec fn body_text(b: Option<String>) -> Option<Seq<char>> {
    match b {
        Some(s) => Some(s@),
        None => None,
    }
}

/// The executor's request half: fixes the address and the method, and
/// encodes the body, if one is present.  Endpoints differ only in the
/// address, the method and the payload types they hand the two halves.
pub fn prepare<T: Wire>(url: String, body: Option<&T>, method: Method) -> (r: RequestDescriptor)
    ensures
        r.url@ == url@,
        r.method == method,
        (match (body, r.body) {
            (Some(v), Some(s)) => s@ == T::wire_spec(v.deep_view()),
            (None, None) => true,
            _ => false,
        }),
{
    let encoded = match body {
        Some(v) => Some(v.encode()),
        None => None,
    };
    RequestDescriptor { url, method, body: encoded }
}

/// Describes a GET; a GET never carries a body.
pub fn prepare_get(url: String) -> (r: RequestDescriptor)
    ensures
        r.url@ == url@,
        r.method == Method::Get,
        r.body is None,
{
    prepare(url, None::<&String>, Method::Get)
}

/// Describes a POST with an optional body.
pub fn prepare_post<T: Wire>(url: String, body: Option<&T>) -> (r: RequestDescriptor)
    ensures
        r.url@ == url@,
        r.method == Method::Post,
        (match (body, r.body) {
            (Some(v), Some(s)) => s@ == T::wire_spec(v.deep_view()),
            (None, None) => true,
            _ => false,
        }),
{
    prepare(url, body, Method::Post)
}

/// Describes a PUT with an optional body.
pub fn prepare_put<T: Wire>(url: String, body: Option<&T>) -> (r: RequestDescriptor)
    ensures
        r.url@ == url@,
        r.method == Method::Put,
        (match (body, r.body) {
            (Some(v), Some(s)) => s@ == T::wire_spec(v.deep_view()),
            (None, None) => true,
            _ => false,
        }),
{
    prepare(url, body, Method::Put)
}

/// Describes a DELETE with an optional body.
pub fn prepare_delete<T: Wire>(url: String, body: Option<&T>) -> (r: RequestDescriptor)
    ensures
        r.url@ == url@,
        r.method == Method::Delete,
        (match (body, r.body) {
            (Some(v), Some(s)) => s@ == T::wire_spec(v.deep_view()),
            (None, None) => true,
            _ => false,
        }),
{
    prepare(url, body, Method::Delete)
}

/// What one executor run returns, as a function of the transport's
/// outcome: the status-to-error mapping, then the decode of the body.
pub open spec fn execute_spec<U: Wire>(w: WireOutcome) -> Result<U::V, Error> {
    match w {
        WireOutcome::ConnectFailed => Err(Error::HttpError),
        WireOutcome::StartFailed => Err(Error::HttpError),
        WireOutcome::WriteFailed => Err(Error::IoError),
        WireOutcome::SendFailed => Err(Error::HttpError),
        WireOutcome::Response(status, body) => if status == 404 {
            Err(Error::NotFound)
        } else if status == 500 {
            Err(Error::InternalError)
        } else if status == 401 {
            Err(Error::AuthError)
        } else if status != 200 {
            Err(Error::ApiSaidNo)
        } else {
            match body {
                BodyRead::Failed => Err(Error::IoError),
                BodyRead::Text(s) => match U::decode_spec(s@) {
                    Decoded::Value(v) => Ok(v),
                    Decoded::Null => Err(Error::GotNull),
                    Decoded::Invalid => Err(Error::JsonError),
                },
            }
        },
    }
}

/// The deep view of an executor result.
pub open spec fn result_deep_view<U: DeepView>(r: Result<U, Error>) -> Result<U::V, Error> {
    match r {
        Ok(v) => Ok(v.deep_view()),
        Err(e) => Err(e),
    }
}

/// The executor's decision half: classifies the transport's outcome and
/// decodes the response body into a `U`.
pub fn execute<U: Wire>(w: WireOutcome) -> (r: APIResult<U>)
    ensures
        result_deep_view(r) == execute_spec::<U>(w),
{
    match w {
        WireOutcome::ConnectFailed => Err(Error::HttpError),
        WireOutcome::StartFailed => Err(Error::HttpError),
        WireOutcome::WriteFailed => Err(Error::IoError),
        WireOutcome::SendFailed => Err(Error::HttpError),
        WireOutcome::Response(status, body) => if status == 404 {
            Err(Error::NotFound)
        } else if status == 500 {
            Err(Error::InternalError)
        } else if status == 401 {
            Err(Error::AuthError)
        } else if status != 200 {
            Err(Error::ApiSaidNo)
        } else {
            match body {
                BodyRead::Failed => Err(Error::IoError),
                BodyRead::Text(s) => match U::decode(s.as_str()) {
                    Decoded::Value(v) => Ok(v),
                    Decoded::Null => Err(Error::GotNull),
                    Decoded::Invalid => Err(Error::JsonError),
                },
            }
        },
    }
}

/// Law: the status-to-error mapping is exhaustive and exact.  404, 500 and
/// 401 map to their own errors, any other non-200 status is a generic
/// rejection, and a 200 is decided by the body alone: a read failure is an
/// I/O error, an empty-or-null body where a value is expected is
/// `GotNull`, an undecodable body is `JsonError`, and otherwise the
/// decoded value comes back.
pub proof fn lemma_status_mapping<U: Wire>(status: u16, body: BodyRead)
    ensures
        status == 404 ==> execute_spec::<U>(WireOutcome::Response(status, body)) == Err::<
            U::V,
            Error,
        >(Error::NotFound),
        status == 500 ==> execute_spec::<U>(WireOutcome::Response(status, body)) == Err::<
            U::V,
            Error,
        >(Error::InternalError),
        status == 401 ==> execute_spec::<U>(WireOutcome::Response(status, body)) == Err::<
            U::V,
            Error,
        >(Error::AuthError),
        status != 200 && status != 401 && status != 404 && status != 500
            ==> execute_spec::<U>(WireOutcome::Response(status, body)) == Err::<
            U::V,
            Error,
        >(Error::ApiSaidNo),
        status == 200 ==> execute_spec::<U>(WireOutcome::Response(status, body)) == (match body {
            BodyRead::Failed => Err::<U::V, Error>(Error::IoError),
            BodyRead::Text(s) => match U::decode_spec(s@) {
                Decoded::Value(v) => Ok(v),
                Decoded::Null => Err(Error::GotNull),
                Decoded::Invalid => Err(Error::JsonError),
            },
        }),
{
}

} // verus!
