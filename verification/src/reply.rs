use crate::service::{dependency_name, Dependency};
use vstd::prelude::*;

verus! {

/// `200 OK`.
pub const STATUS_OK: u16 = 200;

/// `422 Unprocessable Entity`.
pub const STATUS_UNPROCESSABLE_ENTITY: u16 = 422;

/// `500 Internal Server Error`.
pub const STATUS_INTERNAL_SERVER_ERROR: u16 = 500;

/// `502 Bad Gateway`.
pub const STATUS_BAD_GATEWAY: u16 = 502;

/// `503 Service Unavailable`.
pub const STATUS_SERVICE_UNAVAILABLE: u16 = 503;

/// Whether `code` is a status code that HTTP can carry (three digits).
pub open spec fn is_valid_status(code: u16) -> bool {
    100 <= code <= 999
}

/// Validates `code` as an HTTP status code with
/// `axum::http::StatusCode::from_u16`, and gives back its number.
///
/// Trusted: `from_u16` accepts exactly the codes from 100 to 999 and the
/// accepted code's `as_u16` is the code itself (http 1.x source).
#[verifier::external_body]
fn status_code_from_u16(code: u16) -> (status: Option<u16>)
    ensures
        status == (if is_valid_status(code) { Some(code) } else { None::<u16> }),
{
    match axum::http::StatusCode::from_u16(code) {
        Ok(status) => Some(status.as_u16()),
        Err(_) => None,
    }
}

/// The body of a successful answer: the request's values as they were sent,
/// the requested percentile, and the result.
pub struct PercentileResponse<T, F> {
    pub values: Vec<T>,
    pub p: F,
    pub result: F,
}

/// The answer this service gives to one evaluation request.
///
/// `T` is the type of a list element, `F` that of a number, `B` that of a
/// dependency's reply body.
pub enum Reply<T, F, B> {
    /// `200`: the percentile was computed.
    Computed(PercentileResponse<T, F>),
    /// `422`: the list of values is empty.
    EmptyValues,
    /// A dependency's answer passed on verbatim, with its status.
    Forwarded { status: u16, body: B },
    /// `500`: a dependency answered, but without a usable result.
    NoResult { dependency: Dependency },
    /// `503`: a dependency could not be reached or answered unexpectedly.
    Degraded { dependency: Dependency },
}

/// The HTTP status of a reply.
pub open spec fn reply_status<T, F, B>(reply: Reply<T, F, B>) -> u16 {
    match reply {
        Reply::Computed(_) => STATUS_OK,
        Reply::EmptyValues => STATUS_UNPROCESSABLE_ENTITY,
        Reply::Forwarded { status, .. } => status,
        Reply::NoResult { .. } => STATUS_INTERNAL_SERVER_ERROR,
        Reply::Degraded { .. } => STATUS_SERVICE_UNAVAILABLE,
    }
}

/// The text of the `error` field of a reply's body, for the replies whose body
/// this service writes itself and that report an error.
pub open spec fn reply_error<T, F, B>(reply: Reply<T, F, B>) -> Option<Seq<char>> {
    match reply {
        Reply::EmptyValues => Some("values must be a non-empty list"@),
        Reply::NoResult { dependency } => Some(
            dependency_name(dependency) + " returned no usable result"@,
        ),
        Reply::Degraded { .. } => Some("dependency unavailable"@),
        _ => None,
    }
}

impl<T, F, B> Reply<T, F, B> {
    /// The HTTP status of this reply.
    pub fn status(&self) -> (status: u16)
        ensures
            status == reply_status(*self),
    {
        match self {
            Reply::Computed(_) => STATUS_OK,
            Reply::EmptyValues => STATUS_UNPROCESSABLE_ENTITY,
            Reply::Forwarded { status, .. } => *status,
            Reply::NoResult { .. } => STATUS_INTERNAL_SERVER_ERROR,
            Reply::Degraded { .. } => STATUS_SERVICE_UNAVAILABLE,
        }
    }

    /// The `error` text of this reply's body, where this service writes the
    /// body and reports an error.
    pub fn error_message(&self) -> (message: Option<String>)
        ensures
            match message {
                Some(m) => reply_error(*self) == Some(m@),
                None => reply_error(*self) is None,
            },
    {
        match self {
            Reply::EmptyValues => Some(String::from_str("values must be a non-empty list")),
            Reply::NoResult { dependency } => {
                let name = String::from_str(dependency.name());
                Some(name.concat(" returned no usable result"))
            },
            Reply::Degraded { .. } => Some(String::from_str("dependency unavailable")),
            _ => None,
        }
    }
}

/// The reply for a dependency that is unavailable.
pub fn degraded<T, F, B>(dependency: Dependency) -> (reply: Reply<T, F, B>)
    ensures
        reply == (Reply::<T, F, B>::Degraded { dependency }),
{
    Reply::Degraded { dependency }
}

/// The reply for a dependency that answered without a usable result.
pub fn no_result<T, F, B>(dependency: Dependency) -> (reply: Reply<T, F, B>)
    ensures
        reply == (Reply::<T, F, B>::NoResult { dependency }),
{
    Reply::NoResult { dependency }
}

/// The status under which a dependency's answer is passed on: its own where
/// HTTP can carry it, `502 Bad Gateway` otherwise.
pub open spec fn forwarded_status(status: u16) -> u16 {
    if is_valid_status(status) {
        status
    } else {
        STATUS_BAD_GATEWAY
    }
}

/// Passes a dependency's answer on verbatim.
pub fn forward<T, F, B>(status: u16, body: B) -> (reply: Reply<T, F, B>)
    ensures
        reply == (Reply::<T, F, B>::Forwarded { status: forwarded_status(status), body }),
{
    let code = match status_code_from_u16(status) {
        Some(code) => code,
        None => STATUS_BAD_GATEWAY,
    };
    Reply::Forwarded { status: code, body }
}

} // verus!
