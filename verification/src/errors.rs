//! Error types surfaced to the caller.
//!
//! The query engine itself is total and never fails: the only errors in this
//! library arise while interpreting untrusted external input (an unknown
//! college name, a malformed source document).

use vstd::prelude::*;

verus! {

/// The error returned when a college name does not match any enumerated
/// [`crate::model::College`]. There is no fuzzy matching and no catch-all
/// variant: a name either matches one canonical spelling exactly or the
/// whole request is rejected with this value.
#[derive(Debug, PartialEq, Eq, Structural, Copy, Clone)]
pub struct UnknownCollege;

/// Error type for API responses built on top of this library.
#[derive(Debug, Clone)]
pub enum ApiError {
    /// The request itself was malformed, e.g. it named an unknown college.
    BadRequest(String),
    /// The server failed to produce a response from well-formed input.
    InternalServerError,
}

/// The message a response body carries for each error value.
pub open spec fn api_error_message(e: ApiError) -> Seq<char> {
    match e {
        ApiError::BadRequest(s) => s@,
        ApiError::InternalServerError => "Internal Server Error"@,
    }
}

impl ApiError {
    /// The human-readable message for this error.
    pub fn message(&self) -> (r: String)
        ensures
            r@ == api_error_message(*self),
    {
        match self {
            ApiError::BadRequest(s) => s.clone(),
            ApiError::InternalServerError => "Internal Server Error".to_owned(),
        }
    }
}

} // verus!
