//! The web service: the error type shared by the general API, the success
//! envelope, and the endpoint logic of each API family.

use vstd::prelude::*;

pub mod api;
pub mod frontend;
pub mod phenocryst;
pub mod types;
pub mod validation;
pub mod yggdrasil;

verus! {

/// The error returned by the general web API: an HTTP status code and a
/// human-readable reason, rendered as `{ "success": false, "reason": .. }`.
#[derive(Clone)]
pub struct Error {
    status: u16,
    reason: String,
}

/// A status code that an HTTP status line can carry (three digits).
pub open spec fn valid_status(status: int) -> bool {
    100 <= status <= 999
}

impl View for Error {
    type V = (u16, Seq<char>);

    closed spec fn view(&self) -> (u16, Seq<char>) {
        (self.status, self.reason@)
    }
}

impl Error {
    /// Construct a new Error.
    pub fn new(status: u16, reason: &str) -> (e: Self)
        requires
            valid_status(status as int),
        ensures
            e@ == (status, reason@),
    {
        Error { status, reason: reason.to_owned() }
    }

    /// Construct a new Error with the status code given as a number.
    ///
    /// The status code must have three digits, as an HTTP status line requires.
    pub fn error(status: u16, reason: &str) -> (e: Self)
        requires
            valid_status(status as int),
        ensures
            e@ == (status, reason@),
    {
        Error { status, reason: reason.to_owned() }
    }

    /// Construct an Error that takes ownership of an already built reason.
    pub fn with_reason(status: u16, reason: String) -> (e: Self)
        requires
            valid_status(status as int),
        ensures
            e@ == (status, reason@),
    {
        Error { status, reason }
    }

    /// The HTTP status code of this error.
    pub fn status(&self) -> (s: u16)
        ensures
            s == self@.0,
    {
        self.status
    }

    /// The reason text of this error.
    pub fn reason(&self) -> (r: &str)
        ensures
            r@ == self@.1,
    {
        self.reason.as_str()
    }
}

/// The success envelope of the general API: the payload is rendered as
/// `{ "success": true, "payload": .. }`.
pub struct ApiResponse<T> {
    pub payload: T,
}

impl<T> From<T> for ApiResponse<T> {
    fn from(payload: T) -> (r: Self) {
        ApiResponse { payload }
    }
}

impl<T> vstd::std_specs::convert::FromSpecImpl<T> for ApiResponse<T> {
    open spec fn obeys_from_spec() -> bool {
        true
    }

    open spec fn from_spec(v: T) -> Self {
        ApiResponse { payload: v }
    }
}

} // verus!
