//! The authority's error type and the HTTP status each kind renders as.
//!
//! `Internal` carries its cause for the server log only: it renders as a bare
//! "internal error", so a SQL string, a path or a credential never reaches a client.

use vstd::prelude::*;

verus! {

/// Every way an authority request can fail.
#[derive(Debug)]
pub enum Error {
    BadRequest(String),
    Unauthorized,
    /// The caller has spent its attempts for this address in the current window.
    ///
    /// Indistinguishable between an address that has an account and one that does not,
    /// because the limit is counted before anything is looked up.
    TooManyRequests,
    Forbidden,
    NotFound,
    Conflict(String),
    Internal(String),
}

/// The result type every request returns.
pub type Result<T> = core::result::Result<T, Error>;

/// The HTTP status of each kind of error.
pub open spec fn status_of(e: Error) -> u16 {
    match e {
        Error::BadRequest(_) => 400,
        Error::Unauthorized => 401,
        Error::TooManyRequests => 429,
        Error::Forbidden => 403,
        Error::NotFound => 404,
        Error::Conflict(_) => 409,
        Error::Internal(_) => 500,
    }
}

/// The text a client sees for each kind of error. An internal cause is never shown.
pub open spec fn client_text(e: Error) -> Seq<char> {
    match e {
        Error::BadRequest(m) => m@,
        Error::Unauthorized => "unauthorized"@,
        Error::TooManyRequests => "too many attempts; try again later"@,
        Error::Forbidden => "forbidden"@,
        Error::NotFound => "not found"@,
        Error::Conflict(m) => m@,
        Error::Internal(_) => "internal error"@,
    }
}

impl Error {
    /// The HTTP status this error renders as.
    pub fn status(&self) -> (code: u16)
        ensures
            code == status_of(*self),
    {
        match self {
            Error::BadRequest(_) => 400,
            Error::Unauthorized => 401,
            Error::TooManyRequests => 429,
            Error::Forbidden => 403,
            Error::NotFound => 404,
            Error::Conflict(_) => 409,
            Error::Internal(_) => 500,
        }
    }

    /// The message a client sees: the error's own text, with internal causes redacted.
    pub fn message(&self) -> (text: String)
        ensures
            text@ == client_text(*self),
    {
        match self {
            Error::BadRequest(m) => m.clone(),
            Error::Unauthorized => "unauthorized".to_owned(),
            Error::TooManyRequests => "too many attempts; try again later".to_owned(),
            Error::Forbidden => "forbidden".to_owned(),
            Error::NotFound => "not found".to_owned(),
            Error::Conflict(m) => m.clone(),
            Error::Internal(_) => "internal error".to_owned(),
        }
    }

}

} // verus!
