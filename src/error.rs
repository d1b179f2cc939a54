//! The error kinds that every operation of the library reports.
use vstd::prelude::*;
use vstd::string::StringExecFns;

verus! {

/// What went wrong in an operation; each variant carries the underlying cause
/// as text.
#[derive(Debug, Clone, PartialEq, Eq)]
pub enum Error {
    /// An input or returned URL failed decoding or parsing.
    BadUrl(String),
    /// The transport failed, or a reply body could not be decoded.
    ResponseError(String),
    /// The shorten operation failed end to end.
    ShortenError(String),
    /// The expand operation failed end to end.
    ExpandError(String),
}

/// The short description of an error kind.
pub open spec fn description_of(e: Error) -> Seq<char> {
    match e {
        Error::BadUrl(_) => "Url is not valid"@,
        Error::ResponseError(_) => "Got response error"@,
        Error::ShortenError(_) => "Got shorten error"@,
        Error::ExpandError(_) => "Got expand error"@,
    }
}

/// The full message of an error: its kind followed by its cause.
pub open spec fn message_of(e: Error) -> Seq<char> {
    match e {
        Error::BadUrl(s) => "Url "@ + s@ + " is not valid"@,
        Error::ResponseError(s) => "Got response error: "@ + s@,
        Error::ShortenError(s) => "Got shorten error: "@ + s@,
        Error::ExpandError(s) => "Got expand error: "@ + s@,
    }
}

impl Error {
    /// The short description of this error's kind.
    pub fn description(&self) -> (r: &'static str)
        ensures
            r@ == description_of(*self),
    {
        match self {
            Error::BadUrl(_) => "Url is not valid",
            Error::ResponseError(_) => "Got response error",
            Error::ShortenError(_) => "Got shorten error",
            Error::ExpandError(_) => "Got expand error",
        }
    }

    /// The human-readable message of this error.
    pub fn message(&self) -> (r: String)
        ensures
            r@ == message_of(*self),
    {
        match self {
            Error::BadUrl(s) => String::from_str("Url ").concat(s.as_str()).concat(" is not valid"),
            Error::ResponseError(s) => String::from_str("Got response error: ").concat(s.as_str()),
            Error::ShortenError(s) => String::from_str("Got shorten error: ").concat(s.as_str()),
            Error::ExpandError(s) => String::from_str("Got expand error: ").concat(s.as_str()),
        }
    }
}

} // verus!
