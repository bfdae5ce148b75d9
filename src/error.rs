use vstd::prelude::*;

verus! {

/// Everything a resolution can fail with.
#[derive(Debug, Clone, PartialEq, Eq)]
pub enum Error {
    /// The persistent store could not be read or written.
    Storage,
    /// The process configuration could not be read.
    Config,
    /// The store's schema could not be brought up to date.
    Migration,
    /// The upstream rejected the request content; carries the upstream's code.
    BadRequest(String),
    /// The upstream answered in a shape that carries neither a payload nor a known error.
    InternalServer,
    /// The upstream asked to back off.
    TooManyRequests,
    /// The upstream could not be reached.
    Transport,
    /// A call ran past its deadline.
    Timeout,
    /// A path segment was not valid Base64.
    Base64,
    /// Decoded bytes were not valid UTF-8.
    FromUtf8,
    /// The lookup found nothing; carries a message for the caller.
    NotFound(String),
    /// A response body could not be parsed.
    Json,
}

pub const STATUS_BAD_REQUEST: u16 = 400;

pub const STATUS_NOT_FOUND: u16 = 404;

pub const STATUS_TOO_MANY_REQUESTS: u16 = 429;

pub const STATUS_INTERNAL_SERVER_ERROR: u16 = 500;

/// The HTTP status that reports each kind of error.
pub open spec fn status_of(e: Error) -> u16 {
    match e {
        Error::BadRequest(_) | Error::Base64 | Error::FromUtf8 => STATUS_BAD_REQUEST,
        Error::TooManyRequests => STATUS_TOO_MANY_REQUESTS,
        Error::NotFound(_) => STATUS_NOT_FOUND,
        _ => STATUS_INTERNAL_SERVER_ERROR,
    }
}

impl Error {
    pub fn status_code(&self) -> (r: u16)
        ensures
            r == status_of(*self),
    {
        match self {
            Error::BadRequest(_) | Error::Base64 | Error::FromUtf8 => STATUS_BAD_REQUEST,
            Error::TooManyRequests => STATUS_TOO_MANY_REQUESTS,
            Error::NotFound(_) => STATUS_NOT_FOUND,
            Error::Storage | Error::Config | Error::Migration | Error::InternalServer
            | Error::Transport | Error::Timeout | Error::Json => STATUS_INTERNAL_SERVER_ERROR,
        }
    }

    /// Whether the error is a fault on this side, worth a warning in the log.
    pub fn is_internal(&self) -> (r: bool)
        ensures
            r == (status_of(*self) == STATUS_INTERNAL_SERVER_ERROR),
    {
        self.status_code() == STATUS_INTERNAL_SERVER_ERROR
    }
}

} // verus!
