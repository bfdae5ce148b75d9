use vstd::prelude::*;

verus! {

/// What one upstream call came to, classified once at the client boundary.
#[derive(Debug, Clone, PartialEq, Eq)]
pub enum UpstreamOutcome<T> {
    /// The upstream answered with a payload.
    Success(T),
    /// The upstream understood the query and found nothing.
    NotFound,
    /// The upstream asked to back off.
    RateLimited,
    /// The upstream rejected the request content with a code.
    Rejected(String),
    /// No payload and no recognisable error, or the call itself failed.
    ServerError,
}

} // verus!
