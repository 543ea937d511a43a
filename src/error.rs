//! The closed set of failures that a call to the API can end in.
use vstd::prelude::*;

verus! {

/// Every way in which one call to the API can fail.
#[derive(Debug, Clone, PartialEq)]
pub enum AniListError {
    /// The request could not be sent, or the response could not be read.
    Network { message: String },
    /// The response body is not a JSON document.
    Json { message: String },
    /// The API reported errors in the `errors` field of a response body.
    GraphQL { message: String },
    /// HTTP 429 with all four rate-limit headers.
    RateLimit { limit: u32, remaining: u32, reset_at: u64, retry_after: u32 },
    /// HTTP 429 without the full set of rate-limit headers.
    RateLimitSimple,
    /// A rate-limit message inside a response whose status was a success.
    BurstLimit,
    /// HTTP 404.
    NotFound,
    /// HTTP 401.
    AuthenticationRequired,
    /// HTTP 403.
    AccessDenied,
    /// HTTP 400, with the body text.
    BadRequest { message: String },
    /// Any other status outside the success range, with the body text.
    ServerError { status: u16, message: String },
}

impl AniListError {
    /// The failures that may clear up by waiting: the three rate-limit kinds.
    pub open spec fn is_rate_limited(&self) -> bool {
        match self {
            AniListError::RateLimit { .. } => true,
            AniListError::RateLimitSimple => true,
            AniListError::BurstLimit => true,
            _ => false,
        }
    }

    /// Whether waiting and asking again may help.
    pub fn is_retryable(&self) -> (r: bool)
        ensures
            r == self.is_rate_limited(),
    {
        match self {
            AniListError::RateLimit { .. } => true,
            AniListError::RateLimitSimple => true,
            AniListError::BurstLimit => true,
            _ => false,
        }
    }
}

} // verus!
