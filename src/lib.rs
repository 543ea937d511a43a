//! A typed client core for the AniList GraphQL API: the error taxonomy, the
//! body of a request, the classification of a response into its payload or
//! a failure, the decisions of the retry and backoff loop, and the data that
//! the API returns.
pub mod error;
pub mod json;
pub mod models;
pub mod request;
pub mod response;
pub mod retry;
pub mod text;

pub use error::AniListError;
pub use json::Json;
pub use request::{bearer_header, RequestEnvelope};
pub use response::{classify_response, HttpResponse, RateLimitHeaders};
pub use retry::{calculate_delay, RetryConfig, RetryState, RetryStep};
