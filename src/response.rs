//! Classification of one HTTP response of the API into a payload or a
//! failure.
use vstd::prelude::*;

use crate::error::AniListError;
use crate::json::{json_text, member, parsed_json, Json};
use crate::text::{contains_text, decimal_value, has_substring, lower_of, lowercase, parse_decimal};

verus! {

/// The raw bytes of the four rate-limit headers of a response, each absent
/// where the response does not carry it.
#[derive(Debug, Clone)]
pub struct RateLimitHeaders {
    /// `X-RateLimit-Limit`
    pub limit: Option<Vec<u8>>,
    /// `X-RateLimit-Remaining`
    pub remaining: Option<Vec<u8>>,
    /// `X-RateLimit-Reset`
    pub reset: Option<Vec<u8>>,
    /// `Retry-After`
    pub retry_after: Option<Vec<u8>>,
}

/// What the transport received for one request.
#[derive(Debug)]
pub struct HttpResponse {
    pub status: u16,
    pub rate_limit: RateLimitHeaders,
    /// The body as text, or the transport's message where it could not be
    /// read.
    pub body: Result<String, String>,
}

/// The value of a header read as a decimal number no larger than `max`, or
/// `fallback` where it does not read as one.
pub open spec fn header_value(h: Seq<u8>, max: int, fallback: int) -> int {
    match decimal_value(h, max) {
        Some(v) => v,
        None => fallback,
    }
}

/// The failure for HTTP 429: detailed where all four headers are present,
/// each header that does not read as a number taking its default (90, 0, 0
/// and 60); simple where any header is missing.
pub open spec fn rate_limit_failure(h: RateLimitHeaders) -> AniListError {
    if h.limit is Some && h.remaining is Some && h.reset is Some && h.retry_after is Some {
        AniListError::RateLimit {
            limit: header_value(h.limit->Some_0@, u32::MAX as int, 90) as u32,
            remaining: header_value(h.remaining->Some_0@, u32::MAX as int, 0) as u32,
            reset_at: header_value(h.reset->Some_0@, u64::MAX as int, 0) as u64,
            retry_after: header_value(h.retry_after->Some_0@, u32::MAX as int, 60) as u32,
        }
    } else {
        AniListError::RateLimitSimple
    }
}

/// The message of one entry of an `errors` array: its `message` member
/// where that is a string, `Unknown error` otherwise.
pub open spec fn entry_message(entry: Json) -> Seq<char> {
    match member(entry, "message"@) {
        Some(Json::Str(s)) => s@,
        _ => "Unknown error"@,
    }
}

/// The messages of the entries, joined with `, `.
pub open spec fn joined_messages(entries: Seq<Json>) -> Seq<char>
    decreases entries.len(),
{
    if entries.len() == 0 {
        Seq::empty()
    } else if entries.len() == 1 {
        entry_message(entries[0])
    } else {
        joined_messages(entries.drop_last()) + ", "@ + entry_message(entries.last())
    }
}

/// One message for the `errors` field of a response: the joined messages
/// of an array, the JSON text of anything else.
pub open spec fn errors_message(errors: Json) -> Seq<char> {
    match errors {
        Json::Array(entries) => joined_messages(entries@),
        other => json_text(other),
    }
}

/// A lower-cased message that speaks of rate limiting.
pub open spec fn speaks_of_rate_limit(lowered: Seq<char>) -> bool {
    has_substring(lowered, "rate limit"@) || has_substring(lowered, "too many requests"@)
}

/// What a successful response hands back: the `data` member, or null.
pub open spec fn data_of(doc: Json) -> Json {
    match member(doc, "data"@) {
        Some(d) => d,
        None => Json::Null,
    }
}

/// The body text, or `fallback` where it could not be read.
pub open spec fn text_or(body: Result<String, String>, fallback: Seq<char>) -> Seq<char> {
    match body {
        Ok(t) => t@,
        Err(_) => fallback,
    }
}

/// The outcome for a response whose status is a success, from its body.
pub open spec fn body_outcome(body: Result<String, String>, r: Result<Json, AniListError>) -> bool {
    match body {
        Err(m) => r == Err::<Json, AniListError>(AniListError::Network { message: m }),
        Ok(text) => match parsed_json(text@) {
            None => r matches Err(AniListError::Json { .. }),
            Some(doc) => match member(doc, "errors"@) {
                Some(errors) => if speaks_of_rate_limit(lower_of(errors_message(errors))) {
                    r == Err::<Json, AniListError>(AniListError::BurstLimit)
                } else {
                    r matches Err(AniListError::GraphQL { message }) && message@ == errors_message(
                        errors,
                    )
                },
                None => r == Ok::<Json, AniListError>(data_of(doc)),
            },
        },
    }
}

/// The outcome of a response, by its status first: success codes go on to
/// the body; 400, 401, 403, 404 and 429 have failures of their own; any
/// other status is a server error with the body text.
pub open spec fn classified(resp: HttpResponse, r: Result<Json, AniListError>) -> bool {
    let s = resp.status;
    if 200 <= s < 300 {
        body_outcome(resp.body, r)
    } else if s == 400 {
        r matches Err(AniListError::BadRequest { message }) && message@ == text_or(
            resp.body,
            "Bad Request"@,
        )
    } else if s == 401 {
        r == Err::<Json, AniListError>(AniListError::AuthenticationRequired)
    } else if s == 403 {
        r == Err::<Json, AniListError>(AniListError::AccessDenied)
    } else if s == 404 {
        r == Err::<Json, AniListError>(AniListError::NotFound)
    } else if s == 429 {
        r == Err::<Json, AniListError>(rate_limit_failure(resp.rate_limit))
    } else {
        r matches Err(AniListError::ServerError { status, message }) && status == s && message@
            == text_or(resp.body, if 500 <= s < 600 { "Server Error"@ } else { "Unknown Error"@ })
    }
}

/// A header read as a decimal number no larger than `max`, or `fallback`.
fn header_or(h: &Vec<u8>, max: u64, fallback: u64) -> (r: u64)
    requires
        fallback <= max,
    ensures
        r as int == header_value(h@, max as int, fallback as int),
        r <= max,
{
    match parse_decimal(h.as_slice(), max) {
        Some(v) => v,
        None => fallback,
    }
}

/// The failure for a response with status 429.
pub fn rate_limit_error(h: &RateLimitHeaders) -> (r: AniListError)
    ensures
        r == rate_limit_failure(*h),
{
    match (&h.limit, &h.remaining, &h.reset, &h.retry_after) {
        (Some(limit), Some(remaining), Some(reset), Some(retry_after)) => AniListError::RateLimit {
            limit: header_or(limit, u32::MAX as u64, 90) as u32,
            remaining: header_or(remaining, u32::MAX as u64, 0) as u32,
            reset_at: header_or(reset, u64::MAX, 0),
            retry_after: header_or(retry_after, u32::MAX as u64, 60) as u32,
        },
        _ => AniListError::RateLimitSimple,
    }
}

/// The message of one entry of an `errors` array.
fn message_of_entry(entry: &Json) -> (r: String)
    ensures
        r@ == entry_message(*entry),
{
    let key = String::from_str("message");
    match entry.get(&key) {
        Some(Json::Str(s)) => s.clone(),
        _ => String::from_str("Unknown error"),
    }
}

/// One message for the `errors` field of a response.
pub fn errors_text(errors: &Json) -> (r: String)
    ensures
        r@ == errors_message(*errors),
{
    match errors {
        Json::Array(entries) => {
            let n = entries.len();
            let mut out = String::new();
            let mut i: usize = 0;
            assert(entries@.subrange(0, 0) =~= Seq::<Json>::empty());
            while i < n
                invariant
                    n == entries@.len(),
                    i <= n,
                    out@ == joined_messages(entries@.subrange(0, i as int)),
                decreases n - i,
            {
                let m = message_of_entry(&entries[i]);
                let ghost prefix = entries@.subrange(0, i + 1);
                assert(prefix.drop_last() =~= entries@.subrange(0, i as int));
                assert(prefix.last() == entries@[i as int]);
                if i > 0 {
                    out.append(", ");
                } else {
                    assert(prefix =~= seq![entries@[0]]);
                }
                out.append(m.as_str());
                i = i + 1;
            }
            assert(entries@.subrange(0, n as int) =~= entries@);
            out
        },
        other => other.to_text(),
    }
}

/// Whether a lower-cased message speaks of rate limiting.
pub fn is_rate_limit_message(lowered: &str) -> (r: bool)
    ensures
        r == speaks_of_rate_limit(lowered@),
{
    contains_text(lowered, "rate limit") || contains_text(lowered, "too many requests")
}

/// The failure for an `errors` field in a response whose status was a
/// success: a burst limit where its message speaks of rate limiting in any
/// case of letters, a GraphQL failure with that message otherwise.
pub fn graphql_failure(errors: &Json) -> (r: AniListError)
    ensures
        if speaks_of_rate_limit(lower_of(errors_message(*errors))) {
            r == AniListError::BurstLimit
        } else {
            r matches AniListError::GraphQL { message } && message@ == errors_message(*errors)
        },
{
    let message = errors_text(errors);
    let lowered = lowercase(message.as_str());
    if is_rate_limit_message(lowered.as_str()) {
        AniListError::BurstLimit
    } else {
        AniListError::GraphQL { message }
    }
}

/// The outcome of a body whose response status was a success.
fn read_body(body: Result<String, String>) -> (r: Result<Json, AniListError>)
    ensures
        body_outcome(body, r),
{
    match body {
        Err(message) => Err(AniListError::Network { message }),
        Ok(text) => match Json::parse(text.as_str()) {
            Err(message) => Err(AniListError::Json { message }),
            Ok(doc) => {
                let errors_key = String::from_str("errors");
                let failure = match doc.get(&errors_key) {
                    Some(errors) => Some(graphql_failure(errors)),
                    None => None,
                };
                match failure {
                    Some(e) => Err(e),
                    None => {
                        let data_key = String::from_str("data");
                        match doc.take_member(&data_key) {
                            Some(d) => Ok(d),
                            None => Ok(Json::Null),
                        }
                    },
                }
            },
        },
    }
}

/// The body text of a failed response, or `fallback` where it could not be
/// read.
fn body_text_or(body: Result<String, String>, fallback: &str) -> (r: String)
    ensures
        r@ == text_or(body, fallback@),
{
    match body {
        Ok(t) => t,
        Err(_) => String::from_str(fallback),
    }
}

/// Classifies one response of the API: the `data` of a successful body, or
/// the failure that the status, the headers or the body show.
pub fn classify_response(resp: HttpResponse) -> (r: Result<Json, AniListError>)
    ensures
        classified(resp, r),
{
    let status = resp.status;
    if 200 <= status && status < 300 {
        read_body(resp.body)
    } else if status == 400 {
        Err(AniListError::BadRequest { message: body_text_or(resp.body, "Bad Request") })
    } else if status == 401 {
        Err(AniListError::AuthenticationRequired)
    } else if status == 403 {
        Err(AniListError::AccessDenied)
    } else if status == 404 {
        Err(AniListError::NotFound)
    } else if status == 429 {
        Err(rate_limit_error(&resp.rate_limit))
    } else if 500 <= status && status < 600 {
        Err(AniListError::ServerError { status, message: body_text_or(resp.body, "Server Error") })
    } else {
        Err(AniListError::ServerError { status, message: body_text_or(resp.body, "Unknown Error") })
    }
}

/// Responses with status 401, 403 and 404 fail as an authentication
/// failure, a denied access and a missing resource, whatever their headers
/// and body.
pub proof fn lemma_status_failures(resp: HttpResponse, r: Result<Json, AniListError>)
    requires
        classified(resp, r),
    ensures
        resp.status == 401 ==> r == Err::<Json, AniListError>(AniListError::AuthenticationRequired),
        resp.status == 403 ==> r == Err::<Json, AniListError>(AniListError::AccessDenied),
        resp.status == 404 ==> r == Err::<Json, AniListError>(AniListError::NotFound),
{
}

/// A response with status 429 whose four rate-limit headers all read as
/// numbers fails with exactly those numbers.
pub proof fn lemma_detailed_rate_limit(
    resp: HttpResponse,
    r: Result<Json, AniListError>,
    limit: u32,
    remaining: u32,
    reset_at: u64,
    retry_after: u32,
)
    requires
        classified(resp, r),
        resp.status == 429,
        resp.rate_limit.limit matches Some(h) && decimal_value(h@, u32::MAX as int) == Some(
            limit as int,
        ),
        resp.rate_limit.remaining matches Some(h) && decimal_value(h@, u32::MAX as int) == Some(
            remaining as int,
        ),
        resp.rate_limit.reset matches Some(h) && decimal_value(h@, u64::MAX as int) == Some(
            reset_at as int,
        ),
        resp.rate_limit.retry_after matches Some(h) && decimal_value(h@, u32::MAX as int) == Some(
            retry_after as int,
        ),
    ensures
        r == Err::<Json, AniListError>(
            AniListError::RateLimit { limit, remaining, reset_at, retry_after },
        ),
{
}

/// A response with status 429 that lacks any of the four rate-limit headers
/// fails with the simple rate limit.
pub proof fn lemma_simple_rate_limit(resp: HttpResponse, r: Result<Json, AniListError>)
    requires
        classified(resp, r),
        resp.status == 429,
        resp.rate_limit.limit is None || resp.rate_limit.remaining is None
            || resp.rate_limit.reset is None || resp.rate_limit.retry_after is None,
    ensures
        r == Err::<Json, AniListError>(AniListError::RateLimitSimple),
{
}

/// Classifying the same successful response twice gives the same payload:
/// the payload depends on the body text alone.
pub proof fn lemma_payload_deterministic(
    resp: HttpResponse,
    r1: Result<Json, AniListError>,
    r2: Result<Json, AniListError>,
)
    requires
        classified(resp, r1),
        classified(resp, r2),
        r1 is Ok,
    ensures
        r1 == r2,
{
}

} // verus!
