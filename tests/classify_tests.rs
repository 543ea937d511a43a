use anilist_sdk::json::Json;
use anilist_sdk::response::{errors_text, graphql_failure, is_rate_limit_message, rate_limit_error};
use anilist_sdk::{classify_response, AniListError, HttpResponse, RateLimitHeaders};

fn no_headers() -> RateLimitHeaders {
    RateLimitHeaders { limit: None, remaining: None, reset: None, retry_after: None }
}

fn response(status: u16, body: &str) -> HttpResponse {
    HttpResponse { status, rate_limit: no_headers(), body: Ok(body.to_string()) }
}

fn unreadable(status: u16) -> HttpResponse {
    HttpResponse { status, rate_limit: no_headers(), body: Err("connection reset".to_string()) }
}

fn headers(limit: Option<&str>, remaining: Option<&str>, reset: Option<&str>, retry: Option<&str>) -> RateLimitHeaders {
    RateLimitHeaders {
        limit: limit.map(|s| s.as_bytes().to_vec()),
        remaining: remaining.map(|s| s.as_bytes().to_vec()),
        reset: reset.map(|s| s.as_bytes().to_vec()),
        retry_after: retry.map(|s| s.as_bytes().to_vec()),
    }
}

fn parse(text: &str) -> Json {
    Json::parse(text).expect("valid JSON")
}

#[test]
fn status_401_is_authentication_required() {
    let r = classify_response(response(401, r#"{"data": {"Media": {"id": 5}}}"#));
    assert_eq!(r, Err(AniListError::AuthenticationRequired));
}

#[test]
fn status_403_is_access_denied() {
    let r = classify_response(response(403, "anything at all"));
    assert_eq!(r, Err(AniListError::AccessDenied));
}

#[test]
fn status_404_is_not_found() {
    let r = classify_response(unreadable(404));
    assert_eq!(r, Err(AniListError::NotFound));
}

#[test]
fn status_429_with_all_headers_is_detailed() {
    let resp = HttpResponse {
        status: 429,
        rate_limit: headers(Some("90"), Some("0"), Some("1700000000"), Some("5")),
        body: Ok(String::new()),
    };
    let r = classify_response(resp);
    assert_eq!(
        r,
        Err(AniListError::RateLimit { limit: 90, remaining: 0, reset_at: 1700000000, retry_after: 5 })
    );
}

#[test]
fn status_429_unparseable_headers_take_defaults() {
    let h = headers(Some("many"), Some("-1"), Some(""), Some("soon"));
    assert_eq!(
        rate_limit_error(&h),
        AniListError::RateLimit { limit: 90, remaining: 0, reset_at: 0, retry_after: 60 }
    );
}

#[test]
fn status_429_header_numbers_follow_integer_parsing() {
    let h = headers(Some("+7"), Some("007"), Some("18446744073709551615"), Some("4294967296"));
    assert_eq!(
        rate_limit_error(&h),
        AniListError::RateLimit { limit: 7, remaining: 7, reset_at: 18446744073709551615, retry_after: 60 }
    );
}

#[test]
fn status_429_missing_any_header_is_simple() {
    for h in [
        headers(None, Some("1"), Some("2"), Some("3")),
        headers(Some("1"), None, Some("2"), Some("3")),
        headers(Some("1"), Some("2"), None, Some("3")),
        headers(Some("1"), Some("2"), Some("3"), None),
    ] {
        let resp = HttpResponse { status: 429, rate_limit: h, body: Ok(String::new()) };
        assert_eq!(classify_response(resp), Err(AniListError::RateLimitSimple));
    }
}

#[test]
fn too_many_requests_in_body_is_burst_limit() {
    let r = classify_response(response(200, r#"{"errors": [{"message": "Too Many Requests"}]}"#));
    assert_eq!(r, Err(AniListError::BurstLimit));
}

#[test]
fn rate_limit_phrase_in_any_case_is_burst_limit() {
    let r = classify_response(response(200, r#"{"errors": [{"message": "RATE LIMIT exceeded"}]}"#));
    assert_eq!(r, Err(AniListError::BurstLimit));
}

#[test]
fn graphql_error_keeps_message() {
    let r = classify_response(response(200, r#"{"errors": [{"message": "Invalid ID"}]}"#));
    assert_eq!(r, Err(AniListError::GraphQL { message: "Invalid ID".to_string() }));
}

#[test]
fn graphql_messages_are_joined() {
    let r = classify_response(response(
        201,
        r#"{"errors": [{"message": "first"}, {"status": 400}, {"message": "third"}]}"#,
    ));
    assert_eq!(r, Err(AniListError::GraphQL { message: "first, Unknown error, third".to_string() }));
}

#[test]
fn non_array_errors_are_printed_as_json() {
    let r = classify_response(response(200, r#"{"errors": {"message": "x"}}"#));
    assert_eq!(r, Err(AniListError::GraphQL { message: r#"{"message":"x"}"#.to_string() }));
}

#[test]
fn success_returns_data_member() {
    let r = classify_response(response(200, r#"{"data": {"Media": {"id": 5}}}"#));
    assert_eq!(r, Ok(parse(r#"{"Media": {"id": 5}}"#)));
}

#[test]
fn success_payload_is_the_same_on_reparse() {
    let body = r#"{"data": {"Media": {"id": 5, "title": "x"}}}"#;
    let a = classify_response(response(200, body));
    let b = classify_response(response(200, body));
    assert_eq!(a, b);
    assert!(a.is_ok());
}

#[test]
fn success_without_data_is_null() {
    let r = classify_response(response(299, r#"{"extensions": {}}"#));
    assert_eq!(r, Ok(Json::Null));
}

#[test]
fn malformed_body_is_json_error() {
    let r = classify_response(response(200, "{not json"));
    assert!(matches!(r, Err(AniListError::Json { .. })));
}

#[test]
fn unreadable_success_body_is_network_error() {
    let r = classify_response(unreadable(200));
    assert_eq!(r, Err(AniListError::Network { message: "connection reset".to_string() }));
}

#[test]
fn status_400_carries_body() {
    let r = classify_response(response(400, "bad variables"));
    assert_eq!(r, Err(AniListError::BadRequest { message: "bad variables".to_string() }));
    let r = classify_response(unreadable(400));
    assert_eq!(r, Err(AniListError::BadRequest { message: "Bad Request".to_string() }));
}

#[test]
fn status_5xx_is_server_error() {
    let r = classify_response(response(503, "maintenance"));
    assert_eq!(r, Err(AniListError::ServerError { status: 503, message: "maintenance".to_string() }));
    let r = classify_response(unreadable(500));
    assert_eq!(r, Err(AniListError::ServerError { status: 500, message: "Server Error".to_string() }));
}

#[test]
fn other_status_is_server_error() {
    let r = classify_response(unreadable(302));
    assert_eq!(r, Err(AniListError::ServerError { status: 302, message: "Unknown Error".to_string() }));
    let r = classify_response(response(418, "teapot"));
    assert_eq!(r, Err(AniListError::ServerError { status: 418, message: "teapot".to_string() }));
}

#[test]
fn errors_text_of_array_and_other() {
    assert_eq!(errors_text(&parse(r#"[{"message": "a"}, {"message": "b"}]"#)), "a, b");
    assert_eq!(errors_text(&parse(r#"[]"#)), "");
    assert_eq!(errors_text(&parse(r#"[{"message": 3}]"#)), "Unknown error");
    assert_eq!(errors_text(&parse(r#""oops""#)), "\"oops\"");
}

#[test]
fn graphql_failure_lowercases_before_matching() {
    assert_eq!(graphql_failure(&parse(r#"[{"message": "Rate Limit"}]"#)), AniListError::BurstLimit);
    assert_eq!(
        graphql_failure(&parse(r#"[{"message": "Rate-limit"}]"#)),
        AniListError::GraphQL { message: "Rate-limit".to_string() }
    );
}

#[test]
fn rate_limit_message_needs_lowercase_phrase() {
    assert!(is_rate_limit_message("you hit the rate limit"));
    assert!(is_rate_limit_message("too many requests"));
    assert!(!is_rate_limit_message("Too Many Requests"));
    assert!(!is_rate_limit_message(""));
}
