use anilist_sdk::json::Json;
use anilist_sdk::text::{contains_text, parse_decimal};
use anilist_sdk::request::day_bounds;
use anilist_sdk::{bearer_header, RequestEnvelope};

fn number(n: i64) -> Json {
    Json::Number(serde_json::Number::from(n))
}

#[test]
fn request_body_round_trip() {
    let vars = vec![("id".to_string(), number(5))];
    let body = RequestEnvelope::new("Q".to_string(), Some(vars)).into_body();
    let sent: serde_json::Value = serde_json::from_str(&body.to_text()).unwrap();
    let expected: serde_json::Value = serde_json::from_str(r#"{"query": "Q", "variables": {"id": 5}}"#).unwrap();
    assert_eq!(sent, expected);
}

#[test]
fn request_body_without_variables() {
    let body = RequestEnvelope::new("query { Viewer { id } }".to_string(), None).into_body();
    assert_eq!(body.to_text(), r#"{"query":"query { Viewer { id } }"}"#);
}

#[test]
fn request_body_members() {
    let vars = vec![("page".to_string(), number(1)), ("perPage".to_string(), number(10))];
    let body = RequestEnvelope::new("Q".to_string(), Some(vars)).into_body();
    assert_eq!(body.get(&"query".to_string()), Some(&Json::Str("Q".to_string())));
    let v = body.get(&"variables".to_string()).unwrap();
    assert_eq!(v.get(&"perPage".to_string()), Some(&number(10)));
}

#[test]
fn bearer_header_value() {
    assert_eq!(bearer_header("abc"), "Bearer abc");
    assert_eq!(bearer_header(""), "Bearer ");
}

#[test]
fn json_parse_and_print() {
    let v = Json::parse(r#"{"b": [1, true, null, "x"], "a": {}}"#).unwrap();
    assert_eq!(v.to_text(), r#"{"a":{},"b":[1,true,null,"x"]}"#);
    assert!(Json::parse("").is_err());
    assert!(Json::parse("[1,").is_err());
}

#[test]
fn json_take_path() {
    let v = Json::parse(r#"{"Page": {"media": [{"id": 1}], "pageInfo": 3}}"#).unwrap();
    let path = vec!["Page".to_string(), "media".to_string()];
    assert_eq!(v.take_path(&path), Json::parse(r#"[{"id": 1}]"#).unwrap());
    let v = Json::parse(r#"{"Page": 3}"#).unwrap();
    assert_eq!(v.take_path(&path), Json::Null);
    let v = Json::parse(r#"{"x": 1}"#).unwrap();
    assert_eq!(v.take_path(&Vec::new()), Json::parse(r#"{"x": 1}"#).unwrap());
}

#[test]
fn json_take_member() {
    let v = Json::parse(r#"{"data": {"x": 1}, "errors": null}"#).unwrap();
    assert_eq!(v.take_member(&"errors".to_string()), Some(Json::Null));
    let v = Json::parse(r#"[1]"#).unwrap();
    assert_eq!(v.take_member(&"data".to_string()), None);
}

#[test]
fn decimal_parsing() {
    assert_eq!(parse_decimal(b"0", 10), Some(0));
    assert_eq!(parse_decimal(b"+10", 10), Some(10));
    assert_eq!(parse_decimal(b"11", 10), None);
    assert_eq!(parse_decimal(b"", 10), None);
    assert_eq!(parse_decimal(b"+", 10), None);
    assert_eq!(parse_decimal(b"-0", 10), None);
    assert_eq!(parse_decimal(b" 1", 10), None);
    assert_eq!(parse_decimal(b"0004294967295", u32::MAX as u64), Some(4294967295));
    assert_eq!(parse_decimal(b"18446744073709551616", u64::MAX), None);
}

#[test]
fn substring_search() {
    assert!(contains_text("abcabd", "abd"));
    assert!(contains_text("abc", ""));
    assert!(contains_text("", ""));
    assert!(!contains_text("ab", "abc"));
    assert!(!contains_text("aXbc", "abc"));
    assert!(contains_text("日本語 rate limit", "rate limit"));
}

#[test]
fn day_bounds_of_an_instant() {
    assert_eq!(day_bounds(0), (0, 86400));
    assert_eq!(day_bounds(86399), (0, 86400));
    assert_eq!(day_bounds(86400), (86400, 172800));
    assert_eq!(day_bounds(1700000000), (1699920000, 1700006400));
}
