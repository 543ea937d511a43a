use anilist_sdk::{calculate_delay, AniListError, RetryConfig, RetryState, RetryStep};

/// Runs the retry decisions against a fixed list of outcomes, as the loop
/// would; returns the number of calls, the waits, and the final result.
fn run(config: &RetryConfig, outcomes: Vec<Result<u32, AniListError>>) -> (usize, Vec<u64>, Result<u32, AniListError>) {
    let mut state = RetryState::new(config);
    let mut waits = Vec::new();
    let mut calls = 0;
    for outcome in outcomes {
        calls += 1;
        match outcome {
            Ok(v) => return (calls, waits, Ok(v)),
            Err(e) => match state.on_error(config, e) {
                RetryStep::Retry { wait_ms } => waits.push(wait_ms),
                RetryStep::Fail(e) => return (calls, waits, Err(e)),
            },
        }
    }
    panic!("the outcomes ran out before the loop ended");
}

fn policy(max_retries: u32, base: u64, exponential: bool, max: u64) -> RetryConfig {
    RetryConfig { max_retries, base_delay_ms: base, exponential_backoff: exponential, max_delay_ms: max }
}

#[test]
fn retry_exhaustion_calls_three_times() {
    let config = policy(2, 100, true, 1000);
    let outcomes = vec![Err(AniListError::RateLimitSimple); 10];
    let (calls, waits, result) = run(&config, outcomes);
    assert_eq!(calls, 3);
    assert_eq!(waits, vec![100, 200]);
    assert_eq!(result, Err(AniListError::RateLimitSimple));
}

#[test]
fn retry_honors_server_wait() {
    let config = policy(3, 100, true, 1000);
    let outcomes = vec![
        Err(AniListError::RateLimit { limit: 90, remaining: 0, reset_at: 1700000000, retry_after: 5 }),
        Ok(7),
    ];
    let (calls, waits, result) = run(&config, outcomes);
    assert_eq!(calls, 2);
    assert_eq!(waits, vec![5000]);
    assert_eq!(result, Ok(7));
}

#[test]
fn not_found_is_not_retried() {
    for max_retries in [0, 1, 5, 100] {
        let config = policy(max_retries, 100, true, 1000);
        let (calls, waits, result) = run(&config, vec![Err(AniListError::NotFound); 200]);
        assert_eq!(calls, 1);
        assert!(waits.is_empty());
        assert_eq!(result, Err(AniListError::NotFound));
    }
}

#[test]
fn other_failures_are_not_retried() {
    let config = RetryConfig::default();
    for e in [
        AniListError::Network { message: "down".to_string() },
        AniListError::Json { message: "eof".to_string() },
        AniListError::GraphQL { message: "Invalid ID".to_string() },
        AniListError::AuthenticationRequired,
        AniListError::AccessDenied,
        AniListError::BadRequest { message: "no".to_string() },
        AniListError::ServerError { status: 502, message: "gateway".to_string() },
    ] {
        let mut state = RetryState::new(&config);
        assert_eq!(state.on_error(&config, e.clone()), RetryStep::Fail(e));
        assert_eq!(state, RetryState::new(&config));
    }
}

#[test]
fn rate_limit_exhaustion_keeps_only_retry_after() {
    let config = policy(1, 100, false, 1000);
    let e = AniListError::RateLimit { limit: 30, remaining: 2, reset_at: 99, retry_after: 3 };
    let (calls, waits, result) = run(&config, vec![Err(e.clone()), Err(e)]);
    assert_eq!(calls, 2);
    assert_eq!(waits, vec![3000]);
    assert_eq!(result, Err(AniListError::RateLimit { limit: 90, remaining: 0, reset_at: 0, retry_after: 3 }));
}

#[test]
fn zero_retry_after_uses_computed_delay() {
    let config = policy(3, 400, true, 1000);
    let e = AniListError::RateLimit { limit: 90, remaining: 0, reset_at: 0, retry_after: 0 };
    let (_, waits, _) = run(&config, vec![Err(e.clone()), Err(e.clone()), Err(e.clone()), Err(e)]);
    assert_eq!(waits, vec![400, 800, 1000]);
}

#[test]
fn burst_limit_waits_twice_the_delay() {
    let config = policy(3, 100, true, 1000);
    let (calls, waits, result) = run(&config, vec![Err(AniListError::BurstLimit); 4]);
    assert_eq!(calls, 4);
    assert_eq!(waits, vec![200, 400, 800]);
    assert_eq!(result, Err(AniListError::BurstLimit));
}

#[test]
fn constant_delay_without_exponential_backoff() {
    let config = policy(3, 300, false, 1000);
    let (_, waits, _) = run(&config, vec![Err(AniListError::RateLimitSimple); 4]);
    assert_eq!(waits, vec![300, 300, 300]);
    let (_, waits, _) = run(&config, vec![Err(AniListError::BurstLimit); 4]);
    assert_eq!(waits, vec![600, 600, 600]);
}

#[test]
fn delay_is_capped() {
    let config = policy(2, 5000, false, 1000);
    let (_, waits, _) = run(&config, vec![Err(AniListError::RateLimitSimple); 3]);
    assert_eq!(waits, vec![1000, 1000]);
    let config = policy(3, u64::MAX, true, u64::MAX);
    let (_, waits, _) = run(&config, vec![Err(AniListError::BurstLimit); 4]);
    assert_eq!(waits, vec![u64::MAX, u64::MAX, u64::MAX]);
}

#[test]
fn zero_retries_disables_retrying() {
    let config = policy(0, 100, true, 1000);
    let (calls, waits, result) = run(&config, vec![Err(AniListError::RateLimitSimple); 3]);
    assert_eq!(calls, 1);
    assert!(waits.is_empty());
    assert_eq!(result, Err(AniListError::RateLimitSimple));
}

#[test]
fn default_config_values() {
    let c = RetryConfig::default();
    assert_eq!(c.max_retries, 3);
    assert_eq!(c.base_delay_ms, 1000);
    assert!(c.exponential_backoff);
    assert_eq!(c.max_delay_ms, 30000);
}

#[test]
fn calculate_delay_by_remaining_budget() {
    assert_eq!(calculate_delay(0, 42), 42_000);
    assert_eq!(calculate_delay(0, u64::MAX), u64::MAX as u128 * 1000);
    assert_eq!(calculate_delay(1, 42), 2000);
    assert_eq!(calculate_delay(9, 42), 2000);
    assert_eq!(calculate_delay(10, 42), 1000);
    assert_eq!(calculate_delay(29, 42), 1000);
    assert_eq!(calculate_delay(30, 42), 500);
    assert_eq!(calculate_delay(90, 42), 500);
}

#[test]
fn only_rate_limits_are_retryable() {
    assert!(AniListError::RateLimitSimple.is_retryable());
    assert!(AniListError::BurstLimit.is_retryable());
    assert!(AniListError::RateLimit { limit: 1, remaining: 1, reset_at: 1, retry_after: 1 }.is_retryable());
    assert!(!AniListError::NotFound.is_retryable());
    assert!(!AniListError::ServerError { status: 500, message: String::new() }.is_retryable());
}
