//! The decisions of the retry and backoff loop.
//!
//! The loop itself runs an operation, sleeps and runs it again; those are
//! effects and belong to the caller. What is decided here, from the failure
//! that came back and the state of the loop, is whether to try again, how
//! long to wait first, and what the state becomes.
use vstd::prelude::*;

use crate::error::AniListError;

verus! {

/// How the retry loop behaves.
#[derive(Debug, Clone)]
pub struct RetryConfig {
    /// How many times a failed call is tried again; 0 turns retrying off.
    pub max_retries: u32,
    /// The first computed wait, in milliseconds.
    pub base_delay_ms: u64,
    /// Whether the computed wait doubles after each retry.
    pub exponential_backoff: bool,
    /// The largest computed wait, in milliseconds.
    pub max_delay_ms: u64,
}

impl Default for RetryConfig {
    /// Three retries, starting at one second, doubling up to thirty seconds.
    fn default() -> (r: Self)
        ensures
            r.max_retries == 3,
            r.base_delay_ms == 1000,
            r.exponential_backoff,
            r.max_delay_ms == 30000,
    {
        RetryConfig { max_retries: 3, base_delay_ms: 1000, exponential_backoff: true, max_delay_ms: 30000 }
    }
}

/// The smaller of two integers.
pub open spec fn min_of(a: int, b: int) -> int {
    if a <= b {
        a
    } else {
        b
    }
}

/// Where the retry loop stands: failures retried so far, and the current
/// computed wait before the cap is applied.
#[derive(Debug, Clone, Copy, PartialEq, Eq)]
pub struct RetryState {
    pub attempts: u32,
    pub delay_ms: u64,
}

/// What the loop does after a failed call.
#[derive(Debug, Clone, PartialEq)]
pub enum RetryStep {
    /// Sleep this many milliseconds, then call the operation again.
    Retry { wait_ms: u64 },
    /// Stop and hand this failure to the caller.
    Fail(AniListError),
}

/// The state before the first call.
pub open spec fn initial_state(config: RetryConfig) -> RetryState {
    RetryState { attempts: 0, delay_ms: config.base_delay_ms }
}

/// The computed wait after one more retry: doubled and capped when backoff
/// is exponential, unchanged otherwise.
pub open spec fn grown_delay(config: RetryConfig, delay: u64) -> u64 {
    if config.exponential_backoff {
        min_of(2 * delay, config.max_delay_ms as int) as u64
    } else {
        delay
    }
}

/// The state after one more retry.
pub open spec fn advanced(config: RetryConfig, state: RetryState) -> RetryState {
    RetryState { attempts: (state.attempts + 1) as u32, delay_ms: grown_delay(config, state.delay_ms) }
}

/// The current computed wait under the cap.
pub open spec fn capped_delay(config: RetryConfig, state: RetryState) -> u64 {
    min_of(state.delay_ms as int, config.max_delay_ms as int) as u64
}

/// The decision after a failed call, and the state that follows it.
///
/// A rate limit with a positive server-given wait sleeps that many seconds;
/// otherwise it and the simple rate limit sleep the capped computed wait, and
/// a burst limit sleeps twice the computed wait, capped. Once the retries are
/// used up the failure is returned (a detailed rate limit keeps only its
/// wait, with the placeholders 90 and 0 for the rest). Every other failure is
/// returned at once.
pub open spec fn retry_step(config: RetryConfig, state: RetryState, error: AniListError) -> (
    RetryStep,
    RetryState,
) {
    if !error.is_rate_limited() {
        (RetryStep::Fail(error), state)
    } else if state.attempts >= config.max_retries {
        match error {
            AniListError::RateLimit { retry_after, .. } => (
                RetryStep::Fail(
                    AniListError::RateLimit { limit: 90, remaining: 0, reset_at: 0, retry_after },
                ),
                state,
            ),
            _ => (RetryStep::Fail(error), state),
        }
    } else {
        let wait = match error {
            AniListError::RateLimit { retry_after, .. } => if retry_after > 0 {
                (retry_after * 1000) as u64
            } else {
                capped_delay(config, state)
            },
            AniListError::BurstLimit => min_of(
                2 * state.delay_ms,
                config.max_delay_ms as int,
            ) as u64,
            _ => capped_delay(config, state),
        };
        (RetryStep::Retry { wait_ms: wait }, advanced(config, state))
    }
}

/// The smaller of two waits.
fn min_u64(a: u64, b: u64) -> (r: u64)
    ensures
        r as int == min_of(a as int, b as int),
{
    if a <= b {
        a
    } else {
        b
    }
}

/// Twice the wait, capped.
fn doubled_capped(delay: u64, cap: u64) -> (r: u64)
    ensures
        r as int == min_of(2 * delay, cap as int),
{
    if delay <= cap / 2 {
        delay * 2
    } else {
        cap
    }
}

impl RetryState {
    /// The state before the first call.
    pub fn new(config: &RetryConfig) -> (r: Self)
        ensures
            r == initial_state(*config),
    {
        RetryState { attempts: 0, delay_ms: config.base_delay_ms }
    }

    /// Decides what follows a failed call and moves to the next state.
    pub fn on_error(&mut self, config: &RetryConfig, error: AniListError) -> (r: RetryStep)
        ensures
            (r, *final(self)) == retry_step(*config, *old(self), error),
    {
        if !error.is_retryable() {
            return RetryStep::Fail(error);
        }
        if self.attempts >= config.max_retries {
            return match error {
                AniListError::RateLimit { retry_after, .. } => RetryStep::Fail(
                    AniListError::RateLimit { limit: 90, remaining: 0, reset_at: 0, retry_after },
                ),
                other => RetryStep::Fail(other),
            };
        }
        let wait: u64 = match error {
            AniListError::RateLimit { retry_after, .. } => if retry_after > 0 {
                retry_after as u64 * 1000
            } else {
                min_u64(self.delay_ms, config.max_delay_ms)
            },
            AniListError::BurstLimit => doubled_capped(self.delay_ms, config.max_delay_ms),
            _ => min_u64(self.delay_ms, config.max_delay_ms),
        };
        self.attempts = self.attempts + 1;
        if config.exponential_backoff {
            self.delay_ms = doubled_capped(self.delay_ms, config.max_delay_ms);
        }
        RetryStep::Retry { wait_ms: wait }
    }
}

/// How many calls the loop makes when the calls fail with `errors`, in this
/// order, starting from `state`: it stops at the first failure that is not
/// retried, or when the failures run out.
pub open spec fn calls_made(config: RetryConfig, state: RetryState, errors: Seq<AniListError>) -> nat
    decreases errors.len(),
{
    if errors.len() == 0 {
        0
    } else {
        let (step, next) = retry_step(config, state, errors[0]);
        match step {
            RetryStep::Retry { .. } => 1 + calls_made(config, next, errors.drop_first()),
            RetryStep::Fail(_) => 1,
        }
    }
}

proof fn lemma_calls_made_from(config: RetryConfig, state: RetryState, errors: Seq<AniListError>)
    requires
        state.attempts <= config.max_retries,
    ensures
        calls_made(config, state, errors) <= config.max_retries - state.attempts + 1,
    decreases errors.len(),
{
    if errors.len() > 0 {
        let (step, next) = retry_step(config, state, errors[0]);
        if step is Retry {
            lemma_calls_made_from(config, next, errors.drop_first());
        }
    }
}

/// Whatever the failures, the loop calls the operation at most
/// `max_retries + 1` times.
pub proof fn lemma_retry_terminates(config: RetryConfig, errors: Seq<AniListError>)
    ensures
        calls_made(config, initial_state(config), errors) <= config.max_retries + 1,
{
    lemma_calls_made_from(config, initial_state(config), errors);
}

proof fn lemma_exhaustion_from(config: RetryConfig, state: RetryState, errors: Seq<AniListError>)
    requires
        state.attempts <= config.max_retries,
        errors.len() > config.max_retries - state.attempts,
        forall|i: int| 0 <= i < errors.len() ==> (#[trigger] errors[i]).is_rate_limited(),
    ensures
        calls_made(config, state, errors) == config.max_retries - state.attempts + 1,
    decreases errors.len(),
{
    let (step, next) = retry_step(config, state, errors[0]);
    if state.attempts < config.max_retries {
        let rest = errors.drop_first();
        assert forall|i: int| 0 <= i < rest.len() implies (#[trigger] rest[i]).is_rate_limited() by {
            assert(rest[i] == errors[i + 1]);
        }
        lemma_exhaustion_from(config, next, rest);
    }
}

/// When every call fails with a rate limit and the failures outlast the
/// retries, the loop calls the operation exactly `max_retries + 1` times.
pub proof fn lemma_retry_exhaustion(config: RetryConfig, errors: Seq<AniListError>)
    requires
        errors.len() > config.max_retries,
        forall|i: int| 0 <= i < errors.len() ==> (#[trigger] errors[i]).is_rate_limited(),
    ensures
        calls_made(config, initial_state(config), errors) == config.max_retries + 1,
{
    lemma_exhaustion_from(config, initial_state(config), errors);
}

/// A failure that is not a rate limit ends the loop at once and unchanged,
/// whatever the state and the configuration.
pub proof fn lemma_not_retried(config: RetryConfig, state: RetryState, error: AniListError)
    requires
        !error.is_rate_limited(),
    ensures
        retry_step(config, state, error) == (RetryStep::Fail(error), state),
        calls_made(config, state, seq![error]) == 1,
{
}

/// A wait that the server gave with a detailed rate limit is kept exactly,
/// whatever the configured delays, as long as retries are left.
pub proof fn lemma_server_wait_honored(
    config: RetryConfig,
    state: RetryState,
    limit: u32,
    remaining: u32,
    reset_at: u64,
    retry_after: u32,
)
    requires
        state.attempts < config.max_retries,
        retry_after > 0,
    ensures
        retry_step(
            config,
            state,
            AniListError::RateLimit { limit, remaining, reset_at, retry_after },
        ).0 == (RetryStep::Retry { wait_ms: (retry_after * 1000) as u64 }),
{
}

/// Delay to wait before the next request given the rate-limit budget, in
/// milliseconds: the whole reset time when nothing is left, then two
/// seconds, one second, or half a second as more requests remain.
pub fn calculate_delay(remaining: u32, reset_in_seconds: u64) -> (r: u128)
    ensures
        r == if remaining == 0 {
            reset_in_seconds * 1000
        } else if remaining < 10 {
            2000
        } else if remaining < 30 {
            1000
        } else {
            500
        },
{
    if remaining == 0 {
        reset_in_seconds as u128 * 1000
    } else if remaining < 10 {
        2000
    } else if remaining < 30 {
        1000
    } else {
        500
    }
}

} // verus!
