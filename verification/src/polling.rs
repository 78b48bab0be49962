//! The decisions of a recurring NTP measurement loop.
//!
//! Threads, channels and sleeping belong to the embedding application; each
//! time an attempt finishes, [`poll_step`] decides what to report and how
//! long to wait before the next attempt.
use vstd::prelude::*;

use crate::config::{self, ConfigError, interval_error};
use crate::health::HealthStatus;
use crate::recovery::{RecoveryDecision, RetryPolicy, backoff_nanos, min_nat};
use crate::servers::ServerProfile;
use crate::text::push_str;
use crate::time::Duration;

verus! {

/// What one scheduled measurement attempt produced. `R` is the measurement
/// and `E` the error of a failed attempt.
#[derive(Debug)]
pub enum PollEvent<R, E> {
    /// A measurement completed and was evaluated for synchronization health.
    Success {
        profile: ServerProfile,
        result: R,
        health: HealthStatus,
        /// Consecutive failures after this attempt: always zero.
        consecutive_failures: u32,
        /// There is no retry backoff after a successful attempt.
        retry_delay: Option<Duration>,
    },
    /// The measurement could not be produced.
    Error {
        profile: ServerProfile,
        error: E,
        /// Consecutive failures including this attempt.
        consecutive_failures: u32,
        /// Delay before the next attempt, as chosen by the retry policy.
        retry_delay: Option<Duration>,
    },
}

/// Errors before a polling worker starts, or when it is joined.
#[derive(Debug, Clone, Copy, PartialEq, Eq, Structural)]
pub enum PollingError {
    InvalidInterval(ConfigError),
    WorkerPanicked,
}

impl PollingError {
    pub open spec fn message(self) -> Seq<char> {
        match self {
            PollingError::InvalidInterval(source) => "invalid polling interval: "@
                + source.message(),
            PollingError::WorkerPanicked => "polling worker thread panicked"@,
        }
    }

    pub fn to_string(&self) -> (s: String)
        ensures
            s@ == self.message(),
    {
        let mut s = String::new();
        match self {
            PollingError::InvalidInterval(source) => {
                push_str(&mut s, "invalid polling interval: ");
                push_str(&mut s, source.to_string().as_str());
            },
            PollingError::WorkerPanicked => push_str(&mut s, "polling worker thread panicked"),
        }
        s
    }
}

/// Checks a polling interval before a worker is started.
pub fn validate_interval(interval: Duration) -> (r: Result<(), PollingError>)
    ensures
        match interval_error(interval) {
            Some(e) => r == Err::<(), PollingError>(PollingError::InvalidInterval(e)),
            None => r is Ok,
        },
{
    match config::PollingPreferences::new(interval) {
        Ok(_) => Ok(()),
        Err(e) => Err(PollingError::InvalidInterval(e)),
    }
}

/// Turns the outcome of one attempt on `profile` into the event to report
/// and the wait before the next attempt: after a success the policy is
/// reset and the regular `interval` follows; after a failure the policy's
/// backoff delay follows.
pub fn poll_step<R, E>(
    profile: &ServerProfile,
    outcome: Result<(R, HealthStatus), E>,
    interval: Duration,
    policy: &mut RetryPolicy,
) -> (r: (PollEvent<R, E>, Duration))
    ensures
        final(policy)@.initial_delay == old(policy)@.initial_delay,
        final(policy)@.max_delay == old(policy)@.max_delay,
        outcome is Ok ==> final(policy)@.consecutive_failures == 0 && r.1 == interval && (
        r.0 matches PollEvent::Success { profile: p, health, consecutive_failures, retry_delay, .. }
            && p@ == profile@ && health == outcome->Ok_0.1 && consecutive_failures == 0
            && retry_delay is None),
        outcome is Err ==> final(policy)@.consecutive_failures == min_nat(
            old(policy)@.consecutive_failures + 1,
            u32::MAX as nat,
        ) && r.1@ == backoff_nanos(
            old(policy)@.initial_delay,
            old(policy)@.max_delay,
            final(policy)@.consecutive_failures,
        ) && (r.0 matches PollEvent::Error { profile: p, consecutive_failures, retry_delay, .. }
            && p@ == profile@ && consecutive_failures == final(policy)@.consecutive_failures
            && retry_delay == Some(r.1)),
{
    match outcome {
        Ok((result, health)) => {
            let decision = policy.on_success();
            (
                PollEvent::Success {
                    profile: profile.clone(),
                    result,
                    health,
                    consecutive_failures: decision.consecutive_failures(),
                    retry_delay: decision.retry_delay(),
                },
                interval,
            )
        },
        Err(error) => {
            let decision = policy.on_failure();
            let delay = match decision.retry_delay() {
                Some(d) => d,
                None => interval,
            };
            (
                PollEvent::Error {
                    profile: profile.clone(),
                    error,
                    consecutive_failures: decision.consecutive_failures(),
                    retry_delay: decision.retry_delay(),
                },
                delay,
            )
        },
    }
}

} // verus!
