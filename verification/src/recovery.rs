//! UI-independent retry and recovery policy for polling failures.
//!
//! [`RetryPolicy`] owns only retry state. A caller supplies the result of each
//! polling attempt and uses the returned [`RecoveryDecision`] to schedule the
//! next attempt or observe that a successful attempt reset the failure streak.

use vstd::prelude::*;
use vstd::arithmetic::power2::pow2;
use crate::time::Duration;

verus! {

/// Default delay before the first retry after a polling failure, in seconds.
pub const DEFAULT_INITIAL_DELAY_SECS: u64 = 1;

/// Default upper bound for retry delays, in seconds.
pub const DEFAULT_MAX_DELAY_SECS: u64 = 60;

/// Default delay before the first retry after a polling failure.
pub fn default_initial_delay() -> (d: Duration)
    ensures
        d@ == 1_000_000_000,
{
    Duration::from_secs(DEFAULT_INITIAL_DELAY_SECS)
}

/// Default upper bound for retry delays.
pub fn default_max_delay() -> (d: Duration)
    ensures
        d@ == 60_000_000_000,
{
    Duration::from_secs(DEFAULT_MAX_DELAY_SECS)
}

/// The result of applying one polling outcome to a retry policy.
#[derive(Debug, Clone, Copy, PartialEq, Eq, Structural)]
pub enum RecoveryDecision {
    /// The polling attempt failed and should be retried after `delay`.
    Retry {
        /// Delay before the next polling attempt.
        delay: Duration,
        /// Number of failures in the current consecutive failure streak.
        consecutive_failures: u32,
    },
    /// The polling attempt succeeded and the failure streak was reset.
    Success {
        /// Always zero; included to make the reset explicit to callers.
        consecutive_failures: u32,
    },
}

impl RecoveryDecision {
    /// Returns the retry delay, if this decision requests a retry.
    pub fn retry_delay(self) -> (d: Option<Duration>)
        ensures
            d == match self {
                RecoveryDecision::Retry { delay, .. } => Some(delay),
                RecoveryDecision::Success { .. } => None,
            },
    {
        match self {
            RecoveryDecision::Retry { delay, .. } => Some(delay),
            RecoveryDecision::Success { .. } => None,
        }
    }

    /// Returns the failure count carried by this decision.
    pub fn consecutive_failures(self) -> (n: u32)
        ensures
            n == match self {
                RecoveryDecision::Retry { consecutive_failures, .. } => consecutive_failures,
                RecoveryDecision::Success { consecutive_failures } => consecutive_failures,
            },
    {
        match self {
            RecoveryDecision::Retry { consecutive_failures, .. } => consecutive_failures,
            RecoveryDecision::Success { consecutive_failures } => consecutive_failures,
        }
    }
}

/// The smaller of two numbers.
pub open spec fn min_nat(a: nat, b: nat) -> nat {
    if a <= b {
        a
    } else {
        b
    }
}

/// The delay after the `failure_number`-th consecutive failure, in
/// nanoseconds: the initial delay doubled once per earlier failure (at most 63
/// times, saturating at `u128::MAX`), capped by the maximum delay and by the
/// largest `u64`.
pub open spec fn backoff_nanos(initial: nat, max: nat, failure_number: nat) -> nat {
    let exponent = min_nat((if failure_number >= 1 { failure_number - 1 } else { 0 }) as nat, 63);
    let grown = min_nat(initial * pow2(exponent), u128::MAX as nat);
    min_nat(min_nat(grown, max), u64::MAX as nat)
}

/// Stateful, UI-independent exponential-backoff policy.
#[derive(Debug, Clone, Copy, PartialEq, Eq, Structural)]
pub struct RetryPolicy {
    initial_delay: Duration,
    max_delay: Duration,
    consecutive_failures: u32,
}

/// The abstract state of a [`RetryPolicy`].
pub struct RetryModel {
    pub initial_delay: nat,
    pub max_delay: nat,
    pub consecutive_failures: nat,
}

impl View for RetryPolicy {
    type V = RetryModel;

    closed spec fn view(&self) -> RetryModel {
        RetryModel {
            initial_delay: self.initial_delay@,
            max_delay: self.max_delay@,
            consecutive_failures: self.consecutive_failures as nat,
        }
    }
}

impl Default for RetryPolicy {
    fn default() -> (p: Self)
        ensures
            p@.initial_delay == 1_000_000_000,
            p@.max_delay == 60_000_000_000,
            p@.consecutive_failures == 0,
    {
        Self::new(default_initial_delay(), default_max_delay())
    }
}

impl RetryPolicy {
    /// Creates a policy with an initial delay and an inclusive maximum delay.
    ///
    /// If `max_delay` is shorter than `initial_delay`, the maximum still wins,
    /// so every returned delay remains bounded by `max_delay`.
    pub fn new(initial_delay: Duration, max_delay: Duration) -> (p: Self)
        ensures
            p@.initial_delay == initial_delay@,
            p@.max_delay == max_delay@,
            p@.consecutive_failures == 0,
            p.initial_delay_spec() == initial_delay,
            p.max_delay_spec() == max_delay,
    {
        RetryPolicy { initial_delay, max_delay, consecutive_failures: 0 }
    }

    pub closed spec fn initial_delay_spec(&self) -> Duration {
        self.initial_delay
    }

    pub closed spec fn max_delay_spec(&self) -> Duration {
        self.max_delay
    }

    /// Delay used for the first failure before exponential growth is applied.
    pub fn initial_delay(self) -> (d: Duration)
        ensures
            d == self.initial_delay_spec(),
            d@ == self@.initial_delay,
    {
        self.initial_delay
    }

    /// Maximum delay returned by the policy.
    pub fn max_delay(self) -> (d: Duration)
        ensures
            d == self.max_delay_spec(),
            d@ == self@.max_delay,
    {
        self.max_delay
    }

    /// Number of failures since the last successful polling attempt.
    pub fn consecutive_failures(self) -> (n: u32)
        ensures
            n == self@.consecutive_failures,
    {
        self.consecutive_failures
    }

    /// Records a failed polling attempt and computes its bounded retry delay.
    pub fn on_failure(&mut self) -> (d: RecoveryDecision)
        ensures
            final(self)@.initial_delay == old(self)@.initial_delay,
            final(self)@.max_delay == old(self)@.max_delay,
            final(self).initial_delay_spec() == old(self).initial_delay_spec(),
            final(self).max_delay_spec() == old(self).max_delay_spec(),
            final(self)@.consecutive_failures == min_nat(
                old(self)@.consecutive_failures + 1,
                u32::MAX as nat,
            ),
            d matches RecoveryDecision::Retry { delay, consecutive_failures } && delay@
                == backoff_nanos(
                old(self)@.initial_delay,
                old(self)@.max_delay,
                final(self)@.consecutive_failures,
            ) && consecutive_failures == final(self)@.consecutive_failures,
    {
        self.consecutive_failures = self.consecutive_failures.saturating_add(1);
        let delay = self.backoff_delay(self.consecutive_failures);
        RecoveryDecision::Retry { delay, consecutive_failures: self.consecutive_failures }
    }

    /// Records a successful polling attempt and clears the failure streak.
    pub fn on_success(&mut self) -> (d: RecoveryDecision)
        ensures
            final(self)@.initial_delay == old(self)@.initial_delay,
            final(self)@.max_delay == old(self)@.max_delay,
            final(self).initial_delay_spec() == old(self).initial_delay_spec(),
            final(self).max_delay_spec() == old(self).max_delay_spec(),
            final(self)@.consecutive_failures == 0,
            d == (RecoveryDecision::Success { consecutive_failures: 0 }),
    {
        self.consecutive_failures = 0;
        RecoveryDecision::Success { consecutive_failures: 0 }
    }

    fn backoff_delay(&self, failure_number: u32) -> (d: Duration)
        ensures
            d@ == backoff_nanos(self@.initial_delay, self@.max_delay, failure_number as nat),
    {
        let exponent: u32 = if failure_number >= 1 {
            failure_number - 1
        } else {
            0
        };
        let exponent: u32 = if exponent < 63 {
            exponent
        } else {
            63
        };
        let multiplier = power_of_two(exponent);
        let initial_nanos = self.initial_delay.as_nanos();
        let max_nanos = self.max_delay.as_nanos();
        let grown: u128 = match initial_nanos.checked_mul(multiplier) {
            Some(v) => v,
            None => u128::MAX,
        };
        let capped = if grown <= max_nanos {
            grown
        } else {
            max_nanos
        };
        let capped = if capped <= u64::MAX as u128 {
            capped
        } else {
            u64::MAX as u128
        };
        Duration::from_nanos(capped as u64)
    }
}

/// Two raised to `exponent`.
fn power_of_two(exponent: u32) -> (p: u128)
    requires
        exponent <= 63,
    ensures
        p == pow2(exponent as nat),
{
    let mut p: u128 = 1;
    let mut i: u32 = 0;
    proof {
        vstd::arithmetic::power2::lemma2_to64();
        vstd::arithmetic::power2::lemma_pow2_pos(0);
        reveal(pow2);
    }
    while i < exponent
        invariant
            i <= exponent <= 63,
            p == pow2(i as nat),
        decreases exponent - i,
    {
        proof {
            vstd::arithmetic::power2::lemma2_to64();
            vstd::arithmetic::power2::lemma_pow2_unfold((i + 1) as nat);
            vstd::arithmetic::power2::lemma2_to64_rest();
            vstd::arithmetic::power2::lemma_pow2_strictly_increases(i as nat, 63);
            assert(pow2(63) == 0x8000000000000000);
            assert(p < 0x8000000000000000);
        }
        p = p * 2;
        i = i + 1;
    }
    p
}

/// Every retry delay stays within the policy's maximum delay.
pub proof fn lemma_delay_never_exceeds_max(initial: nat, max: nat, failure_number: nat)
    ensures
        backoff_nanos(initial, max, failure_number) <= max,
{
}

/// Retry delays never shrink while a failure streak continues.
pub proof fn lemma_delay_is_monotonic(initial: nat, max: nat, failures: nat)
    requires
        failures >= 1,
    ensures
        backoff_nanos(initial, max, failures) <= backoff_nanos(initial, max, failures + 1),
{
    let e = min_nat((failures - 1) as nat, 63);
    let e2 = min_nat(failures as nat, 63);
    vstd::arithmetic::power2::lemma_pow2_pos(e);
    if e < e2 {
        vstd::arithmetic::power2::lemma_pow2_strictly_increases(e, e2);
        vstd::arithmetic::mul::lemma_mul_inequality(pow2(e) as int, pow2(e2) as int, initial as int);
        vstd::arithmetic::mul::lemma_mul_is_commutative(pow2(e) as int, initial as int);
        vstd::arithmetic::mul::lemma_mul_is_commutative(pow2(e2) as int, initial as int);
    }
}

/// The first failure after a reset always waits for the initial delay,
/// limited by the maximum.
pub proof fn lemma_first_failure_uses_initial_delay(initial: nat, max: nat)
    requires
        initial <= u64::MAX,
    ensures
        backoff_nanos(initial, max, 1) == min_nat(initial, max),
{
    vstd::arithmetic::power2::lemma2_to64();
    assert(pow2(0) == 1);
    assert(initial * pow2(0) == initial);
}

} // verus!
