use master_time::recovery::{RecoveryDecision, RetryPolicy};
use master_time::time::Duration;

#[test]
fn failures_use_exponential_backoff() {
    let mut policy = RetryPolicy::new(Duration::from_millis(250), Duration::from_secs(10));

    assert_eq!(
        policy.on_failure(),
        RecoveryDecision::Retry {
            delay: Duration::from_millis(250),
            consecutive_failures: 1,
        }
    );
    assert_eq!(
        policy.on_failure().retry_delay(),
        Some(Duration::from_millis(500))
    );
    assert_eq!(
        policy.on_failure().retry_delay(),
        Some(Duration::from_secs(1))
    );
    assert_eq!(policy.consecutive_failures(), 3);
}

#[test]
fn delay_is_capped_at_maximum() {
    let mut policy = RetryPolicy::new(Duration::from_secs(3), Duration::from_secs(10));

    assert_eq!(
        policy.on_failure().retry_delay(),
        Some(Duration::from_secs(3))
    );
    assert_eq!(
        policy.on_failure().retry_delay(),
        Some(Duration::from_secs(6))
    );
    assert_eq!(
        policy.on_failure().retry_delay(),
        Some(Duration::from_secs(10))
    );
    assert_eq!(
        policy.on_failure().retry_delay(),
        Some(Duration::from_secs(10))
    );
}

#[test]
fn success_resets_failures_and_backoff() {
    let mut policy = RetryPolicy::new(Duration::from_secs(1), Duration::from_secs(30));
    policy.on_failure();
    policy.on_failure();

    assert_eq!(
        policy.on_success(),
        RecoveryDecision::Success {
            consecutive_failures: 0,
        }
    );
    assert_eq!(policy.consecutive_failures(), 0);
    assert_eq!(
        policy.on_failure().retry_delay(),
        Some(Duration::from_secs(1))
    );
}

#[test]
fn zero_delays_are_deterministic_and_remain_bounded() {
    let mut policy = RetryPolicy::new(Duration::zero(), Duration::zero());

    for failure in 1..=4 {
        assert_eq!(
            policy.on_failure(),
            RecoveryDecision::Retry {
                delay: Duration::zero(),
                consecutive_failures: failure,
            }
        );
    }
}

#[test]
fn max_delay_also_bounds_an_initial_delay_that_is_too_large() {
    let mut policy = RetryPolicy::new(Duration::from_secs(10), Duration::from_secs(2));

    assert_eq!(
        policy.on_failure().retry_delay(),
        Some(Duration::from_secs(2))
    );
}

#[test]
fn default_policy_starts_at_one_second_and_caps_at_one_minute() {
    let mut policy = RetryPolicy::default();
    assert_eq!(policy.initial_delay(), Duration::from_secs(1));
    assert_eq!(policy.max_delay(), Duration::from_secs(60));
    let mut last = Duration::zero();
    for _ in 0..100 {
        let delay = policy.on_failure().retry_delay().unwrap();
        assert!(!delay.lt(&last));
        assert!(!Duration::from_secs(60).lt(&delay));
        last = delay;
    }
    assert_eq!(last, Duration::from_secs(60));
    assert_eq!(policy.on_success().consecutive_failures(), 0);
    assert_eq!(RecoveryDecision::Success { consecutive_failures: 0 }.retry_delay(), None);
}
