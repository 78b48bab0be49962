use master_time::config::ConfigError;
use master_time::failover::FailoverCoordinator;
use master_time::health::HealthStatus;
use master_time::polling::{poll_step, validate_interval, PollEvent, PollingError};
use master_time::polling_failover::{PollingOrchestrator, PollingTransition};
use master_time::recovery::{RecoveryDecision, RetryPolicy};
use master_time::servers::ServerProfile;
use master_time::service::ServiceError;
use master_time::time::{Duration, Instant};

fn profile(name: &str) -> ServerProfile {
    ServerProfile::new(name, &format!("{name}.example.test"), None).unwrap()
}

fn error_event(profile: ServerProfile) -> PollEvent<(), ServiceError> {
    PollEvent::Error {
        profile,
        error: ServiceError::UnsupportedMode(1),
        consecutive_failures: 99,
        retry_delay: Some(Duration::from_secs(99)),
    }
}

#[test]
fn fake_failures_rotate_then_emit_exhaustion() {
    let first = profile("first");
    let second = profile("second");
    let now = Instant::from_origin(Duration::from_secs(500));
    let coordinator =
        FailoverCoordinator::new(vec![first.clone(), second.clone()], Duration::from_secs(30));
    let mut orchestrator = PollingOrchestrator::new(
        coordinator,
        RetryPolicy::new(Duration::from_millis(10), Duration::from_secs(1)),
        now,
    );

    let transition = orchestrator.handle_event(error_event(first.clone()), now);
    assert!(
        matches!(transition, PollingTransition::Failover { next_profile, decision, .. }
        if next_profile == second
            && decision.consecutive_failures() == 1
            && decision.retry_delay() == Some(Duration::from_millis(10)))
    );

    let transition = orchestrator.handle_event(error_event(second.clone()), now);
    assert!(
        matches!(transition, PollingTransition::Exhausted { decision, .. }
        if decision.consecutive_failures() == 2)
    );
    assert_eq!(orchestrator.current_profile(), None);
}

#[test]
fn fake_success_resets_retry_and_candidate_state() {
    let first = profile("first");
    let second = profile("second");
    let now = Instant::from_origin(Duration::from_secs(500));
    let coordinator =
        FailoverCoordinator::new(vec![first.clone(), second], Duration::from_secs(30));
    let mut orchestrator = PollingOrchestrator::new(
        coordinator,
        RetryPolicy::new(Duration::from_millis(10), Duration::from_secs(1)),
        now,
    );

    let _ = orchestrator.handle_event(error_event(first.clone()), now);
    let transition = orchestrator.handle_event(
        PollEvent::<(), ServiceError>::Success {
            profile: first.clone(),
            result: (),
            health: HealthStatus::Synchronized,
            consecutive_failures: 42,
            retry_delay: Some(Duration::from_secs(42)),
        },
        now,
    );

    assert!(matches!(
        transition,
        PollingTransition::Success {
            consecutive_failures: 0,
            ..
        }
    ));
    assert_eq!(orchestrator.retry_policy().consecutive_failures(), 0);
    assert_eq!(orchestrator.coordinator().failure_count(&first), Some(0));
    assert_eq!(orchestrator.current_profile(), Some(&first));
    assert_eq!(
        transition.retry_decision(),
        Some(RecoveryDecision::Success {
            consecutive_failures: 0
        })
    );
}

#[test]
fn exhausted_orchestrator_recovers_after_cooldown() {
    let only = profile("only");
    let now = Instant::from_origin(Duration::from_secs(500));
    let coordinator = FailoverCoordinator::new(vec![only.clone()], Duration::from_secs(30));
    let mut orchestrator = PollingOrchestrator::with_coordinator(coordinator, now);
    assert_eq!(orchestrator.current_profile(), Some(&only));
    let transition = orchestrator.handle_event(error_event(only.clone()), now);
    assert!(transition.next_profile().is_none());
    assert_eq!(orchestrator.next_server(now), None);
    let later = now.checked_add(Duration::from_secs(30)).unwrap();
    assert_eq!(orchestrator.next_server(later), Some(only.clone()));
    assert_eq!(orchestrator.current_profile(), Some(&only));
}

#[test]
fn poll_steps_report_events_and_choose_the_next_wait() {
    let server = profile("server");
    let mut policy = RetryPolicy::new(Duration::from_secs(1), Duration::from_secs(4));
    let interval = Duration::from_secs(60);
    let (event, wait) = poll_step::<u8, &str>(&server, Err("down"), interval, &mut policy);
    assert!(matches!(event, PollEvent::Error { consecutive_failures: 1, retry_delay: Some(d), .. } if d == Duration::from_secs(1)));
    assert_eq!(wait, Duration::from_secs(1));
    let (_, wait) = poll_step::<u8, &str>(&server, Err("down"), interval, &mut policy);
    assert_eq!(wait, Duration::from_secs(2));
    let (event, wait) = poll_step::<u8, &str>(
        &server,
        Ok((7, HealthStatus::Uncertain)),
        interval,
        &mut policy,
    );
    assert!(matches!(event, PollEvent::Success { result: 7, health: HealthStatus::Uncertain, consecutive_failures: 0, retry_delay: None, .. }));
    assert_eq!(wait, interval);
    assert_eq!(policy.consecutive_failures(), 0);
}

#[test]
fn interval_is_checked_before_polling() {
    assert_eq!(validate_interval(Duration::from_secs(60)), Ok(()));
    assert!(matches!(
        validate_interval(Duration::from_secs(1)),
        Err(PollingError::InvalidInterval(ConfigError::PollIntervalTooShort { .. }))
    ));
    assert_eq!(
        PollingError::InvalidInterval(ConfigError::PollIntervalTooShort {
            minimum: Duration::from_secs(5),
            actual: Duration::from_millis(1500),
        })
        .to_string(),
        "invalid polling interval: poll interval 1.5s is shorter than minimum 5s"
    );
    assert_eq!(PollingError::WorkerPanicked.to_string(), "polling worker thread panicked");
}
