use master_time::failover::FailoverCoordinator;
use master_time::servers::{ServerCatalog, ServerProfile};
use master_time::time::{Duration, Instant};

fn profile(name: &str) -> ServerProfile {
    ServerProfile::new(name, &format!("{name}.example.test"), None).unwrap()
}

fn start() -> Instant {
    Instant::from_origin(Duration::from_secs(1_000))
}

#[test]
fn rotates_without_immediate_loops() {
    let first = profile("first");
    let second = profile("second");
    let third = profile("third");
    let mut coordinator = FailoverCoordinator::new(
        vec![first.clone(), second.clone(), third.clone()],
        Duration::from_secs(30),
    );
    let now = start();

    assert_eq!(coordinator.next_candidate(now), Some(&first));
    coordinator.record_failure(&first, now);
    assert_eq!(coordinator.next_candidate(now), Some(&second));
    coordinator.record_failure(&second, now);
    assert_eq!(coordinator.next_candidate(now), Some(&third));
}

#[test]
fn success_resets_failure_state() {
    let first = profile("first");
    let second = profile("second");
    let mut coordinator =
        FailoverCoordinator::new(vec![first.clone(), second], Duration::from_secs(30));
    let now = start();

    assert_eq!(coordinator.next_candidate(now), Some(&first));
    coordinator.record_failure(&first, now);
    coordinator.record_success(&first);

    assert_eq!(coordinator.failure_count(&first), Some(0));
    assert_eq!(coordinator.next_candidate(now), Some(&first));
}

#[test]
fn exhausted_candidates_return_none_until_cooldown_expires() {
    let first = profile("first");
    let second = profile("second");
    let mut coordinator =
        FailoverCoordinator::new(vec![first.clone(), second.clone()], Duration::from_secs(30));
    let now = start();

    assert_eq!(coordinator.next_candidate(now), Some(&first));
    coordinator.record_failure(&first, now);
    assert_eq!(coordinator.next_candidate(now), Some(&second));
    coordinator.record_failure(&second, now);
    assert_eq!(coordinator.next_candidate(now), None);
    assert_eq!(
        coordinator.next_candidate(now.checked_add(Duration::from_secs(30)).unwrap()),
        Some(&first)
    );
}

#[test]
fn unknown_profiles_and_cooldown_queries() {
    let first = profile("first");
    let stranger = profile("stranger");
    let mut coordinator = FailoverCoordinator::new(vec![first.clone()], Duration::from_secs(10));
    let now = start();
    coordinator.record_failure(&stranger, now);
    assert_eq!(coordinator.failure_count(&stranger), None);
    assert_eq!(coordinator.is_on_cooldown(&stranger, now), None);
    coordinator.record_failure(&first, now);
    coordinator.record_failure(&first, now);
    assert_eq!(coordinator.failure_count(&first), Some(2));
    assert_eq!(coordinator.is_on_cooldown(&first, now), Some(true));
    let later = now.checked_add(Duration::from_secs(10)).unwrap();
    assert_eq!(coordinator.is_on_cooldown(&first, later), Some(false));
    assert!(FailoverCoordinator::new(Vec::new(), Duration::zero())
        .next_candidate(now)
        .is_none());
    let from_catalog = FailoverCoordinator::from_catalog(&ServerCatalog::built_in(), Duration::zero());
    assert_eq!(from_catalog.candidates().len(), 6);
    assert_eq!(from_catalog.clone().candidates()[0].name(), "Google Public NTP");
}
