use std::cell::Cell;

use master_time::notifications::{Clock, NotificationCenter, NotificationKind, Severity};
use master_time::time::Duration;

#[derive(Debug)]
struct TestClock(Cell<Duration>);

impl Default for TestClock {
    fn default() -> Self {
        TestClock(Cell::new(Duration::zero()))
    }
}

impl TestClock {
    fn advance(&self, amount: Duration) {
        self.0.set(self.0.get().checked_add(&amount).unwrap());
    }
}

impl Clock for TestClock {
    fn now(&self) -> Duration {
        self.0.get()
    }
}

#[test]
fn deduplicates_and_refreshes_a_banner() {
    let clock = TestClock::default();
    let mut center = NotificationCenter::new(clock, 4);
    let first = center
        .notify(
            "network",
            NotificationKind::PollingError,
            Severity::Error,
            "offline",
            Some(Duration::from_secs(5)),
        )
        .unwrap();
    center.clock().advance(Duration::from_secs(4));
    let second = center
        .notify(
            "network",
            NotificationKind::PollingError,
            Severity::Critical,
            "still offline",
            Some(Duration::from_secs(5)),
        )
        .unwrap();
    assert_eq!(first, second);
    assert_eq!(center.history().len(), 1);
    assert_eq!(center.history()[0].message(), "still offline");
    center.clock().advance(Duration::from_secs(4));
    assert_eq!(center.active().len(), 1);
    center.clock().advance(Duration::from_secs(1));
    assert!(center.active().is_empty());
}

#[test]
fn dismissal_hides_until_a_deduplicated_update() {
    let mut center = NotificationCenter::new(TestClock::default(), 4);
    let id = center.polling_error("offline").unwrap();
    assert!(center.dismiss(id));
    assert!(center.active().is_empty());
    assert!(!center.dismiss(id));
    assert_eq!(center.polling_error("again"), Some(id));
    assert_eq!(center.active()[0].message(), "again");
}

#[test]
fn history_is_bounded_and_top_prefers_severity() {
    let mut center = NotificationCenter::new(TestClock::default(), 2);
    center.notify(
        "one",
        NotificationKind::Recovery,
        Severity::Info,
        "one",
        None,
    );
    center.notify(
        "two",
        NotificationKind::UnsafeTime,
        Severity::Warning,
        "two",
        None,
    );
    center.notify(
        "three",
        NotificationKind::PollingError,
        Severity::Critical,
        "three",
        None,
    );
    assert_eq!(center.history().len(), 2);
    assert_eq!(center.top().unwrap().message(), "three");
    assert!(center.history().iter().all(|item| item.message() != "one"));
}

#[test]
fn built_in_events_have_expected_kinds_and_recovery_expires() {
    let clock = TestClock::default();
    let mut center = NotificationCenter::new(clock, 8);
    assert_eq!(center.unsafe_time("clock check failed").unwrap(), 1);
    assert_eq!(center.recovery("clock is safe").unwrap(), 2);
    assert_eq!(center.history()[1].kind(), NotificationKind::Recovery);
    center.clock().advance(Duration::from_secs(5));
    center.prune_expired();
    assert_eq!(center.history().len(), 1);
    assert_eq!(center.history()[0].kind(), NotificationKind::UnsafeTime);
}

#[test]
fn zero_capacity_keeps_nothing_and_top_prefers_newest_of_equal_severity() {
    let mut empty = NotificationCenter::new(TestClock::default(), 0);
    assert_eq!(empty.polling_error("offline"), None);
    assert!(empty.history().is_empty());
    assert!(empty.top().is_none());

    let mut center = NotificationCenter::new(TestClock::default(), 3);
    center.notify_at(Duration::zero(), "a", NotificationKind::UnsafeTime, Severity::Warning, "a", None);
    center.notify_at(Duration::zero(), "b", NotificationKind::UnsafeTime, Severity::Warning, "b", None);
    assert_eq!(center.top_at(Duration::zero()).unwrap().message(), "b");
    let id = center.history()[1].id();
    assert!(center.dismiss_at(Duration::zero(), id));
    assert_eq!(center.top_at(Duration::zero()).unwrap().message(), "a");
    assert_eq!(center.active_at(Duration::zero()).len(), 1);
    let entry = &center.history()[0];
    assert_eq!(entry.key(), "a");
    assert_eq!(entry.severity(), Severity::Warning);
    assert_eq!(entry.created_at(), Duration::zero());
    assert_eq!(entry.expires_at(), None);
    assert!(!entry.is_dismissed());
    assert!(!entry.is_expired_at(Duration::from_secs(1000)));
    assert_eq!(center.capacity(), 3);
    assert_eq!(Severity::Critical.to_string(), "critical");
}

#[test]
fn history_keys_stay_distinct_and_ids_increase() {
    let mut center = NotificationCenter::new(TestClock::default(), 3);
    for key in ["a", "b", "a", "c", "b", "d", "a", "e", "d"] {
        center.notify(key, NotificationKind::PollingError, Severity::Error, key, None);
        let history = center.history();
        assert!(history.len() <= center.capacity());
        for i in 0..history.len() {
            for j in i + 1..history.len() {
                assert_ne!(history[i].key(), history[j].key());
                assert!(history[i].id() < history[j].id());
            }
        }
    }
    let keys: Vec<&str> = center.history().iter().map(|n| n.key()).collect();
    assert_eq!(keys, vec!["d", "a", "e"]);
}
