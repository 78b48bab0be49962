use master_time::history::RollingHistory;

#[test]
fn rolling_history_evicts_oldest() {
    let mut history = RollingHistory::new(2);
    assert!(history.is_empty());
    history.push(1.0);
    history.push(2.0);
    history.push(3.0);
    assert_eq!(history.samples(), &[2.0, 3.0]);
    assert_eq!(history.len(), 2);
    assert_eq!(history.capacity(), 2);
}

#[test]
fn zero_capacity_history_keeps_nothing() {
    let mut history = RollingHistory::new(0);
    history.push(1u64);
    assert!(history.is_empty());
    assert_eq!(history.capacity(), 0);
}
