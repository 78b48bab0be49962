use master_time::platform::{summary, CpuTimes, DiagnosticsCollector};
use master_time::time::Duration;

fn times(idle: u64, kernel: u64, user: u64) -> CpuTimes {
    CpuTimes { idle, kernel, user }
}

#[test]
fn first_reading_gives_no_usage() {
    let mut collector = DiagnosticsCollector::new();
    assert_eq!(collector.record_cpu_times(times(10, 20, 30)), None);
    assert_eq!(collector.record_cpu_times(times(15, 30, 40)), Some((5, 20)));
}

#[test]
fn backwards_or_idle_intervals_give_no_usage() {
    let mut collector = DiagnosticsCollector::new();
    collector.record_cpu_times(times(10, 20, 30));
    assert_eq!(collector.record_cpu_times(times(9, 25, 35)), None);
    assert_eq!(collector.record_cpu_times(times(9, 25, 35)), None);
    assert_eq!(collector.record_cpu_times(times(12, 26, 35)), Some((3, 1)));
    assert_eq!(collector.record_cpu_times(times(12, u64::MAX, u64::MAX)), None);
}

#[test]
fn summary_is_explicitly_unavailable_without_readings() {
    assert_eq!(
        summary(None, None, None),
        "uptime=unavailable, logical CPUs=unavailable, CPU usage=unavailable"
    );
}

#[test]
fn summary_formats_a_duration() {
    assert_eq!(
        summary(Some(Duration::from_secs(90_061)), Some(8), Some("12.3%".to_string())),
        "uptime=1d 01h 01m 01s, logical CPUs=8, CPU usage=12.3%"
    );
}
