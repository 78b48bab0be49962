use master_time::health::HealthStatus;
use master_time::time::{unix_epoch, Duration};
use master_time::ui::{format_current_time, present, status_view, HistoryView, ServerMetricsView, StatusKind};

#[test]
fn formats_epoch_stably() {
    assert_eq!(format_current_time(unix_epoch()), "1970-01-01 00:00:00.000 UTC");
    assert_eq!(
        format_current_time(unix_epoch().checked_add(Duration::from_millis(3_723_456)).unwrap()),
        "1970-01-01 01:02:03.456 UTC"
    );
    assert_eq!(
        format_current_time(unix_epoch().checked_add(Duration::from_secs(1_704_067_200)).unwrap()),
        "2024-01-01 00:00:00.000 UTC"
    );
}

#[test]
fn times_before_the_epoch_are_unavailable() {
    assert_eq!(
        format_current_time(unix_epoch().checked_sub(Duration::from_secs(1)).unwrap()),
        "Unavailable"
    );
}

#[test]
fn empty_state_presents_unavailable_sections() {
    let presentation = present(None, None, None, None, None);
    assert_eq!(presentation.current_time.value, "Unavailable");
    assert_eq!(presentation.server_metrics.server, "Unavailable");
    assert_eq!(presentation.server_metrics.root_distance, "Unavailable");
    assert_eq!(presentation.status.kind, StatusKind::Unavailable);
    assert_eq!(presentation.status.detail, "No successful measurement");
    assert!(presentation.errors.message.is_none());
    assert!(presentation.history.samples.is_empty());
    assert!(presentation.history.summary.is_none());
}

#[test]
fn present_keeps_the_given_sections() {
    let metrics = ServerMetricsView {
        server: "127.0.0.1:123".to_string(),
        stratum: "2".to_string(),
        offset: "+1.00 ms".to_string(),
        round_trip_delay: "+10.00 ms".to_string(),
        root_distance: "+5.00 ms".to_string(),
    };
    let history = HistoryView { samples: vec!["+1.00 ms".to_string()], summary: None };
    let presentation = present(
        Some(unix_epoch()),
        Some(metrics.clone()),
        Some(HealthStatus::Synchronized),
        Some("timed out".to_string()),
        Some(history.clone()),
    );
    assert_eq!(presentation.current_time.value, "1970-01-01 00:00:00.000 UTC");
    assert_eq!(presentation.server_metrics, metrics);
    assert_eq!(presentation.status.kind, StatusKind::Synchronized);
    assert_eq!(presentation.errors.message.as_deref(), Some("timed out"));
    assert_eq!(presentation.history, history);
}

#[test]
fn status_views_explain_health() {
    let synchronized = status_view(HealthStatus::Synchronized);
    assert_eq!(synchronized.label, "Synchronized");
    assert_eq!(synchronized.detail, "Server time is within the configured health thresholds");
    let uncertain = status_view(HealthStatus::Uncertain);
    assert_eq!(uncertain.kind, StatusKind::Uncertain);
    assert_eq!(
        uncertain.detail,
        "Measurement is available but synchronization quality needs attention"
    );
    let unavailable = status_view(HealthStatus::Unavailable);
    assert_eq!(unavailable.label, "Unavailable");
    assert_eq!(unavailable.detail, "Measurement cannot establish clock health");
}
