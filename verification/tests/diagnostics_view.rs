use master_time::diagnostics_view::{DiagnosticsRow, DiagnosticsView, MeasurementMillis};
use master_time::health::HealthStatus;
use master_time::time::Duration;

fn labels(rows: &[DiagnosticsRow]) -> Vec<&'static str> {
    rows.iter().map(|row| row.label).collect()
}

#[test]
fn presents_all_rows_in_a_stable_order() {
    let view = DiagnosticsView::new(
        Some(Duration::from_secs(90_061)),
        Some(8),
        Some("12.3%".to_string()),
        Some(MeasurementMillis {
            offset: "1.235 ms".to_string(),
            round_trip_delay: "12.346 ms".to_string(),
            root_distance: "78.901 ms".to_string(),
        }),
        Some(2),
        HealthStatus::Synchronized,
    );

    assert_eq!(
        labels(view.rows()),
        vec![
            "Uptime",
            "CPU count",
            "CPU utilization",
            "Current offset",
            "Delay",
            "Root distance",
            "Stratum",
            "Status",
        ]
    );
    assert_eq!(view.rows()[0].value, "1d 01h 01m 01s");
    assert_eq!(view.rows()[1].value, "8");
    assert_eq!(view.rows()[2].value, "12.3%");
    assert_eq!(view.rows()[3].value, "1.235 ms");
    assert_eq!(view.rows()[4].value, "12.346 ms");
    assert_eq!(view.rows()[5].value, "78.901 ms");
    assert_eq!(view.rows()[6].value, "2");
    assert_eq!(view.rows()[7].value, "Synchronized");
}

#[test]
fn renders_missing_values_as_unavailable() {
    let view = DiagnosticsView::new(None, None, None, None, None, HealthStatus::Unavailable);
    assert!(view.rows().iter().take(7).all(|row| row.value == "unavailable"));
    assert_eq!(view.rows()[7].value, "Unavailable");
}

#[test]
fn stratum_and_status_stay_without_a_measurement() {
    let view = DiagnosticsView::new(None, None, None, None, Some(4), HealthStatus::Uncertain);
    assert_eq!(view.rows()[2].value, "unavailable");
    assert_eq!(view.rows()[3].value, "unavailable");
    assert_eq!(view.rows()[4].value, "unavailable");
    assert_eq!(view.rows()[5].value, "unavailable");
    assert_eq!(view.rows()[6].value, "4");
    assert_eq!(view.rows()[7].value, "Uncertain");
}
