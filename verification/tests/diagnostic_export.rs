use master_time::diagnostic_export::{
    DiagnosticSnapshot, ExportError, MeasurementSection, NetworkSection, ServerInfo,
    StatisticsSection, SystemSection,
};
use master_time::health::HealthStatus;
use master_time::time::Duration;

fn statistics(min: &str, max: &str, mean: &str, deviation: &str) -> StatisticsSection {
    StatisticsSection {
        min: min.to_string(),
        max: max.to_string(),
        mean: mean.to_string(),
        standard_deviation: deviation.to_string(),
    }
}

#[test]
fn formats_all_sections_stably() {
    let export = DiagnosticSnapshot {
        diagnostics: SystemSection {
            uptime: Some(Duration::from_secs(12)),
            logical_cpu_count: Some(4),
            cpu_usage_percent: Some("25.000000".to_string()),
        },
        health: Some(HealthStatus::Synchronized),
        measurement: Some(MeasurementSection {
            offset: "0.001000".to_string(),
            round_trip_delay: "0.002000".to_string(),
            root_distance: "0.003000".to_string(),
        }),
        server: Some(ServerInfo::new("Primary", "127.0.0.1:123")),
        network: None,
    };
    let text = export.to_plain_text();
    assert!(text.contains("[diagnostics]\nuptime=12\n"));
    assert!(text.contains("[health]\nstatus=synchronized\n"));
    assert!(text.contains("name=Primary\naddress=127.0.0.1:123\n"));
    assert!(export.to_json().starts_with("{\"version\":1,"));
}

#[test]
fn default_snapshot_is_unavailable_everywhere() {
    let export = DiagnosticSnapshot::default();
    assert_eq!(
        export.to_plain_text(),
        "master-time diagnostics\nversion=1\n\n[diagnostics]\nuptime=unavailable\n\
         logical_cpu_count=unavailable\ncpu_usage_percent=unavailable\n\n[health]\n\
         status=unavailable\n\n[measurement]\noffset_seconds=unavailable\n\
         round_trip_delay_seconds=unavailable\nroot_distance_seconds=unavailable\n\n[server]\n\
         name=unavailable\naddress=unavailable\n\n[network]\noffset=unavailable\n\
         round_trip_time=unavailable\njitter=unavailable\nfrequency_error=unavailable\n\
         packet_loss_percent=unavailable\n"
    );
    assert_eq!(
        export.to_json(),
        "{\"version\":1,\"diagnostics\":{\"uptime\":\"unavailable\",\
         \"logical_cpu_count\":\"unavailable\",\"cpu_usage_percent\":\"unavailable\"},\
         \"health\":{\"status\":\"unavailable\"},\"measurement\":{\"offset_seconds\":null,\
         \"round_trip_delay_seconds\":null,\"root_distance_seconds\":null},\"server\":null,\
         \"network\":{\"offset\":null,\"round_trip_time\":null,\"jitter\":null,\
         \"frequency_error\":null,\"packet_loss_percent\":null}}"
    );
}

fn full() -> DiagnosticSnapshot {
    DiagnosticSnapshot {
        diagnostics: SystemSection {
            uptime: Some(Duration::new(3661, 999_999_999)),
            logical_cpu_count: Some(8),
            cpu_usage_percent: Some("12.500000".to_string()),
        },
        health: Some(HealthStatus::Uncertain),
        measurement: Some(MeasurementSection {
            offset: "-0.000250".to_string(),
            round_trip_delay: "0.010000".to_string(),
            root_distance: "0.020000".to_string(),
        }),
        server: Some(ServerInfo::new("Lab \"A\"\tone", "10.0.0.1:123")),
        network: Some(NetworkSection {
            offset: Some(statistics("-1.000000", "1.000000", "0.000000", "0.500000")),
            round_trip_time: None,
            jitter: Some(statistics("0.100000", "0.200000", "0.150000", "0.050000")),
            frequency_error: None,
            packet_loss_percent: Some("25.000000".to_string()),
        }),
    }
}

#[test]
fn full_snapshot_plain_text_lists_every_value() {
    assert_eq!(
        full().to_plain_text(),
        "master-time diagnostics\nversion=1\n\n[diagnostics]\nuptime=3661\n\
         logical_cpu_count=8\ncpu_usage_percent=12.500000\n\n[health]\nstatus=uncertain\n\n\
         [measurement]\noffset_seconds=-0.000250\nround_trip_delay_seconds=0.010000\n\
         root_distance_seconds=0.020000\n\n[server]\nname=Lab \"A\"\tone\naddress=10.0.0.1:123\n\n\
         [network]\noffset_min=-1.000000\noffset_max=1.000000\noffset_mean=0.000000\n\
         offset_standard_deviation=0.500000\nround_trip_time_min=unavailable\n\
         round_trip_time_max=unavailable\nround_trip_time_mean=unavailable\n\
         round_trip_time_standard_deviation=unavailable\njitter_min=0.100000\n\
         jitter_max=0.200000\njitter_mean=0.150000\njitter_standard_deviation=0.050000\n\
         frequency_error_min=unavailable\nfrequency_error_max=unavailable\n\
         frequency_error_mean=unavailable\nfrequency_error_standard_deviation=unavailable\n\
         packet_loss_percent=25.000000\n"
    );
}

#[test]
fn full_snapshot_json_escapes_strings_and_writes_numbers() {
    assert_eq!(
        full().to_json(),
        "{\"version\":1,\"diagnostics\":{\"uptime\":\"3661\",\"logical_cpu_count\":\"8\",\
         \"cpu_usage_percent\":\"12.500000\"},\"health\":{\"status\":\"uncertain\"},\
         \"measurement\":{\"offset_seconds\":-0.000250,\"round_trip_delay_seconds\":0.010000,\
         \"root_distance_seconds\":0.020000},\"server\":{\"name\":\"Lab \\\"A\\\"\\tone\",\
         \"address\":\"10.0.0.1:123\"},\"network\":{\"offset\":{\"min\":-1.000000,\
         \"max\":1.000000,\"mean\":0.000000,\"standard_deviation\":0.500000},\
         \"round_trip_time\":null,\"jitter\":{\"min\":0.100000,\"max\":0.200000,\
         \"mean\":0.150000,\"standard_deviation\":0.050000},\"frequency_error\":null,\
         \"packet_loss_percent\":25.000000}}"
    );
}

#[test]
fn control_characters_are_escaped_in_lower_case_hex() {
    let export = DiagnosticSnapshot {
        server: Some(ServerInfo::new("a\u{1}b\u{7f}c\\\r\n\u{9f}é", "x")),
        ..DiagnosticSnapshot::default()
    };
    let json = export.to_json();
    assert!(json.contains(
        "\"server\":{\"name\":\"a\\u0001b\\u007fc\\\\\\r\\n\\u009fé\",\"address\":\"x\"}"
    ));
}

#[test]
fn server_info_keeps_both_fields() {
    let info = ServerInfo::new("Primary", "127.0.0.1:123");
    assert_eq!(info.name, "Primary");
    assert_eq!(info.address, "127.0.0.1:123");
}

#[test]
fn export_errors_name_operation_and_path() {
    let error = ExportError::Io {
        operation: "create temporary export",
        path: std::path::PathBuf::from("/missing/export.json"),
        source: std::io::Error::new(std::io::ErrorKind::NotFound, "not found"),
    };
    assert_eq!(
        error.to_string(),
        "failed to create temporary export '/missing/export.json': not found"
    );
}
