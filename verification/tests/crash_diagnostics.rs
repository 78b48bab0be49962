use master_time::crash_diagnostics::{
    civil_from_days, format_timestamp, Clock, CrashDiagnostics, Severity,
};
use master_time::redaction::redact;
use master_time::time::{unix_epoch, Duration, SystemTime};

#[derive(Clone, Copy)]
struct TestClock(SystemTime);

impl Clock for TestClock {
    fn now(&self) -> SystemTime {
        self.0
    }
}

fn at(seconds: u64, nanos: u32) -> SystemTime {
    SystemTime::from_unix_duration(Duration::new(seconds, nanos)).unwrap()
}

#[test]
fn keeps_latest_entries_with_a_bound() {
    let clock = TestClock(at(1, 0));
    let mut diagnostics = CrashDiagnostics::with_clock(2, clock);
    diagnostics.record(Severity::Info, "first");
    diagnostics.record(Severity::Warn, "second");
    diagnostics.record(Severity::Error, "third");

    let messages: Vec<_> = diagnostics
        .entries()
        .iter()
        .map(|entry| entry.message.as_str())
        .collect();
    assert_eq!(messages, ["second", "third"]);
}

#[test]
fn zero_capacity_and_failures_are_graceful() {
    let mut diagnostics = CrashDiagnostics::new(0);
    diagnostics.record_failure("operation", "token=do-not-leak");
    assert!(diagnostics.is_empty());
    assert_eq!(
        diagnostics.record_result::<(), &str>("operation", Err("failed")),
        Err("failed")
    );
}

#[test]
fn redacts_sensitive_values_and_exports_timestamped_text() {
    let time = at(1_704_067_200, 12_000_000);
    let mut diagnostics = CrashDiagnostics::with_clock(4, TestClock(time));
    diagnostics.record(
        Severity::Error,
        "https://example.test?token=abc123 authorization: Bearer secret-value user=alice",
    );
    let output = diagnostics.export_text();

    assert!(output.starts_with("2024-01-01T00:00:00.012000000Z [ERROR] "));
    assert!(output.contains("token=[REDACTED]"));
    assert!(output.contains("authorization: [REDACTED]"));
    assert!(!output.contains("abc123"));
    assert!(!output.contains("secret-value"));
    assert!(output.contains("user=alice"));
}

#[test]
fn records_failures_without_changing_the_result() {
    let mut diagnostics = CrashDiagnostics::with_clock(2, TestClock(unix_epoch()));
    let result = diagnostics.record_result::<(), _>("request", Err("password=hunter2"));
    assert_eq!(result, Err("password=hunter2"));
    assert_eq!(
        diagnostics.entries()[0].message,
        "request: password=[REDACTED]"
    );
}

#[test]
fn redaction_handles_separators_case_and_bearer_values() {
    assert_eq!(
        redact("Password: hunter2, next=1"),
        "Password: [REDACTED], next=1"
    );
    assert_eq!(redact("API_KEY=abc&x=1"), "API_KEY=[REDACTED]&x=1");
    assert_eq!(
        redact("header Bearer abc.def;rest"),
        "header Bearer [REDACTED];rest"
    );
    assert_eq!(redact("token="), "token=[REDACTED]");
    assert_eq!(redact("nothing to hide"), "nothing to hide");
    assert_eq!(
        redact("secret=a secret=b"),
        "secret=[REDACTED] secret=[REDACTED]"
    );
}

#[test]
fn timestamps_before_the_epoch_and_civil_dates() {
    assert_eq!(format_timestamp(unix_epoch()), "1970-01-01T00:00:00.000000000Z");
    let before = unix_epoch().checked_sub(Duration::new(0, 1)).unwrap();
    assert_eq!(format_timestamp(before), "1969-12-31T23:59:59.999999999Z");
    assert_eq!(civil_from_days(0), (1970, 1, 1));
    assert_eq!(civil_from_days(-1), (1969, 12, 31));
    assert_eq!(civil_from_days(19_723), (2024, 1, 1));
    assert_eq!(civil_from_days(11_016), (2000, 2, 29));
}

#[test]
fn export_lists_entries_oldest_first_and_clear_empties() {
    let mut diagnostics = CrashDiagnostics::with_clock(3, TestClock(at(86_400, 0)));
    diagnostics.record(Severity::Trace, "a");
    diagnostics.record(Severity::Critical, "b");
    assert_eq!(diagnostics.len(), 2);
    assert_eq!(
        diagnostics.export_text(),
        "1970-01-02T00:00:00.000000000Z [TRACE] a\n1970-01-02T00:00:00.000000000Z [CRITICAL] b\n"
    );
    diagnostics.clear();
    assert!(diagnostics.is_empty());
    assert_eq!(diagnostics.export_text(), "");
    assert_eq!(Severity::Warn.to_string(), "WARN");
}

#[test]
fn written_export_matches_the_text() {
    let time = at(1_704_067_200, 0);
    let mut diagnostics = CrashDiagnostics::with_clock(4, TestClock(time));
    diagnostics.record(Severity::Warn, "slow response");
    let mut bytes: Vec<u8> = Vec::new();
    diagnostics.write_export(&mut bytes).unwrap();
    assert_eq!(String::from_utf8(bytes).unwrap(), diagnostics.export_text());
}
