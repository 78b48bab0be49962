use master_time::system::{
    collect_load, collect_power, collect_timer_info, counter_script, format_duration, hop_lines,
    last_leap_second, leap_seconds, set_date_parameters, total_leap_seconds, w32time_from_output,
    LoadReadings, TimerReadings,
};

#[test]
fn leap_second_calendar_ends_on_2017_01_01() {
    let list = leap_seconds();
    assert_eq!(list.len(), 27);
    assert_eq!(list[0], (1972, 7, 1));
    assert_eq!(list.last(), Some(&(2017, 1, 1)));
    assert_eq!(total_leap_seconds(), 27);
    assert_eq!(last_leap_second(), "2017-01-01");
}

#[test]
fn durations_are_written_with_padded_fields() {
    assert_eq!(format_duration(0), "0d 00h 00m 00s");
    assert_eq!(format_duration(999), "0d 00h 00m 00s");
    assert_eq!(format_duration(90_061_000), "1d 01h 01m 01s");
    assert_eq!(format_duration(1_000 * (3 * 86_400 + 23 * 3_600 + 59 * 60 + 59)), "3d 23h 59m 59s");
}

fn readings() -> TimerReadings {
    TimerReadings {
        qpc_frequency: None,
        qpc_resolution: "100.000 ns".to_string(),
        qpc_value: None,
        timer_resolution: "0.000 ms".to_string(),
        timer_resolution_min: "0.000 ms".to_string(),
        timer_resolution_max: "0.000 ms".to_string(),
        clock_adjustment: "0.000 ms".to_string(),
        clock_increment: "0.000 ms".to_string(),
        disciplined: None,
        uptime_ms: None,
        rtc_vs_os: None,
    }
}

#[test]
fn missing_timer_readings_are_unavailable() {
    let info = collect_timer_info(readings());
    assert_eq!(info.qpc_frequency, "unavailable");
    assert_eq!(info.qpc_resolution, "unavailable");
    assert_eq!(info.qpc_value, "unavailable");
    assert_eq!(info.timer_resolution, "0.000 ms");
    assert_eq!(info.clock_disciplined, "unavailable");
    assert_eq!(info.uptime, "unavailable");
    assert_eq!(info.rtc_vs_os, "unavailable");
}

#[test]
fn present_timer_readings_are_written() {
    let mut r = readings();
    r.qpc_frequency = Some(10_000_000);
    r.qpc_value = Some(42);
    r.disciplined = Some(true);
    r.uptime_ms = Some(3_723_000);
    r.rtc_vs_os = Some("+1 s (RTC vs OS clock of day)".to_string());
    let info = collect_timer_info(r);
    assert_eq!(info.qpc_frequency, "10000000 Hz");
    assert_eq!(info.qpc_resolution, "100.000 ns");
    assert_eq!(info.qpc_value, "42");
    assert_eq!(info.clock_disciplined, "Disciplined (slewing)");
    assert_eq!(info.uptime, "0d 01h 02m 03s");
    assert_eq!(info.rtc_vs_os, "+1 s (RTC vs OS clock of day)");
    let mut r = readings();
    r.disciplined = Some(false);
    assert_eq!(collect_timer_info(r).clock_disciplined, "Not disciplined");
}

#[test]
fn time_service_report_is_read_field_by_field() {
    let report = "Leap Indicator: 0(no warning)\r\n  Source: time.windows.com,0x9  \r\n\
                  Phase Offset: 0.0001234s\r\nFrequency: 0.0000000ppm\nPoll Interval: 10 (1024s)\n\
                  Last Successful Sync Time: 1/2/2026 3:04:05 PM\n";
    let info = w32time_from_output(report);
    assert_eq!(info.raw, report);
    assert_eq!(info.source, "time.windows.com,0x9");
    assert_eq!(info.phase_offset, "0.0001234s");
    assert_eq!(info.frequency, "0.0000000ppm");
    assert_eq!(info.poll_interval, "10 (1024s)");
    assert_eq!(info.last_sync, "1/2/2026 3:04:05 PM");
    let empty = w32time_from_output("The service has not been started.");
    assert_eq!(empty.source, "");
    assert_eq!(empty.last_sync, "");
}

#[test]
fn load_counters_get_their_units() {
    let info = collect_load(LoadReadings {
        cpu_usage: Some("12.5".to_string()),
        context_switches: Some("1500".to_string()),
        interrupts: None,
    });
    assert_eq!(info.cpu_usage, "12.5%");
    assert_eq!(info.context_switches, "1500/s");
    assert_eq!(info.interrupts, "n/a");
    assert_eq!(info.warning, "");
    let none = collect_load(LoadReadings {
        cpu_usage: None,
        context_switches: None,
        interrupts: None,
    });
    assert_eq!(none.cpu_usage, "unavailable");
}

#[test]
fn power_plans_get_a_verdict() {
    assert_eq!(
        collect_power(Some("High Performance".to_string())).verdict,
        "Good: QPC/TSC stability"
    );
    assert_eq!(
        collect_power(Some("Ultimate Performance".to_string())).verdict,
        "Good: QPC/TSC stability"
    );
    assert_eq!(
        collect_power(Some("Balanced".to_string())).verdict,
        "Caution: cores may be parked / TSC throttled"
    );
    assert_eq!(
        collect_power(Some("POWER SAVER".to_string())).verdict,
        "Caution: cores may be parked / TSC throttled"
    );
    let unknown = collect_power(None);
    assert_eq!(unknown.active_plan, "unavailable");
    assert_eq!(unknown.verdict, "Unknown");
}

#[test]
fn quotes_are_doubled_in_scripts() {
    assert_eq!(
        counter_script("\\System\\Context Switches/sec"),
        "(Get-Counter '\\System\\Context Switches/sec').CounterSamples[0].CookedValue"
    );
    assert_eq!(
        counter_script("it's"),
        "(Get-Counter 'it''s').CounterSamples[0].CookedValue"
    );
    assert_eq!(
        set_date_parameters("2026-08-04 14:30:00"),
        "/c powershell.exe -NoProfile -Command \"Set-Date -Date '2026-08-04 14:30:00'\""
    );
}

#[test]
fn route_trace_keeps_numbered_hops() {
    let output = "\r\nTracing route to 10.0.0.1 over a maximum of 15 hops\r\n\r\n  1    <1 ms    <1 ms    <1 ms  192.168.1.1 \r\n  2     5 ms     4 ms     4 ms  10.0.0.1\r\n\r\nTrace complete.\r\n";
    assert_eq!(
        hop_lines(output),
        vec![
            "1    <1 ms    <1 ms    <1 ms  192.168.1.1".to_string(),
            "2     5 ms     4 ms     4 ms  10.0.0.1".to_string(),
        ]
    );
    assert!(hop_lines("").is_empty());
}
