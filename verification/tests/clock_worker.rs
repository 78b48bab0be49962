use master_time::clock_worker::{
    active_profile_index, kod_code, reference_id, reference_unix_millis, status_after_failure,
    ClockStatus, ExchangeTally, NTP_TIMESTAMP_DELTA,
};

#[test]
fn selection_past_the_list_queries_the_last_profile() {
    assert_eq!(active_profile_index(0, 3), 0);
    assert_eq!(active_profile_index(2, 3), 2);
    assert_eq!(active_profile_index(7, 3), 2);
}

#[test]
fn failures_keep_an_estimated_time_when_one_was_shown() {
    assert_eq!(status_after_failure(true), ClockStatus::Estimated);
    assert_eq!(status_after_failure(false), ClockStatus::Unsynchronized);
}

#[test]
fn tally_counts_requests_responses_and_bytes() {
    let mut tally = ExchangeTally::new();
    tally.record_response(48, 48);
    tally.record_failure();
    tally.record_response(48, 68);
    assert_eq!(tally.request_count, 3);
    assert_eq!(tally.response_count, 2);
    assert_eq!(tally.total_sent, 96);
    assert_eq!(tally.total_received, 116);
    assert_eq!(tally.lost(), 1);
}

#[test]
fn reference_ids_are_codes_or_addresses() {
    assert_eq!(reference_id(1, *b"GPS\0"), "GPS\0");
    assert_eq!(reference_id(0, *b"RATE"), "RATE");
    assert_eq!(reference_id(2, [192, 168, 1, 10]), "192.168.1.10");
}

#[test]
fn kiss_codes_come_only_from_stratum_zero() {
    assert_eq!(kod_code(0, "RATE"), Some("RATE".to_string()));
    assert_eq!(kod_code(1, "GPS"), None);
}

#[test]
fn reference_times_convert_to_unix_milliseconds() {
    assert_eq!(reference_unix_millis(NTP_TIMESTAMP_DELTA as u32 + 10, 0x8000_0000), (10, 500));
    assert_eq!(reference_unix_millis(5, u32::MAX), (0, 999));
}
