use master_time::clock_display::{epoch_seconds, format_clock, unavailable, HourFormat};
use master_time::time::{unix_epoch, Duration};

#[test]
fn formats_utc_midnight_in_24_hour_mode() {
    assert_eq!(
        format_clock(1_704_067_200, 0, HourFormat::TwentyFourHour).unwrap(),
        "2024-01-01 00:00:00"
    );
}

#[test]
fn formats_local_evening_in_12_hour_mode() {
    assert_eq!(
        format_clock(1_704_067_200, -5 * 3_600, HourFormat::TwelveHour).unwrap(),
        "2023-12-31 07:00:00 PM"
    );
    assert_eq!(
        format_clock(0, 0, HourFormat::TwelveHour).unwrap(),
        "1970-01-01 12:00:00 AM"
    );
    assert_eq!(
        format_clock(12 * 3_600 + 61, 0, HourFormat::TwelveHour).unwrap(),
        "1970-01-01 12:01:01 PM"
    );
}

#[test]
fn formats_pre_epoch_seconds() {
    assert_eq!(
        format_clock(-1, 0, HourFormat::TwentyFourHour).unwrap(),
        "1969-12-31 23:59:59"
    );
}

#[test]
fn overflowing_offsets_are_unavailable() {
    assert!(format_clock(i64::MAX, 1, HourFormat::TwentyFourHour).is_none());
    assert_eq!(unavailable(), "<unavailable>");
}

#[test]
fn epoch_seconds_round_towards_zero() {
    let epoch = unix_epoch();
    assert_eq!(epoch_seconds(epoch), Some(0));
    let later = epoch.checked_add(Duration::new(10, 500_000_000)).unwrap();
    assert_eq!(epoch_seconds(later), Some(10));
    let earlier = epoch.checked_sub(Duration::new(1, 500_000_000)).unwrap();
    assert_eq!(epoch_seconds(earlier), Some(-1));
    let second_before = epoch.checked_sub(Duration::from_secs(1)).unwrap();
    assert_eq!(epoch_seconds(second_before), Some(-1));
}
