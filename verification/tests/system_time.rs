use master_time::time::{unix_epoch, Duration, SystemTime};

#[test]
fn epoch_offset_after_epoch_is_that_span_later() {
    let t = SystemTime::from_epoch_offset(Ok(Duration::new(90, 5)));
    assert_eq!(t.unix_secs_floor(), 90);
    assert_eq!(t.unix_subsec_nanos(), 5);
    assert_eq!(t.duration_since(unix_epoch()), Ok(Duration::new(90, 5)));
}

#[test]
fn epoch_offset_before_epoch_is_that_span_earlier() {
    let t = SystemTime::from_epoch_offset(Err(Duration::new(1, 250_000_000)));
    assert_eq!(t.unix_secs_floor(), -2);
    assert_eq!(t.unix_subsec_nanos(), 750_000_000);
}

#[test]
fn epoch_offset_out_of_range_is_clamped() {
    let late = SystemTime::from_epoch_offset(Ok(Duration::new(u64::MAX, 0)));
    assert_eq!(late, SystemTime::max_value());
    let early = SystemTime::from_epoch_offset(Err(Duration::new(u64::MAX, 0)));
    assert_eq!(early, SystemTime::min_value());
}

#[test]
fn zero_offset_is_the_epoch() {
    assert_eq!(SystemTime::from_epoch_offset(Ok(Duration::zero())), unix_epoch());
    assert_eq!(SystemTime::from_epoch_offset(Err(Duration::zero())), unix_epoch());
}
