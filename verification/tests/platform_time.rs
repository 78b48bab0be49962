use master_time::platform_time::{
    adjusted_file_time_ticks, PlatformTimeAdapter, PlatformTimeError, MAX_SYSTEMTIME_FILETIME_TICKS,
};

#[test]
fn default_adapter_refuses_to_apply() {
    let adapter = PlatformTimeAdapter::new();
    assert!(!adapter.is_opted_in());
    assert!(!PlatformTimeAdapter::default().is_opted_in());
    assert_eq!(adapter.apply_error(true), PlatformTimeError::OptInRequired);
}

#[test]
fn non_finite_corrections_are_invalid_even_when_opted_in() {
    assert_eq!(
        PlatformTimeAdapter::new().apply_error(false),
        PlatformTimeError::InvalidCorrection
    );
    assert_eq!(
        PlatformTimeAdapter::with_explicit_opt_in().apply_error(false),
        PlatformTimeError::InvalidCorrection
    );
}

#[test]
fn opted_in_apply_reports_unsupported_platform() {
    let adapter = PlatformTimeAdapter::with_explicit_opt_in();
    assert!(adapter.is_opted_in());
    assert_eq!(adapter.apply_error(true), PlatformTimeError::UnsupportedPlatform);
}

#[test]
fn file_time_adjustment_is_checked() {
    assert_eq!(adjusted_file_time_ticks(1_000_000, 2_500_000), Ok(3_500_000));
    assert_eq!(adjusted_file_time_ticks(1_000_000, -1_000_000), Ok(0));
    assert_eq!(adjusted_file_time_ticks(0, -1), Err(PlatformTimeError::InvalidCorrection));
    assert_eq!(
        adjusted_file_time_ticks(MAX_SYSTEMTIME_FILETIME_TICKS, 1),
        Err(PlatformTimeError::InvalidCorrection)
    );
    assert_eq!(
        adjusted_file_time_ticks(u64::MAX, -1),
        Err(PlatformTimeError::InvalidCorrection)
    );
    assert_eq!(
        adjusted_file_time_ticks(MAX_SYSTEMTIME_FILETIME_TICKS, 0),
        Ok(MAX_SYSTEMTIME_FILETIME_TICKS)
    );
}

#[test]
fn platform_errors_have_messages() {
    assert_eq!(
        PlatformTimeError::OptInRequired.to_string(),
        "setting the system clock is disabled; explicit platform opt-in is required"
    );
    assert_eq!(
        PlatformTimeError::UnsupportedPlatform.to_string(),
        "setting the system clock is unsupported on this platform"
    );
    assert_eq!(
        PlatformTimeError::PlatformFailure(5).to_string(),
        "Windows rejected the clock change (error 5)"
    );
}
