use master_time::health::{
    evaluate_band, HealthStatus, LeapIndicator, RootDistanceBand, MAX_VALID_STRATUM,
    SYNCHRONIZED_MAX_STRATUM,
};

#[test]
fn status_helpers_match_variants() {
    assert!(HealthStatus::Synchronized.is_available());
    assert!(HealthStatus::Synchronized.is_synchronized());
    assert!(HealthStatus::Uncertain.is_available());
    assert!(!HealthStatus::Uncertain.is_synchronized());
    assert!(!HealthStatus::Unavailable.is_available());
    assert!(!HealthStatus::Unavailable.is_synchronized());
}

#[test]
fn leap_indicator_bits_are_typed() {
    assert_eq!(LeapIndicator::from_bits(0), Some(LeapIndicator::NoWarning));
    assert_eq!(
        LeapIndicator::from_bits(1),
        Some(LeapIndicator::InsertSecond)
    );
    assert_eq!(
        LeapIndicator::from_bits(2),
        Some(LeapIndicator::DeleteSecond)
    );
    assert_eq!(LeapIndicator::from_bits(3), Some(LeapIndicator::Alarm));
    assert_eq!(LeapIndicator::from_bits(4), None);
}

#[test]
fn band_evaluation_follows_the_precedence() {
    assert_eq!(
        evaluate_band(true, 2, LeapIndicator::NoWarning, RootDistanceBand::WithinSynchronized),
        HealthStatus::Synchronized
    );
    assert_eq!(
        evaluate_band(true, SYNCHRONIZED_MAX_STRATUM, LeapIndicator::NoWarning, RootDistanceBand::WithinSynchronized),
        HealthStatus::Synchronized
    );
    assert_eq!(
        evaluate_band(false, 2, LeapIndicator::NoWarning, RootDistanceBand::WithinSynchronized),
        HealthStatus::Unavailable
    );
    for stratum in [0, MAX_VALID_STRATUM + 1] {
        assert_eq!(
            evaluate_band(true, stratum, LeapIndicator::NoWarning, RootDistanceBand::WithinSynchronized),
            HealthStatus::Unavailable
        );
    }
    assert_eq!(
        evaluate_band(true, SYNCHRONIZED_MAX_STRATUM + 1, LeapIndicator::NoWarning, RootDistanceBand::WithinSynchronized),
        HealthStatus::Uncertain
    );
    for leap in [LeapIndicator::InsertSecond, LeapIndicator::DeleteSecond] {
        assert_eq!(
            evaluate_band(true, 1, leap, RootDistanceBand::WithinSynchronized),
            HealthStatus::Uncertain
        );
    }
    assert_eq!(
        evaluate_band(true, 1, LeapIndicator::Alarm, RootDistanceBand::WithinSynchronized),
        HealthStatus::Unavailable
    );
    assert_eq!(
        evaluate_band(true, 1, LeapIndicator::NoWarning, RootDistanceBand::WithinUncertain),
        HealthStatus::Uncertain
    );
    assert_eq!(
        evaluate_band(true, 1, LeapIndicator::NoWarning, RootDistanceBand::Unusable),
        HealthStatus::Unavailable
    );
}
