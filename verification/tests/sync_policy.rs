use master_time::health::{evaluate_band, HealthStatus, LeapIndicator, RootDistanceBand};
use master_time::sync_policy::{classify, MeasurementFacts, SyncDisposition};
use master_time::time_action::{request_correction, CorrectionRefusal};

fn facts(band: RootDistanceBand, within: bool) -> MeasurementFacts {
    MeasurementFacts {
        offset_finite: true,
        root_distance: band,
        offset_within_limit: within,
    }
}

fn health(band: RootDistanceBand) -> HealthStatus {
    evaluate_band(true, 2, LeapIndicator::NoWarning, band)
}

#[test]
fn safe_measurement_is_eligible_for_correction() {
    let band = RootDistanceBand::WithinSynchronized;
    assert_eq!(
        classify(true, Some(facts(band, true)), health(band), 2),
        SyncDisposition::EligibleForCorrection
    );
}

#[test]
fn uncertain_measurement_is_display_only() {
    let band = RootDistanceBand::WithinUncertain;
    let disposition = classify(true, Some(facts(band, true)), health(band), 2);
    assert_eq!(disposition, SyncDisposition::DisplayOnly);
    assert_eq!(request_correction(true, disposition), Err(CorrectionRefusal::DisplayOnly));
}

#[test]
fn unavailable_measurement_is_unsafe() {
    let disposition = classify(true, None, HealthStatus::Unavailable, 2);
    assert_eq!(disposition, SyncDisposition::Unsafe);
    assert_eq!(
        request_correction(false, disposition),
        Err(CorrectionRefusal::MeasurementUnavailable)
    );
}

#[test]
fn excessive_offset_is_unsafe() {
    let band = RootDistanceBand::WithinSynchronized;
    let disposition = classify(true, Some(facts(band, false)), health(band), 2);
    assert_eq!(disposition, SyncDisposition::Unsafe);
    assert_eq!(request_correction(true, disposition), Err(CorrectionRefusal::Unsafe));
}

#[test]
fn leap_alarm_is_unsafe() {
    let band = RootDistanceBand::WithinSynchronized;
    let alarm = evaluate_band(true, 2, LeapIndicator::Alarm, band);
    assert_eq!(classify(true, Some(facts(band, true)), alarm, 2), SyncDisposition::Unsafe);
}

#[test]
fn invalid_limit_stratum_or_offset_is_unsafe() {
    let band = RootDistanceBand::WithinSynchronized;
    let synchronized = health(band);
    assert_eq!(classify(false, Some(facts(band, true)), synchronized, 2), SyncDisposition::Unsafe);
    assert_eq!(classify(true, Some(facts(band, true)), synchronized, 0), SyncDisposition::Unsafe);
    assert_eq!(classify(true, Some(facts(band, true)), synchronized, 5), SyncDisposition::Unsafe);
    let infinite = MeasurementFacts {
        offset_finite: false,
        root_distance: band,
        offset_within_limit: false,
    };
    assert_eq!(
        classify(true, Some(infinite), HealthStatus::Uncertain, 2),
        SyncDisposition::Unsafe
    );
}

#[test]
fn eligible_requests_are_approved() {
    assert_eq!(request_correction(true, SyncDisposition::EligibleForCorrection), Ok(()));
}

#[test]
fn refusals_have_messages() {
    assert_eq!(
        CorrectionRefusal::MeasurementUnavailable.to_string(),
        "clock correction measurement is unavailable"
    );
    assert_eq!(CorrectionRefusal::DisplayOnly.to_string(), "clock correction is display-only");
    assert_eq!(CorrectionRefusal::Unsafe.to_string(), "clock correction is unsafe");
}

#[test]
fn display_only_request_is_refused() {
    assert_eq!(request_correction(true, SyncDisposition::DisplayOnly), Err(CorrectionRefusal::DisplayOnly));
}

#[test]
fn unsafe_request_is_refused() {
    let band = RootDistanceBand::WithinSynchronized;
    let disposition = classify(true, Some(facts(band, false)), health(band), 2);
    assert_eq!(disposition, SyncDisposition::Unsafe);
    assert_eq!(request_correction(true, disposition), Err(CorrectionRefusal::Unsafe));
}

#[test]
fn unavailable_measurement_is_refused_explicitly() {
    let disposition = classify(true, None, HealthStatus::Unavailable, 2);
    assert_eq!(disposition, SyncDisposition::Unsafe);
    assert_eq!(
        request_correction(false, disposition),
        Err(CorrectionRefusal::MeasurementUnavailable)
    );
}
