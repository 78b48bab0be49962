//! The policy that decides whether an NTP measurement may be used.
//!
//! This module only classifies measurements; it does not apply corrections
//! or read the clock. The measured values are fractional seconds; the caller
//! states how they compare against the limits, and this module decides.
use vstd::prelude::*;

use crate::health::{HealthStatus, RootDistanceBand, MAX_VALID_STRATUM, MIN_VALID_STRATUM, SYNCHRONIZED_MAX_STRATUM};

verus! {

/// The action the policy permits for a measurement.
#[derive(Debug, Clone, Copy, PartialEq, Eq, Structural)]
pub enum SyncDisposition {
    /// The sample may be shown, but must not be used to correct the clock.
    DisplayOnly,
    /// The sample passed every check required before a correction may be
    /// offered; this does not perform the correction.
    EligibleForCorrection,
    /// The sample is not safe to show as a usable result or to correct by.
    Unsafe,
}

/// How one measurement compares against the policy's limits.
#[derive(Debug, Clone, Copy, PartialEq, Eq, Structural)]
pub struct MeasurementFacts {
    /// The measured offset is a finite number.
    pub offset_finite: bool,
    /// Where the root distance lies against the health limits.
    pub root_distance: RootDistanceBand,
    /// The absolute offset is at most the policy's correction limit.
    pub offset_within_limit: bool,
}

/// The disposition of a measurement, by the policy's precedence: a missing
/// measurement, an invalid limit, a non-finite offset, an unusable root
/// distance or an invalid stratum are unsafe; an unavailable health is unsafe
/// and an uncertain one display-only; a synchronized one is eligible when
/// its stratum and root distance meet the synchronized limits and its offset
/// is within the correction limit, and unsafe otherwise.
pub open spec fn disposition(
    limit_valid: bool,
    measurement: Option<MeasurementFacts>,
    health: HealthStatus,
    stratum: u8,
) -> SyncDisposition {
    match measurement {
        None => SyncDisposition::Unsafe,
        Some(m) => if !limit_valid || !m.offset_finite || m.root_distance == RootDistanceBand::Unusable
            || !(MIN_VALID_STRATUM <= stratum <= MAX_VALID_STRATUM) {
            SyncDisposition::Unsafe
        } else {
            match health {
                HealthStatus::Unavailable => SyncDisposition::Unsafe,
                HealthStatus::Uncertain => SyncDisposition::DisplayOnly,
                HealthStatus::Synchronized => if stratum > SYNCHRONIZED_MAX_STRATUM
                    || m.root_distance != RootDistanceBand::WithinSynchronized
                    || !m.offset_within_limit {
                    SyncDisposition::Unsafe
                } else {
                    SyncDisposition::EligibleForCorrection
                },
            }
        },
    }
}

/// Classifies one measurement without changing any clock state.
///
/// `limit_valid` says whether the policy's correction limit is finite and not
/// negative; `health` is the health of the response that produced the
/// measurement.
pub fn classify(
    limit_valid: bool,
    measurement: Option<MeasurementFacts>,
    health: HealthStatus,
    stratum: u8,
) -> (d: SyncDisposition)
    ensures
        d == disposition(limit_valid, measurement, health, stratum),
{
    let m = match measurement {
        None => { return SyncDisposition::Unsafe },
        Some(m) => m,
    };
    if !limit_valid || !m.offset_finite || m.root_distance == RootDistanceBand::Unusable || stratum
        < MIN_VALID_STRATUM || stratum > MAX_VALID_STRATUM {
        return SyncDisposition::Unsafe;
    }
    match health {
        HealthStatus::Unavailable => SyncDisposition::Unsafe,
        HealthStatus::Uncertain => SyncDisposition::DisplayOnly,
        HealthStatus::Synchronized => {
            if stratum > SYNCHRONIZED_MAX_STRATUM || m.root_distance
                != RootDistanceBand::WithinSynchronized || !m.offset_within_limit {
                SyncDisposition::Unsafe
            } else {
                SyncDisposition::EligibleForCorrection
            }
        },
    }
}

/// Only a synchronized measurement can be eligible for correction.
pub proof fn lemma_eligible_needs_synchronized(
    limit_valid: bool,
    measurement: Option<MeasurementFacts>,
    health: HealthStatus,
    stratum: u8,
)
    requires
        disposition(limit_valid, measurement, health, stratum)
            == SyncDisposition::EligibleForCorrection,
    ensures
        health == HealthStatus::Synchronized,
        limit_valid,
        measurement matches Some(m) && m.offset_within_limit && m.root_distance
            == RootDistanceBand::WithinSynchronized,
        MIN_VALID_STRATUM <= stratum <= SYNCHRONIZED_MAX_STRATUM,
{
}

/// A usable measurement of uncertain health is shown but never used to
/// correct the clock, and never refused as unsafe, whatever its offset.
pub proof fn lemma_uncertain_is_display_only(m: MeasurementFacts, stratum: u8)
    requires
        m.offset_finite,
        m.root_distance != RootDistanceBand::Unusable,
        MIN_VALID_STRATUM <= stratum <= MAX_VALID_STRATUM,
    ensures
        disposition(true, Some(m), HealthStatus::Uncertain, stratum) == SyncDisposition::DisplayOnly,
{
}

/// Whether the offset is within the correction limit matters only to a
/// synchronized measurement: for any other health, two measurements that
/// differ in that alone get the same disposition.
pub proof fn lemma_offset_limit_only_for_synchronized(
    limit_valid: bool,
    m: MeasurementFacts,
    health: HealthStatus,
    stratum: u8,
)
    requires
        health != HealthStatus::Synchronized,
    ensures
        disposition(limit_valid, Some(m), health, stratum) == disposition(
            limit_valid,
            Some(MeasurementFacts { offset_within_limit: !m.offset_within_limit, ..m }),
            health,
            stratum,
        ),
{
}

/// A usable, synchronized measurement is eligible for correction exactly
/// when its stratum and root distance meet the synchronized limits and its
/// offset is within the correction limit; otherwise it is unsafe.
pub proof fn lemma_synchronized_eligibility(m: MeasurementFacts, stratum: u8)
    requires
        m.offset_finite,
        m.root_distance != RootDistanceBand::Unusable,
        MIN_VALID_STRATUM <= stratum <= MAX_VALID_STRATUM,
    ensures
        (disposition(true, Some(m), HealthStatus::Synchronized, stratum)
            == SyncDisposition::EligibleForCorrection) == (stratum <= SYNCHRONIZED_MAX_STRATUM
            && m.root_distance == RootDistanceBand::WithinSynchronized && m.offset_within_limit),
        disposition(true, Some(m), HealthStatus::Synchronized, stratum)
            != SyncDisposition::DisplayOnly,
{
}

} // verus!
