//! Health classification of an NTP time measurement.
//!
//! The root distance of a measurement is a real number of seconds; callers
//! place it in a [`RootDistanceBand`] and the decision is made here.
use vstd::prelude::*;

verus! {

/// Strata through this value are eligible for a synchronized result.
pub const SYNCHRONIZED_MAX_STRATUM: u8 = 4;

/// The lowest valid server stratum (zero is a kiss-of-death code).
pub const MIN_VALID_STRATUM: u8 = 1;

/// The highest valid server stratum (higher values are reserved).
pub const MAX_VALID_STRATUM: u8 = 15;

/// NTP leap-indicator values carried by a response.
#[derive(Debug, Clone, Copy, PartialEq, Eq, Structural)]
pub enum LeapIndicator {
    /// No leap-second warning is pending.
    NoWarning,
    /// The last minute of the current UTC day has an inserted second.
    InsertSecond,
    /// The last minute of the current UTC day has a deleted second.
    DeleteSecond,
    /// The clock is unsynchronized or the leap state is unknown.
    Alarm,
}

impl LeapIndicator {
    /// The indicator encoded by the two-bit value `bits`.
    pub open spec fn of_bits(bits: u8) -> Option<LeapIndicator> {
        if bits == 0 {
            Some(LeapIndicator::NoWarning)
        } else if bits == 1 {
            Some(LeapIndicator::InsertSecond)
        } else if bits == 2 {
            Some(LeapIndicator::DeleteSecond)
        } else if bits == 3 {
            Some(LeapIndicator::Alarm)
        } else {
            None
        }
    }

    /// Converts the two-bit NTP leap indicator; values above 3 are refused.
    pub fn from_bits(bits: u8) -> (r: Option<LeapIndicator>)
        ensures
            r == LeapIndicator::of_bits(bits),
            r is Some <==> bits <= 3,
    {
        match bits {
            0 => Some(LeapIndicator::NoWarning),
            1 => Some(LeapIndicator::InsertSecond),
            2 => Some(LeapIndicator::DeleteSecond),
            3 => Some(LeapIndicator::Alarm),
            _ => None,
        }
    }
}

/// Coarse health state of a time measurement.
#[derive(Debug, Clone, Copy, PartialEq, Eq, Structural)]
pub enum HealthStatus {
    /// The measurement is available and meets all synchronization thresholds.
    Synchronized,
    /// The measurement is usable, but its quality warrants caution.
    Uncertain,
    /// The measurement must not be used to establish clock health.
    Unavailable,
}

impl HealthStatus {
    pub fn is_available(self) -> (b: bool)
        ensures
            b <==> self != HealthStatus::Unavailable,
    {
        !matches!(self, HealthStatus::Unavailable)
    }

    pub fn is_synchronized(self) -> (b: bool)
        ensures
            b <==> self == HealthStatus::Synchronized,
    {
        matches!(self, HealthStatus::Synchronized)
    }
}

/// Where a root distance lies against the two limits, one second for a
/// synchronized result and five for an uncertain one, both inclusive.
#[derive(Debug, Clone, Copy, PartialEq, Eq, Structural)]
pub enum RootDistanceBand {
    /// Finite, non-negative and at most the synchronized limit.
    WithinSynchronized,
    /// Above the synchronized limit and at most the uncertain limit.
    WithinUncertain,
    /// Negative, not finite, or above the uncertain limit.
    Unusable,
}

/// The health of a measurement, by the conservative precedence: missing
/// data, an invalid stratum, an alarm or an unusable root distance make it
/// unavailable; no leap warning, a stratum of at most four and a root
/// distance within the synchronized limit make it synchronized; anything
/// else is uncertain.
pub open spec fn health_of(
    measurement_available: bool,
    stratum: u8,
    leap: LeapIndicator,
    band: RootDistanceBand,
) -> HealthStatus {
    if !measurement_available || !(MIN_VALID_STRATUM <= stratum <= MAX_VALID_STRATUM) || leap
        == LeapIndicator::Alarm || band == RootDistanceBand::Unusable {
        HealthStatus::Unavailable
    } else if leap == LeapIndicator::NoWarning && stratum <= SYNCHRONIZED_MAX_STRATUM && band
        == RootDistanceBand::WithinSynchronized {
        HealthStatus::Synchronized
    } else {
        HealthStatus::Uncertain
    }
}

/// Evaluates measurement availability and synchronization quality.
pub fn evaluate_band(
    measurement_available: bool,
    stratum: u8,
    leap: LeapIndicator,
    band: RootDistanceBand,
) -> (s: HealthStatus)
    ensures
        s == health_of(measurement_available, stratum, leap, band),
{
    if !measurement_available || stratum < MIN_VALID_STRATUM || stratum > MAX_VALID_STRATUM
        || leap == LeapIndicator::Alarm || band == RootDistanceBand::Unusable {
        return HealthStatus::Unavailable;
    }
    if leap == LeapIndicator::NoWarning && stratum <= SYNCHRONIZED_MAX_STRATUM && band
        == RootDistanceBand::WithinSynchronized {
        HealthStatus::Synchronized
    } else {
        HealthStatus::Uncertain
    }
}

/// The order of the bands, tightest first.
pub open spec fn band_rank(b: RootDistanceBand) -> int {
    match b {
        RootDistanceBand::WithinSynchronized => 0,
        RootDistanceBand::WithinUncertain => 1,
        RootDistanceBand::Unusable => 2,
    }
}

/// A better input never gives a worse health: with the same availability
/// and leap indicator, moving to a lower valid stratum or a tighter root
/// distance band keeps an available result available and a synchronized
/// one synchronized.
pub proof fn lemma_health_monotonic(
    available: bool,
    leap: LeapIndicator,
    s1: u8,
    s2: u8,
    b1: RootDistanceBand,
    b2: RootDistanceBand,
)
    requires
        MIN_VALID_STRATUM <= s2 <= s1,
        band_rank(b2) <= band_rank(b1),
    ensures
        health_of(available, s1, leap, b1) != HealthStatus::Unavailable ==> health_of(
            available,
            s2,
            leap,
            b2,
        ) != HealthStatus::Unavailable,
        health_of(available, s1, leap, b1) == HealthStatus::Synchronized ==> health_of(
            available,
            s2,
            leap,
            b2,
        ) == HealthStatus::Synchronized,
{
}

/// A leap warning never yields a synchronized result, and an alarm never
/// yields an available one.
pub proof fn lemma_leap_limits_health(
    available: bool,
    stratum: u8,
    leap: LeapIndicator,
    band: RootDistanceBand,
)
    ensures
        leap != LeapIndicator::NoWarning ==> health_of(available, stratum, leap, band)
            != HealthStatus::Synchronized,
        leap == LeapIndicator::Alarm ==> health_of(available, stratum, leap, band)
            == HealthStatus::Unavailable,
{
}

} // verus!
