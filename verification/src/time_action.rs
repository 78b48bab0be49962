//! Planning of requested clock corrections.
//!
//! This module neither reads nor changes the system clock. It decides
//! whether a measured offset may become an approved correction, following
//! the synchronization policy's disposition.
use vstd::prelude::*;

use crate::sync_policy::SyncDisposition;
use crate::text::string_from_str;

verus! {

/// Why a requested correction was refused.
#[derive(Debug, Clone, Copy, PartialEq, Eq, Structural)]
pub enum CorrectionRefusal {
    /// No complete measurement was available.
    MeasurementUnavailable,
    /// The measurement may be displayed but is not safe to apply.
    DisplayOnly,
    /// The measurement failed the policy's safety checks.
    Unsafe,
}

impl CorrectionRefusal {
    pub open spec fn message(self) -> Seq<char> {
        match self {
            CorrectionRefusal::MeasurementUnavailable => "clock correction measurement is unavailable"@,
            CorrectionRefusal::DisplayOnly => "clock correction is display-only"@,
            CorrectionRefusal::Unsafe => "clock correction is unsafe"@,
        }
    }

    pub fn to_string(&self) -> (s: String)
        ensures
            s@ == self.message(),
    {
        match self {
            CorrectionRefusal::MeasurementUnavailable => string_from_str(
                "clock correction measurement is unavailable",
            ),
            CorrectionRefusal::DisplayOnly => string_from_str("clock correction is display-only"),
            CorrectionRefusal::Unsafe => string_from_str("clock correction is unsafe"),
        }
    }
}

/// The outcome of a correction request: approved (the offset may be applied)
/// or refused with the reason.
pub open spec fn request_outcome(
    measurement_present: bool,
    disposition: SyncDisposition,
) -> Result<(), CorrectionRefusal> {
    if !measurement_present {
        Err(CorrectionRefusal::MeasurementUnavailable)
    } else {
        match disposition {
            SyncDisposition::EligibleForCorrection => Ok(()),
            SyncDisposition::DisplayOnly => Err(CorrectionRefusal::DisplayOnly),
            SyncDisposition::Unsafe => Err(CorrectionRefusal::Unsafe),
        }
    }
}

/// Decides a correction request: a missing measurement is refused as
/// unavailable; otherwise the policy's disposition decides.
pub fn request_correction(measurement_present: bool, disposition: SyncDisposition) -> (r: Result<
    (),
    CorrectionRefusal,
>)
    ensures
        r == request_outcome(measurement_present, disposition),
{
    if !measurement_present {
        return Err(CorrectionRefusal::MeasurementUnavailable);
    }
    match disposition {
        SyncDisposition::EligibleForCorrection => Ok(()),
        SyncDisposition::DisplayOnly => Err(CorrectionRefusal::DisplayOnly),
        SyncDisposition::Unsafe => Err(CorrectionRefusal::Unsafe),
    }
}

} // verus!
