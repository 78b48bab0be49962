//! The platform boundary for applying an approved clock correction.
//!
//! Callers must opt in explicitly before an application is attempted; a
//! preview never touches the clock. This build has no clock-setting backend,
//! so an opted-in application of a valid correction is refused as
//! unsupported. The tick arithmetic that a backend working on the 100 ns
//! ticks since 1601 would use is kept checked here.
use vstd::prelude::*;

use crate::text::{decimal, push_decimal, push_str, string_from_str};

verus! {

/// Errors returned by the platform boundary.
#[derive(Debug, Clone, Copy, PartialEq, Eq, Structural)]
pub enum PlatformTimeError {
    /// The caller did not explicitly enable clock changes.
    OptInRequired,
    /// This target has no supported clock-setting backend.
    UnsupportedPlatform,
    /// The correction cannot be represented safely as a system time.
    InvalidCorrection,
    /// The operating system refused because the process lacks permission.
    PermissionDenied,
    /// The operating system failed for another reason.
    PlatformFailure(u32),
}

impl PlatformTimeError {
    pub open spec fn message(self) -> Seq<char> {
        match self {
            PlatformTimeError::OptInRequired =>
                "setting the system clock is disabled; explicit platform opt-in is required"@,
            PlatformTimeError::UnsupportedPlatform =>
                "setting the system clock is unsupported on this platform"@,
            PlatformTimeError::InvalidCorrection =>
                "the approved clock correction is not a finite, representable system time"@,
            PlatformTimeError::PermissionDenied =>
                "Windows denied the clock change; enable the SeSystemtimePrivilege permission"@,
            PlatformTimeError::PlatformFailure(code) => "Windows rejected the clock change (error "@
                + decimal(code as nat) + ")"@,
        }
    }

    pub fn to_string(&self) -> (s: String)
        ensures
            s@ == self.message(),
    {
        match self {
            PlatformTimeError::OptInRequired => string_from_str(
                "setting the system clock is disabled; explicit platform opt-in is required",
            ),
            PlatformTimeError::UnsupportedPlatform => string_from_str(
                "setting the system clock is unsupported on this platform",
            ),
            PlatformTimeError::InvalidCorrection => string_from_str(
                "the approved clock correction is not a finite, representable system time",
            ),
            PlatformTimeError::PermissionDenied => string_from_str(
                "Windows denied the clock change; enable the SeSystemtimePrivilege permission",
            ),
            PlatformTimeError::PlatformFailure(code) => {
                let mut s = String::new();
                push_str(&mut s, "Windows rejected the clock change (error ");
                push_decimal(&mut s, *code as u64);
                push_str(&mut s, ")");
                s
            },
        }
    }
}

/// A guarded adapter for approved corrections.
#[derive(Debug, Clone, Copy, PartialEq, Eq, Structural)]
pub struct PlatformTimeAdapter {
    opted_in: bool,
}

impl PlatformTimeAdapter {
    pub closed spec fn opted(self) -> bool {
        self.opted_in
    }

    /// A disabled adapter: the safe default.
    pub fn new() -> (a: Self)
        ensures
            !a.opted(),
    {
        PlatformTimeAdapter { opted_in: false }
    }

    /// An adapter explicitly authorized to attempt clock changes; making it
    /// is the opt-in, and performs no platform operation.
    pub fn with_explicit_opt_in() -> (a: Self)
        ensures
            a.opted(),
    {
        PlatformTimeAdapter { opted_in: true }
    }

    /// Whether this adapter was explicitly authorized to apply changes.
    pub fn is_opted_in(self) -> (b: bool)
        ensures
            b == self.opted(),
    {
        self.opted_in
    }

    /// Why applying a correction is refused on this build: a correction that
    /// is not finite is invalid, without opt-in nothing is applied, and
    /// otherwise there is no backend.
    pub fn apply_error(&self, correction_finite: bool) -> (e: PlatformTimeError)
        ensures
            e == if !correction_finite {
                PlatformTimeError::InvalidCorrection
            } else if !self.opted() {
                PlatformTimeError::OptInRequired
            } else {
                PlatformTimeError::UnsupportedPlatform
            },
    {
        if !correction_finite {
            PlatformTimeError::InvalidCorrection
        } else if !self.opted_in {
            PlatformTimeError::OptInRequired
        } else {
            PlatformTimeError::UnsupportedPlatform
        }
    }
}

impl Default for PlatformTimeAdapter {
    fn default() -> (a: Self)
        ensures
            !a.opted(),
    {
        PlatformTimeAdapter::new()
    }
}

/// The last tick (100 ns since 1601) that still converts to a calendar time
/// (the end of year 9999).
pub const MAX_SYSTEMTIME_FILETIME_TICKS: u64 = 2_650_467_743_999_999_999;

/// The tick count `current_ticks` moved by the whole ticks `offset_ticks`,
/// when the result is a tick count that converts to a calendar time.
pub fn adjusted_file_time_ticks(current_ticks: u64, offset_ticks: i128) -> (r: Result<
    u64,
    PlatformTimeError,
>)
    ensures
        match r {
            Ok(t) => t == current_ticks + offset_ticks && t <= MAX_SYSTEMTIME_FILETIME_TICKS,
            Err(e) => e == PlatformTimeError::InvalidCorrection && !(0 <= current_ticks
                + offset_ticks <= MAX_SYSTEMTIME_FILETIME_TICKS),
        },
{
    let target = match (current_ticks as i128).checked_add(offset_ticks) {
        Some(t) => t,
        None => { return Err(PlatformTimeError::InvalidCorrection) },
    };
    if target < 0 || target > MAX_SYSTEMTIME_FILETIME_TICKS as i128 {
        Err(PlatformTimeError::InvalidCorrection)
    } else {
        Ok(target as u64)
    }
}

} // verus!
