//! Errors of the rolling network statistics.
//!
//! The statistics themselves are fractional and kept by the caller; the
//! bounded histories they use are [`crate::history::RollingHistory`].
use vstd::prelude::*;

verus! {

/// An invalid floating-point value supplied to the accumulator.
#[derive(Debug, Clone, Copy, PartialEq, Eq, Structural)]
pub enum NetworkStatisticsError {
    /// A measurement field or frequency error was not finite.
    NonFiniteValue,
}

} // verus!
