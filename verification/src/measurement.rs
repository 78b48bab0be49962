//! The four timestamps of one NTP exchange and the errors of measuring it.
//!
//! Timestamps are NTP seconds since 1900 plus a 32-bit binary fraction.
use vstd::prelude::*;

use crate::text::{push_str, string_from_str};

verus! {

/// An NTP timestamp: whole seconds and a binary fraction.
#[derive(Debug, Clone, Copy, PartialEq, Eq, Structural)]
pub struct NtpTimestamp {
    pub seconds: u32,
    pub fraction: u32,
}

impl NtpTimestamp {
    /// The all-zero timestamp.
    pub fn zero() -> (t: NtpTimestamp)
        ensures
            t.seconds == 0 && t.fraction == 0,
    {
        NtpTimestamp { seconds: 0, fraction: 0 }
    }

    pub fn new(seconds: u32, fraction: u32) -> (t: NtpTimestamp)
        ensures
            t.seconds == seconds && t.fraction == fraction,
    {
        NtpTimestamp { seconds, fraction }
    }
}

/// The four timestamps captured during one NTP exchange.
///
/// T1 and T4 are the local send and receive times; T2 and T3 the server's
/// receive and send times.
#[derive(Debug, Clone, Copy, Default, PartialEq, Eq, Structural)]
pub struct FourTimestamps {
    pub originate: Option<NtpTimestamp>,
    pub receive: Option<NtpTimestamp>,
    pub transmit: Option<NtpTimestamp>,
    pub destination: Option<NtpTimestamp>,
}

/// Which timestamp was absent from an exchange.
#[derive(Debug, Clone, Copy, PartialEq, Eq, Structural)]
pub enum TimestampName {
    Originate,
    Receive,
    Transmit,
    Destination,
}

impl TimestampName {
    pub open spec fn text(self) -> &'static str {
        match self {
            TimestampName::Originate => "originate (T1)",
            TimestampName::Receive => "receive (T2)",
            TimestampName::Transmit => "transmit (T3)",
            TimestampName::Destination => "destination (T4)",
        }
    }

    fn text_str(&self) -> (s: &'static str)
        ensures
            s@ == self.text()@,
    {
        match self {
            TimestampName::Originate => "originate (T1)",
            TimestampName::Receive => "receive (T2)",
            TimestampName::Transmit => "transmit (T3)",
            TimestampName::Destination => "destination (T4)",
        }
    }

    pub fn to_string(&self) -> (s: String)
        ensures
            s@ == self.text()@,
    {
        string_from_str(self.text_str())
    }
}

/// Why an NTP exchange could not be measured.
#[derive(Debug, Clone, Copy, PartialEq, Eq, Structural)]
pub enum MeasurementError {
    MissingTimestamp(TimestampName),
    InvalidRootDistanceInput,
    NegativeRoundTripDelay,
}

impl MeasurementError {
    pub open spec fn message(self) -> Seq<char> {
        match self {
            MeasurementError::MissingTimestamp(name) => "missing "@ + name.text()@
                + " timestamp"@,
            MeasurementError::InvalidRootDistanceInput =>
                "root delay and dispersion must be finite and non-negative"@,
            MeasurementError::NegativeRoundTripDelay => "calculated round-trip delay is negative"@,
        }
    }

    pub fn to_string(&self) -> (s: String)
        ensures
            s@ == self.message(),
    {
        let mut s = String::new();
        match self {
            MeasurementError::MissingTimestamp(name) => {
                push_str(&mut s, "missing ");
                push_str(&mut s, name.text_str());
                push_str(&mut s, " timestamp");
            },
            MeasurementError::InvalidRootDistanceInput => {
                push_str(&mut s, "root delay and dispersion must be finite and non-negative");
            },
            MeasurementError::NegativeRoundTripDelay => {
                push_str(&mut s, "calculated round-trip delay is negative");
            },
        }
        s
    }
}

/// The first missing timestamp of `t`, in the order T1, T2, T3, T4.
pub open spec fn first_missing(t: FourTimestamps) -> Option<TimestampName> {
    if t.originate is None {
        Some(TimestampName::Originate)
    } else if t.receive is None {
        Some(TimestampName::Receive)
    } else if t.transmit is None {
        Some(TimestampName::Transmit)
    } else if t.destination is None {
        Some(TimestampName::Destination)
    } else {
        None
    }
}

impl FourTimestamps {
    pub fn new(
        originate: Option<NtpTimestamp>,
        receive: Option<NtpTimestamp>,
        transmit: Option<NtpTimestamp>,
        destination: Option<NtpTimestamp>,
    ) -> (t: FourTimestamps)
        ensures
            t.originate == originate,
            t.receive == receive,
            t.transmit == transmit,
            t.destination == destination,
    {
        FourTimestamps { originate, receive, transmit, destination }
    }

    /// An exchange in which all four timestamps were captured.
    pub fn complete(
        originate: NtpTimestamp,
        receive: NtpTimestamp,
        transmit: NtpTimestamp,
        destination: NtpTimestamp,
    ) -> (t: FourTimestamps)
        ensures
            t.originate == Some(originate),
            t.receive == Some(receive),
            t.transmit == Some(transmit),
            t.destination == Some(destination),
    {
        FourTimestamps::new(Some(originate), Some(receive), Some(transmit), Some(destination))
    }

    /// The four timestamps T1 to T4, or the error naming the first one that
    /// is missing.
    pub fn require_all(&self) -> (r: Result<
        (NtpTimestamp, NtpTimestamp, NtpTimestamp, NtpTimestamp),
        MeasurementError,
    >)
        ensures
            match first_missing(*self) {
                Some(name) => r == Err::<
                    (NtpTimestamp, NtpTimestamp, NtpTimestamp, NtpTimestamp),
                    MeasurementError,
                >(MeasurementError::MissingTimestamp(name)),
                None => r matches Ok((t1, t2, t3, t4)) && self.originate == Some(t1)
                    && self.receive == Some(t2) && self.transmit == Some(t3) && self.destination
                    == Some(t4),
            },
    {
        let t1 = match self.originate {
            Some(t) => t,
            None => { return Err(MeasurementError::MissingTimestamp(TimestampName::Originate)) },
        };
        let t2 = match self.receive {
            Some(t) => t,
            None => { return Err(MeasurementError::MissingTimestamp(TimestampName::Receive)) },
        };
        let t3 = match self.transmit {
            Some(t) => t,
            None => { return Err(MeasurementError::MissingTimestamp(TimestampName::Transmit)) },
        };
        let t4 = match self.destination {
            Some(t) => t,
            None => {
                return Err(MeasurementError::MissingTimestamp(TimestampName::Destination))
            },
        };
        Ok((t1, t2, t3, t4))
    }
}

} // verus!
