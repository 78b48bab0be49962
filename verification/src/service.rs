//! Turning one NTP response into the four timestamps of a measurement.
//!
//! Sending the request and the floating-point arithmetic on the timestamps
//! belong to the caller; the policy that decides whether a response can be
//! measured, and the conversion of local clock readings, is here.
use vstd::prelude::*;

use crate::measurement::{self, FourTimestamps, MeasurementError, TimestampName};
use crate::ntp::{self, NtpHeader, PacketError};
use crate::time::SystemTime;
use crate::text::{decimal, push_decimal, push_str};
use crate::transport::NtpTransport;

verus! {

/// Seconds between the NTP epoch (1900-01-01) and the Unix epoch (1970-01-01).
pub const NTP_UNIX_OFFSET: u64 = 2_208_988_800;

/// Why a response could not be turned into a measurement.
#[derive(Debug, Clone, PartialEq, Eq, Structural)]
pub enum ServiceError {
    Packet(PacketError),
    Measurement(MeasurementError),
    UnsupportedMode(u8),
    MissingTimestamp(TimestampName),
    ClockBeforeNtpEpoch,
    TimestampOutOfRange,
}

impl ServiceError {
    pub open spec fn message(&self) -> Seq<char> {
        match self {
            ServiceError::Packet(e) => "invalid NTP response: "@ + e.message(),
            ServiceError::Measurement(e) => "could not calculate NTP measurement: "@ + e.message(),
            ServiceError::UnsupportedMode(mode) => "unsupported NTP response mode "@ + decimal(
                *mode as nat,
            ) + "; expected server mode"@,
            ServiceError::MissingTimestamp(name) => "missing "@ + name.text()@ + " timestamp"@,
            ServiceError::ClockBeforeNtpEpoch => "local clock is before the NTP epoch"@,
            ServiceError::TimestampOutOfRange =>
                "local time cannot be represented as an NTP timestamp"@,
        }
    }

    pub fn to_string(&self) -> (s: String)
        ensures
            s@ == self.message(),
    {
        let mut s = String::new();
        match self {
            ServiceError::Packet(e) => {
                push_str(&mut s, "invalid NTP response: ");
                push_str(&mut s, e.to_string().as_str());
            },
            ServiceError::Measurement(e) => {
                push_str(&mut s, "could not calculate NTP measurement: ");
                push_str(&mut s, e.to_string().as_str());
            },
            ServiceError::UnsupportedMode(mode) => {
                push_str(&mut s, "unsupported NTP response mode ");
                push_decimal(&mut s, *mode as u64);
                push_str(&mut s, "; expected server mode");
            },
            ServiceError::MissingTimestamp(name) => {
                push_str(&mut s, "missing ");
                push_str(&mut s, name.to_string().as_str());
                push_str(&mut s, " timestamp");
            },
            ServiceError::ClockBeforeNtpEpoch => push_str(
                &mut s,
                "local clock is before the NTP epoch",
            ),
            ServiceError::TimestampOutOfRange => push_str(
                &mut s,
                "local time cannot be represented as an NTP timestamp",
            ),
        }
        s
    }
}

impl From<PacketError> for ServiceError {
    fn from(error: PacketError) -> (e: ServiceError)
        ensures
            e == ServiceError::Packet(error),
    {
        ServiceError::Packet(error)
    }
}

impl vstd::std_specs::convert::FromSpecImpl<PacketError> for ServiceError {
    open spec fn obeys_from_spec() -> bool {
        true
    }

    open spec fn from_spec(error: PacketError) -> ServiceError {
        ServiceError::Packet(error)
    }
}

/// Whole NTP seconds of a wall-clock reading `t` nanoseconds after the Unix epoch.
pub open spec fn ntp_seconds_of(t: int) -> int {
    t / 1_000_000_000 + NTP_UNIX_OFFSET
}

/// The 32-bit binary fraction of the sub-second part of `t`, rounded down.
pub open spec fn ntp_fraction_of(t: int) -> int {
    (t % 1_000_000_000) * 0x1_0000_0000 / 1_000_000_000
}

/// Converts a wall-clock reading to an NTP timestamp (seconds since 1900).
///
/// A reading before the NTP epoch (1900-01-01) is refused, and so is one
/// whose NTP seconds do not fit in 32 bits.
pub fn system_time_to_ntp_timestamp(time: SystemTime) -> (r: Result<
    ntp::NtpTimestamp,
    ServiceError,
>)
    ensures
        ntp_seconds_of(time@) < 0 ==> r == Err::<ntp::NtpTimestamp, ServiceError>(
            ServiceError::ClockBeforeNtpEpoch,
        ),
        ntp_seconds_of(time@) > u32::MAX ==> r == Err::<ntp::NtpTimestamp, ServiceError>(
            ServiceError::TimestampOutOfRange,
        ),
        0 <= ntp_seconds_of(time@) <= u32::MAX ==> (r matches Ok(ts) && ts.seconds
            == ntp_seconds_of(time@) && ts.fraction == ntp_fraction_of(time@)),
{
    let whole = time.unix_secs_floor();
    let secs: i128 = whole as i128 + NTP_UNIX_OFFSET as i128;
    if secs < 0 {
        return Err(ServiceError::ClockBeforeNtpEpoch);
    }
    if secs > u32::MAX as i128 {
        return Err(ServiceError::TimestampOutOfRange);
    }
    let nanos = time.unix_subsec_nanos() as u64;
    let scaled = nanos * 0x1_0000_0000u64;
    let fraction = scaled / 1_000_000_000u64;
    assert(fraction < 0x1_0000_0000) by (nonlinear_arith)
        requires
            nanos < 1_000_000_000,
            scaled == nanos * 0x1_0000_0000,
            fraction == scaled / 1_000_000_000,
    ;
    Ok(ntp::NtpTimestamp { seconds: secs as u32, fraction: fraction as u32 })
}

/// The error of converting the reading `t`, if it cannot be converted.
pub open spec fn conversion_error(t: int) -> Option<ServiceError> {
    if ntp_seconds_of(t) < 0 {
        Some(ServiceError::ClockBeforeNtpEpoch)
    } else if ntp_seconds_of(t) > u32::MAX {
        Some(ServiceError::TimestampOutOfRange)
    } else {
        None
    }
}

fn nonzero_timestamp(timestamp: ntp::NtpTimestamp) -> (r: Option<ntp::NtpTimestamp>)
    ensures
        r == (if timestamp.seconds == 0 && timestamp.fraction == 0 {
            None
        } else {
            Some(timestamp)
        }),
{
    if timestamp == ntp::NtpTimestamp::zero() {
        None
    } else {
        Some(timestamp)
    }
}

/// The same timestamp in the measurement module's type.
pub open spec fn as_measured(t: ntp::NtpTimestamp) -> measurement::NtpTimestamp {
    measurement::NtpTimestamp { seconds: t.seconds, fraction: t.fraction }
}

/// Whether a timestamp of a response is the unset, all-zero one.
pub open spec fn is_unset(t: ntp::NtpTimestamp) -> bool {
    t.seconds == 0 && t.fraction == 0
}

/// The four timestamps of an exchange: the local send time, the server's
/// receive and transmit times from `header`, and the local receive time.
///
/// A response that is not in server mode (4) is refused first; then a send
/// or receive time that cannot be converted; then an unset server receive
/// timestamp, then an unset server transmit timestamp.
pub fn exchange_timestamps(
    header: &NtpHeader,
    sent_at: SystemTime,
    received_at: SystemTime,
) -> (r: Result<FourTimestamps, ServiceError>)
    ensures
        header.mode != 4 ==> r == Err::<FourTimestamps, ServiceError>(
            ServiceError::UnsupportedMode(header.mode),
        ),
        header.mode == 4 ==> (conversion_error(sent_at@) matches Some(e) ==> r == Err::<
            FourTimestamps,
            ServiceError,
        >(e)),
        header.mode == 4 && conversion_error(sent_at@) is None ==> (conversion_error(
            received_at@,
        ) matches Some(e) ==> r == Err::<FourTimestamps, ServiceError>(e)),
        r is Ok <==> header.mode == 4 && 0 <= ntp_seconds_of(sent_at@) <= u32::MAX
            && 0 <= ntp_seconds_of(received_at@) <= u32::MAX && !is_unset(
            header.receive_timestamp,
        ) && !is_unset(header.transmit_timestamp),
        header.mode == 4 && 0 <= ntp_seconds_of(sent_at@) <= u32::MAX
            && 0 <= ntp_seconds_of(received_at@) <= u32::MAX && is_unset(
            header.receive_timestamp,
        ) ==> r == Err::<FourTimestamps, ServiceError>(
            ServiceError::MissingTimestamp(TimestampName::Receive),
        ),
        header.mode == 4 && 0 <= ntp_seconds_of(sent_at@) <= u32::MAX
            && 0 <= ntp_seconds_of(received_at@) <= u32::MAX && !is_unset(
            header.receive_timestamp,
        ) && is_unset(header.transmit_timestamp) ==> r == Err::<FourTimestamps, ServiceError>(
            ServiceError::MissingTimestamp(TimestampName::Transmit),
        ),
        r matches Ok(t) ==> {
            &&& t.originate matches Some(o) && o.seconds == ntp_seconds_of(sent_at@) && o.fraction
                == ntp_fraction_of(sent_at@)
            &&& t.receive == Some(as_measured(header.receive_timestamp))
            &&& t.transmit == Some(as_measured(header.transmit_timestamp))
            &&& t.destination matches Some(d) && d.seconds == ntp_seconds_of(received_at@)
                && d.fraction == ntp_fraction_of(received_at@)
        },
{
    if header.mode != 4 {
        return Err(ServiceError::UnsupportedMode(header.mode));
    }
    let originate = system_time_to_ntp_timestamp(sent_at)?;
    let destination = system_time_to_ntp_timestamp(received_at)?;
    let receive = match nonzero_timestamp(header.receive_timestamp) {
        Some(t) => t,
        None => { return Err(ServiceError::MissingTimestamp(TimestampName::Receive)) },
    };
    let transmit = match nonzero_timestamp(header.transmit_timestamp) {
        Some(t) => t,
        None => { return Err(ServiceError::MissingTimestamp(TimestampName::Transmit)) },
    };
    Ok(
        FourTimestamps::complete(
            measurement::NtpTimestamp::new(originate.seconds, originate.fraction),
            measurement::NtpTimestamp::new(receive.seconds, receive.fraction),
            measurement::NtpTimestamp::new(transmit.seconds, transmit.fraction),
            measurement::NtpTimestamp::new(destination.seconds, destination.fraction),
        ),
    )
}

/// A synchronous service using the supplied NTP transport.
#[derive(Debug, Clone, Copy)]
pub struct NtpMeasurementService {
    transport: NtpTransport,
}

impl NtpMeasurementService {
    pub fn new(transport: NtpTransport) -> (s: NtpMeasurementService)
        ensures
            s.spec_transport() == transport,
    {
        NtpMeasurementService { transport }
    }

    pub closed spec fn spec_transport(self) -> NtpTransport {
        self.transport
    }

    pub fn transport(&self) -> (t: NtpTransport)
        ensures
            t == self.spec_transport(),
    {
        self.transport
    }
}

} // verus!
