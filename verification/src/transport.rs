//! Settings of the UDP transport for NTP queries.
//!
//! The exchange itself (sockets, name resolution) is performed by the
//! embedding application; this module holds the validated configuration.
use vstd::prelude::*;

use crate::time::Duration;

verus! {

/// The well-known UDP port used by NTP.
pub const NTP_PORT: u16 = 123;

/// Seconds in the default upper bound for waiting for an NTP response.
pub const DEFAULT_TIMEOUT_SECS: u64 = 5;

/// The default upper bound for waiting for an NTP response.
pub fn default_timeout() -> (d: Duration)
    ensures
        d@ == DEFAULT_TIMEOUT_SECS * 1_000_000_000,
{
    Duration::from_secs(DEFAULT_TIMEOUT_SECS)
}

/// A synchronous UDP NTP client configuration.
#[derive(Debug, Clone, Copy, PartialEq, Eq, Structural)]
pub struct NtpTransport {
    timeout: Duration,
}

impl NtpTransport {
    /// A transport whose receive operation is bounded by `timeout`.
    pub fn new(timeout: Duration) -> (t: NtpTransport)
        ensures
            t.spec_timeout() == timeout,
    {
        NtpTransport { timeout }
    }

    pub closed spec fn spec_timeout(self) -> Duration {
        self.timeout
    }

    /// The configured response timeout.
    pub fn timeout(&self) -> (d: Duration)
        ensures
            d == self.spec_timeout(),
    {
        self.timeout
    }

    /// Whether a query may start: a zero timeout cannot bound a read and is
    /// refused before any socket is opened.
    pub fn accepts_queries(&self) -> (b: bool)
        ensures
            b <==> self.spec_timeout()@ > 0,
    {
        !self.timeout.is_zero()
    }
}

impl Default for NtpTransport {
    fn default() -> (t: NtpTransport)
        ensures
            t.spec_timeout()@ == DEFAULT_TIMEOUT_SECS * 1_000_000_000,
    {
        NtpTransport::new(default_timeout())
    }
}

} // verus!
