//! Boundary for a future Network Time Security (NTS) transport.
//!
//! This module deliberately does not implement NTS-KE, packet protection, or
//! cryptography. Plain NTP remains owned by the ordinary transport. A vetted
//! implementation can later implement [`NtsTransportBackend`] without
//! changing the configuration and policy boundary here.

use vstd::prelude::*;
use crate::nts::{
    EndpointSecurityMode, EndpointSecurityReport, EndpointSecurityStatus, NtsKeEndpoint,
    NtsUnsupportedFeature, all_unsupported_features, status_for_mode,
};
use crate::text::string_from_str;
use crate::time::Duration;

verus! {

/// Default upper bound that a future NTS-KE exchange may use, in seconds.
pub const DEFAULT_NTS_TIMEOUT_SECS: u64 = 5;

/// Default upper bound that a future NTS-KE exchange may use.
pub fn default_nts_timeout() -> (d: Duration)
    ensures
        d@ == 5_000_000_000,
{
    Duration::from_secs(DEFAULT_NTS_TIMEOUT_SECS)
}

/// Typed configuration for an NTS transport attempt.
#[derive(Debug, Clone, PartialEq, Eq)]
pub struct NtsTransportConfig {
    endpoint: NtsKeEndpoint,
    mode: EndpointSecurityMode,
    timeout: Duration,
}

/// Configuration errors that can be identified before any network operation.
#[derive(Debug, Clone, Copy, PartialEq, Eq, Structural)]
pub enum NtsTransportConfigError {
    /// A zero timeout cannot bound a future network operation.
    ZeroTimeout,
}

impl NtsTransportConfigError {
    pub fn to_string(&self) -> (s: String)
        ensures
            s@ == "NTS timeout must be greater than zero"@,
    {
        string_from_str("NTS timeout must be greater than zero")
    }
}

impl NtsTransportConfig {
    pub closed spec fn endpoint_spec(&self) -> NtsKeEndpoint {
        self.endpoint
    }

    pub closed spec fn mode_spec(&self) -> EndpointSecurityMode {
        self.mode
    }

    pub closed spec fn timeout_spec(&self) -> Duration {
        self.timeout
    }

    /// Build an NTS configuration with the standard NTS-KE timeout.
    pub fn new(endpoint: NtsKeEndpoint, mode: EndpointSecurityMode) -> (r: Result<
        Self,
        NtsTransportConfigError,
    >)
        ensures
            r matches Ok(c) && c.endpoint_spec() == endpoint && c.mode_spec() == mode
                && c.timeout_spec()@ == 5_000_000_000,
    {
        Self::with_timeout(endpoint, mode, default_nts_timeout())
    }

    /// Build an NTS configuration with an explicit, non-zero timeout.
    pub fn with_timeout(
        endpoint: NtsKeEndpoint,
        mode: EndpointSecurityMode,
        timeout: Duration,
    ) -> (r: Result<Self, NtsTransportConfigError>)
        ensures
            timeout@ == 0 ==> r == Err::<Self, NtsTransportConfigError>(
                NtsTransportConfigError::ZeroTimeout,
            ),
            timeout@ != 0 ==> (r matches Ok(c) && c.endpoint_spec() == endpoint && c.mode_spec()
                == mode && c.timeout_spec() == timeout),
    {
        if timeout.is_zero() {
            return Err(NtsTransportConfigError::ZeroTimeout);
        }
        Ok(NtsTransportConfig { endpoint, mode, timeout })
    }

    pub fn endpoint(&self) -> (e: &NtsKeEndpoint)
        ensures
            *e == self.endpoint_spec(),
    {
        &self.endpoint
    }

    pub fn mode(&self) -> (m: EndpointSecurityMode)
        ensures
            m == self.mode_spec(),
    {
        self.mode
    }

    pub fn timeout(&self) -> (d: Duration)
        ensures
            d == self.timeout_spec(),
    {
        self.timeout
    }

    /// Report capability without claiming that an NTS exchange occurred.
    pub fn security_report(&self) -> (r: EndpointSecurityReport)
        ensures
            r.mode == self.mode_spec(),
            r.status == status_for_mode(self.mode_spec()),
    {
        EndpointSecurityReport::for_mode(self.mode)
    }

    /// List the exact RFC 8915 components unavailable to this boundary.
    pub fn unsupported_nts_features(&self) -> (f: [NtsUnsupportedFeature; 5])
        ensures
            f@ == all_unsupported_features(),
    {
        self.security_report().status.unsupported_nts_features()
    }
}

/// Why this boundary cannot execute a request.
#[derive(Debug, Clone, Copy, PartialEq, Eq, Structural)]
pub enum NtsTransportError {
    /// NTS-KE, AEAD packet protection, cookies, authenticated extension
    /// fields, and replay protection are intentionally not implemented here.
    NotImplemented,
    /// The selected policy belongs to another transport boundary.
    Unsupported(UnsupportedNtsPolicy),
}

/// Policies that this NTS-only boundary refuses to execute.
#[derive(Debug, Clone, Copy, PartialEq, Eq, Structural)]
pub enum UnsupportedNtsPolicy {
    /// Plain UDP must be executed through the ordinary NTP transport.
    PlainUdp,
}

impl UnsupportedNtsPolicy {
    pub fn to_string(&self) -> (s: String)
        ensures
            s@ == "plain UDP is not an NTS transport"@,
    {
        string_from_str("plain UDP is not an NTS transport")
    }
}

impl NtsTransportError {
    pub fn to_string(&self) -> (s: String)
        ensures
            s@ == match self {
                NtsTransportError::NotImplemented => "NTS transport is not implemented"@,
                NtsTransportError::Unsupported(_) => "plain UDP is not an NTS transport"@,
            },
    {
        match self {
            NtsTransportError::NotImplemented => string_from_str("NTS transport is not implemented"),
            NtsTransportError::Unsupported(policy) => policy.to_string(),
        }
    }
}

/// Future cryptographic/network implementation boundary.
///
/// Implementors are expected to perform NTS-KE and protected NTP using a
/// vetted crypto stack. This trait intentionally exposes no placeholder keys,
/// authentication tags, or unauthenticated fallback behavior.
pub trait NtsTransportBackend {
    type Error;

    fn exchange(&self, config: &NtsTransportConfig, request: &[u8]) -> Result<Vec<u8>, Self::Error>;
}

/// NTS boundary used until a vetted backend is available.
#[derive(Debug, Default, Clone, Copy)]
pub struct NtsTransportBoundary;

impl NtsTransportBoundary {
    pub fn new() -> (b: Self) {
        NtsTransportBoundary
    }

    /// Refuse execution explicitly; this method never performs plain UDP or
    /// unauthenticated NTS-like traffic. It does not send the request to the
    /// NTS-KE endpoint or silently downgrade an NTS policy.
    pub fn execute(&self, config: &NtsTransportConfig, request: &[u8]) -> (r: Result<
        Vec<u8>,
        NtsTransportError,
    >)
        ensures
            config.mode_spec() == EndpointSecurityMode::PlainUdp ==> r == Err::<
                Vec<u8>,
                NtsTransportError,
            >(NtsTransportError::Unsupported(UnsupportedNtsPolicy::PlainUdp)),
            config.mode_spec() != EndpointSecurityMode::PlainUdp ==> r == Err::<
                Vec<u8>,
                NtsTransportError,
            >(NtsTransportError::NotImplemented),
    {
        match config.security_report().status {
            EndpointSecurityStatus::PlainUdpSupported => Err(
                NtsTransportError::Unsupported(UnsupportedNtsPolicy::PlainUdp),
            ),
            EndpointSecurityStatus::NtsUnsupported => Err(NtsTransportError::NotImplemented),
            EndpointSecurityStatus::InvalidEndpoint => Err(NtsTransportError::NotImplemented),
        }
    }
}

} // verus!
