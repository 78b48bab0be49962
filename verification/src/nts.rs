//! Models Network Time Security (NTS) capability and policy.
//!
//! This module intentionally does not implement NTS or NTS-KE. It describes
//! what the application can report today and leaves the wire protocol behind
//! [`NtsTransport`], so an eventual implementation can be added without
//! making an ordinary UDP exchange look like an NTS exchange.

use vstd::prelude::*;
use crate::text::{
    chars_of, contains_char, decimal, is_whitespace, is_whitespace_spec, parse_unsigned,
    parse_unsigned_spec, push_char, push_decimal, string_from_chars, string_from_str,
};

verus! {

/// The security policy requested for an endpoint.
#[derive(Debug, Clone, Copy, PartialEq, Eq, Structural)]
pub enum EndpointSecurityMode {
    /// Use ordinary NTP over UDP. This does not provide NTS security.
    PlainUdp,
    /// Use NTS and refuse an endpoint if NTS cannot be established.
    NtsRequired,
    /// Prefer NTS, but allow an explicit fallback to ordinary UDP.
    NtsPreferred,
}

impl EndpointSecurityMode {
    /// Whether this policy requires an NTS implementation.
    pub fn requires_nts(self) -> (b: bool)
        ensures
            b == (self == EndpointSecurityMode::NtsRequired || self
                == EndpointSecurityMode::NtsPreferred),
    {
        matches!(self, EndpointSecurityMode::NtsRequired | EndpointSecurityMode::NtsPreferred)
    }

    /// Whether ordinary UDP is an allowed fallback for this policy.
    pub fn allows_plain_udp(self) -> (b: bool)
        ensures
            b == (self == EndpointSecurityMode::PlainUdp || self
                == EndpointSecurityMode::NtsPreferred),
    {
        matches!(self, EndpointSecurityMode::PlainUdp | EndpointSecurityMode::NtsPreferred)
    }
}

/// The components of RFC 8915 that this application does not implement.
#[derive(Debug, Clone, Copy, PartialEq, Eq, Structural)]
pub enum NtsUnsupportedFeature {
    /// NTS Key Establishment over TLS.
    KeyEstablishment,
    /// AEAD protection of NTP packets.
    AeadPacketProtection,
    /// NTS cookies.
    Cookies,
    /// Authenticated NTP extension fields.
    AuthenticatedExtensionFields,
    /// Replay protection by unique identifiers.
    ReplayProtection,
}

/// Every NTS component, none of which is implemented.
pub open spec fn all_unsupported_features() -> Seq<NtsUnsupportedFeature> {
    seq![
        NtsUnsupportedFeature::KeyEstablishment,
        NtsUnsupportedFeature::AeadPacketProtection,
        NtsUnsupportedFeature::Cookies,
        NtsUnsupportedFeature::AuthenticatedExtensionFields,
        NtsUnsupportedFeature::ReplayProtection,
    ]
}

/// The currently reportable security capability of an endpoint.
#[derive(Debug, Clone, Copy, PartialEq, Eq, Structural)]
pub enum EndpointSecurityStatus {
    /// The endpoint can be queried using ordinary NTP over UDP only.
    PlainUdpSupported,
    /// NTS is not implemented, so this policy cannot be fulfilled.
    NtsUnsupported,
    /// The endpoint string is invalid and cannot be used.
    InvalidEndpoint,
}

impl EndpointSecurityStatus {
    pub fn is_supported(self) -> (b: bool)
        ensures
            b == (self == EndpointSecurityStatus::PlainUdpSupported),
    {
        matches!(self, EndpointSecurityStatus::PlainUdpSupported)
    }

    /// Never true: no status claims that NTS was performed.
    pub fn is_nts(self) -> (b: bool)
        ensures
            !b,
    {
        false
    }

    /// The NTS components that cannot be provided under this status: since NTS
    /// is not implemented at all, that is every component.
    pub fn unsupported_nts_features(self) -> (f: [NtsUnsupportedFeature; 5])
        ensures
            f@ == all_unsupported_features(),
    {
        let f = [
            NtsUnsupportedFeature::KeyEstablishment,
            NtsUnsupportedFeature::AeadPacketProtection,
            NtsUnsupportedFeature::Cookies,
            NtsUnsupportedFeature::AuthenticatedExtensionFields,
            NtsUnsupportedFeature::ReplayProtection,
        ];
        assert(f@ =~= all_unsupported_features());
        f
    }

    /// The human-readable description of this status.
    pub fn to_string(&self) -> (s: String)
        ensures
            s@ == self.text()@,
    {
        string_from_str(self.text_str())
    }

    pub open spec fn text(&self) -> &'static str {
        match self {
            EndpointSecurityStatus::PlainUdpSupported => "supported over plain UDP; NTS is not enabled",
            EndpointSecurityStatus::NtsUnsupported => "unsupported: NTS is not implemented",
            EndpointSecurityStatus::InvalidEndpoint => "unsupported: invalid NTS-KE endpoint",
        }
    }

    fn text_str(&self) -> (s: &'static str)
        ensures
            s == self.text(),
    {
        match self {
            EndpointSecurityStatus::PlainUdpSupported => "supported over plain UDP; NTS is not enabled",
            EndpointSecurityStatus::NtsUnsupported => "unsupported: NTS is not implemented",
            EndpointSecurityStatus::InvalidEndpoint => "unsupported: invalid NTS-KE endpoint",
        }
    }
}

/// Why an endpoint string was refused.
#[derive(Debug, Clone, Copy, PartialEq, Eq, Structural)]
pub enum NtsKeEndpointError {
    Empty,
    Whitespace,
    NotHostPort,
    InvalidHostPort,
    InvalidHost,
    MissingPort,
    InvalidPort,
}

impl NtsKeEndpointError {
    pub open spec fn text(&self) -> &'static str {
        match self {
            NtsKeEndpointError::Empty => "NTS-KE endpoint is empty",
            NtsKeEndpointError::Whitespace => "NTS-KE endpoint must not contain whitespace",
            NtsKeEndpointError::NotHostPort => "NTS-KE endpoint must be a host:port value",
            NtsKeEndpointError::InvalidHostPort => "bracketed IPv6 endpoint must use [host]:port form",
            NtsKeEndpointError::InvalidHost => "NTS-KE endpoint has an invalid host",
            NtsKeEndpointError::MissingPort => "NTS-KE endpoint is missing its port",
            NtsKeEndpointError::InvalidPort => "NTS-KE endpoint port must be between 1 and 65535",
        }
    }

    /// The human-readable description of this error.
    pub fn to_string(&self) -> (s: String)
        ensures
            s@ == self.text()@,
    {
        let t: &'static str = match self {
            NtsKeEndpointError::Empty => "NTS-KE endpoint is empty",
            NtsKeEndpointError::Whitespace => "NTS-KE endpoint must not contain whitespace",
            NtsKeEndpointError::NotHostPort => "NTS-KE endpoint must be a host:port value",
            NtsKeEndpointError::InvalidHostPort => "bracketed IPv6 endpoint must use [host]:port form",
            NtsKeEndpointError::InvalidHost => "NTS-KE endpoint has an invalid host",
            NtsKeEndpointError::MissingPort => "NTS-KE endpoint is missing its port",
            NtsKeEndpointError::InvalidPort => "NTS-KE endpoint port must be between 1 and 65535",
        };
        string_from_str(t)
    }
}

/// The first position `k >= from` at which `a` is immediately followed by `b`.
pub open spec fn first_pair_from(s: Seq<char>, a: char, b: char, from: int) -> Option<int>
    decreases s.len() - from,
{
    if from < 0 || from + 1 >= s.len() {
        None
    } else if s[from] == a && s[from + 1] == b {
        Some(from)
    } else {
        first_pair_from(s, a, b, from + 1)
    }
}

/// The last position of `c` in `s`.
pub open spec fn last_index_of(s: Seq<char>, c: char) -> Option<int>
    decreases s.len(),
{
    if s.len() == 0 {
        None
    } else if s.last() == c {
        Some(s.len() - 1)
    } else {
        last_index_of(s.drop_last(), c)
    }
}

/// How `host:port` or `[host]:port` splits into its host and port text.
pub open spec fn split_host_port(s: Seq<char>) -> Result<(Seq<char>, Seq<char>), NtsKeEndpointError> {
    if s[0] == '[' {
        let rest = s.drop_first();
        match first_pair_from(rest, ']', ':', 0) {
            None => Err(NtsKeEndpointError::InvalidHostPort),
            Some(k) => {
                let host = rest.take(k);
                if host.len() == 0 || host.contains('[') || host.contains(']') {
                    Err(NtsKeEndpointError::InvalidHost)
                } else {
                    Ok((host, rest.skip(k + 2)))
                }
            },
        }
    } else {
        match last_index_of(s, ':') {
            None => Err(NtsKeEndpointError::MissingPort),
            Some(k) => {
                let host = s.take(k);
                if host.len() == 0 || host.contains(':') || host.contains('[') || host.contains(
                    ']',
                ) {
                    Err(NtsKeEndpointError::InvalidHost)
                } else {
                    Ok((host, s.skip(k + 1)))
                }
            },
        }
    }
}

/// The endpoint an input denotes, or the first reason it is refused.
pub open spec fn parse_endpoint_spec(s: Seq<char>) -> Result<(Seq<char>, u16), NtsKeEndpointError> {
    if s.len() == 0 {
        Err(NtsKeEndpointError::Empty)
    } else if exists|i: int| 0 <= i < s.len() && is_whitespace_spec(#[trigger] s[i]) {
        Err(NtsKeEndpointError::Whitespace)
    } else if s.contains('/') {
        Err(NtsKeEndpointError::NotHostPort)
    } else {
        match split_host_port(s) {
            Err(e) => Err(e),
            Ok((host, port)) => if port.len() == 0 {
                Err(NtsKeEndpointError::MissingPort)
            } else {
                match parse_unsigned_spec(port, 65535) {
                    None => Err(NtsKeEndpointError::InvalidPort),
                    Some(p) => if p == 0 {
                        Err(NtsKeEndpointError::InvalidPort)
                    } else {
                        Ok((host, p as u16))
                    },
                }
            },
        }
    }
}

/// The `host:port` text of an endpoint; hosts holding `:` are bracketed.
pub open spec fn endpoint_text(host: Seq<char>, port: u16) -> Seq<char> {
    if host.contains(':') {
        seq!['['] + host + seq![']', ':'] + decimal(port as nat)
    } else {
        host + seq![':'] + decimal(port as nat)
    }
}

/// A validated NTS Key Establishment endpoint.
#[derive(Debug, Clone, PartialEq, Eq)]
pub struct NtsKeEndpoint {
    host: String,
    port: u16,
}

impl View for NtsKeEndpoint {
    type V = (Seq<char>, u16);

    closed spec fn view(&self) -> (Seq<char>, u16) {
        (self.host@, self.port)
    }
}

/// The registered NTS-KE port.
pub const DEFAULT_NTS_KE_PORT: u16 = 4460;

fn find_bracket_close(s: &[char], from: usize) -> (r: Option<usize>)
    requires
        from <= s@.len(),
    ensures
        match r {
            Some(k) => first_pair_from(s@, ']', ':', from as int) == Some(k as int),
            None => first_pair_from(s@, ']', ':', from as int) is None,
        },
{
    let mut k = from;
    while k < s.len() && k + 1 < s.len()
        invariant
            from <= k <= s@.len(),
            first_pair_from(s@, ']', ':', from as int) == first_pair_from(
                s@,
                ']',
                ':',
                k as int,
            ),
        decreases s.len() - k,
    {
        if s[k] == ']' && s[k + 1] == ':' {
            return Some(k);
        }
        k = k + 1;
    }
    None
}

fn find_last(s: &[char], c: char) -> (r: Option<usize>)
    ensures
        match r {
            Some(k) => last_index_of(s@, c) == Some(k as int),
            None => last_index_of(s@, c) is None,
        },
{
    let mut k = s.len();
    assert(s@.take(k as int) =~= s@);
    while k > 0
        invariant
            k <= s@.len(),
            last_index_of(s@, c) == last_index_of(s@.take(k as int), c),
        decreases k,
    {
        assert(s@.take(k as int).drop_last() =~= s@.take(k - 1));
        if s[k - 1] == c {
            return Some(k - 1);
        }
        k = k - 1;
    }
    None
}

fn any_whitespace(s: &[char]) -> (r: bool)
    ensures
        r == exists|i: int| 0 <= i < s@.len() && is_whitespace_spec(#[trigger] s@[i]),
{
    let mut i: usize = 0;
    while i < s.len()
        invariant
            i <= s@.len(),
            forall|j: int| 0 <= j < i ==> !is_whitespace_spec(#[trigger] s@[j]),
        decreases s.len() - i,
    {
        if is_whitespace(s[i]) {
            return true;
        }
        i = i + 1;
    }
    false
}

proof fn lemma_last_index_in_range(s: Seq<char>, c: char)
    ensures
        last_index_of(s, c) matches Some(k) ==> 0 <= k < s.len() && s[k] == c,
    decreases s.len(),
{
    if s.len() > 0 && s.last() != c {
        lemma_last_index_in_range(s.drop_last(), c);
    }
}

proof fn lemma_first_pair_in_range(s: Seq<char>, from: int)
    ensures
        first_pair_from(s, ']', ':', from) matches Some(k) ==> from <= k && k + 1 < s.len(),
    decreases s.len() - from,
{
    if 0 <= from && from + 1 < s.len() && !(s[from] == ']' && s[from + 1] == ':') {
        lemma_first_pair_in_range(s, from + 1);
    }
}

impl NtsKeEndpoint {
    /// Validate and parse an endpoint in `host:port` form.
    pub fn parse(input: &str) -> (r: Result<Self, NtsKeEndpointError>)
        ensures
            match parse_endpoint_spec(input@) {
                Ok((host, port)) => r matches Ok(e) && e@ == (host, port),
                Err(err) => r == Err::<Self, NtsKeEndpointError>(err),
            },
    {
        let s = chars_of(input);
        if s.len() == 0 {
            return Err(NtsKeEndpointError::Empty);
        }
        if any_whitespace(s.as_slice()) {
            return Err(NtsKeEndpointError::Whitespace);
        }
        if contains_char(s.as_slice(), '/') {
            return Err(NtsKeEndpointError::NotHostPort);
        }
        let ghost sv = s@;
        let (host, port): (Vec<char>, Vec<char>) = if s[0] == '[' {
            let ghost rest = sv.drop_first();
            match find_bracket_close(s.as_slice(), 1) {
                None => {
                    proof {
                        lemma_shifted_pair(sv, 1);
                    }
                    return Err(NtsKeEndpointError::InvalidHostPort);
                },
                Some(k) => {
                    proof {
                        lemma_shifted_pair(sv, 1);
                        lemma_first_pair_in_range(sv, 1);
                    }
                    let host = slice_to_vec(s.as_slice(), 1, k);
                    assert(host@ =~= rest.take(k - 1));
                    if host.len() == 0 || contains_char(host.as_slice(), '[') || contains_char(
                        host.as_slice(),
                        ']',
                    ) {
                        return Err(NtsKeEndpointError::InvalidHost);
                    }
                    let port = slice_to_vec(s.as_slice(), k + 2, s.len());
                    assert(port@ =~= rest.skip(k - 1 + 2));
                    (host, port)
                },
            }
        } else {
            match find_last(s.as_slice(), ':') {
                None => {
                    return Err(NtsKeEndpointError::MissingPort);
                },
                Some(k) => {
                    proof {
                        lemma_last_index_in_range(sv, ':');
                    }
                    let host = slice_to_vec(s.as_slice(), 0, k);
                    assert(host@ =~= sv.take(k as int));
                    if host.len() == 0 || contains_char(host.as_slice(), ':') || contains_char(
                        host.as_slice(),
                        '[',
                    ) || contains_char(host.as_slice(), ']') {
                        return Err(NtsKeEndpointError::InvalidHost);
                    }
                    let port = slice_to_vec(s.as_slice(), k + 1, s.len());
                    assert(port@ =~= sv.skip(k + 1));
                    (host, port)
                },
            }
        };
        if port.len() == 0 {
            return Err(NtsKeEndpointError::MissingPort);
        }
        let port = match parse_unsigned(port.as_slice(), 65535) {
            None => {
                return Err(NtsKeEndpointError::InvalidPort);
            },
            Some(p) => p,
        };
        if port == 0 {
            return Err(NtsKeEndpointError::InvalidPort);
        }
        Ok(NtsKeEndpoint { host: string_from_chars(host.as_slice()), port: port as u16 })
    }

    pub fn host(&self) -> (h: &str)
        ensures
            h@ == self@.0,
    {
        self.host.as_str()
    }

    pub fn port(&self) -> (p: u16)
        ensures
            p == self@.1,
    {
        self.port
    }

    /// The endpoint as `host:port`, bracketing hosts that hold `:`.
    pub fn to_string(&self) -> (s: String)
        ensures
            s@ == endpoint_text(self@.0, self@.1),
    {
        let host = chars_of(self.host.as_str());
        let mut out = String::new();
        if contains_char(host.as_slice(), ':') {
            push_char(&mut out, '[');
            crate::text::push_chars(&mut out, host.as_slice());
            push_char(&mut out, ']');
            push_char(&mut out, ':');
        } else {
            crate::text::push_chars(&mut out, host.as_slice());
            push_char(&mut out, ':');
        }
        push_decimal(&mut out, self.port as u64);
        assert(out@ =~= endpoint_text(self@.0, self@.1));
        out
    }
}

/// Pair positions in a suffix are the pair positions of the whole, shifted.
proof fn lemma_shifted_pair(s: Seq<char>, from: int)
    requires
        0 <= from <= s.len(),
    ensures
        match first_pair_from(s.skip(from), ']', ':', 0) {
            Some(k) => first_pair_from(s, ']', ':', from) == Some(k + from),
            None => first_pair_from(s, ']', ':', from) is None,
        },
{
    lemma_shifted_pair_from(s, from, 0);
}

proof fn lemma_shifted_pair_from(s: Seq<char>, from: int, k: int)
    requires
        0 <= from <= s.len(),
        0 <= k,
    ensures
        match first_pair_from(s.skip(from), ']', ':', k) {
            Some(j) => first_pair_from(s, ']', ':', from + k) == Some(j + from),
            None => first_pair_from(s, ']', ':', from + k) is None,
        },
    decreases s.len() - from - k,
{
    if k + 1 < s.len() - from {
        lemma_shifted_pair_from(s, from, k + 1);
    }
}

/// The characters `s[from..to]`.
pub fn slice_to_vec(s: &[char], from: usize, to: usize) -> (v: Vec<char>)
    requires
        from <= to <= s@.len(),
    ensures
        v@ == s@.subrange(from as int, to as int),
{
    let mut v: Vec<char> = Vec::new();
    let mut i = from;
    while i < to
        invariant
            from <= i <= to <= s@.len(),
            v@ =~= s@.subrange(from as int, i as int),
        decreases to - i,
    {
        v.push(s[i]);
        i = i + 1;
    }
    v
}

impl core::str::FromStr for NtsKeEndpoint {
    type Err = NtsKeEndpointError;

    fn from_str(input: &str) -> Result<Self, Self::Err> {
        NtsKeEndpoint::parse(input)
    }
}

/// Report the capability of a policy without implying that NTS was performed.
#[derive(Debug, Clone, PartialEq, Eq, Structural)]
pub struct EndpointSecurityReport {
    pub mode: EndpointSecurityMode,
    pub status: EndpointSecurityStatus,
}

/// The status a policy can be given when its endpoint is usable.
pub open spec fn status_for_mode(mode: EndpointSecurityMode) -> EndpointSecurityStatus {
    if mode == EndpointSecurityMode::PlainUdp {
        EndpointSecurityStatus::PlainUdpSupported
    } else {
        EndpointSecurityStatus::NtsUnsupported
    }
}

impl EndpointSecurityReport {
    pub fn for_mode(mode: EndpointSecurityMode) -> (r: Self)
        ensures
            r.mode == mode,
            r.status == status_for_mode(mode),
    {
        let status = if mode == EndpointSecurityMode::PlainUdp {
            EndpointSecurityStatus::PlainUdpSupported
        } else {
            EndpointSecurityStatus::NtsUnsupported
        };
        EndpointSecurityReport { mode, status }
    }

    pub fn for_endpoint(mode: EndpointSecurityMode, endpoint: &str) -> (r: Self)
        ensures
            r.mode == mode,
            r.status == if parse_endpoint_spec(endpoint@) is Err {
                EndpointSecurityStatus::InvalidEndpoint
            } else {
                status_for_mode(mode)
            },
    {
        let status = if NtsKeEndpoint::parse(endpoint).is_err() {
            EndpointSecurityStatus::InvalidEndpoint
        } else if mode == EndpointSecurityMode::PlainUdp {
            EndpointSecurityStatus::PlainUdpSupported
        } else {
            EndpointSecurityStatus::NtsUnsupported
        };
        EndpointSecurityReport { mode, status }
    }
}

/// Boundary for a future NTS-KE/NTS transport implementation.
///
/// No implementation is provided here. In particular, this trait is not used
/// to turn the existing plain-UDP transport into an NTS transport.
pub trait NtsTransport {
    type Error;

    fn exchange(&self, endpoint: &NtsKeEndpoint, request: &[u8]) -> Result<Vec<u8>, Self::Error>;
}

/// No report ever claims NTS support, whatever the policy or endpoint.
pub proof fn lemma_reports_never_claim_nts(mode: EndpointSecurityMode, endpoint: Seq<char>)
    ensures
        status_for_mode(mode) != EndpointSecurityStatus::PlainUdpSupported ==> mode
            != EndpointSecurityMode::PlainUdp,
        mode.requires_nts_spec() ==> status_for_mode(mode) == EndpointSecurityStatus::NtsUnsupported,
{
}

impl EndpointSecurityMode {
    pub open spec fn requires_nts_spec(self) -> bool {
        self == EndpointSecurityMode::NtsRequired || self == EndpointSecurityMode::NtsPreferred
    }
}

} // verus!
