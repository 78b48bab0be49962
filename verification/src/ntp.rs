//! NTPv4 packet primitives.
//!
//! This module contains no networking: it builds client requests and decodes
//! the fixed 48-byte header of a response. Multi-byte fields are big-endian.
use vstd::prelude::*;

use crate::text::{push_decimal, push_str, decimal};

verus! {

pub const NTP_PACKET_LEN: usize = 48;

pub const NTP_VERSION: u8 = 4;

/// The value of the four big-endian bytes of `b` starting at `i`.
pub open spec fn be_u32_at(b: Seq<u8>, i: int) -> nat {
    (b[i] as nat) * 0x1000000 + (b[i + 1] as nat) * 0x10000 + (b[i + 2] as nat) * 0x100 + (
    b[i + 3] as nat)
}

/// The four big-endian bytes of `x`.
pub open spec fn be_bytes(x: u32) -> Seq<u8> {
    seq![
        (x / 0x1000000) as u8,
        (x / 0x10000 % 0x100) as u8,
        (x / 0x100 % 0x100) as u8,
        (x % 0x100) as u8,
    ]
}

/// Decoding the bytes of `x` gives `x` back.
pub proof fn lemma_be_round_trip(x: u32)
    ensures
        be_bytes(x).len() == 4,
        be_u32_at(be_bytes(x), 0) == x,
{
    let b = be_bytes(x);
    assert(b[0] == (x / 0x1000000) as u8);
    assert(b[1] == (x / 0x10000 % 0x100) as u8);
    assert(b[2] == (x / 0x100 % 0x100) as u8);
    assert(b[3] == (x % 0x100) as u8);
    assert(((x / 0x1000000) as u8) as nat * 0x1000000 + ((x / 0x10000 % 0x100) as u8) as nat
        * 0x10000 + ((x / 0x100 % 0x100) as u8) as nat * 0x100 + ((x % 0x100) as u8) as nat
        == x) by (bit_vector);
}

/// Encoding the value of four bytes gives the same bytes back.
pub proof fn lemma_be_bytes_of_value(b0: u8, b1: u8, b2: u8, b3: u8)
    ensures
        ({
            let v = (b0 as nat) * 0x1000000 + (b1 as nat) * 0x10000 + (b2 as nat) * 0x100
                + (b3 as nat);
            v <= u32::MAX && be_bytes(v as u32) == seq![b0, b1, b2, b3]
        }),
{
    let v = (b0 as nat) * 0x1000000 + (b1 as nat) * 0x10000 + (b2 as nat) * 0x100 + (b3 as nat);
    assert(v <= u32::MAX) by (nonlinear_arith)
        requires
            v == (b0 as nat) * 0x1000000 + (b1 as nat) * 0x10000 + (b2 as nat) * 0x100
                + (b3 as nat),
            b0 <= 255,
            b1 <= 255,
            b2 <= 255,
            b3 <= 255,
    ;
    let x = v as u32;
    assert(x == (b0 as u32) * 0x1000000 + (b1 as u32) * 0x10000 + (b2 as u32) * 0x100 + (
    b3 as u32));
    assert((x / 0x1000000) as u8 == b0 && (x / 0x10000 % 0x100) as u8 == b1 && (x / 0x100
        % 0x100) as u8 == b2 && (x % 0x100) as u8 == b3) by (bit_vector)
        requires
            x == (b0 as u32) * 0x1000000 + (b1 as u32) * 0x10000 + (b2 as u32) * 0x100 + (
            b3 as u32),
    ;
    assert(be_bytes(x) =~= seq![b0, b1, b2, b3]);
}

fn read_be_u32(bytes: &[u8], i: usize) -> (v: u32)
    requires
        i + 4 <= bytes@.len(),
    ensures
        v == be_u32_at(bytes@, i as int),
{
    let b0 = bytes[i];
    let b1 = bytes[i + 1];
    let b2 = bytes[i + 2];
    let b3 = bytes[i + 3];
    let v: u32 = ((b0 as u32) << 24u32) | ((b1 as u32) << 16u32) | ((b2 as u32) << 8u32) | (
    b3 as u32);
    assert(v == (b0 as nat) * 0x1000000 + (b1 as nat) * 0x10000 + (b2 as nat) * 0x100 + (
    b3 as nat)) by (bit_vector)
        requires
            v == ((b0 as u32) << 24u32) | ((b1 as u32) << 16u32) | ((b2 as u32) << 8u32) | (
            b3 as u32),
    ;
    v
}

fn write_be_u32(out: &mut [u8], i: usize, x: u32)
    requires
        i + 4 <= old(out)@.len(),
    ensures
        final(out)@.len() == old(out)@.len(),
        final(out)@ == old(out)@.update(i as int, be_bytes(x)[0]).update(
            i + 1,
            be_bytes(x)[1],
        ).update(i + 2, be_bytes(x)[2]).update(i + 3, be_bytes(x)[3]),
{
    let b0 = (x >> 24u32) as u8;
    let b1 = (x >> 16u32) as u8;
    let b2 = (x >> 8u32) as u8;
    let b3 = x as u8;
    assert(b0 == (x / 0x1000000) as u8 && b1 == (x / 0x10000 % 0x100) as u8 && b2 == (x / 0x100
        % 0x100) as u8 && b3 == (x % 0x100) as u8) by (bit_vector)
        requires
            b0 == (x >> 24u32) as u8,
            b1 == (x >> 16u32) as u8,
            b2 == (x >> 8u32) as u8,
            b3 == x as u8,
    ;
    out[i] = b0;
    out[i + 1] = b1;
    out[i + 2] = b2;
    out[i + 3] = b3;
}

/// An NTP timestamp: whole seconds since 1900 and a 32-bit binary fraction.
#[derive(Debug, Clone, Copy, PartialEq, Eq, Structural)]
pub struct NtpTimestamp {
    pub seconds: u32,
    pub fraction: u32,
}

impl NtpTimestamp {
    /// The all-zero timestamp, which NTP uses for "not set".
    pub fn zero() -> (t: NtpTimestamp)
        ensures
            t.seconds == 0 && t.fraction == 0,
    {
        NtpTimestamp { seconds: 0, fraction: 0 }
    }

    /// Decodes the eight network-order bytes at the start of `bytes`.
    pub fn from_network_bytes(bytes: &[u8]) -> (r: Option<NtpTimestamp>)
        ensures
            r is Some <==> bytes@.len() >= 8,
            r matches Some(t) ==> t.seconds == be_u32_at(bytes@, 0) && t.fraction == be_u32_at(
                bytes@,
                4,
            ),
    {
        if bytes.len() < 8 {
            return None;
        }
        Some(NtpTimestamp { seconds: read_be_u32(bytes, 0), fraction: read_be_u32(bytes, 4) })
    }

    /// Writes the timestamp into the first eight bytes of `output`; returns
    /// `false` and leaves `output` unchanged when it is shorter than that.
    pub fn write_network_bytes(self, output: &mut [u8]) -> (ok: bool)
        ensures
            ok <==> old(output)@.len() >= 8,
            ok ==> final(output)@ =~= be_bytes(self.seconds) + be_bytes(self.fraction) + old(
                output,
            )@.subrange(8, old(output)@.len() as int),
            !ok ==> final(output)@ == old(output)@,
    {
        if output.len() < 8 {
            return false;
        }
        write_be_u32(output, 0, self.seconds);
        write_be_u32(output, 4, self.fraction);
        true
    }
}

/// What `write_network_bytes` writes, `from_network_bytes` reads back.
pub proof fn lemma_timestamp_round_trip(t: NtpTimestamp, rest: Seq<u8>)
    ensures
        ({
            let b = be_bytes(t.seconds) + be_bytes(t.fraction) + rest;
            b.len() >= 8 && be_u32_at(b, 0) == t.seconds && be_u32_at(b, 4) == t.fraction
        }),
{
    lemma_be_round_trip(t.seconds);
    lemma_be_round_trip(t.fraction);
    let s = be_bytes(t.seconds);
    let f = be_bytes(t.fraction);
    let b = s + f + rest;
    assert(b[0] == s[0] && b[1] == s[1] && b[2] == s[2] && b[3] == s[3]);
    assert(b[4] == f[0] && b[5] == f[1] && b[6] == f[2] && b[7] == f[3]);
}

/// Reading eight bytes and writing the timestamp back reproduces them.
pub proof fn lemma_bytes_round_trip(b: Seq<u8>)
    requires
        b.len() >= 8,
    ensures
        be_u32_at(b, 0) <= u32::MAX,
        be_u32_at(b, 4) <= u32::MAX,
        be_bytes(be_u32_at(b, 0) as u32) + be_bytes(be_u32_at(b, 4) as u32) =~= b.subrange(0, 8),
{
    lemma_be_bytes_of_value(b[0], b[1], b[2], b[3]);
    lemma_be_bytes_of_value(b[4], b[5], b[6], b[7]);
}

/// The leap-indicator field of a header's first byte.
pub open spec fn leap_bits(first: u8) -> u8 {
    first / 64
}

/// The version field of a header's first byte.
pub open spec fn version_bits(first: u8) -> u8 {
    first / 8 % 8
}

/// The mode field of a header's first byte.
pub open spec fn mode_bits(first: u8) -> u8 {
    first % 8
}

/// The decoded fixed NTP header.
#[derive(Debug, Clone, Copy, PartialEq, Eq)]
pub struct NtpHeader {
    pub leap_indicator: u8,
    pub version: u8,
    pub mode: u8,
    pub stratum: u8,
    pub poll_exponent: i8,
    pub precision_exponent: i8,
    pub root_delay: u32,
    pub root_dispersion: u32,
    pub reference_id: [u8; 4],
    pub reference_timestamp: NtpTimestamp,
    pub originate_timestamp: NtpTimestamp,
    pub receive_timestamp: NtpTimestamp,
    pub transmit_timestamp: NtpTimestamp,
}

/// The timestamp stored in the eight bytes of `p` at `i`.
pub open spec fn timestamp_at(p: Seq<u8>, i: int) -> NtpTimestamp {
    NtpTimestamp { seconds: be_u32_at(p, i) as u32, fraction: be_u32_at(p, i + 4) as u32 }
}

/// `h` holds exactly the fields that the 48 bytes of `p` encode.
pub open spec fn header_decodes(h: NtpHeader, p: Seq<u8>) -> bool {
    &&& h.leap_indicator == leap_bits(p[0])
    &&& h.version == version_bits(p[0])
    &&& h.mode == mode_bits(p[0])
    &&& h.stratum == p[1]
    &&& h.poll_exponent == p[2] as i8
    &&& h.precision_exponent == p[3] as i8
    &&& h.root_delay == be_u32_at(p, 4)
    &&& h.root_dispersion == be_u32_at(p, 8)
    &&& h.reference_id@ == p.subrange(12, 16)
    &&& h.reference_timestamp == timestamp_at(p, 16)
    &&& h.originate_timestamp == timestamp_at(p, 24)
    &&& h.receive_timestamp == timestamp_at(p, 32)
    &&& h.transmit_timestamp == timestamp_at(p, 40)
}

/// Why a packet could not be decoded.
#[derive(Debug, Clone, PartialEq, Eq, Structural)]
pub enum PacketError {
    TooShort { actual: usize },
    InvalidVersion(u8),
    InvalidMode(u8),
}

impl PacketError {
    /// The message for this error.
    pub open spec fn message(&self) -> Seq<char> {
        match self {
            PacketError::TooShort { actual } => "NTP packet is "@ + decimal(*actual as nat)
                + " bytes; expected 48"@,
            PacketError::InvalidVersion(v) => "unsupported NTP version "@ + decimal(*v as nat),
            PacketError::InvalidMode(m) => "invalid NTP mode "@ + decimal(*m as nat),
        }
    }

    pub fn to_string(&self) -> (s: String)
        ensures
            s@ == self.message(),
    {
        let mut s = String::new();
        match self {
            PacketError::TooShort { actual } => {
                push_str(&mut s, "NTP packet is ");
                push_decimal(&mut s, *actual as u64);
                push_str(&mut s, " bytes; expected 48");
            },
            PacketError::InvalidVersion(v) => {
                push_str(&mut s, "unsupported NTP version ");
                push_decimal(&mut s, *v as u64);
            },
            PacketError::InvalidMode(m) => {
                push_str(&mut s, "invalid NTP mode ");
                push_decimal(&mut s, *m as u64);
            },
        }
        s
    }
}

/// A version 4 client-mode request: first byte `0x23`, every other byte zero.
pub fn client_request() -> (p: [u8; 48])
    ensures
        p@.len() == NTP_PACKET_LEN,
        p@[0] == 0x23,
        forall|i: int| 1 <= i < 48 ==> p@[i] == 0,
{
    let mut packet = [0u8; 48];
    packet[0] = 0x23;
    packet
}

/// Decodes the fixed header of an NTP packet.
///
/// A packet shorter than 48 bytes is refused; then a version other than 3
/// or 4; then a mode of 0 or 7.
pub fn parse_header(packet: &[u8]) -> (r: Result<NtpHeader, PacketError>)
    ensures
        packet@.len() < NTP_PACKET_LEN ==> r == Err::<NtpHeader, PacketError>(
            PacketError::TooShort { actual: packet@.len() as usize },
        ),
        packet@.len() >= NTP_PACKET_LEN && !(3 <= version_bits(packet@[0]) <= 4) ==> r == Err::<
            NtpHeader,
            PacketError,
        >(PacketError::InvalidVersion(version_bits(packet@[0]))),
        packet@.len() >= NTP_PACKET_LEN && 3 <= version_bits(packet@[0]) <= 4 && (mode_bits(
            packet@[0],
        ) == 0 || mode_bits(packet@[0]) > 6) ==> r == Err::<NtpHeader, PacketError>(
            PacketError::InvalidMode(mode_bits(packet@[0])),
        ),
        r is Ok <==> packet@.len() >= NTP_PACKET_LEN && 3 <= version_bits(packet@[0]) <= 4 && 1
            <= mode_bits(packet@[0]) <= 6,
        r matches Ok(h) ==> header_decodes(h, packet@),
{
    if packet.len() < NTP_PACKET_LEN {
        return Err(PacketError::TooShort { actual: packet.len() });
    }
    let first = packet[0];
    let version = (first >> 3u8) & 7u8;
    let mode = first & 7u8;
    let leap = first >> 6u8;
    assert(version == first / 8 % 8 && mode == first % 8 && leap == first / 64) by (bit_vector)
        requires
            version == (first >> 3u8) & 7u8,
            mode == first & 7u8,
            leap == first >> 6u8,
    ;
    if version < 3 || version > 4 {
        return Err(PacketError::InvalidVersion(version));
    }
    if mode == 0 || mode > 6 {
        return Err(PacketError::InvalidMode(mode));
    }
    let reference_id: [u8; 4] = [packet[12], packet[13], packet[14], packet[15]];
    let h = NtpHeader {
        leap_indicator: leap,
        version,
        mode,
        stratum: packet[1],
        poll_exponent: packet[2] as i8,
        precision_exponent: packet[3] as i8,
        root_delay: read_be_u32(packet, 4),
        root_dispersion: read_be_u32(packet, 8),
        reference_id,
        reference_timestamp: NtpTimestamp {
            seconds: read_be_u32(packet, 16),
            fraction: read_be_u32(packet, 20),
        },
        originate_timestamp: NtpTimestamp {
            seconds: read_be_u32(packet, 24),
            fraction: read_be_u32(packet, 28),
        },
        receive_timestamp: NtpTimestamp {
            seconds: read_be_u32(packet, 32),
            fraction: read_be_u32(packet, 36),
        },
        transmit_timestamp: NtpTimestamp {
            seconds: read_be_u32(packet, 40),
            fraction: read_be_u32(packet, 44),
        },
    };
    assert(h.reference_id@ =~= packet@.subrange(12, 16));
    Ok(h)
}

} // verus!
