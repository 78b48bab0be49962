//! The bookkeeping of the desktop clock's polling loop: which profile is
//! queried, how requests and responses are counted, what status the clock
//! shows, and how a response's reference identifier is read.
//!
//! The loop itself, its sleeps, its sockets and its fractional statistics
//! are the caller's part.
use vstd::prelude::*;

use crate::text::{decimal, push_char, push_decimal, push_str, string_from_str};

verus! {

/// How far the displayed time can be trusted.
#[derive(Debug, Clone, Copy, PartialEq, Eq, Structural)]
pub enum ClockStatus {
    /// The latest exchange succeeded.
    Synchronized,
    /// The latest exchange failed, but an earlier time is being carried on.
    Estimated,
    /// No exchange has succeeded yet.
    Unsynchronized,
}

/// The profile queried: the selected one, or the last when the selection
/// lies past the list; `len` is at least one.
pub fn active_profile_index(active: usize, len: usize) -> (i: usize)
    requires
        len > 0,
    ensures
        i == if active < len {
            active
        } else {
            (len - 1) as usize
        },
        i < len,
{
    if active < len {
        active
    } else {
        len - 1
    }
}

/// The status after a failed exchange: a time already shown is carried on.
pub fn status_after_failure(has_time: bool) -> (s: ClockStatus)
    ensures
        s == if has_time {
            ClockStatus::Estimated
        } else {
            ClockStatus::Unsynchronized
        },
{
    if has_time {
        ClockStatus::Estimated
    } else {
        ClockStatus::Unsynchronized
    }
}

/// The counts of the exchanges made so far.
#[derive(Debug, Clone, Copy, PartialEq, Eq, Structural)]
pub struct ExchangeTally {
    pub request_count: u64,
    pub response_count: u64,
    pub total_sent: u64,
    pub total_received: u64,
}

impl ExchangeTally {
    /// No exchange yet.
    pub fn new() -> (t: Self)
        ensures
            t.request_count == 0,
            t.response_count == 0,
            t.total_sent == 0,
            t.total_received == 0,
    {
        ExchangeTally { request_count: 0, response_count: 0, total_sent: 0, total_received: 0 }
    }

    /// Counts an exchange that was answered with `received` bytes after
    /// `sent` bytes were sent.
    pub fn record_response(&mut self, sent: u64, received: u64)
        requires
            old(self).request_count < u64::MAX,
            old(self).response_count < u64::MAX,
            old(self).total_sent + sent <= u64::MAX,
            old(self).total_received + received <= u64::MAX,
        ensures
            final(self).request_count == old(self).request_count + 1,
            final(self).response_count == old(self).response_count + 1,
            final(self).total_sent == old(self).total_sent + sent,
            final(self).total_received == old(self).total_received + received,
    {
        self.request_count = self.request_count + 1;
        self.response_count = self.response_count + 1;
        self.total_sent = self.total_sent + sent;
        self.total_received = self.total_received + received;
    }

    /// Counts an exchange that failed.
    pub fn record_failure(&mut self)
        requires
            old(self).request_count < u64::MAX,
        ensures
            final(self).request_count == old(self).request_count + 1,
            final(self).response_count == old(self).response_count,
            final(self).total_sent == old(self).total_sent,
            final(self).total_received == old(self).total_received,
    {
        self.request_count = self.request_count + 1;
    }

    /// The requests that got no response.
    pub fn lost(&self) -> (n: u64)
        requires
            self.response_count <= self.request_count,
        ensures
            n == self.request_count - self.response_count,
    {
        self.request_count - self.response_count
    }
}

/// Every request is either answered or lost: the counts stay ordered
/// through any answer or failure.
pub proof fn lemma_responses_never_exceed_requests(before: ExchangeTally, after: ExchangeTally, answered: bool)
    requires
        before.response_count <= before.request_count,
        after.request_count == before.request_count + 1,
        after.response_count == before.response_count + if answered {
            1int
        } else {
            0int
        },
    ensures
        after.response_count <= after.request_count,
{
}

/// The reference identifier of a response: four characters for a
/// kiss-o'-death code or a primary reference (stratum 0 or 1), an IPv4
/// address otherwise.
pub open spec fn reference_id_text(stratum: u8, id: Seq<u8>) -> Seq<char> {
    if stratum <= 1 {
        id.map_values(|b: u8| b as char)
    } else {
        decimal(id[0] as nat) + "."@ + decimal(id[1] as nat) + "."@ + decimal(id[2] as nat) + "."@
            + decimal(id[3] as nat)
    }
}

/// Reads the reference identifier of a response.
pub fn reference_id(stratum: u8, id: [u8; 4]) -> (s: String)
    ensures
        s@ == reference_id_text(stratum, id@),
{
    let mut s = String::new();
    if stratum <= 1 {
        push_char(&mut s, id[0] as char);
        push_char(&mut s, id[1] as char);
        push_char(&mut s, id[2] as char);
        push_char(&mut s, id[3] as char);
        assert(s@ =~= id@.map_values(|b: u8| b as char));
    } else {
        push_decimal(&mut s, id[0] as u64);
        push_str(&mut s, ".");
        push_decimal(&mut s, id[1] as u64);
        push_str(&mut s, ".");
        push_decimal(&mut s, id[2] as u64);
        push_str(&mut s, ".");
        push_decimal(&mut s, id[3] as u64);
    }
    s
}

/// The kiss-o'-death code of a response: its reference identifier when
/// the stratum is zero.
pub fn kod_code(stratum: u8, reference_id: &str) -> (c: Option<String>)
    ensures
        match c {
            Some(t) => stratum == 0 && t@ == reference_id@,
            None => stratum != 0,
        },
{
    if stratum == 0 {
        Some(string_from_str(reference_id))
    } else {
        None
    }
}

/// Seconds between the NTP era (1900) and the Unix epoch.
pub const NTP_TIMESTAMP_DELTA: u64 = 2_208_988_800;

/// The reference time of a response as Unix seconds (zero for a time before
/// the epoch) and the milliseconds of its fraction.
pub fn reference_unix_millis(seconds: u32, fraction: u32) -> (r: (u64, u64))
    ensures
        r.0 == if seconds >= NTP_TIMESTAMP_DELTA {
            seconds - NTP_TIMESTAMP_DELTA
        } else {
            0
        },
        r.1 == (fraction as nat * 1000) / 0x1_0000_0000,
        r.1 < 1000,
{
    let unix = (seconds as u64).saturating_sub(NTP_TIMESTAMP_DELTA);
    let scaled: u64 = (fraction as u64) * 1000;
    let millis = scaled >> 32u64;
    assert(scaled >> 32u64 == scaled / 0x1_0000_0000) by (bit_vector);
    assert((fraction as nat * 1000) / 0x1_0000_0000 < 1000) by (nonlinear_arith)
        requires
            fraction < 0x1_0000_0000,
    ;
    (unix, millis)
}

} // verus!
