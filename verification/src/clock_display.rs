//! Formatting of clock and Unix epoch values.
//!
//! The standard library exposes no local-timezone database; callers that
//! select [`TimeZone::Local`] provide the local UTC offset themselves. The
//! measured correction is fractional; applying it and writing an epoch value
//! with fractions is the caller's part, which hands the whole seconds here.
use vstd::prelude::*;

use crate::crash_diagnostics::{civil, civil_from_days, signed_padded};
use crate::text::{decimal_padded, push_decimal_padded, push_str, string_from_str};
use crate::time::SystemTime;

verus! {

/// The text shown for a value that cannot be represented safely.
pub open spec fn unavailable_text() -> Seq<char> {
    "<unavailable>"@
}

/// The text shown for a value that cannot be represented safely.
pub fn unavailable() -> (s: String)
    ensures
        s@ == unavailable_text(),
{
    string_from_str("<unavailable>")
}

/// The timezone used for a clock display.
#[derive(Debug, Clone, Copy, PartialEq, Eq, Structural)]
pub enum TimeZone {
    /// Coordinated Universal Time, with no timezone offset.
    Utc,
    /// The local timezone, resolved by the caller.
    Local,
}

/// The hour representation used by a clock display.
#[derive(Debug, Clone, Copy, PartialEq, Eq, Structural)]
pub enum HourFormat {
    /// `00:00:00` through `23:59:59`.
    TwentyFourHour,
    /// `12:00:00 AM` through `11:59:59 PM`.
    TwelveHour,
}

/// Which value should be rendered.
#[derive(Debug, Clone, Copy, PartialEq, Eq, Structural)]
pub enum DisplayMode {
    /// A calendar date and time.
    Clock,
    /// Signed seconds since 1970-01-01 00:00:00 UTC.
    UnixEpoch,
}

/// Whole seconds from the epoch to `t` nanoseconds after it, rounded
/// towards zero.
pub open spec fn truncated_seconds(t: int) -> int {
    if t >= 0 {
        t / 1_000_000_000
    } else {
        -((-t) / 1_000_000_000)
    }
}

/// The whole seconds between the Unix epoch and `timestamp`, negative
/// before the epoch and rounded towards zero.
pub fn epoch_seconds(timestamp: SystemTime) -> (r: Option<i64>)
    ensures
        r matches Some(s) && s == truncated_seconds(timestamp@),
{
    let secs = timestamp.unix_secs_floor();
    let nanos = timestamp.unix_subsec_nanos();
    proof {
        vstd::arithmetic::div_mod::lemma_fundamental_div_mod(timestamp@, 1_000_000_000);
    }
    if secs >= 0 || nanos == 0 {
        proof {
            if timestamp@ < 0 {
                vstd::arithmetic::div_mod::lemma_fundamental_div_mod_converse(
                    -timestamp@,
                    1_000_000_000,
                    -(secs as int),
                    0,
                );
            }
        }
        Some(secs)
    } else {
        proof {
            vstd::arithmetic::div_mod::lemma_fundamental_div_mod_converse(
                -timestamp@,
                1_000_000_000,
                -(secs as int) - 1,
                1_000_000_000 - nanos as int,
            );
        }
        Some(secs + 1)
    }
}

/// The hour shown on a twelve-hour clock.
pub open spec fn twelve_hour(hour: int) -> int {
    if hour % 12 == 0 {
        12
    } else {
        hour % 12
    }
}

/// The calendar text of the whole second `s` after the epoch, local to the
/// zone whose offset has been added in.
pub open spec fn clock_text(s: int, hour_format: HourFormat) -> Seq<char> {
    let (y, m, d) = civil(s / 86_400);
    let in_day = s % 86_400;
    let hour = in_day / 3_600;
    let date = signed_padded(y, 4) + "-"@ + signed_padded(m, 2) + "-"@ + signed_padded(d, 2)
        + " "@;
    let rest = ":"@ + decimal_padded(((in_day % 3_600) / 60) as nat, 2) + ":"@ + decimal_padded(
        (in_day % 60) as nat,
        2,
    );
    match hour_format {
        HourFormat::TwentyFourHour => date + decimal_padded(hour as nat, 2) + rest,
        HourFormat::TwelveHour => date + decimal_padded(twelve_hour(hour) as nat, 2) + rest + if hour
            < 12 {
            " AM"@
        } else {
            " PM"@
        },
    }
}

/// Writes the calendar date and time of the whole second `seconds` after the
/// epoch, shifted by `offset` seconds; `None` when the shifted second does
/// not fit in an `i64`.
pub fn format_clock(seconds: i64, offset: i64, hour_format: HourFormat) -> (r: Option<String>)
    ensures
        match r {
            Some(t) => i64::MIN <= seconds + offset <= i64::MAX && t@ == clock_text(
                seconds + offset,
                hour_format,
            ),
            None => !(i64::MIN <= seconds + offset <= i64::MAX),
        },
{
    let whole = match seconds.checked_add(offset) {
        Some(w) => w,
        None => { return None },
    };
    let q = whole / 86_400;
    let r = whole % 86_400;
    let (day, in_day) = if r < 0 {
        (q - 1, r + 86_400)
    } else {
        (q, r)
    };
    proof {
        vstd::arithmetic::div_mod::lemma_fundamental_div_mod(whole as int, 86_400);
        vstd::arithmetic::div_mod::lemma_fundamental_div_mod_converse(
            whole as int,
            86_400,
            day as int,
            in_day as int,
        );
    }
    let (year, month, date) = civil_from_days(day);
    let hour = in_day / 3_600;
    let minute = (in_day % 3_600) / 60;
    let second = in_day % 60;
    let mut t = String::new();
    crate::crash_diagnostics::push_signed_padded(&mut t, year, 4);
    push_str(&mut t, "-");
    crate::crash_diagnostics::push_signed_padded(&mut t, month, 2);
    push_str(&mut t, "-");
    crate::crash_diagnostics::push_signed_padded(&mut t, date, 2);
    push_str(&mut t, " ");
    match hour_format {
        HourFormat::TwentyFourHour => {
            push_decimal_padded(&mut t, hour as u64, 2);
            push_str(&mut t, ":");
            push_decimal_padded(&mut t, minute as u64, 2);
            push_str(&mut t, ":");
            push_decimal_padded(&mut t, second as u64, 2);
        },
        HourFormat::TwelveHour => {
            let shown = if hour % 12 == 0 {
                12
            } else {
                hour % 12
            };
            push_decimal_padded(&mut t, shown as u64, 2);
            push_str(&mut t, ":");
            push_decimal_padded(&mut t, minute as u64, 2);
            push_str(&mut t, ":");
            push_decimal_padded(&mut t, second as u64, 2);
            if hour < 12 {
                push_str(&mut t, " AM");
            } else {
                push_str(&mut t, " PM");
            }
        },
    }
    assert(t@ =~= clock_text(whole as int, hour_format));
    Some(t)
}

} // verus!
