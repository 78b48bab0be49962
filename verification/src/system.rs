//! System-level time diagnostics: what the host reports about its timers, its
//! time service, its load and its power plan, the bundled leap-second
//! calendar, and the text of network path probes.
//!
//! Reading the host (performance counters, commands, kernel calls) is the
//! caller's part; values measured as fractions arrive already written. This
//! module turns what was read into the texts the diagnostics show.
use vstd::prelude::*;

use crate::storage::{split_lines, split_lines_exec};
use crate::text::{
    chars_of, contains_chars, contains_seq, decimal, decimal_padded, push_chars, push_decimal,
    push_decimal_padded, push_str, string_from_chars, string_from_str, to_lowercase, trim_back,
    trim_chars, trim_front, unicode_lowercase,
};

verus! {

/// Hardware timer and kernel clock data.
#[derive(Debug, Clone)]
pub struct TimerInfo {
    pub qpc_frequency: String,
    pub qpc_resolution: String,
    pub qpc_value: String,
    pub timer_resolution: String,
    pub timer_resolution_min: String,
    pub timer_resolution_max: String,
    pub clock_adjustment: String,
    pub clock_increment: String,
    pub clock_disciplined: String,
    pub uptime: String,
    pub rtc_vs_os: String,
}

/// Time service state.
#[derive(Debug, Clone)]
pub struct W32TimeInfo {
    pub raw: String,
    pub source: String,
    pub phase_offset: String,
    pub frequency: String,
    pub poll_interval: String,
    pub last_sync: String,
}

/// Processor and system load data.
#[derive(Debug, Clone)]
pub struct LoadInfo {
    pub cpu_usage: String,
    pub context_switches: String,
    pub interrupts: String,
    pub warning: String,
}

/// Power plan status.
#[derive(Debug, Clone)]
pub struct PowerInfo {
    pub active_plan: String,
    pub verdict: String,
}

pub open spec fn unavailable() -> Seq<char> {
    "unavailable"@
}

// ---------------------------------------------------------------------------
// Timers
// ---------------------------------------------------------------------------
/// What the host's timers reported. The five resolutions and the counter
/// period are written by the caller with three decimals and their unit.
#[derive(Debug, Clone)]
pub struct TimerReadings {
    /// Counter ticks per second, when the performance counter is available.
    pub qpc_frequency: Option<u64>,
    /// The counter period, shown only when the frequency is known.
    pub qpc_resolution: String,
    pub qpc_value: Option<u64>,
    pub timer_resolution: String,
    pub timer_resolution_min: String,
    pub timer_resolution_max: String,
    pub clock_adjustment: String,
    pub clock_increment: String,
    /// Whether the clock is being slewed, when the kernel says.
    pub disciplined: Option<bool>,
    /// Milliseconds since boot.
    pub uptime_ms: Option<u64>,
    /// The difference between the real-time clock and the system clock.
    pub rtc_vs_os: Option<String>,
}

/// `secs` seconds as days, hours, minutes and seconds.
pub open spec fn span_text(secs: nat) -> Seq<char> {
    decimal(secs / 86400) + "d "@ + decimal_padded((secs % 86400) / 3600, 2) + "h "@
        + decimal_padded((secs % 3600) / 60, 2) + "m "@ + decimal_padded(secs % 60, 2) + "s"@
}

/// `ms` milliseconds as days, hours, minutes and seconds.
pub open spec fn duration_text(ms: nat) -> Seq<char> {
    span_text(ms / 1000)
}

/// Writes `secs` seconds as `<days>d <hh>h <mm>m <ss>s`.
pub fn format_span(secs: u64) -> (s: String)
    ensures
        s@ == span_text(secs as nat),
{
    let mut s = String::new();
    push_decimal(&mut s, secs / 86400);
    push_str(&mut s, "d ");
    push_decimal_padded(&mut s, (secs % 86400) / 3600, 2);
    push_str(&mut s, "h ");
    push_decimal_padded(&mut s, (secs % 3600) / 60, 2);
    push_str(&mut s, "m ");
    push_decimal_padded(&mut s, secs % 60, 2);
    push_str(&mut s, "s");
    s
}

/// Writes `ms` milliseconds as `<days>d <hh>h <mm>m <ss>s`.
pub fn format_duration(ms: u64) -> (s: String)
    ensures
        s@ == duration_text(ms as nat),
{
    format_span(ms / 1000)
}

pub open spec fn disciplined_text(d: Option<bool>) -> Seq<char> {
    match d {
        Some(true) => "Disciplined (slewing)"@,
        Some(false) => "Not disciplined"@,
        None => unavailable(),
    }
}

fn unavailable_string() -> (s: String)
    ensures
        s@ == unavailable(),
{
    string_from_str("unavailable")
}

/// The timer data as the diagnostics show it.
pub fn collect_timer_info(readings: TimerReadings) -> (t: TimerInfo)
    ensures
        t.qpc_frequency@ == match readings.qpc_frequency {
            Some(f) => decimal(f as nat) + " Hz"@,
            None => unavailable(),
        },
        t.qpc_resolution@ == if readings.qpc_frequency is Some {
            readings.qpc_resolution@
        } else {
            unavailable()
        },
        t.qpc_value@ == match readings.qpc_value {
            Some(v) => decimal(v as nat),
            None => unavailable(),
        },
        t.timer_resolution == readings.timer_resolution,
        t.timer_resolution_min == readings.timer_resolution_min,
        t.timer_resolution_max == readings.timer_resolution_max,
        t.clock_adjustment == readings.clock_adjustment,
        t.clock_increment == readings.clock_increment,
        t.clock_disciplined@ == disciplined_text(readings.disciplined),
        t.uptime@ == match readings.uptime_ms {
            Some(ms) => duration_text(ms as nat),
            None => unavailable(),
        },
        t.rtc_vs_os@ == match readings.rtc_vs_os {
            Some(r) => r@,
            None => unavailable(),
        },
{
    let TimerReadings {
        qpc_frequency,
        qpc_resolution,
        qpc_value,
        timer_resolution,
        timer_resolution_min,
        timer_resolution_max,
        clock_adjustment,
        clock_increment,
        disciplined,
        uptime_ms,
        rtc_vs_os,
    } = readings;
    let (frequency_text, resolution_text) = match qpc_frequency {
        Some(f) => {
            let mut s = String::new();
            push_decimal(&mut s, f);
            push_str(&mut s, " Hz");
            (s, qpc_resolution)
        },
        None => (unavailable_string(), unavailable_string()),
    };
    let value_text = match qpc_value {
        Some(v) => {
            let mut s = String::new();
            push_decimal(&mut s, v);
            assert(s@ =~= decimal(v as nat));
            s
        },
        None => unavailable_string(),
    };
    let disciplined_string = match disciplined {
        Some(true) => string_from_str("Disciplined (slewing)"),
        Some(false) => string_from_str("Not disciplined"),
        None => unavailable_string(),
    };
    let uptime = match uptime_ms {
        Some(ms) => format_duration(ms),
        None => unavailable_string(),
    };
    let rtc = match rtc_vs_os {
        Some(r) => r,
        None => unavailable_string(),
    };
    TimerInfo {
        qpc_frequency: frequency_text,
        qpc_resolution: resolution_text,
        qpc_value: value_text,
        timer_resolution,
        timer_resolution_min,
        timer_resolution_max,
        clock_adjustment,
        clock_increment,
        clock_disciplined: disciplined_string,
        uptime,
        rtc_vs_os: rtc,
    }
}

// ---------------------------------------------------------------------------
// Time service status
// ---------------------------------------------------------------------------
/// `s` starts with `p`.
pub open spec fn starts_with(s: Seq<char>, p: Seq<char>) -> bool {
    s.len() >= p.len() && s.take(p.len() as int) == p
}

pub open spec fn trim(s: Seq<char>) -> Seq<char> {
    trim_back(trim_front(s))
}

/// The fields read from the status report so far.
pub struct W32Fields {
    pub source: Seq<char>,
    pub phase_offset: Seq<char>,
    pub frequency: Seq<char>,
    pub poll_interval: Seq<char>,
    pub last_sync: Seq<char>,
}

/// What one line of the report sets: the first label it starts with, after
/// white space is trimmed, gives the field; the rest, trimmed, its value.
pub open spec fn w32_step(f: W32Fields, line: Seq<char>) -> W32Fields {
    let l = trim(line);
    if starts_with(l, "Source:"@) {
        W32Fields { source: trim(l.skip(7)), ..f }
    } else if starts_with(l, "Phase Offset:"@) {
        W32Fields { phase_offset: trim(l.skip(13)), ..f }
    } else if starts_with(l, "Frequency:"@) {
        W32Fields { frequency: trim(l.skip(10)), ..f }
    } else if starts_with(l, "Poll Interval:"@) {
        W32Fields { poll_interval: trim(l.skip(14)), ..f }
    } else if starts_with(l, "Last Successful Sync Time:"@) {
        W32Fields { last_sync: trim(l.skip(26)), ..f }
    } else {
        f
    }
}

/// The fields after reading `lines` in order; a later line wins.
pub open spec fn w32_fields(lines: Seq<Seq<char>>) -> W32Fields
    decreases lines.len(),
{
    if lines.len() == 0 {
        W32Fields {
            source: Seq::empty(),
            phase_offset: Seq::empty(),
            frequency: Seq::empty(),
            poll_interval: Seq::empty(),
            last_sync: Seq::empty(),
        }
    } else {
        w32_step(w32_fields(lines.drop_last()), lines.last())
    }
}

fn has_prefix(s: &Vec<char>, p: &str) -> (r: bool)
    ensures
        r == starts_with(s@, p@),
{
    let pc = chars_of(p);
    if pc.len() > s.len() {
        return false;
    }
    let mut i: usize = 0;
    while i < pc.len()
        invariant
            pc@ == p@,
            pc@.len() <= s@.len(),
            i <= pc@.len(),
            forall|j: int| 0 <= j < i ==> s@[j] == pc@[j],
        decreases pc.len() - i,
    {
        if s[i] != pc[i] {
            assert(s@.take(pc@.len() as int)[i as int] != pc@[i as int]);
            return false;
        }
        i += 1;
    }
    assert(s@.take(pc@.len() as int) =~= pc@);
    true
}

fn trimmed_rest(l: &Vec<char>, k: usize) -> (r: String)
    requires
        k <= l@.len(),
    ensures
        r@ == trim(l@.skip(k as int)),
{
    let rest = crate::storage::slice_of(l, k, l.len());
    assert(rest@ =~= l@.skip(k as int));
    let t = trim_chars(rest.as_slice());
    string_from_chars(t.as_slice())
}

/// Reads the service's status report; the whole report is kept as `raw`.
pub fn w32time_from_output(text: &str) -> (w: W32TimeInfo)
    ensures
        w.raw@ == text@,
        w.source@ == w32_fields(split_lines(text@)).source,
        w.phase_offset@ == w32_fields(split_lines(text@)).phase_offset,
        w.frequency@ == w32_fields(split_lines(text@)).frequency,
        w.poll_interval@ == w32_fields(split_lines(text@)).poll_interval,
        w.last_sync@ == w32_fields(split_lines(text@)).last_sync,
{
    let chars = chars_of(text);
    let lines = split_lines_exec(&chars);
    let ghost all = split_lines(text@);
    let mut w = W32TimeInfo {
        raw: string_from_str(text),
        source: String::new(),
        phase_offset: String::new(),
        frequency: String::new(),
        poll_interval: String::new(),
        last_sync: String::new(),
    };
    let mut i: usize = 0;
    while i < lines.len()
        invariant
            i <= lines@.len(),
            lines@.map_values(|v: Vec<char>| v@) == all,
            w.raw@ == text@,
            w.source@ == w32_fields(all.take(i as int)).source,
            w.phase_offset@ == w32_fields(all.take(i as int)).phase_offset,
            w.frequency@ == w32_fields(all.take(i as int)).frequency,
            w.poll_interval@ == w32_fields(all.take(i as int)).poll_interval,
            w.last_sync@ == w32_fields(all.take(i as int)).last_sync,
        decreases lines.len() - i,
    {
        let l = trim_chars(lines[i].as_slice());
        proof {
            assert(all[i as int] == lines@[i as int]@);
            assert(all.take(i + 1).drop_last() =~= all.take(i as int));
            assert(all.take(i + 1).last() == all[i as int]);
        }
        if has_prefix(&l, "Source:") {
            proof {
                reveal_strlit("Source:");
            }
            w.source = trimmed_rest(&l, 7);
        } else if has_prefix(&l, "Phase Offset:") {
            proof {
                reveal_strlit("Phase Offset:");
            }
            w.phase_offset = trimmed_rest(&l, 13);
        } else if has_prefix(&l, "Frequency:") {
            proof {
                reveal_strlit("Frequency:");
            }
            w.frequency = trimmed_rest(&l, 10);
        } else if has_prefix(&l, "Poll Interval:") {
            proof {
                reveal_strlit("Poll Interval:");
            }
            w.poll_interval = trimmed_rest(&l, 14);
        } else if has_prefix(&l, "Last Successful Sync Time:") {
            proof {
                reveal_strlit("Last Successful Sync Time:");
            }
            w.last_sync = trimmed_rest(&l, 26);
        }
        i += 1;
    }
    proof {
        assert(all.take(lines@.len() as int) =~= all);
    }
    w
}

// ---------------------------------------------------------------------------
// Load
// ---------------------------------------------------------------------------
/// What the host's load counters reported, each number already written:
/// processor usage with one decimal, the two rates without decimals.
#[derive(Debug, Clone)]
pub struct LoadReadings {
    pub cpu_usage: Option<String>,
    pub context_switches: Option<String>,
    pub interrupts: Option<String>,
}

/// The load data as the diagnostics show it: usage in percent, rates per
/// second, `n/a` for a counter that could not be read.
pub fn collect_load(readings: LoadReadings) -> (l: LoadInfo)
    ensures
        l.cpu_usage@ == match readings.cpu_usage {
            Some(p) => p@ + "%"@,
            None => unavailable(),
        },
        l.context_switches@ == match readings.context_switches {
            Some(v) => v@ + "/s"@,
            None => "n/a"@,
        },
        l.interrupts@ == match readings.interrupts {
            Some(v) => v@ + "/s"@,
            None => "n/a"@,
        },
        l.warning@ == Seq::<char>::empty(),
{
    let cpu_usage = match readings.cpu_usage {
        Some(p) => {
            let mut s = p;
            push_str(&mut s, "%");
            s
        },
        None => unavailable_string(),
    };
    let context_switches = match readings.context_switches {
        Some(v) => {
            let mut s = v;
            push_str(&mut s, "/s");
            s
        },
        None => string_from_str("n/a"),
    };
    let interrupts = match readings.interrupts {
        Some(v) => {
            let mut s = v;
            push_str(&mut s, "/s");
            s
        },
        None => string_from_str("n/a"),
    };
    let warning = String::new();
    LoadInfo { cpu_usage, context_switches, interrupts, warning }
}

/// The PowerShell script that reads one performance counter; a quote in
/// the counter's path is doubled.
pub open spec fn counter_script_text(counter: Seq<char>) -> Seq<char> {
    "(Get-Counter '"@ + quote_doubled(counter) + "').CounterSamples[0].CookedValue"@
}

/// `s` with every single quote doubled.
pub open spec fn quote_doubled(s: Seq<char>) -> Seq<char>
    decreases s.len(),
{
    if s.len() == 0 {
        Seq::empty()
    } else {
        quote_doubled(s.drop_last()) + if s.last() == '\'' {
            seq!['\'', '\'']
        } else {
            seq![s.last()]
        }
    }
}

fn push_quote_doubled(out: &mut String, s: &str)
    ensures
        final(out)@ == old(out)@ + quote_doubled(s@),
{
    let chars = chars_of(s);
    let mut i: usize = 0;
    while i < chars.len()
        invariant
            i <= chars@.len(),
            chars@ == s@,
            out@ == old(out)@ + quote_doubled(chars@.take(i as int)),
        decreases chars.len() - i,
    {
        let c = chars[i];
        if c == '\'' {
            push_chars(out, &['\'', '\'']);
        } else {
            push_chars(out, &[c]);
        }
        proof {
            let t = chars@.take(i + 1);
            assert(t.drop_last() =~= chars@.take(i as int));
            assert(t.last() == c);
            assert(out@ =~= old(out)@ + quote_doubled(t));
        }
        i += 1;
    }
    assert(chars@.take(chars@.len() as int) =~= chars@);
}

/// The script by which a performance counter is read.
pub fn counter_script(counter: &str) -> (s: String)
    ensures
        s@ == counter_script_text(counter@),
{
    let mut s = String::new();
    push_str(&mut s, "(Get-Counter '");
    push_quote_doubled(&mut s, counter);
    push_str(&mut s, "').CounterSamples[0].CookedValue");
    s
}

/// The parameters of the elevated command that sets the system clock to the
/// local time `local`; a quote in it is doubled.
pub open spec fn set_date_parameters_text(local: Seq<char>) -> Seq<char> {
    "/c powershell.exe -NoProfile -Command \"Set-Date -Date '"@ + quote_doubled(local) + "'\""@
}

/// The parameters of the elevated command that sets the system clock.
pub fn set_date_parameters(local: &str) -> (s: String)
    ensures
        s@ == set_date_parameters_text(local@),
{
    let mut s = String::new();
    push_str(&mut s, "/c powershell.exe -NoProfile -Command \"Set-Date -Date '");
    push_quote_doubled(&mut s, local);
    push_str(&mut s, "'\"");
    s
}

// ---------------------------------------------------------------------------
// Power plan
// ---------------------------------------------------------------------------
/// The verdict for a power plan whose name, in lower case, is `lower`.
pub open spec fn verdict_text(lower: Seq<char>) -> Seq<char> {
    if contains_seq(lower, "high performance"@) || contains_seq(lower, "ultimate"@) {
        "Good: QPC/TSC stability"@
    } else if contains_seq(lower, "power saver"@) || contains_seq(lower, "balanced"@) {
        "Caution: cores may be parked / TSC throttled"@
    } else {
        "Unknown"@
    }
}

fn contains_str(hay: &Vec<char>, needle: &str) -> (r: bool)
    ensures
        r == contains_seq(hay@, needle@),
{
    let n = chars_of(needle);
    contains_chars(hay.as_slice(), n.as_slice())
}

/// The verdict for a power plan, given its name in lower case.
pub fn power_verdict(lower: &str) -> (v: String)
    ensures
        v@ == verdict_text(lower@),
{
    let hay = chars_of(lower);
    if contains_str(&hay, "high performance") || contains_str(&hay, "ultimate") {
        string_from_str("Good: QPC/TSC stability")
    } else if contains_str(&hay, "power saver") || contains_str(&hay, "balanced") {
        string_from_str("Caution: cores may be parked / TSC throttled")
    } else {
        string_from_str("Unknown")
    }
}

/// The power plan data; `active_plan` is the plan's name, when it could be
/// read. Its verdict is judged on the name in lower case.
pub fn collect_power(active_plan: Option<String>) -> (p: PowerInfo)
    ensures
        p.active_plan@ == match active_plan {
            Some(n) => n@,
            None => unavailable(),
        },
        p.verdict@ == verdict_text(unicode_lowercase(p.active_plan@)),
{
    let plan = match active_plan {
        Some(n) => n,
        None => unavailable_string(),
    };
    let lower = to_lowercase(plan.as_str());
    let verdict = power_verdict(lower.as_str());
    PowerInfo { active_plan: plan, verdict }
}

// ---------------------------------------------------------------------------
// Leap seconds
// ---------------------------------------------------------------------------
/// The dates (UTC) from which each leap second is in effect: the day after
/// the one that ended with the inserted second. The last one is 2017-01-01.
pub open spec fn leap_dates() -> Seq<(i32, u32, u32)> {
    seq![
        (1972i32, 7u32, 1u32), (1973, 1, 1), (1974, 1, 1), (1975, 1, 1),
        (1976, 1, 1), (1977, 1, 1), (1978, 1, 1), (1979, 1, 1),
        (1980, 1, 1), (1981, 7, 1), (1982, 7, 1), (1983, 7, 1),
        (1985, 7, 1), (1988, 1, 1), (1990, 1, 1), (1991, 1, 1),
        (1992, 7, 1), (1993, 7, 1), (1994, 7, 1), (1996, 1, 1),
        (1997, 7, 1), (1999, 1, 1), (2006, 1, 1), (2009, 1, 1),
        (2012, 7, 1), (2015, 7, 1), (2017, 1, 1),
    ]
}

/// Leap-second dates (UTC) as (year, month, day), oldest first. The last one
/// is 2017-01-01.
pub fn leap_seconds() -> (v: Vec<(i32, u32, u32)>)
    ensures
        v@ == leap_dates(),
{
    let v = vec![
        (1972i32, 7u32, 1u32), (1973, 1, 1), (1974, 1, 1), (1975, 1, 1),
        (1976, 1, 1), (1977, 1, 1), (1978, 1, 1), (1979, 1, 1),
        (1980, 1, 1), (1981, 7, 1), (1982, 7, 1), (1983, 7, 1),
        (1985, 7, 1), (1988, 1, 1), (1990, 1, 1), (1991, 1, 1),
        (1992, 7, 1), (1993, 7, 1), (1994, 7, 1), (1996, 1, 1),
        (1997, 7, 1), (1999, 1, 1), (2006, 1, 1), (2009, 1, 1),
        (2012, 7, 1), (2015, 7, 1), (2017, 1, 1),
    ];
    assert(v@ =~= leap_dates());
    v
}

/// A date written `yyyy-mm-dd`.
pub open spec fn date_text(y: nat, m: nat, d: nat) -> Seq<char> {
    decimal_padded(y, 4) + "-"@ + decimal_padded(m, 2) + "-"@ + decimal_padded(d, 2)
}

/// The date of the last leap second, written `yyyy-mm-dd`.
pub fn last_leap_second() -> (s: String)
    ensures
        s@ == date_text(
            leap_dates().last().0 as nat,
            leap_dates().last().1 as nat,
            leap_dates().last().2 as nat,
        ),
{
    let list = leap_seconds();
    let (y, m, d) = list[list.len() - 1];
    let mut s = String::new();
    push_decimal_padded(&mut s, y as u64, 4);
    push_str(&mut s, "-");
    push_decimal_padded(&mut s, m as u64, 2);
    push_str(&mut s, "-");
    push_decimal_padded(&mut s, d as u64, 2);
    s
}

/// The number of leap seconds inserted since 1972.
pub fn total_leap_seconds() -> (n: usize)
    ensures
        n == leap_dates().len(),
{
    leap_seconds().len()
}

// ---------------------------------------------------------------------------
// Network path
// ---------------------------------------------------------------------------
pub open spec fn is_hop_line(l: Seq<char>) -> bool {
    l.len() > 0 && '0' <= l[0] && l[0] <= '9'
}

/// The hop lines of a route trace: every line that, trimmed, starts with a
/// digit, trimmed, in order.
pub open spec fn hop_lines_spec(lines: Seq<Seq<char>>) -> Seq<Seq<char>>
    decreases lines.len(),
{
    if lines.len() == 0 {
        Seq::empty()
    } else {
        hop_lines_spec(lines.drop_last()) + if is_hop_line(trim(lines.last())) {
            seq![trim(lines.last())]
        } else {
            Seq::empty()
        }
    }
}

/// The hop lines of the output of a route trace.
pub fn hop_lines(output: &str) -> (hops: Vec<String>)
    ensures
        hops@.map_values(|h: String| h@) == hop_lines_spec(split_lines(output@)),
{
    let chars = chars_of(output);
    let lines = split_lines_exec(&chars);
    let ghost all = split_lines(output@);
    let mut hops: Vec<String> = Vec::new();
    let mut i: usize = 0;
    while i < lines.len()
        invariant
            i <= lines@.len(),
            lines@.map_values(|v: Vec<char>| v@) == all,
            hops@.map_values(|h: String| h@) == hop_lines_spec(all.take(i as int)),
        decreases lines.len() - i,
    {
        let l = trim_chars(lines[i].as_slice());
        proof {
            assert(all[i as int] == lines@[i as int]@);
            assert(all.take(i + 1).drop_last() =~= all.take(i as int));
            assert(all.take(i + 1).last() == all[i as int]);
        }
        if l.len() > 0 && '0' <= l[0] && l[0] <= '9' {
            let h = string_from_chars(l.as_slice());
            let ghost before = hops@;
            hops.push(h);
            proof {
                assert(hops@.map_values(|h: String| h@) =~= before.map_values(|h: String| h@)
                    + seq![l@]);
            }
        } else {
            proof {
                assert(hops@.map_values(|h: String| h@) =~= hop_lines_spec(all.take(i + 1)));
            }
        }
        i += 1;
    }
    proof {
        assert(all.take(lines@.len() as int) =~= all);
    }
    hops
}

} // verus!
