//! In-memory diagnostics intended for crash reports and support bundles.
//!
//! The collector keeps at most `capacity` entries, oldest first, with every
//! message passed through [`redact`] before it is stored.
use vstd::prelude::*;

use crate::redaction::{redact, redact_spec};
use crate::text::{push_str, push_chars, push_decimal_padded, decimal_padded, string_from_str};
use crate::time::SystemTime;

verus! {

/// Calls `std::io::Write::write_all`, which hands every byte of `bytes` to
/// `writer` or reports the first error; nothing is stated of the writer.
#[verifier::external_body]
fn write_all<W: std::io::Write>(writer: &mut W, bytes: &[u8]) -> std::io::Result<()> {
    writer.write_all(bytes)
}


broadcast use crate::time::lemma_time_bounded;

/// The importance of a diagnostic entry.
#[derive(Clone, Copy, Debug, Eq, Ord, PartialEq, PartialOrd, Structural)]
pub enum Severity {
    Trace,
    Debug,
    Info,
    Warn,
    Error,
    Critical,
}

impl Severity {
    pub open spec fn label(self) -> &'static str {
        match self {
            Severity::Trace => "TRACE",
            Severity::Debug => "DEBUG",
            Severity::Info => "INFO",
            Severity::Warn => "WARN",
            Severity::Error => "ERROR",
            Severity::Critical => "CRITICAL",
        }
    }

    fn label_str(&self) -> (s: &'static str)
        ensures
            s@ == self.label()@,
    {
        match self {
            Severity::Trace => "TRACE",
            Severity::Debug => "DEBUG",
            Severity::Info => "INFO",
            Severity::Warn => "WARN",
            Severity::Error => "ERROR",
            Severity::Critical => "CRITICAL",
        }
    }

    pub fn to_string(&self) -> (s: String)
        ensures
            s@ == self.label()@,
    {
        string_from_str(self.label_str())
    }
}

/// Supplies timestamps to a [`CrashDiagnostics`] collector.
pub trait Clock {
    fn now(&self) -> SystemTime;
}

/// The operating system's wall clock.
#[derive(Clone, Copy, Debug, Default)]
pub struct SystemClock;

impl Clock for SystemClock {
    fn now(&self) -> SystemTime {
        SystemTime::now()
    }
}

/// Text describing an error, recorded by [`CrashDiagnostics::record_failure`].
pub trait ErrorText {
    /// The text that describes the error.
    spec fn text_spec(&self) -> Seq<char>;

    fn error_text(&self) -> (s: String)
        ensures
            s@ == self.text_spec(),
    ;
}

impl ErrorText for &str {
    open spec fn text_spec(&self) -> Seq<char> {
        (*self)@
    }

    fn error_text(&self) -> (s: String) {
        string_from_str(*self)
    }
}

impl ErrorText for String {
    open spec fn text_spec(&self) -> Seq<char> {
        self@
    }

    fn error_text(&self) -> (s: String) {
        self.clone()
    }
}

/// One sanitized diagnostic entry.
#[derive(Clone, Debug, Eq, PartialEq)]
pub struct DiagnosticEntry {
    pub timestamp: SystemTime,
    pub severity: Severity,
    pub message: String,
}

/// The abstract value of an entry: its time in nanoseconds since the Unix
/// epoch, its severity and its text.
pub type EntryModel = (int, Severity, Seq<char>);

pub open spec fn entry_model(e: DiagnosticEntry) -> EntryModel {
    (e.timestamp@, e.severity, e.message@)
}

/// The abstract value of a [`CrashDiagnostics`].
pub struct DiagnosticsModel {
    pub capacity: nat,
    pub entries: Seq<EntryModel>,
}

/// `entries` after recording `e` in a log of the given capacity: nothing
/// changes at capacity zero; at capacity the oldest entry is dropped.
pub open spec fn recorded(capacity: nat, entries: Seq<EntryModel>, e: EntryModel) -> Seq<
    EntryModel,
> {
    if capacity == 0 {
        entries
    } else if entries.len() >= capacity {
        entries.drop_first().push(e)
    } else {
        entries.push(e)
    }
}

/// A bounded, in-memory diagnostic log.
#[derive(Debug)]
pub struct CrashDiagnostics<C> {
    capacity: usize,
    clock: C,
    entries: Vec<DiagnosticEntry>,
}

impl<C> CrashDiagnostics<C> {
    #[verifier::type_invariant]
    closed spec fn inv(self) -> bool {
        self.entries.len() <= self.capacity
    }

    pub closed spec fn model(&self) -> DiagnosticsModel {
        DiagnosticsModel {
            capacity: self.capacity as nat,
            entries: self.entries@.map_values(|e: DiagnosticEntry| entry_model(e)),
        }
    }

    pub closed spec fn spec_clock(&self) -> C {
        self.clock
    }
}

impl CrashDiagnostics<SystemClock> {
    /// A collector with room for at most `capacity` entries; capacity zero
    /// makes recording a no-op.
    pub fn new(capacity: usize) -> (d: CrashDiagnostics<SystemClock>)
        ensures
            d.model().capacity == capacity,
            d.model().entries.len() == 0,
    {
        CrashDiagnostics::with_clock(capacity, SystemClock)
    }
}

impl<C: Clock> CrashDiagnostics<C> {
    /// A collector reading timestamps from `clock`.
    pub fn with_clock(capacity: usize, clock: C) -> (d: CrashDiagnostics<C>)
        ensures
            d.model().capacity == capacity,
            d.model().entries.len() == 0,
            d.spec_clock() == clock,
    {
        let d = CrashDiagnostics { capacity, clock, entries: Vec::new() };
        assert(d.model().entries =~= Seq::<EntryModel>::empty());
        d
    }

    /// Records the redacted `message` with the time `timestamp`, dropping the
    /// oldest entry when full.
    pub fn record_at(&mut self, timestamp: SystemTime, severity: Severity, message: &str)
        ensures
            final(self).model().capacity == old(self).model().capacity,
            final(self).model().entries == recorded(
                old(self).model().capacity,
                old(self).model().entries,
                (timestamp@, severity, redact_spec(message@)),
            ),
            final(self).spec_clock() == old(self).spec_clock(),
    {
        proof {
            use_type_invariant(&*self);
        }
        if self.capacity == 0 {
            return ;
        }
        let ghost before = self.entries@;
        let entry = DiagnosticEntry { timestamp, severity, message: redact(message) };
        let mut entries: Vec<DiagnosticEntry> = Vec::new();
        std::mem::swap(&mut entries, &mut self.entries);
        if entries.len() == self.capacity {
            entries.remove(0);
            assert(entries@ =~= before.drop_first());
        }
        entries.push(entry);
        proof {
            let f = |e: DiagnosticEntry| entry_model(e);
            if before.len() >= self.capacity {
                assert(entries@.map_values(f) =~= before.map_values(f).drop_first().push(
                    entry_model(entry),
                ));
            } else {
                assert(entries@.map_values(f) =~= before.map_values(f).push(entry_model(entry)));
            }
        }
        self.entries = entries;
    }

    /// Records the redacted `message` at the clock's current time.
    pub fn record(&mut self, severity: Severity, message: &str)
        ensures
            final(self).model().capacity == old(self).model().capacity,
            exists|t: int|
                final(self).model().entries == recorded(
                    old(self).model().capacity,
                    old(self).model().entries,
                    (t, severity, redact_spec(message@)),
                ),
            final(self).spec_clock() == old(self).spec_clock(),
    {
        let now = self.clock.now();
        self.record_at(now, severity, message);
    }

    /// Records `context: error` as an error entry.
    pub fn record_failure<E: ErrorText>(&mut self, context: &str, error: E)
        ensures
            final(self).model().capacity == old(self).model().capacity,
            exists|t: int|
                final(self).model().entries == recorded(
                    old(self).model().capacity,
                    old(self).model().entries,
                    (t, Severity::Error, redact_spec(context@ + ": "@ + error.text_spec())),
                ),
            final(self).spec_clock() == old(self).spec_clock(),
    {
        let text = error.error_text();
        self.record_context(context, text.as_str());
    }

    fn record_context(&mut self, context: &str, text: &str)
        ensures
            final(self).model().capacity == old(self).model().capacity,
            exists|t: int|
                final(self).model().entries == recorded(
                    old(self).model().capacity,
                    old(self).model().entries,
                    (t, Severity::Error, redact_spec(context@ + ": "@ + text@)),
                ),
            final(self).spec_clock() == old(self).spec_clock(),
    {
        let mut message = String::new();
        push_str(&mut message, context);
        push_str(&mut message, ": ");
        push_str(&mut message, text);
        assert(message@ =~= context@ + ": "@ + text@);
        self.record(Severity::Error, message.as_str());
    }

    /// Records a failed `result` as [`Self::record_failure`] does, and returns
    /// `result` unchanged.
    pub fn record_result<T, E: ErrorText>(&mut self, context: &str, result: Result<T, E>) -> (r:
        Result<T, E>)
        ensures
            r == result,
            final(self).model().capacity == old(self).model().capacity,
            result is Ok ==> final(self).model() == old(self).model(),
            result matches Err(error) ==> exists|t: int|
                final(self).model().entries == recorded(
                    old(self).model().capacity,
                    old(self).model().entries,
                    (t, Severity::Error, redact_spec(context@ + ": "@ + error.text_spec())),
                ),
            final(self).spec_clock() == old(self).spec_clock(),
    {
        match result {
            Ok(value) => Ok(value),
            Err(error) => {
                let text = error.error_text();
                self.record_context(context, text.as_str());
                Err(error)
            },
        }
    }

    /// The number of entries, never more than the capacity.
    pub fn len(&self) -> (n: usize)
        ensures
            n == self.model().entries.len(),
            n <= self.model().capacity,
    {
        proof {
            use_type_invariant(self);
        }
        self.entries.len()
    }

    pub fn is_empty(&self) -> (b: bool)
        ensures
            b <==> self.model().entries.len() == 0,
    {
        self.entries.len() == 0
    }

    /// The entries, oldest first.
    pub fn entries(&self) -> (e: &[DiagnosticEntry])
        ensures
            e@.map_values(|x: DiagnosticEntry| entry_model(x)) == self.model().entries,
    {
        self.entries.as_slice()
    }

    pub fn clear(&mut self)
        ensures
            final(self).model().capacity == old(self).model().capacity,
            final(self).model().entries.len() == 0,
            final(self).spec_clock() == old(self).spec_clock(),
    {
        self.entries = Vec::new();
        assert(self.model().entries =~= Seq::<EntryModel>::empty());
    }

    /// Writes the representation of [`Self::export_text`], as UTF-8, to
    /// `writer`; what the writer does with the bytes is its own affair.
    pub fn write_export<W: std::io::Write>(&self, mut writer: W) -> std::io::Result<()> {
        let text = self.export_text();
        let bytes = crate::text::utf8_bytes(text.as_str());
        write_all(&mut writer, bytes.as_slice())
    }

    /// One line per entry, oldest first: `<timestamp> [<SEVERITY>] <message>`.
    pub fn export_text(&self) -> (s: String)
        ensures
            s@ == export_spec(self.model().entries),
    {
        let ghost m = self.model().entries;
        let mut output = String::new();
        let mut i: usize = 0;
        while i < self.entries.len()
            invariant
                i <= self.entries@.len(),
                m == self.model().entries,
                m == self.entries@.map_values(|e: DiagnosticEntry| entry_model(e)),
                output@ == export_spec(m.take(i as int)),
            decreases self.entries@.len() - i,
        {
            let line = export_line_string(&self.entries[i]);
            push_str(&mut output, line.as_str());
            proof {
                assert(m.take(i + 1).drop_last() =~= m.take(i as int));
                assert(m.take(i + 1).last() == m[i as int]);
            }
            i += 1;
        }
        assert(m.take(self.entries@.len() as int) =~= m);
        output
    }
}

fn export_line_string(entry: &DiagnosticEntry) -> (s: String)
    ensures
        s@ == export_line(entry_model(*entry)),
{
    let stamp = format_timestamp(entry.timestamp);
    let mut line = String::new();
    push_str(&mut line, stamp.as_str());
    push_str(&mut line, " [");
    push_str(&mut line, entry.severity.label_str());
    push_str(&mut line, "] ");
    push_str(&mut line, entry.message.as_str());
    push_str(&mut line, "\n");
    assert(line@ =~= export_line(entry_model(*entry)));
    line
}

/// The export line of one entry.
pub open spec fn export_line(e: EntryModel) -> Seq<char> {
    timestamp_text(e.0) + " ["@ + e.1.label()@ + "] "@ + e.2 + "\n"@
}

/// The export of `entries`, oldest first.
pub open spec fn export_spec(entries: Seq<EntryModel>) -> Seq<char>
    decreases entries.len(),
{
    if entries.len() == 0 {
        Seq::empty()
    } else {
        export_spec(entries.drop_last()) + export_line(entries.last())
    }
}

/// `n` in decimal, at least `width` characters wide with zeros after any sign.
pub open spec fn signed_padded(n: int, width: nat) -> Seq<char> {
    if n < 0 {
        "-"@ + decimal_padded((-n) as nat, if width > 0 {
            (width - 1) as nat
        } else {
            0
        })
    } else {
        decimal_padded(n as nat, width)
    }
}

pub(crate) fn push_signed_padded(s: &mut String, n: i64, width: usize)
    requires
        1 <= width <= 64,
    ensures
        final(s)@ == old(s)@ + signed_padded(n as int, width as nat),
{
    if n < 0 {
        push_str(s, "-");
        let magnitude: u64 = if n == i64::MIN {
            9_223_372_036_854_775_808u64
        } else {
            (-n) as u64
        };
        push_decimal_padded(s, magnitude, width - 1);
        proof {
            reveal_strlit("-");
        }
        assert(final(s)@ =~= old(s)@ + signed_padded(n as int, width as nat));
    } else {
        push_decimal_padded(s, n as u64, width);
    }
}

/// The year within its 400-year era, the month and the day of the day
/// `doe` of an era that starts on 0000-03-01.
pub open spec fn era_date(doe: int) -> (int, int, int) {
    let yoe = (doe - doe / 1_460 + doe / 36_524 - doe / 146_096) / 365;
    let doy = doe - (365 * yoe + yoe / 4 - yoe / 100);
    let mp = (5 * doy + 2) / 153;
    let d = doy - (153 * mp + 2) / 5 + 1;
    let m = if mp < 10 {
        mp + 3
    } else {
        mp - 9
    };
    (yoe, m, d)
}

#[verifier::rlimit(100)]
proof fn lemma_era_bounds_bv(x: u32)
    by (bit_vector)
    requires
        x <= 146_096,
    ensures
        ({
            let y0 = (x - x / 1_460 + x / 36_524 - x / 146_096) / 365;
            let d0 = x - (365 * y0 + y0 / 4 - y0 / 100);
            let k = y0 + 1;
            let leap: int = if k % 4 == 0 && (k % 100 != 0 || k == 400) { 1 } else { 0 };
            y0 <= 399 && 0 <= d0 <= 364 + leap
        }),
{
}

#[verifier::rlimit(100)]
proof fn lemma_era_step_bv(x: u32)
    by (bit_vector)
    requires
        x < 146_096,
    ensures
        ({
            let y0 = (x - x / 1_460 + x / 36_524 - x / 146_096) / 365;
            let d0 = x - (365 * y0 + y0 / 4 - y0 / 100);
            let x1 = x + 1;
            let y1 = (x1 - x1 / 1_460 + x1 / 36_524 - x1 / 146_096) / 365;
            let d1 = x1 - (365 * y1 + y1 / 4 - y1 / 100);
            let k = y0 + 1;
            let leap: int = if k % 4 == 0 && (k % 100 != 0 || k == 400) { 1 } else { 0 };
            (y1 == y0 && d1 == d0 + 1) || (y1 == y0 + 1 && d1 == 0 && d0 == 364 + leap)
        }),
{
}

#[verifier::rlimit(100)]
proof fn lemma_month_bv(doy: u32)
    by (bit_vector)
    requires
        doy <= 365,
    ensures
        ({
            let mi = (5 * doy + 2) / 153;
            let dd = doy - (153 * mi + 2) / 5 + 1;
            let len: int = if mi == 11 {
                29
            } else if mi == 1 || mi == 3 || mi == 6 || mi == 8 {
                30
            } else {
                31
            };
            let n = doy + 1;
            let mp1 = (5 * n + 2) / 153;
            let d1 = n - (153 * mp1 + 2) / 5 + 1;
            &&& mi <= 11
            &&& 1 <= dd <= len
            &&& (mi == 11 ==> dd == doy - 336)
            &&& (doy < 365 ==> (mp1 == mi && d1 == dd + 1) || (mp1 == mi + 1 && d1 == 1 && dd == len
                && mi < 11))
        }),
{
}

/// The proleptic Gregorian date `(year, month, day)` of the day `days`
/// after 1970-01-01 (negative before it), by the era-based conversion of
/// days to civil dates.
pub open spec fn civil(days: int) -> (int, int, int) {
    let z = days + 719_468;
    let era = z / 146_097;
    let (yoe, m, d) = era_date(z - era * 146_097);
    let y = yoe + era * 400;
    (if m <= 2 {
        y + 1
    } else {
        y
    }, m, d)
}

/// Whether `y` is a leap year of the Gregorian calendar.
pub open spec fn is_leap_year(y: int) -> bool {
    y % 4 == 0 && (y % 100 != 0 || y % 400 == 0)
}

/// The number of days of month `m` of year `y`.
pub open spec fn month_length(y: int, m: int) -> int {
    if m == 2 {
        if is_leap_year(y) {
            29
        } else {
            28
        }
    } else if m == 4 || m == 6 || m == 9 || m == 11 {
        30
    } else {
        31
    }
}

/// The calendar day after `(y, m, d)`.
pub open spec fn next_date(date: (int, int, int)) -> (int, int, int) {
    let (y, m, d) = date;
    if d < month_length(y, m) {
        (y, m, d + 1)
    } else if m < 12 {
        (y, m + 1, 1)
    } else {
        (y + 1, 1, 1)
    }
}

/// The year of era `era` that holds March of its year `k` (`1 <= k <= 400`,
/// counted from the era's first March) is a leap year exactly when `k` is.
proof fn lemma_era_leap(era: int, k: int)
    requires
        1 <= k <= 400,
    ensures
        is_leap_year(era * 400 + k) == (k % 4 == 0 && (k % 100 != 0 || k == 400)),
{
    vstd::arithmetic::div_mod::lemma_mod_multiples_vanish(era * 100, k, 4);
    vstd::arithmetic::div_mod::lemma_mod_multiples_vanish(era * 4, k, 100);
    vstd::arithmetic::div_mod::lemma_mod_multiples_vanish(era, k, 400);
    assert(4 * (era * 100) == era * 400) by (nonlinear_arith);
    assert(100 * (era * 4) == era * 400) by (nonlinear_arith);
    assert(400 * era == era * 400) by (nonlinear_arith);
    if k < 400 {
        vstd::arithmetic::div_mod::lemma_small_mod(k as nat, 400);
    }
}

/// The day `doe` of an era, in the calendar: a month from 1 to 12, a day
/// within that month, and the era's year holding it.
proof fn lemma_era_date_in_calendar(era: int, doe: int)
    requires
        0 <= doe <= 146_096,
    ensures
        ({
            let (yoe, m, d) = era_date(doe);
            let y = if m <= 2 {
                yoe + era * 400 + 1
            } else {
                yoe + era * 400
            };
            &&& 0 <= yoe <= 399
            &&& 1 <= m <= 12
            &&& 1 <= d <= month_length(y, m)
        }),
{
    let x = doe as u32;
    lemma_era_bounds_bv(x);
    let (yoe, m, d) = era_date(doe);
    let doy = doe - (365 * yoe + yoe / 4 - yoe / 100);
    lemma_month_bv(doy as u32);
    lemma_era_leap(era, yoe + 1);
}

/// The civil date of the day `doe` of era `era`.
pub open spec fn era_civil(era: int, doe: int) -> (int, int, int) {
    let (yoe, m, d) = era_date(doe);
    let y = yoe + era * 400;
    (if m <= 2 {
        y + 1
    } else {
        y
    }, m, d)
}

/// Within an era, the day after `doe` is the next calendar date.
#[verifier::rlimit(50)]
proof fn lemma_era_civil_next(era: int, doe: int)
    requires
        0 <= doe < 146_096,
    ensures
        era_civil(era, doe + 1) == next_date(era_civil(era, doe)),
{
    let x = doe as u32;
    lemma_era_bounds_bv(x);
    lemma_era_step_bv(x);
    let (yoe, m, d) = era_date(doe);
    let doy = doe - (365 * yoe + yoe / 4 - yoe / 100);
    lemma_month_bv(doy as u32);
    lemma_era_leap(era, yoe + 1);
    let (yoe1, m1, d1) = era_date(doe + 1);
    let doy1 = (doe + 1) - (365 * yoe1 + yoe1 / 4 - yoe1 / 100);
    assert(((doe + 1) as u32) as int == doe + 1);
    lemma_month_bv(doy1 as u32);
}

/// The last day of an era is followed by the first day of the next.
proof fn lemma_era_civil_wrap(era: int)
    ensures
        era_civil(era + 1, 0) == next_date(era_civil(era, 146_096)),
{
    lemma_era_leap(era, 400);
    assert(era_date(146_096) == (399int, 2int, 29int));
    assert(era_date(0) == (0int, 3int, 1int));
    assert((era + 1) * 400 == era * 400 + 400);
}

/// The date of `days` is the date of its day in its era.
proof fn lemma_civil_by_era(days: int)
    ensures
        ({
            let z = days + 719_468;
            let era = z / 146_097;
            let doe = z - era * 146_097;
            &&& 0 <= doe < 146_097
            &&& civil(days) == era_civil(era, doe)
            &&& doe < 146_096 ==> civil(days + 1) == era_civil(era, doe + 1)
            &&& doe == 146_096 ==> civil(days + 1) == era_civil(era + 1, 0)
        }),
{
    let z = days + 719_468;
    let era = z / 146_097;
    let doe = z - era * 146_097;
    vstd::arithmetic::div_mod::lemma_fundamental_div_mod(z, 146_097);
    if doe < 146_096 {
        vstd::arithmetic::div_mod::lemma_fundamental_div_mod_converse(z + 1, 146_097, era, doe + 1);
    } else {
        vstd::arithmetic::div_mod::lemma_fundamental_div_mod_converse(z + 1, 146_097, era + 1, 0);
    }
}

/// `civil` walks the proleptic Gregorian calendar: every date it gives is a
/// real date, and the day after gives the next date.
pub proof fn lemma_civil_is_calendar(days: int)
    ensures
        1 <= civil(days).1 <= 12,
        1 <= civil(days).2 <= month_length(civil(days).0, civil(days).1),
        civil(days + 1) == next_date(civil(days)),
{
    lemma_civil_by_era(days);
    let z = days + 719_468;
    let era = z / 146_097;
    let doe = z - era * 146_097;
    lemma_era_date_in_calendar(era, doe);
    if doe < 146_096 {
        lemma_era_civil_next(era, doe);
    } else {
        lemma_era_civil_wrap(era);
    }
}

/// Day 0 is 1970-01-01.
pub proof fn lemma_civil_epoch()
    ensures
        civil(0) == (1970int, 1int, 1int),
{
    vstd::arithmetic::div_mod::lemma_fundamental_div_mod_converse(719_468, 146_097, 4, 135_080);
    vstd::arithmetic::div_mod::lemma_fundamental_div_mod_converse(135_080, 1_460, 92, 760);
    vstd::arithmetic::div_mod::lemma_fundamental_div_mod_converse(135_080, 36_524, 3, 25_508);
    vstd::arithmetic::div_mod::lemma_fundamental_div_mod_converse(135_080, 146_096, 0, 135_080);
    vstd::arithmetic::div_mod::lemma_fundamental_div_mod_converse(134_991, 365, 369, 306);
    vstd::arithmetic::div_mod::lemma_fundamental_div_mod_converse(369, 4, 92, 1);
    vstd::arithmetic::div_mod::lemma_fundamental_div_mod_converse(369, 100, 3, 69);
    vstd::arithmetic::div_mod::lemma_fundamental_div_mod_converse(1_532, 153, 10, 2);
    vstd::arithmetic::div_mod::lemma_fundamental_div_mod_converse(1_532, 5, 306, 2);
    assert(era_date(135_080) == (369int, 1int, 1int));
}

/// The ISO 8601 UTC text of the time `t` nanoseconds after the Unix epoch,
/// with nine fractional digits: `YYYY-MM-DDTHH:MM:SS.NNNNNNNNNZ`.
pub open spec fn timestamp_text(t: int) -> Seq<char> {
    let seconds = t / 1_000_000_000;
    let nanos = t % 1_000_000_000;
    let days = seconds / 86_400;
    let ds = seconds % 86_400;
    let (y, m, d) = civil(days);
    signed_padded(y, 4) + "-"@ + signed_padded(m, 2) + "-"@ + signed_padded(d, 2) + "T"@
        + decimal_padded((ds / 3_600) as nat, 2) + ":"@ + decimal_padded((ds / 60 % 60) as nat, 2)
        + ":"@ + decimal_padded((ds % 60) as nat, 2) + "."@ + decimal_padded(nanos as nat, 9)
        + "Z"@
}

/// `a` divided by `n`, rounded towards minus infinity.
fn floor_div(a: i64, n: i64) -> (q: i64)
    requires
        0 < n <= 1_000_000,
        a >= -1_000_000_000_000_000_000,
    ensures
        q == a as int / n as int,
{
    if a >= 0 {
        a / n
    } else {
        let b = -a;
        let up = (b + n - 1) / n;
        proof {
            let r = (b + n - 1) % (n as int);
            vstd::arithmetic::div_mod::lemma_fundamental_div_mod(b + n - 1, n as int);
            assert(a == (-up) * n + (n - 1 - r)) by (nonlinear_arith)
                requires
                    b + n - 1 == n * up + r,
                    a == -b,
            ;
            vstd::arithmetic::div_mod::lemma_fundamental_div_mod_converse(
                a as int,
                n as int,
                -up,
                n - 1 - r,
            );
        }
        -up
    }
}

fn era_date_exec(doe: i64) -> (r: (i64, i64, i64))
    requires
        0 <= doe < 146_097,
    ensures
        (r.0 as int, r.1 as int, r.2 as int) == era_date(doe as int),
        0 <= r.0 <= 400,
{
    let year_of_era = (doe - doe / 1_460 + doe / 36_524 - doe / 146_096) / 365;
    let day_of_year = doe - (365 * year_of_era + year_of_era / 4 - year_of_era / 100);
    assert(day_of_year >= 0) by (nonlinear_arith)
        requires
            0 <= doe < 146_097,
            year_of_era == (doe - doe / 1_460 + doe / 36_524 - doe / 146_096) / 365,
            day_of_year == doe - (365 * year_of_era + year_of_era / 4 - year_of_era / 100),
    ;
    assert(day_of_year <= 146_097);
    let month_prime = (5 * day_of_year + 2) / 153;
    let day = day_of_year - (153 * month_prime + 2) / 5 + 1;
    let month = if month_prime < 10 {
        month_prime + 3
    } else {
        month_prime - 9
    };
    (year_of_era, month, day)
}

/// The civil date of `days`.
pub fn civil_from_days(days: i64) -> (r: (i64, i64, i64))
    requires
        -200_000_000_000_000 <= days <= 200_000_000_000_000,
    ensures
        (r.0 as int, r.1 as int, r.2 as int) == civil(days as int),
{
    let adjusted = days + 719_468;
    let era = floor_div(adjusted, 146_097);
    proof {
        vstd::arithmetic::div_mod::lemma_fundamental_div_mod(adjusted as int, 146_097);
        assert(-2_000_000_000 <= era <= 2_000_000_000) by (nonlinear_arith)
            requires
                era == adjusted as int / 146_097,
                -200_000_000_000_000 <= days <= 200_000_000_000_000,
                adjusted == days + 719_468,
        ;
    }
    let day_of_era = adjusted - era * 146_097;
    let (year_of_era, month, day) = era_date_exec(day_of_era);
    let year = year_of_era + era * 400;
    (if month <= 2 {
        year + 1
    } else {
        year
    }, month, day)
}

/// The ISO 8601 UTC text of `time`.
pub fn format_timestamp(time: SystemTime) -> (s: String)
    ensures
        s@ == timestamp_text(time@),
{
    let seconds = time.unix_secs_floor();
    let nanos = time.unix_subsec_nanos();
    let q = seconds / 86_400;
    let r = seconds % 86_400;
    let (days, day_seconds) = if r < 0 {
        (q - 1, r + 86_400)
    } else {
        (q, r)
    };
    proof {
        let si = seconds as int;
        assert(si == days * 86_400 + day_seconds && 0 <= day_seconds < 86_400);
        vstd::arithmetic::div_mod::lemma_fundamental_div_mod_converse(
            si,
            86_400,
            days as int,
            day_seconds as int,
        );
        assert(-200_000_000_000_000 <= days <= 200_000_000_000_000) by (nonlinear_arith)
            requires
                si == days * 86_400 + day_seconds,
                0 <= day_seconds < 86_400,
                i64::MIN <= si <= i64::MAX,
        ;
    }
    let (year, month, day) = civil_from_days(days);
    let mut s = String::new();
    push_signed_padded(&mut s, year, 4);
    push_str(&mut s, "-");
    push_signed_padded(&mut s, month, 2);
    push_str(&mut s, "-");
    push_signed_padded(&mut s, day, 2);
    push_str(&mut s, "T");
    push_decimal_padded(&mut s, (day_seconds / 3_600) as u64, 2);
    push_str(&mut s, ":");
    push_decimal_padded(&mut s, (day_seconds / 60 % 60) as u64, 2);
    push_str(&mut s, ":");
    push_decimal_padded(&mut s, (day_seconds % 60) as u64, 2);
    push_str(&mut s, ".");
    push_decimal_padded(&mut s, nanos as u64, 9);
    push_str(&mut s, "Z");
    s
}

} // verus!
