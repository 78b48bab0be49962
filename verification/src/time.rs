//! Plain-value models of elapsed time, wall-clock time and monotonic time.
//!
//! Every value here is an ordinary pair of integers, so the logic built on
//! them can be verified. The embedding application converts the operating
//! system's clocks into these values at its edge.

use vstd::prelude::*;

verus! {

/// Nanoseconds in one second.
pub const NANOS_PER_SEC: u32 = 1_000_000_000;

/// The largest number of nanoseconds a [`Duration`] can hold.
pub open spec fn max_duration_nanos() -> nat {
    18_446_744_073_709_551_615 * 1_000_000_000 + 999_999_999
}

/// Smallest and largest wall-clock offsets from the Unix epoch, in nanoseconds.
pub open spec fn min_time_nanos() -> int {
    -9_223_372_036_854_775_808 * 1_000_000_000
}

pub open spec fn max_time_nanos() -> int {
    9_223_372_036_854_775_807int * 1_000_000_000 + 999_999_999
}

/// A non-negative span of time with nanosecond precision.
#[derive(Clone, Copy, Debug, PartialEq, Eq, Hash, Structural)]
pub struct Duration {
    secs: u64,
    nanos: u32,
}

impl Duration {
    #[verifier::type_invariant]
    closed spec fn inv(self) -> bool {
        self.nanos < NANOS_PER_SEC
    }
}

impl View for Duration {
    type V = nat;

    /// The span in nanoseconds.
    closed spec fn view(&self) -> nat {
        self.secs as nat * 1_000_000_000 + if self.nanos < NANOS_PER_SEC {
            self.nanos as nat
        } else {
            999_999_999nat
        }
    }
}

/// The span of whole seconds has the expected length.
pub broadcast proof fn lemma_spec_from_secs(secs: u64)
    ensures
        #[trigger] Duration::spec_from_secs(secs)@ == secs * 1_000_000_000,
{
}

/// Every duration fits the documented range.
pub broadcast proof fn lemma_duration_bounded(d: Duration)
    ensures
        #[trigger] d@ <= max_duration_nanos(),
{
}

impl Duration {
    /// A span of zero length.
    pub fn zero() -> (d: Duration)
        ensures
            d@ == 0,
    {
        Duration { secs: 0, nanos: 0 }
    }

    /// The span of `secs` whole seconds.
    pub closed spec fn spec_from_secs(secs: u64) -> Duration {
        Duration { secs, nanos: 0 }
    }

    /// A span of whole seconds.
    pub fn from_secs(secs: u64) -> (d: Duration)
        ensures
            d@ == secs * 1_000_000_000,
            d == Duration::spec_from_secs(secs),
    {
        Duration { secs, nanos: 0 }
    }

    /// A span of whole milliseconds.
    pub fn from_millis(millis: u64) -> (d: Duration)
        ensures
            d@ == millis * 1_000_000,
    {
        let secs = millis / 1000;
        let rest = (millis % 1000) as u32;
        Duration { secs, nanos: rest * 1_000_000 }
    }

    /// A span of whole nanoseconds.
    pub fn from_nanos(nanos: u64) -> (d: Duration)
        ensures
            d@ == nanos,
    {
        let secs = nanos / 1_000_000_000;
        let rest = (nanos % 1_000_000_000) as u32;
        Duration { secs, nanos: rest }
    }

    /// A span from whole seconds and extra nanoseconds, carrying whole seconds
    /// out of `nanos`.
    pub fn new(secs: u64, nanos: u32) -> (d: Duration)
        requires
            secs + nanos / 1_000_000_000 <= u64::MAX,
        ensures
            d@ == secs * 1_000_000_000 + nanos,
    {
        let carry = (nanos / NANOS_PER_SEC) as u64;
        let rest = nanos % NANOS_PER_SEC;
        Duration { secs: secs + carry, nanos: rest }
    }

    /// Whole seconds in the span.
    pub fn as_secs(&self) -> (s: u64)
        ensures
            s == self@ / 1_000_000_000,
    {
        proof {
            use_type_invariant(self);
        }
        self.secs
    }

    /// Nanoseconds beyond the whole seconds.
    pub fn subsec_nanos(&self) -> (n: u32)
        ensures
            n == self@ % 1_000_000_000,
            n < NANOS_PER_SEC,
    {
        proof {
            use_type_invariant(self);
        }
        self.nanos
    }

    /// The whole span in nanoseconds.
    pub fn as_nanos(&self) -> (n: u128)
        ensures
            n == self@,
    {
        proof {
            use_type_invariant(self);
        }
        self.secs as u128 * 1_000_000_000 + self.nanos as u128
    }

    /// The whole span in milliseconds, rounded down.
    pub fn as_millis(&self) -> (n: u128)
        ensures
            n == self@ / 1_000_000,
    {
        proof {
            use_type_invariant(self);
        }
        self.secs as u128 * 1000 + (self.nanos / 1_000_000) as u128
    }

    /// Whether the span is empty.
    pub fn is_zero(&self) -> (b: bool)
        ensures
            b == (self@ == 0),
    {
        proof {
            use_type_invariant(self);
        }
        self.secs == 0 && self.nanos == 0
    }

    /// Whether `self` is strictly shorter than `other`.
    pub fn lt(&self, other: &Duration) -> (b: bool)
        ensures
            b == (self@ < other@),
    {
        proof {
            use_type_invariant(self);
            use_type_invariant(other);
        }
        self.secs < other.secs || (self.secs == other.secs && self.nanos < other.nanos)
    }

    /// Whether two spans are equally long.
    pub fn same_as(&self, other: &Duration) -> (b: bool)
        ensures
            b == (self@ == other@),
            b == (*self == *other),
    {
        proof {
            use_type_invariant(self);
            use_type_invariant(other);
        }
        self.secs == other.secs && self.nanos == other.nanos
    }

    /// The sum of two spans, or `None` when it does not fit.
    pub fn checked_add(&self, other: &Duration) -> (r: Option<Duration>)
        ensures
            r matches Some(d) ==> d@ == self@ + other@,
            r is None <==> self@ + other@ > max_duration_nanos(),
    {
        proof {
            use_type_invariant(self);
            use_type_invariant(other);
        }
        let nanos = self.nanos + other.nanos;
        let (carry, nanos) = if nanos >= NANOS_PER_SEC {
            (1u64, nanos - NANOS_PER_SEC)
        } else {
            (0u64, nanos)
        };
        if self.secs > u64::MAX - other.secs {
            return None;
        }
        let secs = self.secs + other.secs;
        if secs > u64::MAX - carry {
            return None;
        }
        Some(Duration { secs: secs + carry, nanos })
    }

    /// The difference of two spans, or `None` when `other` is longer.
    pub fn checked_sub(&self, other: &Duration) -> (r: Option<Duration>)
        ensures
            r matches Some(d) ==> d@ == self@ - other@,
            r is None <==> self@ < other@,
    {
        proof {
            use_type_invariant(self);
            use_type_invariant(other);
        }
        if self.secs < other.secs || (self.secs == other.secs && self.nanos < other.nanos) {
            return None;
        }
        if self.nanos >= other.nanos {
            Some(Duration { secs: self.secs - other.secs, nanos: self.nanos - other.nanos })
        } else {
            Some(
                Duration {
                    secs: self.secs - other.secs - 1,
                    nanos: self.nanos + NANOS_PER_SEC - other.nanos,
                },
            )
        }
    }

    /// The difference of two spans, or zero when `other` is longer.
    pub fn saturating_sub(&self, other: &Duration) -> (d: Duration)
        ensures
            d@ == if self@ >= other@ { self@ - other@ } else { 0 },
    {
        match self.checked_sub(other) {
            Some(d) => d,
            None => Duration::zero(),
        }
    }

    /// The absolute difference between two spans.
    pub fn abs_diff(&self, other: &Duration) -> (d: Duration)
        ensures
            d@ == if self@ >= other@ { self@ - other@ } else { other@ - self@ },
    {
        match self.checked_sub(other) {
            Some(d) => d,
            None => match other.checked_sub(self) {
                Some(d) => d,
                None => Duration::zero(),
            },
        }
    }
}

/// A wall-clock reading, relative to the Unix epoch.
#[derive(Clone, Copy, Debug, PartialEq, Eq, Hash, Structural)]
pub struct SystemTime {
    secs: i64,
    nanos: u32,
}

impl SystemTime {
    #[verifier::type_invariant]
    closed spec fn inv(self) -> bool {
        self.nanos < NANOS_PER_SEC
    }
}

impl View for SystemTime {
    type V = int;

    /// Nanoseconds since the Unix epoch; negative before it.
    closed spec fn view(&self) -> int {
        self.secs as int * 1_000_000_000 + if self.nanos < NANOS_PER_SEC {
            self.nanos as int
        } else {
            999_999_999int
        }
    }
}

/// Every wall-clock reading fits the documented range.
pub broadcast proof fn lemma_time_bounded(t: SystemTime)
    ensures
        min_time_nanos() <= #[trigger] t@ <= max_time_nanos(),
{
}

/// The error of [`SystemTime::duration_since`]: how far `earlier` lay ahead.
#[derive(Clone, Copy, Debug, PartialEq, Eq, Structural)]
pub struct SystemTimeError(pub Duration);

impl SystemTimeError {
    /// The span by which the supposedly earlier time was later.
    pub fn duration(&self) -> (d: Duration)
        ensures
            d == self.0,
    {
        self.0
    }
}

/// The Unix epoch, 1970-01-01T00:00:00Z.
pub fn unix_epoch() -> (t: SystemTime)
    ensures
        t@ == 0,
{
    SystemTime { secs: 0, nanos: 0 }
}

impl SystemTime {
    /// A reading `since_epoch` after the Unix epoch.
    pub fn from_unix_duration(since_epoch: Duration) -> (t: Option<SystemTime>)
        ensures
            t matches Some(t) ==> t@ == since_epoch@,
            t is None <==> since_epoch@ > max_time_nanos(),
    {
        unix_epoch().checked_add(since_epoch)
    }

    /// The reading `d` later, or `None` when it leaves the representable range.
    pub fn checked_add(&self, d: Duration) -> (r: Option<SystemTime>)
        ensures
            r matches Some(t) ==> t@ == self@ + d@,
            r is None <==> self@ + d@ > max_time_nanos(),
    {
        proof {
            use_type_invariant(self);
        }
        let dsecs = d.as_secs();
        let dnanos = d.subsec_nanos();
        let nanos = self.nanos + dnanos;
        let (carry, nanos) = if nanos >= NANOS_PER_SEC {
            (1i64, nanos - NANOS_PER_SEC)
        } else {
            (0i64, nanos)
        };
        let total = self.secs as i128 + dsecs as i128 + carry as i128;
        if total > i64::MAX as i128 {
            return None;
        }
        let secs = total as i64;
        Some(SystemTime { secs, nanos })
    }

    /// The reading `d` earlier, or `None` when it leaves the representable range.
    pub fn checked_sub(&self, d: Duration) -> (r: Option<SystemTime>)
        ensures
            r matches Some(t) ==> t@ == self@ - d@,
            r is None <==> self@ - d@ < min_time_nanos(),
    {
        proof {
            use_type_invariant(self);
        }
        let dsecs = d.as_secs();
        let dnanos = d.subsec_nanos();
        let (borrow, nanos) = if self.nanos >= dnanos {
            (0i64, self.nanos - dnanos)
        } else {
            (1i64, self.nanos + NANOS_PER_SEC - dnanos)
        };
        let total = self.secs as i128 - dsecs as i128 - borrow as i128;
        if total < i64::MIN as i128 {
            return None;
        }
        let secs = total as i64;
        Some(SystemTime { secs, nanos })
    }

    /// The span from `earlier` to `self`, or how far `earlier` lies ahead.
    pub fn duration_since(&self, earlier: SystemTime) -> (r: Result<Duration, SystemTimeError>)
        ensures
            r matches Ok(d) ==> self@ >= earlier@ && d@ == self@ - earlier@,
            r matches Err(e) ==> self@ < earlier@ && e.0@ == earlier@ - self@,
    {
        proof {
            use_type_invariant(self);
            use_type_invariant(&earlier);
        }
        if self.secs > earlier.secs || (self.secs == earlier.secs && self.nanos >= earlier.nanos) {
            Ok(span_between(earlier, *self))
        } else {
            Err(SystemTimeError(span_between(*self, earlier)))
        }
    }

    /// Whole seconds relative to the epoch, rounded towards minus infinity.
    pub fn unix_secs_floor(&self) -> (s: i64)
        ensures
            s == self@ / 1_000_000_000,
    {
        proof {
            use_type_invariant(self);
        }
        self.secs
    }

    /// Nanoseconds after [`Self::unix_secs_floor`].
    pub fn unix_subsec_nanos(&self) -> (n: u32)
        ensures
            n == self@ % 1_000_000_000,
    {
        proof {
            use_type_invariant(self);
        }
        self.nanos
    }
}

/// The non-negative span from `from` to `to`.
fn span_between(from: SystemTime, to: SystemTime) -> (d: Duration)
    requires
        from@ <= to@,
    ensures
        d@ == to@ - from@,
{
    proof {
        use_type_invariant(&from);
        use_type_invariant(&to);
    }
    let (borrow, nanos) = if to.nanos >= from.nanos {
        (0u64, to.nanos - from.nanos)
    } else {
        (1u64, to.nanos + NANOS_PER_SEC - from.nanos)
    };
    let secs = (to.secs as i128 - from.secs as i128) as u64 - borrow;
    Duration { secs, nanos }
}

/// A reading of a monotonic clock, measured from an arbitrary origin.
#[derive(Clone, Copy, Debug, PartialEq, Eq, Hash, Structural)]
pub struct Instant {
    since_origin: Duration,
}

impl View for Instant {
    type V = nat;

    /// Nanoseconds since the clock's origin.
    closed spec fn view(&self) -> nat {
        self.since_origin@
    }
}

impl Instant {
    /// The reading `since_origin` after the clock's origin.
    pub fn from_origin(since_origin: Duration) -> (i: Instant)
        ensures
            i@ == since_origin@,
    {
        Instant { since_origin }
    }

    /// Whether this reading is earlier than `other`.
    pub fn lt(&self, other: &Instant) -> (b: bool)
        ensures
            b == (self@ < other@),
    {
        self.since_origin.lt(&other.since_origin)
    }

    /// The span since the clock's origin.
    pub fn since_origin(&self) -> (d: Duration)
        ensures
            d@ == self@,
    {
        self.since_origin
    }

    /// The reading `d` later, or `None` when it does not fit.
    pub fn checked_add(&self, d: Duration) -> (r: Option<Instant>)
        ensures
            r matches Some(i) ==> i@ == self@ + d@,
            r is None <==> self@ + d@ > max_duration_nanos(),
    {
        match self.since_origin.checked_add(&d) {
            Some(since_origin) => Some(Instant { since_origin }),
            None => None,
        }
    }

    /// The span from `earlier` to `self`, or `None` when `earlier` is later.
    pub fn checked_duration_since(&self, earlier: Instant) -> (r: Option<Duration>)
        ensures
            r matches Some(d) ==> d@ == self@ - earlier@,
            r is None <==> self@ < earlier@,
    {
        self.since_origin.checked_sub(&earlier.since_origin)
    }
}

/// The operating system's monotonic clock, as an opaque reading.
#[verifier::external_type_specification]
#[verifier::external_body]
pub struct ExStdInstant(std::time::Instant);

/// Reads `std::time::Instant::now()`. Nothing is stated of the reading.
#[verifier::external_body]
pub(crate) fn monotonic_origin() -> std::time::Instant {
    std::time::Instant::now()
}

/// The span `origin.elapsed()` of the operating system's monotonic clock.
/// Nothing is stated of its length: it depends on when the call is made.
#[verifier::external_body]
pub(crate) fn monotonic_elapsed(origin: &std::time::Instant) -> Duration {
    let d = origin.elapsed();
    Duration::new(d.as_secs(), d.subsec_nanos())
}

/// Reads `std::time::SystemTime::now()` against the Unix epoch: `Ok` with the
/// span after it, or `Err` with the span before it. Nothing is stated of the
/// span: it is whatever the operating system reports.
#[verifier::external_body]
pub(crate) fn wall_clock_offset() -> Result<Duration, Duration> {
    match std::time::SystemTime::now().duration_since(std::time::UNIX_EPOCH) {
        Ok(d) => Ok(Duration::new(d.as_secs(), d.subsec_nanos())),
        Err(e) => Err(Duration::new(e.duration().as_secs(), e.duration().subsec_nanos())),
    }
}

impl SystemTime {
    /// The latest representable reading.
    pub fn max_value() -> (t: SystemTime)
        ensures
            t@ == max_time_nanos(),
    {
        SystemTime { secs: i64::MAX, nanos: 999_999_999 }
    }

    /// The earliest representable reading.
    pub fn min_value() -> (t: SystemTime)
        ensures
            t@ == min_time_nanos(),
    {
        SystemTime { secs: i64::MIN, nanos: 0 }
    }

    /// The wall-clock time for a reading against the Unix epoch (`Ok` with
    /// the span after it, `Err` with the span before it), clamped to the
    /// representable range.
    pub fn from_epoch_offset(reading: Result<Duration, Duration>) -> (t: SystemTime)
        ensures
            reading matches Ok(after) ==> t@ == (if after@ <= max_time_nanos() {
                after@ as int
            } else {
                max_time_nanos()
            }),
            reading matches Err(before) ==> t@ == (if -(before@ as int) >= min_time_nanos() {
                -(before@ as int)
            } else {
                min_time_nanos()
            }),
    {
        match reading {
            Ok(after) => match unix_epoch().checked_add(after) {
                Some(t) => t,
                None => SystemTime::max_value(),
            },
            Err(before) => match unix_epoch().checked_sub(before) {
                Some(t) => t,
                None => SystemTime::min_value(),
            },
        }
    }

    /// The current wall-clock time. A reading beyond the representable range
    /// is clamped to its nearest end.
    pub fn now() -> (t: SystemTime) {
        SystemTime::from_epoch_offset(wall_clock_offset())
    }
}

/// What `{:?}` writes for a `std::time::Duration` of `nanos` nanoseconds
/// (such as `5s`, `1.5s` or `100ms`).
pub uninterp spec fn duration_debug_text(nanos: nat) -> Seq<char>;

/// Formats `d` as `std::time::Duration`'s `Debug` does; the text depends on
/// the span alone.
#[verifier::external_body]
pub(crate) fn duration_debug(d: &Duration) -> (s: String)
    ensures
        s@ == duration_debug_text(d@),
{
    format!("{:?}", std::time::Duration::new(d.as_secs(), d.subsec_nanos()))
}

} // verus!
