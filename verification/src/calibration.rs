//! Calibrating a clock against minute boundaries.
//!
//! Wall-clock time ([`SystemTime`]) is kept apart from elapsed time
//! ([`Instant`]): when the two disagree by more than two seconds between
//! samples, the wall clock has jumped, and the session picks a new target.
use vstd::prelude::*;

use crate::time::{
    Duration, Instant, SystemTime, max_time_nanos, min_time_nanos, monotonic_elapsed,
    monotonic_origin, unix_epoch,
};

verus! {

broadcast use crate::time::lemma_time_bounded, crate::time::lemma_duration_bounded;

/// Nanoseconds in one minute.
pub open spec fn minute_nanos() -> int {
    60_000_000_000
}

/// The first boundary of the Unix minute grid strictly after `now`.
pub open spec fn next_boundary(now: int) -> int {
    (now / minute_nanos() + 1) * minute_nanos()
}

/// The boundary lies on the grid, strictly after `now` and at most a minute later.
pub proof fn lemma_next_boundary(now: int)
    ensures
        next_boundary(now) % minute_nanos() == 0,
        now < next_boundary(now) <= now + minute_nanos(),
{
    assert((now / minute_nanos() + 1) * minute_nanos() % minute_nanos() == 0) by (nonlinear_arith);
    assert(now / minute_nanos() * minute_nanos() <= now < now / minute_nanos() * minute_nanos()
        + minute_nanos()) by (nonlinear_arith);
}

/// A source of simultaneous wall-clock and monotonic readings.
pub trait Clock {
    fn sample(&self) -> ClockSample;
}

/// A simultaneous wall-clock and monotonic-clock reading.
#[derive(Clone, Copy, Debug, PartialEq, Eq, Structural)]
pub struct ClockSample {
    pub wall: SystemTime,
    pub monotonic: Instant,
}

/// The operating system's clocks; the monotonic reading counts from the
/// moment the clock was made.
#[derive(Clone, Copy, Debug)]
pub struct SystemClock {
    origin: std::time::Instant,
}

impl SystemClock {
    pub fn new() -> SystemClock {
        SystemClock { origin: monotonic_origin() }
    }
}

impl Default for SystemClock {
    fn default() -> SystemClock {
        SystemClock::new()
    }
}

impl Clock for SystemClock {
    fn sample(&self) -> ClockSample {
        ClockSample {
            wall: SystemTime::now(),
            monotonic: Instant::from_origin(monotonic_elapsed(&self.origin)),
        }
    }
}

/// The result of marking the calibration target.
#[derive(Clone, Copy, Debug, PartialEq, Eq, Structural)]
pub struct CalibrationResult {
    /// The minute boundary the user was expected to mark.
    pub expected: SystemTime,
    /// The wall-clock time at which the mark was made.
    pub marked: SystemTime,
    /// The absolute difference between `expected` and `marked`.
    pub difference: Duration,
    /// `true` when the mark occurred after the expected boundary.
    pub marked_after_expected: bool,
}

/// The current state of a calibration session, for rendering.
#[derive(Clone, Copy, Debug, PartialEq, Eq)]
pub struct CalibrationView {
    pub enabled: bool,
    /// Time remaining until the target, or zero once it has been reached.
    pub countdown: Option<Duration>,
    pub result: Option<CalibrationResult>,
}

/// The abstract state of a [`Calibration`]: the expected boundary is in
/// nanoseconds since the Unix epoch.
pub struct CalibrationModel {
    pub enabled: bool,
    pub expected: Option<int>,
    pub result: Option<CalibrationResult>,
    pub previous: Option<ClockSample>,
}

/// The span by which the wall clock moved from `prev` to `cur`, compared
/// with the elapsed monotonic time (zero if that went backwards), differs
/// by more than two seconds.
pub open spec fn clock_jumped(prev: ClockSample, cur: ClockSample) -> bool {
    let wall_delta = cur.wall@ - prev.wall@;
    let mono_delta: int = if cur.monotonic@ >= prev.monotonic@ {
        cur.monotonic@ - prev.monotonic@
    } else {
        0
    };
    let gap = if wall_delta >= mono_delta {
        wall_delta - mono_delta
    } else {
        mono_delta - wall_delta
    };
    let capped = if gap > u64::MAX {
        u64::MAX as int
    } else {
        gap
    };
    capped > 2_000_000_000
}

/// The state after checking `cur` for a wall-clock jump: with no earlier
/// sample, `cur` is recorded; after a jump, a new target is chosen and any
/// result is dropped.
pub open spec fn recovered(m: CalibrationModel, cur: ClockSample) -> CalibrationModel {
    match m.previous {
        None => CalibrationModel { previous: Some(cur), ..m },
        Some(prev) => if clock_jumped(prev, cur) {
            CalibrationModel { expected: Some(next_boundary(cur.wall@)), result: None, ..m }
        } else {
            m
        },
    }
}

/// `r` is the mark of `sample` against the boundary `expected`.
pub open spec fn is_mark(r: CalibrationResult, expected: int, sample: ClockSample) -> bool {
    &&& r.expected@ == expected
    &&& r.marked == sample.wall
    &&& r.marked_after_expected == (sample.wall@ >= expected)
    &&& r.difference@ == if sample.wall@ >= expected {
        sample.wall@ - expected
    } else {
        expected - sample.wall@
    }
}

/// Whether the boundary after `t` can be represented.
pub open spec fn boundary_fits(t: SystemTime) -> bool {
    next_boundary(t@) <= max_time_nanos()
}

/// Whether checking the reading `s` against the session `m` can be done:
/// only after a wall-clock jump is a new target needed, and then the
/// boundary after `s` must be representable.
pub open spec fn recovery_fits(m: CalibrationModel, s: ClockSample) -> bool {
    m.previous matches Some(prev) && clock_jumped(prev, s) ==> boundary_fits(s.wall)
}

/// What refreshing an enabled session `old` at the reading `s` leaves
/// (`new`) and shows (`v`). When the reading follows a wall-clock jump to a
/// time whose next boundary cannot be represented, the session stays as it
/// is and shows no countdown.
pub open spec fn refreshed(
    old: CalibrationModel,
    s: ClockSample,
    new: CalibrationModel,
    v: CalibrationView,
) -> bool {
    if !recovery_fits(old, s) {
        new == old && v == (CalibrationView { enabled: true, countdown: None, result: old.result })
    } else {
        let m = recovered(old, s);
        &&& new == (CalibrationModel { previous: Some(s), ..m })
        &&& v.enabled
        &&& v.result == m.result
        &&& (m.expected is None ==> v.countdown is None)
        &&& (m.expected matches Some(e) ==> v.countdown matches Some(c) && c@ == (if e >= s.wall@ {
            e - s.wall@
        } else {
            0
        }))
    }
}

/// What marking an enabled session `old` without a result at the reading
/// `s` leaves (`new`) and gives (`r`). When the reading follows a wall-clock
/// jump to a time whose next boundary cannot be represented, nothing is
/// marked and the session stays as it is.
pub open spec fn marked(
    old: CalibrationModel,
    s: ClockSample,
    new: CalibrationModel,
    r: Option<CalibrationResult>,
) -> bool {
    if !recovery_fits(old, s) {
        r is None && new == old
    } else {
        let m = recovered(old, s);
        &&& (m.expected is None ==> r is None && new == m)
        &&& (m.expected matches Some(e) ==> r matches Some(res) && is_mark(res, e, s) && new == (
        CalibrationModel { result: r, previous: Some(s), ..m }))
    }
}

/// A minute-boundary calibration session.
#[derive(Debug)]
pub struct Calibration<C> {
    clock: C,
    enabled: bool,
    expected: Option<SystemTime>,
    result: Option<CalibrationResult>,
    previous: Option<ClockSample>,
}

impl<C> Calibration<C> {
    pub closed spec fn model(&self) -> CalibrationModel {
        CalibrationModel {
            enabled: self.enabled,
            expected: match self.expected {
                Some(e) => Some(e@),
                None => None,
            },
            result: self.result,
            previous: self.previous,
        }
    }

    pub closed spec fn spec_clock(&self) -> C {
        self.clock
    }
}

impl Calibration<SystemClock> {
    pub fn new() -> (c: Calibration<SystemClock>)
        ensures
            !c.model().enabled,
            c.model().expected is None,
            c.model().result is None,
            c.model().previous is None,
    {
        Calibration::with_clock(SystemClock::new())
    }
}

impl Default for Calibration<SystemClock> {
    fn default() -> (c: Calibration<SystemClock>)
        ensures
            !c.model().enabled,
            c.model().expected is None,
            c.model().result is None,
            c.model().previous is None,
    {
        Calibration::new()
    }
}

impl<C: Clock> Calibration<C> {
    /// A disabled session reading `clock`.
    pub fn with_clock(clock: C) -> (c: Calibration<C>)
        ensures
            c.spec_clock() == clock,
            !c.model().enabled,
            c.model().expected is None,
            c.model().result is None,
            c.model().previous is None,
    {
        Calibration { clock, enabled: false, expected: None, result: None, previous: None }
    }

    /// The clock the session reads, for replacing or adjusting it.
    pub fn clock_mut(&mut self) -> (c: &mut C)
        ensures
            *c == old(self).spec_clock(),
            final(self).spec_clock() == *final(c),
            final(self).model() == old(self).model(),
    {
        &mut self.clock
    }

    /// Enables a fresh session at the reading `sample`: the target is the
    /// next minute boundary and any earlier result is cleared.
    pub fn enable_at(&mut self, sample: ClockSample)
        requires
            boundary_fits(sample.wall),
        ensures
            final(self).model() == (CalibrationModel {
                enabled: true,
                expected: Some(next_boundary(sample.wall@)),
                result: None,
                previous: Some(sample),
            }),
            final(self).spec_clock() == old(self).spec_clock(),
    {
        self.enabled = true;
        self.expected = Some(next_minute_boundary(sample.wall));
        self.result = None;
        self.previous = Some(sample);
    }

    /// Enables a fresh session at the clock's current reading: the reading
    /// is recorded, any earlier result is cleared, and the target is the next
    /// minute boundary; in the one case where that boundary cannot be
    /// represented, the session has no target.
    pub fn enable(&mut self)
        ensures
            final(self).spec_clock() == old(self).spec_clock(),
            final(self).model().enabled,
            final(self).model().result is None,
            final(self).model().previous matches Some(s) && final(self).model().expected == (if boundary_fits(s.wall) {
                Some(next_boundary(s.wall@))
            } else {
                None
            }),
    {
        let sample = self.clock.sample();
        if fits_boundary(sample.wall) {
            self.enable_at(sample);
        } else {
            self.enabled = true;
            self.expected = None;
            self.result = None;
            self.previous = Some(sample);
        }
    }

    /// Disables the session. A completed result stays available until the
    /// next enable.
    pub fn disable(&mut self)
        ensures
            final(self).model() == (CalibrationModel {
                enabled: false,
                expected: None,
                result: old(self).model().result,
                previous: None,
            }),
            final(self).spec_clock() == old(self).spec_clock(),
    {
        self.enabled = false;
        self.expected = None;
        self.previous = None;
    }

    pub fn is_enabled(&self) -> (b: bool)
        ensures
            b == self.model().enabled,
    {
        self.enabled
    }

    fn recover_from_clock_change(&mut self, current: ClockSample)
        requires
            recovery_fits(old(self).model(), current),
        ensures
            final(self).model() == recovered(old(self).model(), current),
            final(self).spec_clock() == old(self).spec_clock(),
    {
        let previous = match self.previous {
            Some(p) => p,
            None => {
                self.previous = Some(current);
                return ;
            },
        };
        if clock_jumped_between(previous, current) {
            self.expected = Some(next_minute_boundary(current.wall));
            self.result = None;
        }
    }

    /// Whether the reading `sample` can be checked against this session.
    fn recovery_fits_exec(&self, sample: ClockSample) -> (b: bool)
        ensures
            b == recovery_fits(self.model(), sample),
    {
        match self.previous {
            Some(previous) => !clock_jumped_between(previous, sample) || fits_boundary(sample.wall),
            None => true,
        }
    }

    /// Refreshes the session at the reading `sample` and returns what to
    /// render: for a disabled session, only the kept result; otherwise the
    /// time left until the target (zero once reached) after checking for a
    /// wall-clock jump.
    pub fn view_at(&mut self, sample: ClockSample) -> (v: CalibrationView)
        requires
            old(self).model().enabled ==> recovery_fits(old(self).model(), sample),
        ensures
            final(self).spec_clock() == old(self).spec_clock(),
            !old(self).model().enabled ==> final(self).model() == old(self).model() && v
                == (CalibrationView { enabled: false, countdown: None, result: old(self).model().result }),
            old(self).model().enabled ==> {
                let m = recovered(old(self).model(), sample);
                &&& final(self).model() == (CalibrationModel { previous: Some(sample), ..m })
                &&& v.enabled
                &&& v.result == m.result
                &&& m.expected is None ==> v.countdown is None
                &&& m.expected matches Some(e) ==> v.countdown matches Some(c) && c@ == (if e
                    >= sample.wall@ {
                    e - sample.wall@
                } else {
                    0
                })
            },
    {
        if !self.enabled {
            return CalibrationView { enabled: false, countdown: None, result: self.result };
        }
        self.recover_from_clock_change(sample);
        let countdown = match self.expected {
            Some(expected) => match expected.duration_since(sample.wall) {
                Ok(d) => Some(d),
                Err(_) => Some(Duration::zero()),
            },
            None => None,
        };
        self.previous = Some(sample);
        CalibrationView { enabled: true, countdown, result: self.result }
    }

    /// Refreshes the session at the clock's current reading; see
    /// [`Self::view_at`]. A disabled session is left unchanged.
    pub fn view(&mut self) -> (v: CalibrationView)
        ensures
            final(self).spec_clock() == old(self).spec_clock(),
            !old(self).model().enabled ==> final(self).model() == old(self).model() && v
                == (CalibrationView { enabled: false, countdown: None, result: old(self).model().result }),
            old(self).model().enabled ==> exists|s: ClockSample|
                #[trigger] refreshed(old(self).model(), s, final(self).model(), v),
    {
        let sample = self.clock.sample();
        if self.enabled && !self.recovery_fits_exec(sample) {
            let v = CalibrationView { enabled: true, countdown: None, result: self.result };
            assert(refreshed(old(self).model(), sample, self.model(), v));
            return v;
        }
        let v = self.view_at(sample);
        proof {
            if old(self).model().enabled {
                assert(refreshed(old(self).model(), sample, self.model(), v));
            }
        }
        v
    }

    /// Marks the reading `sample` against the expected boundary.
    ///
    /// A disabled session gives `None`; once marked, every further call gives
    /// the first result back and changes nothing.
    pub fn mark_at(&mut self, sample: ClockSample) -> (r: Option<CalibrationResult>)
        requires
            old(self).model().enabled && old(self).model().result is None ==> recovery_fits(
                old(self).model(),
                sample,
            ),
        ensures
            final(self).spec_clock() == old(self).spec_clock(),
            !old(self).model().enabled ==> r is None && final(self).model() == old(self).model(),
            old(self).model().enabled && old(self).model().result is Some ==> r == old(
                self,
            ).model().result && final(self).model() == old(self).model(),
            old(self).model().enabled && old(self).model().result is None ==> {
                let m = recovered(old(self).model(), sample);
                &&& m.expected is None ==> r is None && final(self).model() == m
                &&& m.expected matches Some(e) ==> r matches Some(res) && is_mark(res, e, sample)
                    && final(self).model() == (CalibrationModel {
                    result: r,
                    previous: Some(sample),
                    ..m
                })
            },
    {
        if !self.enabled {
            return None;
        }
        if let Some(result) = self.result {
            return Some(result);
        }
        self.recover_from_clock_change(sample);
        let expected = match self.expected {
            Some(e) => e,
            None => { return None },
        };
        let (difference, marked_after_expected) = match sample.wall.duration_since(expected) {
            Ok(late) => (late, true),
            Err(_) => match expected.duration_since(sample.wall) {
                Ok(early) => (early, false),
                Err(_) => (Duration::zero(), false),
            },
        };
        let result = CalibrationResult {
            expected,
            marked: sample.wall,
            difference,
            marked_after_expected,
        };
        self.result = Some(result);
        self.previous = Some(sample);
        Some(result)
    }

    /// Marks the clock's current reading; see [`Self::mark_at`].
    pub fn mark(&mut self) -> (r: Option<CalibrationResult>)
        ensures
            final(self).spec_clock() == old(self).spec_clock(),
            !old(self).model().enabled ==> r is None && final(self).model() == old(self).model(),
            old(self).model().enabled && old(self).model().result is Some ==> r == old(
                self,
            ).model().result && final(self).model() == old(self).model(),
            old(self).model().enabled && old(self).model().result is None ==> exists|s: ClockSample|
                #[trigger] marked(old(self).model(), s, final(self).model(), r),
    {
        if self.enabled && self.result.is_none() {
            let sample = self.clock.sample();
            if !self.recovery_fits_exec(sample) {
                assert(marked(old(self).model(), sample, self.model(), None));
                return None;
            }
            let r = self.mark_at(sample);
            assert(marked(old(self).model(), sample, self.model(), r));
            r
        } else {
            self.mark_at(ClockSample {
                wall: unix_epoch(),
                monotonic: Instant::from_origin(Duration::zero()),
            })
        }
    }
}

/// Whether the wall clock jumped between the readings `previous` and
/// `current`.
fn clock_jumped_between(previous: ClockSample, current: ClockSample) -> (b: bool)
    ensures
        b == clock_jumped(previous, current),
{
    let wall_delta = signed_duration(previous.wall, current.wall);
    let monotonic_delta = match current.monotonic.checked_duration_since(previous.monotonic) {
        Some(d) => d,
        None => Duration::zero(),
    };
    let gap = abs_difference(wall_delta, monotonic_delta);
    Duration::from_secs(2).lt(&gap)
}

/// Whole minutes of a span counted first in whole seconds.
proof fn lemma_minutes_of_seconds(x: int)
    ensures
        x / 1_000_000_000 / 60 == x / minute_nanos(),
{
    let q = x / minute_nanos();
    let r = x % minute_nanos();
    let r1 = r / 1_000_000_000;
    let r0 = r % 1_000_000_000;
    assert(0 <= r1 < 60) by (nonlinear_arith)
        requires
            0 <= r < 60_000_000_000,
            r1 == r / 1_000_000_000,
    ;
    assert(x == (q * 60 + r1) * 1_000_000_000 + r0) by (nonlinear_arith)
        requires
            x == q * 60_000_000_000 + r,
            r == r1 * 1_000_000_000 + r0,
    ;
    vstd::arithmetic::div_mod::lemma_fundamental_div_mod(x, minute_nanos());
    vstd::arithmetic::div_mod::lemma_fundamental_div_mod(r, 1_000_000_000);
    vstd::arithmetic::div_mod::lemma_fundamental_div_mod_converse(
        x,
        1_000_000_000,
        q * 60 + r1,
        r0,
    );
    vstd::arithmetic::div_mod::lemma_fundamental_div_mod_converse(q * 60 + r1, 60, q, r1);
}

/// Whether the boundary after `t` can be represented.
fn fits_boundary(t: SystemTime) -> (b: bool)
    ensures
        b == boundary_fits(t),
{
    match t.duration_since(unix_epoch()) {
        Ok(age) => {
            let secs = age.as_secs();
            let k = secs / 60;
            proof {
                lemma_minutes_of_seconds(t@);
                assert(next_boundary(t@) == (k + 1) * minute_nanos());
                assert((k + 1) * 60_000_000_000 <= 9_223_372_036_854_775_807int * 1_000_000_000
                    + 999_999_999 <==> k < 9_223_372_036_854_775_807int / 60) by (nonlinear_arith);
            }
            k < (i64::MAX as u64) / 60
        },
        Err(_) => {
            proof {
                assert(t@ / minute_nanos() <= -1) by (nonlinear_arith)
                    requires
                        t@ < 0,
                ;
            }
            true
        },
    }
}

/// The first boundary of the Unix minute grid strictly after `now`.
pub fn next_minute_boundary(now: SystemTime) -> (t: SystemTime)
    requires
        boundary_fits(now),
    ensures
        t@ == next_boundary(now@),
{
    proof {
        lemma_next_boundary(now@);
    }
    match now.duration_since(unix_epoch()) {
        Ok(age) => {
            let secs = age.as_secs();
            let boundary_seconds = secs - secs % 60 + 60;
            proof {
                assert(next_boundary(now@) == boundary_seconds * 1_000_000_000) by {
                    lemma_minutes_of_seconds(now@);
                    assert(secs - secs % 60 == (secs / 60) * 60) by (nonlinear_arith);
                }
            }
            match unix_epoch().checked_add(Duration::from_secs(boundary_seconds)) {
                Some(t) => t,
                None => unix_epoch(),
            }
        },
        Err(before_epoch) => {
            let age = before_epoch.duration();
            let seconds = age.as_secs();
            let sub = age.subsec_nanos();
            let remainder = seconds % 60;
            let boundary_age = if remainder == 0 && sub == 0 {
                seconds.saturating_sub(60)
            } else {
                seconds - remainder
            };
            proof {
                assert(next_boundary(now@) == -(boundary_age * 1_000_000_000)) by {
                    lemma_negative_boundary(now@, age@ as int, seconds as int, sub as int);
                }
            }
            match unix_epoch().checked_sub(Duration::from_secs(boundary_age)) {
                Some(t) => t,
                None => unix_epoch(),
            }
        },
    }
}

proof fn lemma_negative_boundary(now: int, age: int, seconds: int, nanos: int)
    requires
        now < 0,
        age == -now,
        seconds == age / 1_000_000_000,
        nanos == age % 1_000_000_000,
    ensures
        next_boundary(now) == -((if seconds % 60 == 0 && nanos == 0 {
            if seconds >= 60 {
                seconds - 60
            } else {
                0
            }
        } else {
            seconds - seconds % 60
        }) * 1_000_000_000),
{
    let q = seconds / 60;
    let r = seconds % 60;
    vstd::arithmetic::div_mod::lemma_fundamental_div_mod(age, 1_000_000_000);
    vstd::arithmetic::div_mod::lemma_fundamental_div_mod(seconds, 60);
    assert(age == (q * 60 + r) * 1_000_000_000 + nanos) by (nonlinear_arith)
        requires
            age == seconds * 1_000_000_000 + nanos,
            seconds == q * 60 + r,
    ;
    if r == 0 && nanos == 0 {
        assert(now == (-q) * minute_nanos()) by (nonlinear_arith)
            requires
                now == -age,
                age == (q * 60 + r) * 1_000_000_000 + nanos,
                r == 0,
                nanos == 0,
        ;
        vstd::arithmetic::div_mod::lemma_fundamental_div_mod_converse(now, minute_nanos(), -q, 0);
        assert(q >= 1) by (nonlinear_arith)
            requires
                age > 0,
                age == (q * 60 + r) * 1_000_000_000 + nanos,
                r == 0,
                nanos == 0,
        ;
    } else {
        assert(0 < r * 1_000_000_000 + nanos < minute_nanos()) by (nonlinear_arith)
            requires
                0 <= r < 60,
                0 <= nanos < 1_000_000_000,
                r > 0 || nanos > 0,
        ;
        let rem = minute_nanos() - (r * 1_000_000_000 + nanos);
        assert(now == (-q - 1) * minute_nanos() + rem) by (nonlinear_arith)
            requires
                now == -age,
                age == (q * 60 + r) * 1_000_000_000 + nanos,
                rem == minute_nanos() - (r * 1_000_000_000 + nanos),
        ;
        vstd::arithmetic::div_mod::lemma_fundamental_div_mod_converse(
            now,
            minute_nanos(),
            -q - 1,
            rem,
        );
    }
}

/// The signed span from `from` to `to`, in nanoseconds.
fn signed_duration(from: SystemTime, to: SystemTime) -> (d: i128)
    ensures
        d == to@ - from@,
{
    match to.duration_since(from) {
        Ok(duration) => duration.as_nanos() as i128,
        Err(_) => match from.duration_since(to) {
            Ok(duration) => -(duration.as_nanos() as i128),
            Err(_) => 0,
        },
    }
}

/// The absolute difference of `left` and `right`, capped at `u64::MAX` nanoseconds.
fn abs_difference(left: i128, right: Duration) -> (d: Duration)
    requires
        min_time_nanos() - max_time_nanos() <= left <= max_time_nanos() - min_time_nanos(),
    ensures
        d@ == ({
            let gap = if left >= right@ {
                left - right@
            } else {
                right@ - left
            };
            if gap > u64::MAX {
                u64::MAX as int
            } else {
                gap
            }
        }),
{
    let r = right.as_nanos() as i128;
    let diff = left - r;
    let gap: u128 = if diff >= 0 {
        diff as u128
    } else {
        (-diff) as u128
    };
    let capped: u64 = if gap > u64::MAX as u128 {
        u64::MAX
    } else {
        gap as u64
    };
    Duration::from_nanos(capped)
}

} // verus!
