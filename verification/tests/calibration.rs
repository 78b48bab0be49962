use master_time::calibration::{
    next_minute_boundary, Calibration, Clock, ClockSample, SystemClock,
};
use master_time::time::{unix_epoch, Duration, Instant, SystemTime};

#[derive(Clone, Debug)]
struct FakeClock {
    sample: ClockSample,
}

impl Clock for FakeClock {
    fn sample(&self) -> ClockSample {
        self.sample
    }
}

fn time(seconds: u64) -> SystemTime {
    SystemTime::from_unix_duration(Duration::from_secs(seconds)).unwrap()
}

fn before_epoch(seconds: u64, nanos: u32) -> SystemTime {
    unix_epoch().checked_sub(Duration::new(seconds, nanos)).unwrap()
}

fn monotonic(seconds: u64) -> Instant {
    Instant::from_origin(Duration::from_secs(seconds))
}

fn set(clock: &mut FakeClock, wall_seconds: u64, monotonic_seconds: u64) {
    clock.sample = ClockSample {
        wall: time(wall_seconds),
        monotonic: monotonic(monotonic_seconds),
    };
}

#[test]
fn counts_down_to_the_next_boundary_and_marks_late() {
    let mut clock = FakeClock {
        sample: ClockSample {
            wall: time(65),
            monotonic: monotonic(0),
        },
    };
    let mut calibration = Calibration::with_clock(clock.clone());
    calibration.enable();
    assert_eq!(calibration.view().countdown, Some(Duration::from_secs(55)));

    set(&mut clock, 62, 3);
    let mut calibration = Calibration::with_clock(clock);
    calibration.enable();
    set(calibration.clock_mut(), 120, 58);
    let result = calibration.mark().unwrap();
    assert_eq!(result.expected, time(180));
    assert_eq!(result.difference, Duration::from_secs(60));
    assert!(!result.marked_after_expected);
}

#[test]
fn repeated_marks_are_idempotent() {
    let clock = FakeClock {
        sample: ClockSample {
            wall: time(119),
            monotonic: monotonic(0),
        },
    };
    let mut calibration = Calibration::with_clock(clock);
    calibration.enable();
    let first = calibration.mark().unwrap();
    let second = calibration.mark().unwrap();
    assert_eq!(first, second);
}

#[test]
fn a_wall_clock_jump_restarts_the_target() {
    let mut clock = FakeClock {
        sample: ClockSample {
            wall: time(65),
            monotonic: monotonic(0),
        },
    };
    let mut calibration = Calibration::with_clock(clock.clone());
    calibration.enable();
    clock.sample = ClockSample {
        wall: time(5),
        monotonic: monotonic(1),
    };
    *calibration.clock_mut() = clock;
    assert_eq!(calibration.view().countdown, Some(Duration::from_secs(55)));
    assert_eq!(calibration.mark().unwrap().expected, time(60));
}

#[test]
fn disabling_prevents_marks_and_reenabling_clears_result() {
    let clock = FakeClock {
        sample: ClockSample {
            wall: time(119),
            monotonic: monotonic(0),
        },
    };
    let mut calibration = Calibration::with_clock(clock);
    calibration.enable();
    assert!(calibration.mark().is_some());
    calibration.disable();
    assert!(calibration.mark().is_none());
    assert!(calibration.view().result.is_some());
    calibration.enable();
    assert!(calibration.view().result.is_none());
}

#[test]
fn boundaries_are_strictly_after_the_reading() {
    assert_eq!(next_minute_boundary(time(0)), time(60));
    assert_eq!(next_minute_boundary(time(59)), time(60));
    assert_eq!(next_minute_boundary(time(60)), time(120));
    assert_eq!(
        next_minute_boundary(unix_epoch().checked_add(Duration::new(60, 1)).unwrap()),
        time(120)
    );
    assert_eq!(next_minute_boundary(before_epoch(60, 0)), unix_epoch());
    assert_eq!(next_minute_boundary(before_epoch(0, 500)), unix_epoch());
    assert_eq!(next_minute_boundary(before_epoch(65, 0)), before_epoch(60, 0));
    assert_eq!(next_minute_boundary(before_epoch(120, 0)), before_epoch(60, 0));
}

#[test]
fn marking_early_and_late_reports_the_distance() {
    let clock = FakeClock {
        sample: ClockSample {
            wall: time(100),
            monotonic: monotonic(0),
        },
    };
    let mut calibration = Calibration::with_clock(clock);
    calibration.enable();
    set(calibration.clock_mut(), 121, 21);
    let result = calibration.mark().unwrap();
    assert_eq!(result.expected, time(120));
    assert_eq!(result.marked, time(121));
    assert_eq!(result.difference, Duration::from_secs(1));
    assert!(result.marked_after_expected);
}

#[test]
fn countdown_reaches_zero_after_the_target() {
    let clock = FakeClock {
        sample: ClockSample {
            wall: time(100),
            monotonic: monotonic(0),
        },
    };
    let mut calibration = Calibration::with_clock(clock);
    calibration.enable();
    set(calibration.clock_mut(), 121, 21);
    let view = calibration.view();
    assert!(view.enabled);
    assert_eq!(view.countdown, Some(Duration::zero()));
    calibration.disable();
    let view = calibration.view();
    assert!(!view.enabled);
    assert_eq!(view.countdown, None);
}

#[test]
fn system_clock_session_starts_disabled() {
    let mut calibration = Calibration::<SystemClock>::new();
    assert!(!calibration.is_enabled());
    assert!(calibration.mark().is_none());
    calibration.enable();
    assert!(calibration.is_enabled());
    assert!(calibration.view().countdown.is_some());
}

#[test]
fn the_last_representable_boundary_is_still_counted_down_and_marked() {
    let last_boundary = (i64::MAX as u64) - (i64::MAX as u64) % 60;
    let mut clock = FakeClock {
        sample: ClockSample {
            wall: time(last_boundary - 3),
            monotonic: monotonic(0),
        },
    };
    let mut calibration = Calibration::with_clock(clock.clone());
    calibration.enable();
    set(&mut clock, last_boundary + 2, 5);
    *calibration.clock_mut() = clock;
    let view = calibration.view();
    assert!(view.enabled);
    assert_eq!(view.countdown, Some(Duration::zero()));
    let result = calibration.mark().unwrap();
    assert_eq!(result.expected, time(last_boundary));
    assert_eq!(result.marked, time(last_boundary + 2));
    assert_eq!(result.difference, Duration::from_secs(2));
    assert!(result.marked_after_expected);
}
