use macos_timestamp_ns::{
    get_timestamp_ns, get_timestamp_ns_datetime, monotonic_nanos, ClockAction, ClockCell,
    ClockError, ClockEvent, EpochInstant, HighResClock, TickScale,
};

const WALL: u128 = 1_700_000_000_000_000_000;

fn unit_scale() -> TickScale {
    TickScale { numer: 1, denom: 1 }
}

/// Runs one request against the cell, answering each action from the given
/// samples, and returns the final action.
fn request(cell: &mut ClockCell, query: (i32, u32, u32), wall_ns: u128, ticks: u64) -> ClockAction {
    let mut event = ClockEvent::Request;
    loop {
        match get_timestamp_ns(cell, event) {
            ClockAction::QueryScale => {
                event = ClockEvent::ScaleQueried { status: query.0, numer: query.1, denom: query.2 }
            }
            ClockAction::SampleWallAndTicks => event = ClockEvent::Sampled { wall_ns, ticks },
            ClockAction::ReadTicks => event = ClockEvent::TicksRead { ticks },
            done => return done,
        }
    }
}

#[test]
fn scale_new_refuses_zero_denominator() {
    assert_eq!(TickScale::new(1, 0), Err(ClockError::ClockUnavailable));
    assert_eq!(TickScale::new(125, 3), Ok(TickScale { numer: 125, denom: 3 }));
}

#[test]
fn scale_from_query_checks_status() {
    assert_eq!(TickScale::from_query(0, 125, 3), Ok(TickScale { numer: 125, denom: 3 }));
    assert_eq!(TickScale::from_query(5, 125, 3), Err(ClockError::ClockUnavailable));
    assert_eq!(TickScale::from_query(0, 0, 0), Err(ClockError::ClockUnavailable));
}

#[test]
fn converter_exact_values() {
    let s = TickScale { numer: 125, denom: 3 };
    assert_eq!(monotonic_nanos(0, s), 0);
    assert_eq!(monotonic_nanos(1000, s), 41_666);
    assert_eq!(monotonic_nanos(1000, unit_scale()), 1000);
    assert_eq!(
        monotonic_nanos(u64::MAX, TickScale { numer: u32::MAX, denom: 1 }),
        u64::MAX as u128 * u32::MAX as u128
    );
}

#[test]
fn converter_doubling_within_rounding() {
    let s = TickScale { numer: 125, denom: 3 };
    for x in [1u64, 2, 7, 1000, 123_456_789] {
        let single = monotonic_nanos(x, s);
        let double = monotonic_nanos(2 * x, s);
        assert!(double == 2 * single || double == 2 * single + 1);
    }
    assert_eq!(monotonic_nanos(1, s), 41);
    assert_eq!(monotonic_nanos(2, s), 83);
}

#[test]
fn anchor_and_elapsed() {
    let c = HighResClock::new(WALL, 1000, unit_scale());
    assert_eq!(c.base_time_ns, WALL);
    assert_eq!(c.base_monotonic_ns, 1000);
    assert_eq!(c.elapsed_nanos(1500), Ok(500));
    assert_eq!(c.elapsed_nanos(999), Err(ClockError::ClockRegression));
    assert_eq!(c.now_nanos(1500, unit_scale()), WALL + 500);
}

#[test]
fn regression_returns_anchor_wall_time() {
    let c = HighResClock::new(WALL, 1000, unit_scale());
    assert_eq!(c.now_nanos(400, unit_scale()), WALL);
}

#[test]
fn sum_saturates_at_max() {
    let c = HighResClock::new(u128::MAX - 10, 0, unit_scale());
    assert_eq!(c.now_nanos(100, unit_scale()), u128::MAX);
}

#[test]
fn deterministic_replay() {
    let mut cell = ClockCell::new();
    let first = request(&mut cell, (0, 1, 1), WALL, 1000);
    assert_eq!(first, ClockAction::Timestamp(WALL));
    let later = request(&mut cell, (0, 1, 1), 0, 1500);
    assert_eq!(later, ClockAction::Timestamp(1_700_000_000_000_000_500));
}

#[test]
fn first_call_returns_wall_sample() {
    let mut cell = ClockCell::new();
    assert!(!cell.is_calibrated());
    assert_eq!(
        request(&mut cell, (0, 125, 3), 1_234_567_890_123_456_789, 99_999),
        ClockAction::Timestamp(1_234_567_890_123_456_789)
    );
    assert!(cell.is_calibrated());
}

#[test]
fn timestamps_non_decreasing() {
    let mut cell = ClockCell::new();
    let mut last = 0u128;
    for ticks in [5_000u64, 5_000, 5_001, 5_100, 9_999, 1_000_000] {
        match request(&mut cell, (0, 125, 3), WALL, ticks) {
            ClockAction::Timestamp(t) => {
                assert!(t >= last);
                last = t;
            }
            other => panic!("unexpected {:?}", other),
        }
    }
    assert_eq!(last, WALL + 41_666_666 - 208_333);
}

#[test]
fn underflow_policy_after_calibration() {
    let mut cell = ClockCell::new();
    assert_eq!(request(&mut cell, (0, 1, 1), WALL, 1000), ClockAction::Timestamp(WALL));
    assert_eq!(request(&mut cell, (0, 1, 1), 0, 10), ClockAction::Timestamp(WALL));
}

#[test]
fn scale_is_resolved_once() {
    let mut cell = ClockCell::new();
    assert_eq!(get_timestamp_ns(&mut cell, ClockEvent::Request), ClockAction::QueryScale);
    let ev = ClockEvent::ScaleQueried { status: 0, numer: 125, denom: 3 };
    assert_eq!(get_timestamp_ns(&mut cell, ev), ClockAction::SampleWallAndTicks);
    let first = cell.scale;
    let again = ClockEvent::ScaleQueried { status: 0, numer: 7, denom: 9 };
    assert_eq!(get_timestamp_ns(&mut cell, again), ClockAction::SampleWallAndTicks);
    assert_eq!(cell.scale, first);
    assert_eq!(first, Some(Ok(TickScale { numer: 125, denom: 3 })));
}

#[test]
fn failed_scale_query_is_reported_and_kept() {
    let mut cell = ClockCell::new();
    assert_eq!(
        request(&mut cell, (1, 0, 0), WALL, 1000),
        ClockAction::Fail(ClockError::ClockUnavailable)
    );
    assert_eq!(
        get_timestamp_ns(&mut cell, ClockEvent::Request),
        ClockAction::Fail(ClockError::ClockUnavailable)
    );
    assert!(!cell.is_calibrated());
}

#[test]
fn anchor_set_only_once() {
    let mut cell = ClockCell::new();
    request(&mut cell, (0, 1, 1), WALL, 1000);
    let stray = ClockEvent::Sampled { wall_ns: 5, ticks: 5 };
    assert_eq!(get_timestamp_ns(&mut cell, stray), ClockAction::ReadTicks);
    assert_eq!(cell.anchor, Some(HighResClock { base_time_ns: WALL, base_monotonic_ns: 1000 }));
}

#[test]
fn ticks_before_calibration_ask_for_sample() {
    let mut cell = ClockCell::new();
    assert_eq!(
        get_timestamp_ns(&mut cell, ClockEvent::TicksRead { ticks: 3 }),
        ClockAction::QueryScale
    );
    let ev = ClockEvent::ScaleQueried { status: 0, numer: 1, denom: 1 };
    get_timestamp_ns(&mut cell, ev);
    assert_eq!(
        get_timestamp_ns(&mut cell, ClockEvent::TicksRead { ticks: 3 }),
        ClockAction::SampleWallAndTicks
    );
}

#[test]
fn datetime_split() {
    assert_eq!(
        get_timestamp_ns_datetime(1_700_000_000_123_456_789),
        Some(EpochInstant { secs: 1_700_000_000, subsec_nanos: 123_456_789 })
    );
    assert_eq!(get_timestamp_ns_datetime(0), Some(EpochInstant { secs: 0, subsec_nanos: 0 }));
    assert_eq!(
        get_timestamp_ns_datetime(i64::MAX as u128),
        Some(EpochInstant { secs: 9_223_372_036, subsec_nanos: 854_775_807 })
    );
    assert_eq!(get_timestamp_ns_datetime(i64::MAX as u128 + 1), None);
}
