use crate::scale::{lemma_ticks_to_nanos_ordered, monotonic_nanos, ticks_to_nanos, ClockError, TickScale};
use vstd::prelude::*;

verus! {

/// The calibration anchor: one wall-clock sample paired with the monotonic
/// time, in nanoseconds, read at the same instant.
#[derive(Clone, Copy, Debug, PartialEq, Eq, Structural)]
pub struct HighResClock {
    /// Nanoseconds since the Unix epoch at calibration.
    pub base_time_ns: u128,
    /// Converted monotonic nanoseconds at calibration.
    pub base_monotonic_ns: u128,
}

/// Monotonic nanoseconds elapsed since the anchor; a reading before the
/// anchor counts as no time at all.
pub open spec fn elapsed_since(clock: HighResClock, monotonic_ns: int) -> int {
    if monotonic_ns >= clock.base_monotonic_ns {
        monotonic_ns - clock.base_monotonic_ns
    } else {
        0
    }
}

/// The timestamp for a monotonic reading: the anchor's wall time plus the
/// elapsed time, held at `u128::MAX` should the sum not fit.
pub open spec fn timestamp_at(clock: HighResClock, monotonic_ns: int) -> int {
    let t = clock.base_time_ns + elapsed_since(clock, monotonic_ns);
    if t > u128::MAX {
        u128::MAX as int
    } else {
        t
    }
}

impl HighResClock {
    /// Anchors the clock on a wall-clock sample and the tick count read with
    /// it.
    pub fn new(wall_ns: u128, ticks: u64, scale: TickScale) -> (r: HighResClock)
        requires
            scale.wf(),
        ensures
            r.base_time_ns == wall_ns,
            r.base_monotonic_ns == ticks_to_nanos(ticks as int, scale),
    {
        let base_monotonic_ns = monotonic_nanos(ticks, scale);
        HighResClock { base_time_ns: wall_ns, base_monotonic_ns }
    }

    /// Monotonic nanoseconds elapsed since the anchor, or `ClockRegression`
    /// when the reading lies before it.
    pub fn elapsed_nanos(&self, monotonic_ns: u128) -> (r: Result<u128, ClockError>)
        ensures
            monotonic_ns >= self.base_monotonic_ns ==> r == Ok::<u128, ClockError>(
                (monotonic_ns - self.base_monotonic_ns) as u128,
            ),
            monotonic_ns < self.base_monotonic_ns ==> r == Err::<u128, ClockError>(
                ClockError::ClockRegression,
            ),
    {
        if monotonic_ns < self.base_monotonic_ns {
            Err(ClockError::ClockRegression)
        } else {
            Ok(monotonic_ns - self.base_monotonic_ns)
        }
    }

    /// The calibrated timestamp for a tick count read now. A reading before
    /// the anchor yields the anchor's wall time unchanged.
    pub fn now_nanos(&self, ticks: u64, scale: TickScale) -> (r: u128)
        requires
            scale.wf(),
        ensures
            r == timestamp_at(*self, ticks_to_nanos(ticks as int, scale)),
    {
        let current = monotonic_nanos(ticks, scale);
        let elapsed = match self.elapsed_nanos(current) {
            Ok(e) => e,
            Err(_) => 0,
        };
        self.base_time_ns.saturating_add(elapsed)
    }
}

/// A timestamp is never earlier than the wall time of the anchor.
pub proof fn lemma_timestamp_not_before_anchor(clock: HighResClock, monotonic_ns: int)
    ensures
        timestamp_at(clock, monotonic_ns) >= clock.base_time_ns,
{
}

/// Timestamps do not decrease while the tick counter does not.
pub proof fn lemma_timestamps_nondecreasing(clock: HighResClock, scale: TickScale, t1: u64, t2: u64)
    requires
        scale.wf(),
        t1 <= t2,
    ensures
        timestamp_at(clock, ticks_to_nanos(t1 as int, scale)) <= timestamp_at(
            clock,
            ticks_to_nanos(t2 as int, scale),
        ),
{
    lemma_ticks_to_nanos_ordered(t1 as int, t2 as int, scale);
}

} // verus!
