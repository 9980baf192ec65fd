use crate::clock::{timestamp_at, HighResClock};
use crate::scale::{scale_from_query, ticks_to_nanos, ClockError, TickScale};
use vstd::prelude::*;

verus! {

/// What the caller has just done for the clock.
#[derive(Clone, Copy, Debug, PartialEq, Eq, Structural)]
pub enum ClockEvent {
    /// A timestamp is wanted.
    Request,
    /// The tick-scale query returned `status` (zero for success) and the
    /// ratio `numer / denom`.
    ScaleQueried { status: i32, numer: u32, denom: u32 },
    /// The wall clock read `wall_ns` nanoseconds since the Unix epoch, and the
    /// tick counter read `ticks` right after it.
    Sampled { wall_ns: u128, ticks: u64 },
    /// The tick counter read `ticks`.
    TicksRead { ticks: u64 },
}

/// What the clock asks of the caller next.
#[derive(Clone, Copy, Debug, PartialEq, Eq, Structural)]
pub enum ClockAction {
    /// Query the tick scale and report it with `ScaleQueried`.
    QueryScale,
    /// Read the wall clock, then the tick counter, and report with `Sampled`.
    SampleWallAndTicks,
    /// Read the tick counter and report with `TicksRead`.
    ReadTicks,
    /// The request is answered with this timestamp.
    Timestamp(u128),
    /// The clock cannot answer, now or later.
    Fail(ClockError),
}

/// The process-wide clock state: the tick scale, resolved at most once, and
/// the calibration anchor, set at most once.
#[derive(Clone, Copy, Debug)]
pub struct ClockCell {
    pub scale: Option<Result<TickScale, ClockError>>,
    pub anchor: Option<HighResClock>,
}

impl ClockCell {
    /// A resolved scale is usable, and an anchor exists only beside a usable
    /// scale.
    pub open spec fn wf(self) -> bool {
        &&& (self.scale matches Some(Ok(s)) ==> s.wf())
        &&& (self.anchor is Some ==> self.scale matches Some(Ok(_)))
    }

    /// The action that the state alone calls for: resolve the scale, report
    /// its failure, calibrate, or read the ticks of a calibrated clock.
    pub open spec fn pending_action(self) -> ClockAction {
        match self.scale {
            None => ClockAction::QueryScale,
            Some(Err(e)) => ClockAction::Fail(e),
            Some(Ok(_)) => if self.anchor is None {
                ClockAction::SampleWallAndTicks
            } else {
                ClockAction::ReadTicks
            },
        }
    }

    /// A clock that has neither scale nor anchor yet.
    pub fn new() -> (r: ClockCell)
        ensures
            r.wf(),
            r.scale is None,
            r.anchor is None,
    {
        ClockCell { scale: None, anchor: None }
    }

    /// Whether the clock has been anchored.
    pub fn is_calibrated(&self) -> (r: bool)
        ensures
            r == self.anchor is Some,
    {
        self.anchor.is_some()
    }
}

/// One step of a timestamp request. The caller starts a request with
/// `ClockEvent::Request`, carries out each action asked for and reports it
/// with the matching event, until a `Timestamp` or a `Fail` comes back.
///
/// The scale is resolved on the first `ScaleQueried` and the anchor is set on
/// the first `Sampled`; neither changes afterwards. The request that
/// calibrates the clock is answered with the wall-clock sample itself; each
/// later one with the anchor's wall time plus the monotonic time elapsed since
/// it. An event that the state does not call for changes nothing, and the
/// clock asks again for what it needs.
pub fn get_timestamp_ns(cell: &mut ClockCell, event: ClockEvent) -> (r: ClockAction)
    requires
        old(cell).wf(),
    ensures
        final(cell).wf(),
        old(cell).scale is Some ==> final(cell).scale == old(cell).scale,
        old(cell).anchor is Some ==> final(cell).anchor == old(cell).anchor,
        match event {
            ClockEvent::ScaleQueried { status, numer, denom } => {
                &&& old(cell).scale is None ==> final(cell).scale == Some(
                    scale_from_query(status, numer, denom),
                )
                &&& final(cell).anchor == old(cell).anchor
                &&& r == final(cell).pending_action()
            },
            ClockEvent::Sampled { wall_ns, ticks } => {
                &&& final(cell).scale == old(cell).scale
                &&& if old(cell).scale matches Some(Ok(_)) && old(cell).anchor is None {
                    &&& final(cell).anchor == Some(
                        HighResClock {
                            base_time_ns: wall_ns,
                            base_monotonic_ns: ticks_to_nanos(ticks as int, old(cell).scale->Some_0->Ok_0) as u128,
                        },
                    )
                    &&& r == ClockAction::Timestamp(wall_ns)
                } else {
                    &&& *final(cell) == *old(cell)
                    &&& r == old(cell).pending_action()
                }
            },
            ClockEvent::TicksRead { ticks } => {
                &&& *final(cell) == *old(cell)
                &&& if old(cell).scale matches Some(Ok(_)) && old(cell).anchor is Some {
                    r == ClockAction::Timestamp(
                        timestamp_at(old(cell).anchor.unwrap(), ticks_to_nanos(ticks as int, old(cell).scale->Some_0->Ok_0))
                            as u128,
                    )
                } else {
                    r == old(cell).pending_action()
                }
            },
            ClockEvent::Request => {
                &&& *final(cell) == *old(cell)
                &&& r == old(cell).pending_action()
            },
        },
{
    match event {
        ClockEvent::ScaleQueried { status, numer, denom } => {
            if cell.scale.is_none() {
                cell.scale = Some(TickScale::from_query(status, numer, denom));
            }
        },
        ClockEvent::Sampled { wall_ns, ticks } => {
            if let Some(Ok(s)) = cell.scale {
                if cell.anchor.is_none() {
                    cell.anchor = Some(HighResClock::new(wall_ns, ticks, s));
                    return ClockAction::Timestamp(wall_ns);
                }
            }
        },
        ClockEvent::TicksRead { ticks } => {
            if let Some(Ok(s)) = cell.scale {
                if let Some(a) = cell.anchor {
                    return ClockAction::Timestamp(a.now_nanos(ticks, s));
                }
            }
        },
        ClockEvent::Request => {},
    }
    match cell.scale {
        None => ClockAction::QueryScale,
        Some(Err(e)) => ClockAction::Fail(e),
        Some(Ok(_)) => if cell.anchor.is_none() {
            ClockAction::SampleWallAndTicks
        } else {
            ClockAction::ReadTicks
        },
    }
}

} // verus!
