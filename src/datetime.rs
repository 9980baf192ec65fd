use vstd::prelude::*;

verus! {

/// Nanoseconds in one second.
pub const NANOS_PER_SEC: u128 = 1_000_000_000;

/// A UTC instant as whole seconds since the Unix epoch and the nanoseconds
/// past that second, the parts a calendar rendering is built from.
#[derive(Clone, Copy, Debug, PartialEq, Eq, Structural)]
pub struct EpochInstant {
    pub secs: i64,
    pub subsec_nanos: u32,
}

impl EpochInstant {
    /// Nanoseconds since the Unix epoch that the instant stands for.
    pub open spec fn total_nanos(self) -> int {
        self.secs * 1_000_000_000 + self.subsec_nanos
    }
}

/// Splits a nanosecond timestamp into seconds and sub-second nanoseconds for
/// display. Calendar values count nanoseconds in an `i64`, so a timestamp
/// beyond `i64::MAX` is refused with `None`.
pub fn get_timestamp_ns_datetime(ts_ns: u128) -> (r: Option<EpochInstant>)
    ensures
        ts_ns <= i64::MAX ==> (r matches Some(t) && t.total_nanos() == ts_ns && t.subsec_nanos
            < 1_000_000_000),
        ts_ns > i64::MAX ==> r is None,
{
    if ts_ns > i64::MAX as u128 {
        return None;
    }
    let secs = ts_ns / NANOS_PER_SEC;
    let nanos = ts_ns % NANOS_PER_SEC;
    assert(secs <= ts_ns);
    Some(EpochInstant { secs: secs as i64, subsec_nanos: nanos as u32 })
}

} // verus!
