//! Nanosecond-resolution wall-clock timestamps built from one coarse wall-clock
//! sample and a high-resolution monotonic tick counter.
//!
//! The library holds the calibration logic: the tick scale, the conversion of
//! ticks to nanoseconds, the calibration anchor and the init-once clock state.
//! Reading the operating system's clocks is left to the caller, who hands the
//! samples in as plain integers.

pub mod cell;
pub mod clock;
pub mod datetime;
pub mod scale;

pub use cell::{get_timestamp_ns, ClockAction, ClockCell, ClockEvent};
pub use clock::HighResClock;
pub use datetime::{get_timestamp_ns_datetime, EpochInstant};
pub use scale::{monotonic_nanos, ClockError, TickScale};
