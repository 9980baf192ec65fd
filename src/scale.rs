use vstd::arithmetic::div_mod::{
    lemma_div_is_ordered, lemma_fundamental_div_mod, lemma_fundamental_div_mod_converse,
    lemma_mod_pos_bound,
};
use vstd::arithmetic::mul::lemma_mul_inequality;
use vstd::prelude::*;

verus! {

/// Why the clock cannot hand out timestamps.
#[derive(Clone, Copy, Debug, PartialEq, Eq, Structural)]
pub enum ClockError {
    /// The operating system could not report a usable tick scale.
    ClockUnavailable,
    /// A monotonic sample was earlier than the calibration anchor.
    ClockRegression,
}

/// How many nanoseconds one hardware tick stands for, as `numer / denom`.
#[derive(Clone, Copy, Debug, PartialEq, Eq, Structural)]
pub struct TickScale {
    pub numer: u32,
    pub denom: u32,
}

impl TickScale {
    /// A scale is usable when its denominator is not zero.
    pub open spec fn wf(self) -> bool {
        self.denom != 0
    }

    /// Builds a scale from a numerator and a denominator, refusing a zero
    /// denominator.
    pub fn new(numer: u32, denom: u32) -> (r: Result<TickScale, ClockError>)
        ensures
            denom != 0 ==> r == Ok::<TickScale, ClockError>(TickScale { numer, denom }),
            denom == 0 ==> r == Err::<TickScale, ClockError>(ClockError::ClockUnavailable),
    {
        if denom == 0 {
            Err(ClockError::ClockUnavailable)
        } else {
            Ok(TickScale { numer, denom })
        }
    }

    /// Interprets the answer of the operating system's tick-scale query: the
    /// status it returned (zero for success) and the ratio it filled in.
    pub fn from_query(status: i32, numer: u32, denom: u32) -> (r: Result<TickScale, ClockError>)
        ensures
            r == scale_from_query(status, numer, denom),
    {
        if status != 0 {
            Err(ClockError::ClockUnavailable)
        } else {
            TickScale::new(numer, denom)
        }
    }
}

/// The scale that a tick-scale query yields: its ratio when the query
/// succeeded with a non-zero denominator, `ClockUnavailable` otherwise.
pub open spec fn scale_from_query(status: i32, numer: u32, denom: u32) -> Result<TickScale, ClockError> {
    if status == 0 && denom != 0 {
        Ok(TickScale { numer, denom })
    } else {
        Err(ClockError::ClockUnavailable)
    }
}

/// `ticks * numer / denom`, rounded toward zero.
pub open spec fn ticks_to_nanos(ticks: int, scale: TickScale) -> int {
    ticks * scale.numer / (scale.denom as int)
}

/// Converts a raw tick count to nanoseconds with 128-bit intermediate
/// precision, so the product cannot overflow before the division.
pub fn monotonic_nanos(ticks: u64, scale: TickScale) -> (r: u128)
    requires
        scale.wf(),
    ensures
        r == ticks_to_nanos(ticks as int, scale),
{
    let t = ticks as u128;
    let n = scale.numer as u128;
    proof {
        assert(t * n <= 0xffff_ffff_ffff_ffffu128 * 0xffff_ffffu128) by (nonlinear_arith)
            requires
                t <= 0xffff_ffff_ffff_ffffu128,
                n <= 0xffff_ffffu128,
        ;
    }
    (t * n) / (scale.denom as u128)
}

/// Zero ticks are zero nanoseconds.
pub proof fn lemma_zero_ticks(scale: TickScale)
    requires
        scale.wf(),
    ensures
        ticks_to_nanos(0, scale) == 0,
{
}

/// The conversion is linear up to rounding: converting twice as many ticks
/// gives twice the nanoseconds, or one more.
pub proof fn lemma_double_ticks(x: int, scale: TickScale)
    requires
        scale.wf(),
        0 <= x,
    ensures
        ticks_to_nanos(2 * x, scale) == 2 * ticks_to_nanos(x, scale) || ticks_to_nanos(2 * x, scale)
            == 2 * ticks_to_nanos(x, scale) + 1,
{
    let d = scale.denom as int;
    let a = x * scale.numer;
    let q = a / d;
    let r = a % d;
    assert(0 <= a) by (nonlinear_arith)
        requires
            a == x * scale.numer,
            0 <= x,
            0 <= scale.numer,
    ;
    lemma_fundamental_div_mod(a, d);
    lemma_mod_pos_bound(a, d);
    assert(2 * x * scale.numer == 2 * a) by (nonlinear_arith)
        requires
            a == x * scale.numer,
    ;
    if 2 * r < d {
        assert(2 * a == (2 * q) * d + 2 * r) by (nonlinear_arith)
            requires
                a == d * q + r,
        ;
        lemma_fundamental_div_mod_converse(2 * a, d, 2 * q, 2 * r);
    } else {
        assert(2 * a == (2 * q + 1) * d + (2 * r - d)) by (nonlinear_arith)
            requires
                a == d * q + r,
        ;
        lemma_fundamental_div_mod_converse(2 * a, d, 2 * q + 1, 2 * r - d);
    }
}

/// More ticks never convert to fewer nanoseconds.
pub proof fn lemma_ticks_to_nanos_ordered(t1: int, t2: int, scale: TickScale)
    requires
        scale.wf(),
        t1 <= t2,
    ensures
        ticks_to_nanos(t1, scale) <= ticks_to_nanos(t2, scale),
{
    lemma_mul_inequality(t1, t2, scale.numer as int);
    lemma_div_is_ordered(t1 * scale.numer, t2 * scale.numer, scale.denom as int);
}

} // verus!
