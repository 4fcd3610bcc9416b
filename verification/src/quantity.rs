//! Typed physical quantities in fixed point.
//!
//! A voltage is a whole number of microvolts, a current a whole number of
//! picoamperes and a resistance a whole number of ohms. Keeping the three apart
//! as types makes every conversion between them an explicit, checked step.

use vstd::prelude::*;

verus! {

/// An electric potential, in microvolts.
#[derive(Clone, Copy, Debug, PartialEq, Eq, Structural)]
pub struct Voltage {
    pub microvolts: i32,
}

/// An electric current, in picoamperes.
#[derive(Clone, Copy, Debug, PartialEq, Eq, Structural)]
pub struct Current {
    pub picoamperes: i64,
}

/// An electrical resistance, in ohms.
#[derive(Clone, Copy, Debug, PartialEq, Eq, Structural)]
pub struct Resistance {
    pub ohms: u32,
}

/// Quotient of `a` by a positive `b`, rounded towards zero.
pub open spec fn trunc_div(a: int, b: int) -> int {
    if a >= 0 {
        a / b
    } else {
        -((-a) / b)
    }
}

/// `x` limited to `[lo, hi]`. The lower bound is tested first, so the result is
/// one of the two bounds even when they cross.
pub open spec fn clamp(x: int, lo: int, hi: int) -> int {
    if x < lo {
        lo
    } else if x > hi {
        hi
    } else {
        x
    }
}

/// Picoamperes that flow through a transimpedance stage of `ohms` whose
/// differential output reads `microvolts`: the voltage over twice the
/// resistance.
pub open spec fn spec_photocurrent(microvolts: int, ohms: int) -> int {
    trunc_div(microvolts * 1_000_000, 2 * ohms)
}

/// A clamped value lies between the bounds whenever the bounds are ordered,
/// and is the nearest bound for a value outside them.
pub proof fn lemma_clamp_within(x: int, lo: int, hi: int)
    requires
        lo <= hi,
    ensures
        lo <= clamp(x, lo, hi) <= hi,
        x < lo ==> clamp(x, lo, hi) == lo,
        x > hi ==> clamp(x, lo, hi) == hi,
        lo <= x <= hi ==> clamp(x, lo, hi) == x,
{
}

/// Truncating division never moves a value away from zero.
pub proof fn lemma_trunc_div_bounds(a: int, b: int)
    requires
        b > 0,
    ensures
        a >= 0 ==> 0 <= trunc_div(a, b) <= a,
        a <= 0 ==> a <= trunc_div(a, b) <= 0,
{
    if a >= 0 {
        assert(0 <= a / b <= a) by (nonlinear_arith)
            requires
                a >= 0,
                b > 0,
        ;
    } else {
        let n = -a;
        assert(0 <= n / b <= n) by (nonlinear_arith)
            requires
                n >= 0,
                b > 0,
        ;
    }
}

/// Limits a wide intermediate value to `[lo, hi]`.
pub fn clamp_to(x: i128, lo: Current, hi: Current) -> (r: Current)
    ensures
        r.picoamperes == clamp(x as int, lo.picoamperes as int, hi.picoamperes as int),
{
    if x < lo.picoamperes as i128 {
        lo
    } else if x > hi.picoamperes as i128 {
        hi
    } else {
        Current { picoamperes: x as i64 }
    }
}

/// Limits a wide intermediate value to 64 bits.
pub fn limit(x: i128) -> (r: i64)
    ensures
        r == clamp(x as int, i64::MIN as int, i64::MAX as int),
{
    if x < i64::MIN as i128 {
        i64::MIN
    } else if x > i64::MAX as i128 {
        i64::MAX
    } else {
        x as i64
    }
}

/// Limits a wide intermediate value to what a current can hold.
pub fn saturate(x: i128) -> (r: Current)
    ensures
        r.picoamperes == clamp(x as int, i64::MIN as int, i64::MAX as int),
{
    Current { picoamperes: limit(x) }
}

/// Converts the output voltage of a transimpedance stage into the current at
/// its input.
pub fn photocurrent(voltage: Voltage, resistance: Resistance) -> (r: Current)
    requires
        resistance.ohms > 0,
    ensures
        r.picoamperes == spec_photocurrent(voltage.microvolts as int, resistance.ohms as int),
{
    let numerator: i64 = (voltage.microvolts as i64) * 1_000_000;
    let denominator: i64 = 2 * (resistance.ohms as i64);
    Current { picoamperes: numerator / denominator }
}

} // verus!
