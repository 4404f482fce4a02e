//! Duty-cycle arithmetic of `embedded_hal::pwm::SetDutyCycle`.
//!
//! The trait's provided methods `set_duty_cycle_fraction` and
//! `set_duty_cycle_percent` turn a fraction of the period into a compare
//! value before handing it to the driver's `set_duty_cycle`.  That
//! computation is stated and proved here, so that a program can compute the
//! compare value itself and hand it to `set_duty_cycle`.

use vstd::prelude::*;
use vstd::arithmetic::div_mod::{
    lemma_div_is_ordered, lemma_div_multiples_vanish, lemma_fundamental_div_mod, lemma_mod_pos_bound,
};
use vstd::arithmetic::mul::lemma_mul_inequality;

verus! {

/// The compare value for the fraction `num / denom` of a period whose
/// largest compare value is `max_duty`: `num * max_duty / denom`, rounded down.
pub open spec fn fraction_duty(num: int, denom: int, max_duty: int) -> int {
    num * max_duty / denom
}

/// Computes `num * max_duty / denom` in 32-bit arithmetic, as
/// `SetDutyCycle::set_duty_cycle_fraction` does.  That method asserts
/// `denom != 0` and `num <= denom`, so those are required here.
pub fn duty_from_fraction(num: u16, denom: u16, max_duty: u16) -> (duty: u16)
    requires
        denom != 0,
        num <= denom,
    ensures
        duty == fraction_duty(num as int, denom as int, max_duty as int),
        duty <= max_duty,
        duty * denom <= num * max_duty < (duty + 1) * denom,
{
    proof {
        lemma_fraction_duty_bounded(num as int, denom as int, max_duty as int);
        lemma_fraction_duty_rounds_down(num as int, denom as int, max_duty as int);
        assert((num as int) * (max_duty as int) <= 65535 * 65535) by (nonlinear_arith)
            requires
                num <= 65535,
                max_duty <= 65535,
        ;
    }
    let product: u32 = (num as u32) * (max_duty as u32);
    let duty: u32 = product / (denom as u32);
    duty as u16
}

/// Computes the compare value for `percent` percent of the period, as
/// `SetDutyCycle::set_duty_cycle_percent` does (the fraction `percent / 100`).
pub fn duty_from_percent(percent: u8, max_duty: u16) -> (duty: u16)
    requires
        percent <= 100,
    ensures
        duty == fraction_duty(percent as int, 100, max_duty as int),
        duty <= max_duty,
        duty * 100 <= percent * max_duty < (duty + 1) * 100,
{
    duty_from_fraction(percent as u16, 100, max_duty)
}

/// A fraction of at most one whole period never asks for more than the
/// largest compare value, so the driver never rejects it; the empty fraction
/// gives 0 and the whole period gives exactly `max_duty`.
pub proof fn lemma_fraction_duty_bounded(num: int, denom: int, max_duty: int)
    requires
        0 < denom,
        0 <= num <= denom,
        0 <= max_duty,
    ensures
        0 <= fraction_duty(num, denom, max_duty) <= max_duty,
        fraction_duty(0, denom, max_duty) == 0,
        fraction_duty(denom, denom, max_duty) == max_duty,
{
    lemma_mul_inequality(num, denom, max_duty);
    lemma_mul_inequality(0, num, max_duty);
    lemma_div_is_ordered(num * max_duty, denom * max_duty, denom);
    lemma_div_is_ordered(0, num * max_duty, denom);
    lemma_div_multiples_vanish(max_duty, denom);
    assert(denom * max_duty == max_duty * denom) by (nonlinear_arith);
    assert(0 * max_duty == 0);
}

/// A larger fraction of the same period never gives a smaller compare value.
pub proof fn lemma_fraction_duty_monotonic(num1: int, num2: int, denom: int, max_duty: int)
    requires
        0 < denom,
        0 <= num1 <= num2,
        0 <= max_duty,
    ensures
        fraction_duty(num1, denom, max_duty) <= fraction_duty(num2, denom, max_duty),
{
    lemma_mul_inequality(num1, num2, max_duty);
    lemma_div_is_ordered(num1 * max_duty, num2 * max_duty, denom);
}

/// The compare value is the fraction of `max_duty` rounded down: the
/// largest whole number `duty` with `duty * denom <= num * max_duty`.
pub proof fn lemma_fraction_duty_rounds_down(num: int, denom: int, max_duty: int)
    requires
        0 < denom,
        0 <= num,
        0 <= max_duty,
    ensures
        fraction_duty(num, denom, max_duty) * denom <= num * max_duty,
        num * max_duty < (fraction_duty(num, denom, max_duty) + 1) * denom,
{
    let x = num * max_duty;
    let q = x / denom;
    assert(0 <= num * max_duty) by (nonlinear_arith)
        requires
            0 <= num,
            0 <= max_duty,
    ;
    lemma_fundamental_div_mod(x, denom);
    lemma_mod_pos_bound(x, denom);
    assert(q * denom == denom * q) by (nonlinear_arith);
    assert((q + 1) * denom == q * denom + denom) by (nonlinear_arith);
}

} // verus!
