//! The servo sweep: the PWM slice runs with divider `PWM_DIV_INT` and wrap
//! value `PWM_TOP`, and the servo is moved in turn to its minimum, middle and
//! maximum positions, each given as a fraction of the PWM period.

use vstd::prelude::*;
use crate::pwm::{duty_from_fraction, fraction_duty, lemma_fraction_duty_monotonic};

verus! {

/// The integer clock divider of the servo's PWM slice.
pub const PWM_DIV_INT: u8 = 64;

/// The wrap value of the servo's PWM slice.
pub const PWM_TOP: u16 = 46_874;

/// The number of positions in one sweep.
pub const SWEEP_POSITIONS: usize = 3;

/// How long each position is held, in milliseconds.
pub const HOLD_MS: u64 = 1000;

/// The denominator of every servo fraction.
pub const FRACTION_DENOM: u16 = 1000;

/// The numerator (per mille of the period) of each sweep position:
/// minimum, middle, maximum.
pub open spec fn position_numerator(position: int) -> int {
    if position == 0 {
        25
    } else if position == 1 {
        75
    } else {
        120
    }
}

/// The fraction of the period, `(numerator, denominator)`, for `position`.
pub fn servo_fraction(position: usize) -> (fraction: (u16, u16))
    requires
        position < SWEEP_POSITIONS,
    ensures
        fraction.0 == position_numerator(position as int),
        fraction.1 == FRACTION_DENOM,
        position == 0 ==> fraction == (25u16, 1000u16),
        position == 1 ==> fraction == (75u16, 1000u16),
        position == 2 ==> fraction == (120u16, 1000u16),
{
    if position == 0 {
        (25, FRACTION_DENOM)
    } else if position == 1 {
        (75, FRACTION_DENOM)
    } else {
        (120, FRACTION_DENOM)
    }
}

/// The compare value for `position` on a PWM output whose largest compare
/// value is `max_duty`; it never exceeds `max_duty`.
pub fn servo_duty(position: usize, max_duty: u16) -> (duty: u16)
    requires
        position < SWEEP_POSITIONS,
    ensures
        duty == fraction_duty(
            position_numerator(position as int),
            FRACTION_DENOM as int,
            max_duty as int,
        ),
        duty <= max_duty,
{
    let (num, denom) = servo_fraction(position);
    duty_from_fraction(num, denom, max_duty)
}

/// The position that follows `position` in the sweep: after the maximum
/// comes the minimum again.
pub open spec fn sweep_next(position: int) -> int {
    (position + 1) % (SWEEP_POSITIONS as int)
}

/// The position that follows `position` in the sweep (after the maximum
/// comes the minimum again).
pub fn next_position(position: usize) -> (next: usize)
    requires
        position < SWEEP_POSITIONS,
    ensures
        next == sweep_next(position as int),
        next < SWEEP_POSITIONS,
        position < 2 ==> next == position + 1,
        position == 2 ==> next == 0,
{
    if position + 1 == SWEEP_POSITIONS {
        0
    } else {
        position + 1
    }
}

/// Later positions of a sweep never get a smaller compare value, so the
/// servo moves from its minimum through the middle to its maximum.
pub proof fn lemma_sweep_is_ordered(p1: int, p2: int, max_duty: int)
    requires
        0 <= p1 <= p2 < SWEEP_POSITIONS,
        0 <= max_duty,
    ensures
        fraction_duty(position_numerator(p1), FRACTION_DENOM as int, max_duty) <= fraction_duty(
            position_numerator(p2),
            FRACTION_DENOM as int,
            max_duty,
        ),
{
    lemma_fraction_duty_monotonic(
        position_numerator(p1),
        position_numerator(p2),
        FRACTION_DENOM as int,
        max_duty,
    );
}

/// Three steps of the sweep come back to the starting position.
pub proof fn lemma_sweep_repeats(position: int)
    requires
        0 <= position < SWEEP_POSITIONS,
    ensures
        0 <= sweep_next(position) < SWEEP_POSITIONS,
        sweep_next(sweep_next(sweep_next(position))) == position,
{
}

} // verus!
