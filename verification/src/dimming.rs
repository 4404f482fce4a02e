//! The LED dimming ramp: the brightness climbs from 0 % to 100 % one percent
//! at a time, falls back the same way, and the ramp pauses before repeating.

use vstd::prelude::*;
use crate::pwm::{duty_from_percent, fraction_duty, lemma_fraction_duty_monotonic};

verus! {

/// The number of brightness steps in one ramp: 0..=100 up, then 100..=0 down.
pub const RAMP_STEPS: usize = 202;

/// The wait before each step of the ramp, in milliseconds.
pub const RAMP_STEP_MS: u64 = 8;

/// The pause after a whole ramp, in milliseconds.
pub const RAMP_PAUSE_MS: u64 = 500;

/// The brightness, in percent, at `step` of the ramp.
pub open spec fn ramp_level(step: int) -> int {
    if step <= 100 {
        step
    } else {
        201 - step
    }
}

/// The brightness, in percent, at `step` of the ramp.
pub fn ramp_percent(step: usize) -> (percent: u8)
    requires
        step < RAMP_STEPS,
    ensures
        percent == ramp_level(step as int),
        percent <= 100,
        step <= 100 ==> percent == step,
        step > 100 ==> percent + step == 201,
{
    if step <= 100 {
        step as u8
    } else {
        (201 - step) as u8
    }
}

/// The compare values of one whole ramp for a PWM output whose largest
/// compare value is `max_duty`, in the order they are applied.
pub fn ramp_duties(max_duty: u16) -> (duties: Vec<u16>)
    ensures
        duties.len() == RAMP_STEPS,
        forall|i: int|
            0 <= i < RAMP_STEPS ==> #[trigger] duties[i] == fraction_duty(
                ramp_level(i),
                100,
                max_duty as int,
            ),
{
    let mut duties: Vec<u16> = Vec::new();
    let mut step: usize = 0;
    while step < RAMP_STEPS
        invariant
            step <= RAMP_STEPS,
            duties.len() == step,
            forall|i: int|
                0 <= i < step ==> #[trigger] duties[i] == fraction_duty(
                    ramp_level(i),
                    100,
                    max_duty as int,
                ),
        decreases RAMP_STEPS - step,
    {
        let percent = ramp_percent(step);
        duties.push(duty_from_percent(percent, max_duty));
        step = step + 1;
    }
    duties
}

/// The ramp is symmetric, stays between 0 % and 100 %, starts and ends
/// dark, and is fully bright at its middle.
pub proof fn lemma_ramp_shape(step: int)
    requires
        0 <= step < RAMP_STEPS,
    ensures
        ramp_level(step) == ramp_level(201 - step),
        0 <= ramp_level(step) <= 100,
        ramp_level(0) == 0,
        ramp_level(201) == 0,
        ramp_level(100) == 100,
        ramp_level(101) == 100,
{
}

/// The ramp never jumps: neighbouring steps differ by at most one percent,
/// rising in the first half and falling in the second.
pub proof fn lemma_ramp_is_gradual(step: int)
    requires
        0 <= step < RAMP_STEPS - 1,
    ensures
        step < 100 ==> ramp_level(step + 1) == ramp_level(step) + 1,
        step == 100 ==> ramp_level(step + 1) == ramp_level(step),
        step > 100 ==> ramp_level(step + 1) == ramp_level(step) - 1,
{
}

/// The compare values follow the ramp: they never fall while it climbs and
/// never rise while it falls.
pub proof fn lemma_ramp_duties_follow_ramp(step: int, max_duty: int)
    requires
        0 <= step < RAMP_STEPS - 1,
        0 <= max_duty,
    ensures
        step < 101 ==> fraction_duty(ramp_level(step), 100, max_duty) <= fraction_duty(
            ramp_level(step + 1),
            100,
            max_duty,
        ),
        step >= 100 ==> fraction_duty(ramp_level(step + 1), 100, max_duty) <= fraction_duty(
            ramp_level(step),
            100,
            max_duty,
        ),
{
    if step < 101 {
        lemma_fraction_duty_monotonic(ramp_level(step), ramp_level(step + 1), 100, max_duty);
    }
    if step >= 100 {
        lemma_fraction_duty_monotonic(ramp_level(step + 1), ramp_level(step), 100, max_duty);
    }
}

} // verus!
