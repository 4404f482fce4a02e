use pico_kit::dimming::{ramp_duties, ramp_percent, RAMP_PAUSE_MS, RAMP_STEPS, RAMP_STEP_MS};
use pico_kit::servo::{next_position, servo_duty, servo_fraction, PWM_DIV_INT, PWM_TOP};

#[test]
fn ramp_goes_up_then_down() {
    assert_eq!(RAMP_STEPS, 202);
    assert_eq!(ramp_percent(0), 0);
    assert_eq!(ramp_percent(57), 57);
    assert_eq!(ramp_percent(100), 100);
    assert_eq!(ramp_percent(101), 100);
    assert_eq!(ramp_percent(150), 51);
    assert_eq!(ramp_percent(201), 0);
    for step in 0..RAMP_STEPS {
        assert_eq!(ramp_percent(step), ramp_percent(RAMP_STEPS - 1 - step));
    }
    assert_eq!((RAMP_STEP_MS, RAMP_PAUSE_MS), (8, 500));
}

#[test]
fn ramp_duties_for_default_top() {
    let d = ramp_duties(0xffff);
    assert_eq!(d.len(), 202);
    assert_eq!(d[0], 0);
    assert_eq!(d[1], 655);
    assert_eq!(d[50], 32_767);
    assert_eq!(d[100], 0xffff);
    assert_eq!(d[101], 0xffff);
    assert_eq!(d[151], 32_767);
    assert_eq!(d[201], 0);
}

#[test]
fn servo_positions_and_duties() {
    assert_eq!((PWM_DIV_INT, PWM_TOP), (64, 46_874));
    assert_eq!(servo_fraction(0), (25, 1000));
    assert_eq!(servo_fraction(1), (75, 1000));
    assert_eq!(servo_fraction(2), (120, 1000));
    assert_eq!(servo_duty(0, PWM_TOP), 1171);
    assert_eq!(servo_duty(1, PWM_TOP), 3515);
    assert_eq!(servo_duty(2, PWM_TOP), 5624);
}

#[test]
fn servo_sweep_cycles() {
    assert_eq!(next_position(0), 1);
    assert_eq!(next_position(1), 2);
    assert_eq!(next_position(2), 0);
    let mut p = 1;
    for _ in 0..3 {
        p = next_position(p);
    }
    assert_eq!(p, 1);
}
