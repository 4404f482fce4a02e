use pico_kit::pwm::{duty_from_fraction, duty_from_percent};

#[test]
fn fraction_duty_matches_servo_positions() {
    assert_eq!(duty_from_fraction(25, 1000, 46_874), 1171);
    assert_eq!(duty_from_fraction(75, 1000, 46_874), 3515);
    assert_eq!(duty_from_fraction(120, 1000, 46_874), 5624);
}

#[test]
fn fraction_duty_edges() {
    assert_eq!(duty_from_fraction(0, 7, 65_535), 0);
    assert_eq!(duty_from_fraction(7, 7, 65_535), 65_535);
    assert_eq!(duty_from_fraction(1, 3, 300), 100);
    assert_eq!(duty_from_fraction(2, 3, 100), 66);
    assert_eq!(duty_from_fraction(65_535, 65_535, 65_535), 65_535);
}

#[test]
fn percent_duty_values() {
    assert_eq!(duty_from_percent(0, 0xffff), 0);
    assert_eq!(duty_from_percent(50, 0xffff), 32_767);
    assert_eq!(duty_from_percent(100, 0xffff), 0xffff);
    assert_eq!(duty_from_percent(33, 1000), 330);
}

#[test]
fn fraction_duty_never_exceeds_max_and_grows() {
    for max in [0u16, 1, 99, 46_874, 65_535] {
        let mut previous = 0u16;
        for num in 0..=100u16 {
            let duty = duty_from_fraction(num, 100, max);
            assert!(duty <= max);
            assert!(duty >= previous);
            previous = duty;
        }
        assert_eq!(previous, max);
    }
}
