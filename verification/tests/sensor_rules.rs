use pico_kit::glyph::{ferris_glyph, FERRIS, FERRIS_SLOT, GLYPH_SLOTS};
use pico_kit::sensors::{echo_micros, night_light_on, tag_matches, LDR_THRESHOLD, TAG_UID};

#[test]
fn night_light_threshold() {
    assert_eq!(LDR_THRESHOLD, 200);
    assert!(night_light_on(0));
    assert!(night_light_on(199));
    assert!(!night_light_on(200));
    assert!(!night_light_on(4095));
}

#[test]
fn tag_check() {
    assert!(tag_matches(&TAG_UID));
    assert!(tag_matches(&[0x13, 0x37, 0x73, 0x31]));
    assert!(!tag_matches(&[0x13, 0x37, 0x73, 0x30]));
    assert!(!tag_matches(&[0x31, 0x73, 0x37, 0x13]));
    assert!(!tag_matches(&[0x13, 0x37, 0x73]));
    assert!(!tag_matches(&[0x13, 0x37, 0x73, 0x31, 0x00, 0x00, 0x00]));
    assert!(!tag_matches(&[]));
}

#[test]
fn echo_duration() {
    // the default tick rate of embassy-time is 1 MHz: one tick per microsecond
    assert_eq!(echo_micros(100, 683), Some(583));
    assert_eq!(echo_micros(5, 5), Some(0));
    assert_eq!(echo_micros(683, 100), None);
}

#[test]
fn crab_glyph() {
    let g = ferris_glyph();
    assert_eq!(g, FERRIS);
    assert_eq!(g, [0b01010, 0b10001, 0b10001, 0b01110, 0b01110, 0b01110, 0b11111, 0b10001]);
    assert!(g.iter().all(|row| *row < 32));
    assert!(FERRIS_SLOT < GLYPH_SLOTS);
}
