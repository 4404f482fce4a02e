use pico_kit::blink::{BlinkPoller, LedAction, BLINK_INTERVAL_MS, POLL_PAUSE_MS};

#[test]
fn poller_starts_blinking_with_the_built_tick_rate() {
    let p = BlinkPoller::new(1_000);
    assert!(p.blink_enabled);
    assert!(!p.led_high);
    assert!(!p.last_button);
    assert_eq!(p.last_toggle, 1_000);
    // the default tick rate of embassy-time is 1 MHz
    assert_eq!(p.interval, 300_000);
    assert_eq!(BLINK_INTERVAL_MS, 300);
    assert_eq!(POLL_PAUSE_MS, 10);
}

#[test]
fn poller_toggles_once_per_interval() {
    let mut p = BlinkPoller::new(0);
    assert_eq!(p.poll(100_000, false), LedAction::Keep);
    assert_eq!(p.poll(299_999, false), LedAction::Keep);
    assert_eq!(p.poll(300_000, false), LedAction::Toggle);
    assert!(p.led_high);
    assert_eq!(p.last_toggle, 300_000);
    assert_eq!(p.poll(500_000, false), LedAction::Keep);
    assert_eq!(p.poll(650_000, false), LedAction::Toggle);
    assert!(!p.led_high);
}

#[test]
fn poller_press_switches_off_and_darkens() {
    let mut p = BlinkPoller::new(0);
    assert_eq!(p.poll(300_000, false), LedAction::Toggle);
    assert!(p.led_high);
    assert_eq!(p.poll(310_000, true), LedAction::SetLow);
    assert!(!p.blink_enabled);
    assert!(!p.led_high);
    // holding the button does not switch again, and no toggling while off
    assert_eq!(p.poll(900_000, true), LedAction::Keep);
    assert!(!p.blink_enabled);
    assert_eq!(p.poll(1_500_000, false), LedAction::Keep);
    assert!(!p.led_high);
    // a new press switches blinking back on; the interval is long over
    assert_eq!(p.poll(1_600_000, true), LedAction::Toggle);
    assert!(p.blink_enabled);
    assert!(p.led_high);
    assert_eq!(p.last_toggle, 1_600_000);
}

#[test]
fn poller_ignores_clock_while_off() {
    let mut p = BlinkPoller::new(5_000);
    assert_eq!(p.poll(6_000, true), LedAction::SetLow);
    assert_eq!(p.poll(6_010, false), LedAction::Keep);
    // time before the last toggle is never read while blinking is off
    assert_eq!(p.poll(1_000, false), LedAction::Keep);
    assert!(!p.blink_enabled);
}
