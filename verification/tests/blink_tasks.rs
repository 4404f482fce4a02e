use pico_kit::blink::LedAction;
use pico_kit::tasks::{BlinkEvent, ButtonStep, ButtonTask, LedTask, BUTTON_POLL_MS, PRESS_PAUSE_MS, TASK_BLINK_PERIOD_MS};

#[test]
fn led_task_blinks_on_ticks() {
    let mut t = LedTask::new();
    assert!(t.is_blinking && !t.led_high);
    assert_eq!(t.handle(BlinkEvent::Tick), LedAction::Toggle);
    assert!(t.led_high);
    assert_eq!(t.handle(BlinkEvent::Tick), LedAction::Toggle);
    assert!(!t.led_high);
}

#[test]
fn led_task_signal_off_darkens_and_stops() {
    let mut t = LedTask::new();
    t.handle(BlinkEvent::Tick);
    assert_eq!(t.handle(BlinkEvent::Signal(false)), LedAction::SetLow);
    assert!(!t.is_blinking && !t.led_high);
    assert_eq!(t.handle(BlinkEvent::Tick), LedAction::Keep);
    assert!(!t.led_high);
    assert_eq!(t.handle(BlinkEvent::Signal(true)), LedAction::Keep);
    assert!(t.is_blinking);
    assert_eq!(t.handle(BlinkEvent::Tick), LedAction::Toggle);
}

#[test]
fn button_task_announces_flips() {
    let mut b = ButtonTask::new();
    assert!(b.is_blinking);
    assert_eq!(b.poll(false), ButtonStep { announce: None, pause_ms: 10 });
    assert_eq!(b.poll(true), ButtonStep { announce: Some(false), pause_ms: 210 });
    assert_eq!(b.poll(true), ButtonStep { announce: Some(true), pause_ms: 210 });
    assert!(b.is_blinking);
}

#[test]
fn button_task_press_release_press() {
    let mut b = ButtonTask::new();
    let mut announced = Vec::new();
    let mut pauses = Vec::new();
    for pressed in [true, false, true] {
        let step = b.poll(pressed);
        if let Some(state) = step.announce {
            announced.push(state);
        }
        pauses.push(step.pause_ms);
    }
    assert_eq!(announced, vec![false, true]);
    assert_eq!(pauses, vec![210, 10, 210]);
    assert!(b.is_blinking);
}

#[test]
fn button_task_idle_only_polls() {
    let mut b = ButtonTask::new();
    for _ in 0..5 {
        assert_eq!(b.poll(false), ButtonStep { announce: None, pause_ms: 10 });
    }
    assert!(b.is_blinking);
}

#[test]
fn led_task_many_ticks_and_dark_while_off() {
    let mut t = LedTask::new();
    for _ in 0..7 {
        assert_eq!(t.handle(BlinkEvent::Tick), LedAction::Toggle);
    }
    assert!(t.led_high);
    assert_eq!(t.handle(BlinkEvent::Signal(false)), LedAction::SetLow);
    for event in [BlinkEvent::Tick, BlinkEvent::Signal(false), BlinkEvent::Tick] {
        assert_ne!(t.handle(event), LedAction::Toggle);
        assert!(!t.led_high && !t.is_blinking);
    }
}

#[test]
fn tasks_stay_in_step() {
    let mut led = LedTask::new();
    let mut button = ButtonTask::new();
    for pressed in [true, false, true, true, false, true] {
        if let Some(state) = button.poll(pressed).announce {
            led.handle(BlinkEvent::Signal(state));
        }
        led.handle(BlinkEvent::Tick);
        assert_eq!(led.is_blinking, button.is_blinking);
        assert!(led.is_blinking || !led.led_high);
    }
    assert_eq!((TASK_BLINK_PERIOD_MS, PRESS_PAUSE_MS, BUTTON_POLL_MS), (300, 200, 10));
}
