//! Decision logic for a set of small Raspberry Pi Pico programs: PWM duty
//! arithmetic, an LED dimming ramp, a servo sweep, a button-controlled blinker
//! (polled and task-based variants), sensor thresholds, an RFID tag check and
//! an LCD glyph.  The hardware drivers live outside; this crate decides what
//! they are told to do.

pub mod blink;
pub mod dimming;
pub mod glyph;
pub mod pwm;
pub mod sensors;
pub mod servo;
pub mod tasks;
pub mod timing;
