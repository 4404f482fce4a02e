//! A polled blinker: a push button switches blinking on and off, and while
//! blinking is on the LED toggles once per blink interval.  The caller reads
//! the clock and the button, calls [`BlinkPoller::poll`], drives the LED as
//! told, and waits a little before the next poll.

use vstd::prelude::*;
use crate::timing::{ticks_from_millis, TICKS_PER_MILLI};

verus! {

/// The blink interval of the polled blinker, in milliseconds.
pub const BLINK_INTERVAL_MS: u64 = 300;

/// The pause between two polls, in milliseconds.
pub const POLL_PAUSE_MS: u64 = 10;

/// What to do with the LED after a decision.
#[derive(Clone, Copy, Debug, PartialEq, Eq, Structural)]
pub enum LedAction {
    /// Leave the LED as it is.
    Keep,
    /// Drive the LED low (dark).
    SetLow,
    /// Invert the LED's level.
    Toggle,
}

/// The level an LED has after `action`, when it had `high` before.
pub open spec fn led_after(high: bool, action: LedAction) -> bool {
    match action {
        LedAction::Keep => high,
        LedAction::SetLow => false,
        LedAction::Toggle => !high,
    }
}

/// The state of the polled blinker.  Times are timer ticks.
#[derive(Clone, Copy, Debug, PartialEq, Eq, Structural)]
pub struct BlinkPoller {
    /// Whether the LED is blinking.
    pub blink_enabled: bool,
    /// When the LED was last toggled (or the blinker started).
    pub last_toggle: u64,
    /// Whether the button was pressed at the previous poll.
    pub last_button: bool,
    /// The LED's level as this blinker has driven it.
    pub led_high: bool,
    /// The blink interval in ticks.
    pub interval: u64,
}

impl BlinkPoller {
    /// A well-formed blinker never leaves the LED lit while blinking is off.
    pub open spec fn wf(self) -> bool {
        !self.blink_enabled ==> !self.led_high
    }

    /// Whether blinking is on after a poll that sees the button `pressed`:
    /// a press that was not there at the previous poll switches it.
    pub open spec fn enabled_after(self, pressed: bool) -> bool {
        if pressed && !self.last_button {
            !self.blink_enabled
        } else {
            self.blink_enabled
        }
    }

    /// Whether a poll at `now` toggles the LED: blinking is on and a whole
    /// interval has passed since the last toggle.
    pub open spec fn toggle_due(self, now: u64, pressed: bool) -> bool {
        self.enabled_after(pressed) && now - self.last_toggle >= self.interval
    }

    /// What a poll at `now` with the button `pressed` does with the LED.
    pub open spec fn action(self, now: u64, pressed: bool) -> LedAction {
        if self.blink_enabled && !self.enabled_after(pressed) {
            LedAction::SetLow
        } else if self.toggle_due(now, pressed) {
            LedAction::Toggle
        } else {
            LedAction::Keep
        }
    }

    /// The blinker after a poll at `now` with the button `pressed`.
    pub open spec fn after(self, now: u64, pressed: bool) -> BlinkPoller {
        BlinkPoller {
            blink_enabled: self.enabled_after(pressed),
            last_toggle: if self.toggle_due(now, pressed) {
                now
            } else {
                self.last_toggle
            },
            last_button: pressed,
            led_high: led_after(self.led_high, self.action(now, pressed)),
            interval: self.interval,
        }
    }

    /// A poll is possible when the clock has not run backwards past the last
    /// toggle at a moment when the elapsed time is read (blinking on).
    pub open spec fn can_poll(self, now: u64, pressed: bool) -> bool {
        self.enabled_after(pressed) ==> self.last_toggle <= now
    }

    /// Starts blinking at `now` with the LED dark, the button released and
    /// an interval of `BLINK_INTERVAL_MS` milliseconds (300_000 ticks).
    pub fn new(now: u64) -> (poller: BlinkPoller)
        ensures
            poller.blink_enabled,
            poller.last_toggle == now,
            !poller.last_button,
            !poller.led_high,
            poller.interval == BLINK_INTERVAL_MS * TICKS_PER_MILLI,
            poller.interval == 300_000,
            poller.wf(),
    {
        BlinkPoller {
            blink_enabled: true,
            last_toggle: now,
            last_button: false,
            led_high: false,
            interval: ticks_from_millis(BLINK_INTERVAL_MS),
        }
    }

    /// One poll at `now` with the button read as `button_pressed`.
    pub fn poll(&mut self, now: u64, button_pressed: bool) -> (action: LedAction)
        requires
            old(self).can_poll(now, button_pressed),
        ensures
            action == old(self).action(now, button_pressed),
            *final(self) == old(self).after(now, button_pressed),
            final(self).interval == old(self).interval,
            final(self).last_button == button_pressed,
            final(self).blink_enabled == (old(self).blink_enabled != (button_pressed
                && !old(self).last_button)),
            (action == LedAction::SetLow) == (old(self).blink_enabled && !final(self).blink_enabled),
            (action == LedAction::Toggle) == (final(self).blink_enabled && now - old(self).last_toggle >= old(self).interval),
            final(self).last_toggle == (if action == LedAction::Toggle {
                now
            } else {
                old(self).last_toggle
            }),
            final(self).led_high == (if action == LedAction::Toggle {
                !old(self).led_high
            } else if action == LedAction::SetLow {
                false
            } else {
                old(self).led_high
            }),
    {
        let mut action = LedAction::Keep;
        if button_pressed && !self.last_button {
            self.blink_enabled = !self.blink_enabled;
            if !self.blink_enabled {
                self.led_high = false;
                action = LedAction::SetLow;
            }
        }
        self.last_button = button_pressed;
        if self.blink_enabled {
            let elapsed: u64 = now - self.last_toggle;
            if elapsed >= self.interval {
                self.led_high = !self.led_high;
                self.last_toggle = now;
                action = LedAction::Toggle;
            }
        }
        action
    }
}

/// Every poll keeps the LED dark while blinking is off.
pub proof fn lemma_poll_keeps_dark_when_off(s: BlinkPoller, now: u64, pressed: bool)
    requires
        s.wf(),
    ensures
        s.after(now, pressed).wf(),
{
}

/// Blinking switches exactly when the button goes from released to pressed,
/// and the button's level is remembered for the next poll.
pub proof fn lemma_poll_switches_on_press_edge(s: BlinkPoller, now: u64, pressed: bool)
    ensures
        (s.after(now, pressed).blink_enabled != s.blink_enabled) <==> (pressed && !s.last_button),
        s.after(now, pressed).last_button == pressed,
{
}

/// Holding the button down across two polls switches blinking only once.
pub proof fn lemma_held_button_switches_once(s: BlinkPoller, t1: u64, t2: u64)
    ensures
        s.after(t1, true).after(t2, true).blink_enabled == s.after(t1, true).blink_enabled,
{
}

/// Toggles come at least one interval apart: a poll toggles only when an
/// interval has passed since the last toggle, and only a toggle moves the
/// time of the last toggle (to the poll's time).
pub proof fn lemma_toggles_an_interval_apart(s: BlinkPoller, now: u64, pressed: bool)
    requires
        s.can_poll(now, pressed),
    ensures
        s.action(now, pressed) == LedAction::Toggle ==> now - s.last_toggle >= s.interval
            && s.after(now, pressed).last_toggle == now,
        s.action(now, pressed) != LedAction::Toggle ==> s.after(now, pressed).last_toggle
            == s.last_toggle,
{
}

/// While blinking stays on and the button does not change, a poll a whole
/// interval after the last toggle toggles the LED.
pub proof fn lemma_blinks_when_due(s: BlinkPoller, now: u64, pressed: bool)
    requires
        s.blink_enabled,
        !(pressed && !s.last_button),
        s.last_toggle <= now,
        now - s.last_toggle >= s.interval,
    ensures
        s.action(now, pressed) == LedAction::Toggle,
        s.after(now, pressed).led_high == !s.led_high,
{
}

/// No poll changes the blink interval.
pub proof fn lemma_poll_keeps_interval(s: BlinkPoller, now: u64, pressed: bool)
    ensures
        s.after(now, pressed).interval == s.interval,
{
}

/// The blinker after the polls `polls` (each a time and a button reading),
/// in order.
pub open spec fn poller_run(s: BlinkPoller, polls: Seq<(u64, bool)>) -> BlinkPoller
    decreases polls.len(),
{
    if polls.len() == 0 {
        s
    } else {
        poller_run(s.after(polls[0].0, polls[0].1), polls.drop_first())
    }
}

/// However many polls follow, the blink interval stays what it was when the
/// blinker started: 300_000 ticks for a blinker made by `new`.
pub proof fn lemma_interval_never_changes(s: BlinkPoller, polls: Seq<(u64, bool)>)
    ensures
        poller_run(s, polls).interval == s.interval,
        s.interval == BLINK_INTERVAL_MS * TICKS_PER_MILLI ==> poller_run(s, polls).interval
            == 300_000,
    decreases polls.len(),
{
    if polls.len() > 0 {
        lemma_interval_never_changes(s.after(polls[0].0, polls[0].1), polls.drop_first());
    }
}

/// A poll switches blinking exactly on a new press; it darkens the LED
/// exactly when it switches blinking off; and it toggles the LED exactly when
/// blinking is then on and a whole interval has passed since the last
/// toggle, which it then moves to the poll's time.
pub proof fn lemma_poll_relations(s: BlinkPoller, now: u64, pressed: bool)
    requires
        s.can_poll(now, pressed),
    ensures
        s.after(now, pressed).blink_enabled == (s.blink_enabled != (pressed && !s.last_button)),
        (s.action(now, pressed) == LedAction::SetLow) == (s.blink_enabled && !s.after(
            now,
            pressed,
        ).blink_enabled),
        (s.action(now, pressed) == LedAction::Toggle) == (s.after(now, pressed).blink_enabled
            && now - s.last_toggle >= s.interval),
        s.action(now, pressed) == LedAction::SetLow ==> !s.after(now, pressed).led_high,
        s.action(now, pressed) == LedAction::Toggle ==> s.after(now, pressed).led_high
            != s.led_high && s.after(now, pressed).last_toggle == now,
        s.action(now, pressed) == LedAction::Keep ==> s.after(now, pressed).led_high
            == s.led_high && s.after(now, pressed).last_toggle == s.last_toggle,
{
}

} // verus!
