//! The two cooperating tasks of the task-based blinker.  The button task
//! polls the button and, on a press, announces the new blinking state on a
//! signal; the LED task waits for either that signal or its blink timer.
//! The waiting and signalling are left to the caller; these types decide.

use vstd::prelude::*;
use crate::blink::{LedAction, led_after};

verus! {

/// The LED task's blink period, in milliseconds.
pub const TASK_BLINK_PERIOD_MS: u64 = 300;

/// The pause after the button task has acted on a press, in milliseconds.
pub const PRESS_PAUSE_MS: u64 = 200;

/// The button task's polling pause, in milliseconds.
pub const BUTTON_POLL_MS: u64 = 10;

/// What woke the LED task up.
#[derive(Clone, Copy, Debug, PartialEq, Eq, Structural)]
pub enum BlinkEvent {
    /// The button task announced a new blinking state.
    Signal(bool),
    /// The blink timer ran out.
    Tick,
}

/// The LED task's state.
#[derive(Clone, Copy, Debug, PartialEq, Eq, Structural)]
pub struct LedTask {
    /// Whether the LED is blinking.
    pub is_blinking: bool,
    /// Whether the LED is lit, as the LED task last set it.
    pub led_high: bool,
}

/// What the LED task does with the LED on `event`.
pub open spec fn led_task_action(task: LedTask, event: BlinkEvent) -> LedAction {
    match event {
        BlinkEvent::Signal(on) => if on {
            LedAction::Keep
        } else {
            LedAction::SetLow
        },
        BlinkEvent::Tick => if task.is_blinking {
            LedAction::Toggle
        } else {
            LedAction::Keep
        },
    }
}

/// The LED task after `event`.
pub open spec fn led_task_after(task: LedTask, event: BlinkEvent) -> LedTask {
    LedTask {
        is_blinking: match event {
            BlinkEvent::Signal(on) => on,
            BlinkEvent::Tick => task.is_blinking,
        },
        led_high: led_after(task.led_high, led_task_action(task, event)),
    }
}

impl LedTask {
    /// The LED task never leaves the LED lit while blinking is off.
    pub open spec fn wf(self) -> bool {
        !self.is_blinking ==> !self.led_high
    }

    /// The LED task starts blinking, with the LED dark.
    pub fn new() -> (task: LedTask)
        ensures
            task.is_blinking,
            !task.led_high,
            task.wf(),
    {
        LedTask { is_blinking: true, led_high: false }
    }

    /// Handles one wake-up: a signal sets the blinking state (and darkens
    /// the LED when blinking goes off); a tick toggles the LED while blinking.
    pub fn handle(&mut self, event: BlinkEvent) -> (action: LedAction)
        ensures
            action == led_task_action(*old(self), event),
            *final(self) == led_task_after(*old(self), event),
            event == BlinkEvent::Signal(true) ==> final(self).is_blinking && action
                == LedAction::Keep && final(self).led_high == old(self).led_high,
            event == BlinkEvent::Signal(false) ==> !final(self).is_blinking && action
                == LedAction::SetLow && !final(self).led_high,
            event == BlinkEvent::Tick ==> final(self).is_blinking == old(self).is_blinking && (
            action == LedAction::Toggle) == old(self).is_blinking && final(self).led_high == (old(self).led_high != old(self).is_blinking),
    {
        match event {
            BlinkEvent::Signal(on) => {
                self.is_blinking = on;
                if !on {
                    self.led_high = false;
                    LedAction::SetLow
                } else {
                    LedAction::Keep
                }
            },
            BlinkEvent::Tick => {
                if self.is_blinking {
                    self.led_high = !self.led_high;
                    LedAction::Toggle
                } else {
                    LedAction::Keep
                }
            },
        }
    }
}

/// The button task's state.
#[derive(Clone, Copy, Debug, PartialEq, Eq, Structural)]
pub struct ButtonTask {
    /// The blinking state the button task last announced (initially on).
    pub is_blinking: bool,
}

/// The button task after a poll that sees the button `pressed`.
pub open spec fn button_after(task: ButtonTask, pressed: bool) -> ButtonTask {
    if pressed {
        ButtonTask { is_blinking: !task.is_blinking }
    } else {
        task
    }
}

/// What a poll that sees the button `pressed` announces: the new blinking
/// state on a press, nothing otherwise.
pub open spec fn button_announce(task: ButtonTask, pressed: bool) -> Option<bool> {
    if pressed {
        Some(!task.is_blinking)
    } else {
        None
    }
}

/// The pause, in milliseconds, before the button task reads the button
/// again: `PRESS_PAUSE_MS` and then `BUTTON_POLL_MS` after a press, only
/// `BUTTON_POLL_MS` otherwise.
pub open spec fn button_pause(pressed: bool) -> u64 {
    if pressed {
        (PRESS_PAUSE_MS + BUTTON_POLL_MS) as u64
    } else {
        BUTTON_POLL_MS
    }
}

/// What one poll of the button task decides: the blinking state to announce,
/// if any (announced before pausing), and how long to pause afterwards.
#[derive(Clone, Copy, Debug, PartialEq, Eq)]
pub struct ButtonStep {
    /// The blinking state to announce on the signal.
    pub announce: Option<bool>,
    /// The pause before the next poll, in milliseconds.
    pub pause_ms: u64,
}

impl ButtonTask {
    /// The button task starts out believing that blinking is on.
    pub fn new() -> (task: ButtonTask)
        ensures
            task.is_blinking,
    {
        ButtonTask { is_blinking: true }
    }

    /// One poll of the button.  A pressed button flips the blinking state,
    /// gives the new state to announce and a pause of
    /// `PRESS_PAUSE_MS + BUTTON_POLL_MS`; a released one gives nothing to
    /// announce and a pause of `BUTTON_POLL_MS`.
    pub fn poll(&mut self, pressed: bool) -> (step: ButtonStep)
        ensures
            step.announce == button_announce(*old(self), pressed),
            step.pause_ms == button_pause(pressed),
            *final(self) == button_after(*old(self), pressed),
            pressed ==> final(self).is_blinking == !old(self).is_blinking && step.announce == Some(
                final(self).is_blinking,
            ) && step.pause_ms == PRESS_PAUSE_MS + BUTTON_POLL_MS,
            !pressed ==> final(self).is_blinking == old(self).is_blinking && step.announce is None
                && step.pause_ms == BUTTON_POLL_MS,
    {
        if pressed {
            self.is_blinking = !self.is_blinking;
            ButtonStep { announce: Some(self.is_blinking), pause_ms: PRESS_PAUSE_MS + BUTTON_POLL_MS }
        } else {
            ButtonStep { announce: None, pause_ms: BUTTON_POLL_MS }
        }
    }
}

/// The number of pressed readings in `readings`.
pub open spec fn press_count(readings: Seq<bool>) -> nat
    decreases readings.len(),
{
    if readings.len() == 0 {
        0
    } else {
        (if readings[0] {
            1nat
        } else {
            0nat
        }) + press_count(readings.drop_first())
    }
}

/// The button task after polling the readings `readings` in order.
pub open spec fn button_run(task: ButtonTask, readings: Seq<bool>) -> ButtonTask
    decreases readings.len(),
{
    if readings.len() == 0 {
        task
    } else {
        button_run(button_after(task, readings[0]), readings.drop_first())
    }
}

/// The states the button task announces, in order, while polling `readings`.
pub open spec fn run_announcements(task: ButtonTask, readings: Seq<bool>) -> Seq<bool>
    decreases readings.len(),
{
    if readings.len() == 0 {
        Seq::empty()
    } else {
        let first = match button_announce(task, readings[0]) {
            Some(state) => seq![state],
            None => Seq::empty(),
        };
        first + run_announcements(button_after(task, readings[0]), readings.drop_first())
    }
}

/// The pauses the button task takes, one per reading, while polling `readings`.
pub open spec fn run_pauses(readings: Seq<bool>) -> Seq<u64>
    decreases readings.len(),
{
    if readings.len() == 0 {
        Seq::empty()
    } else {
        seq![button_pause(readings[0])] + run_pauses(readings.drop_first())
    }
}

/// Over any run of readings the button task announces one state per
/// press, alternating off and on starting from the opposite of its state;
/// its state is then its starting state flipped once per press, and the last
/// state it announced is the state it holds.  From the starting state (on),
/// the announcements are off, on, off, ... and blinking is on exactly after
/// an even number of presses.
pub proof fn lemma_button_run_parity(task: ButtonTask, readings: Seq<bool>)
    ensures
        button_run(task, readings).is_blinking == (task.is_blinking == (press_count(readings) % 2
            == 0)),
        run_announcements(task, readings).len() == press_count(readings),
        forall|j: int|
            0 <= j < press_count(readings) ==> #[trigger] run_announcements(task, readings)[j] == (
            task.is_blinking == (j % 2 == 1)),
        press_count(readings) > 0 ==> run_announcements(task, readings).last() == button_run(
            task,
            readings,
        ).is_blinking,
    decreases readings.len(),
{
    if readings.len() > 0 {
        let next = button_after(task, readings[0]);
        let rest = readings.drop_first();
        lemma_button_run_parity(next, rest);
        let tail = run_announcements(next, rest);
        if readings[0] {
            let all = seq![!task.is_blinking] + tail;
            assert(run_announcements(task, readings) == all);
            assert forall|j: int| 0 <= j < press_count(readings) implies #[trigger] all[j] == (
            task.is_blinking == (j % 2 == 1)) by {
                if j > 0 {
                    assert(all[j] == tail[j - 1]);
                }
            }
            if press_count(rest) > 0 {
                assert(all.last() == tail.last());
            }
        } else {
            assert(run_announcements(task, readings) =~= tail);
        }
    }
}

/// Every reading is followed by one pause: 210 ms after a press and 10 ms
/// otherwise.  So the button is read again at least 10 ms and at most
/// 210 ms after each reading, and an announcement is followed by 210 ms of
/// pause before the button is read again.
pub proof fn lemma_button_run_pauses(readings: Seq<bool>)
    ensures
        run_pauses(readings).len() == readings.len(),
        forall|i: int|
            0 <= i < readings.len() ==> #[trigger] run_pauses(readings)[i] == (if readings[i] {
                210u64
            } else {
                10u64
            }),
        forall|i: int|
            0 <= i < readings.len() ==> 10 <= #[trigger] run_pauses(readings)[i] <= 210,
    decreases readings.len(),
{
    if readings.len() > 0 {
        lemma_button_run_pauses(readings.drop_first());
        let all = seq![button_pause(readings[0])] + run_pauses(readings.drop_first());
        assert forall|i: int| 0 <= i < readings.len() implies #[trigger] all[i] == (if readings[i] {
            210u64
        } else {
            10u64
        }) by {
            if i > 0 {
                assert(all[i] == run_pauses(readings.drop_first())[i - 1]);
                assert(readings[i] == readings.drop_first()[i - 1]);
            }
        }
    }
}

/// A released reading inserted anywhere changes neither what the button task
/// announces nor the state it ends in; it only adds a 10 ms pause.
pub proof fn lemma_released_reading_changes_nothing(
    task: ButtonTask,
    readings: Seq<bool>,
    at: int,
)
    requires
        0 <= at <= readings.len(),
    ensures
        run_announcements(task, readings.insert(at, false)) == run_announcements(task, readings),
        button_run(task, readings.insert(at, false)) == button_run(task, readings),
        run_pauses(readings.insert(at, false)) == run_pauses(readings.take(at)) + seq![10u64]
            + run_pauses(readings.skip(at)),
    decreases at,
{
    let longer = readings.insert(at, false);
    if at == 0 {
        assert(longer.drop_first() =~= readings);
        assert(readings.take(0) =~= Seq::<bool>::empty());
        assert(readings.skip(0) =~= readings);
        assert(run_pauses(readings.take(0)) =~= Seq::<u64>::empty());
        assert(run_announcements(task, longer) =~= run_announcements(task, readings));
        assert(run_pauses(longer) =~= run_pauses(readings.take(at)) + seq![10u64] + run_pauses(
            readings.skip(at),
        ));
    } else {
        let rest = readings.drop_first();
        assert(longer.drop_first() =~= rest.insert(at - 1, false));
        assert(longer[0] == readings[0]);
        lemma_released_reading_changes_nothing(button_after(task, readings[0]), rest, at - 1);
        assert(readings.take(at).drop_first() =~= rest.take(at - 1));
        assert(readings.take(at)[0] == readings[0]);
        assert(rest.skip(at - 1) =~= readings.skip(at));
        assert(run_pauses(readings.take(at)) == seq![button_pause(readings[0])] + run_pauses(
            rest.take(at - 1),
        ));
        assert(run_pauses(longer) =~= run_pauses(readings.take(at)) + seq![10u64] + run_pauses(
            readings.skip(at),
        ));
    }
}

/// What the button task announces is the state it now holds, and two
/// presses bring it back to where it was.
pub proof fn lemma_press_announces_new_state(task: ButtonTask)
    ensures
        button_announce(task, true) == Some(button_after(task, true).is_blinking),
        button_after(button_after(task, true), true) == task,
        button_announce(task, false) is None,
        button_after(task, false) == task,
{
}

/// When both tasks agree before a press and the LED task receives the
/// announcement, they agree after it.
pub proof fn lemma_tasks_stay_in_step(led: LedTask, button: ButtonTask)
    requires
        led.is_blinking == button.is_blinking,
    ensures
        led_task_after(led, BlinkEvent::Signal(button_announce(button, true)->0)).is_blinking
            == button_after(button, true).is_blinking,
{
}

/// Every wake-up of the LED task keeps the LED dark while blinking is off.
pub proof fn lemma_led_task_keeps_dark_when_off(task: LedTask, event: BlinkEvent)
    requires
        task.wf(),
    ensures
        led_task_after(task, event).wf(),
{
}

/// A tick changes nothing but the LED, and toggles it exactly while blinking.
pub proof fn lemma_tick_toggles_only_while_blinking(task: LedTask)
    ensures
        led_task_after(task, BlinkEvent::Tick).is_blinking == task.is_blinking,
        led_task_after(task, BlinkEvent::Tick).led_high == (if task.is_blinking {
            !task.led_high
        } else {
            task.led_high
        }),
{
}

/// The LED task after handling `events` in order.
pub open spec fn led_run(task: LedTask, events: Seq<BlinkEvent>) -> LedTask
    decreases events.len(),
{
    if events.len() == 0 {
        task
    } else {
        led_run(led_task_after(task, events[0]), events.drop_first())
    }
}

/// What the LED task does with the LED, event by event, while handling
/// `events` in order.
pub open spec fn led_run_actions(task: LedTask, events: Seq<BlinkEvent>) -> Seq<LedAction>
    decreases events.len(),
{
    if events.len() == 0 {
        Seq::empty()
    } else {
        seq![led_task_action(task, events[0])] + led_run_actions(
            led_task_after(task, events[0]),
            events.drop_first(),
        )
    }
}

/// `count` timer ticks in a row.
pub open spec fn ticks(count: nat) -> Seq<BlinkEvent> {
    Seq::new(count, |i: int| BlinkEvent::Tick)
}

/// While blinking is off and nothing switches it back on, the LED task never
/// toggles the LED, and the LED is dark and blinking off after every event.
pub proof fn lemma_led_stays_dark_while_off(task: LedTask, events: Seq<BlinkEvent>)
    requires
        !task.is_blinking,
        !task.led_high,
        forall|i: int| 0 <= i < events.len() ==> #[trigger] events[i] != BlinkEvent::Signal(true),
    ensures
        led_run_actions(task, events).len() == events.len(),
        forall|i: int|
            0 <= i < events.len() ==> #[trigger] led_run_actions(task, events)[i]
                != LedAction::Toggle,
        forall|k: int|
            0 <= k <= events.len() ==> !#[trigger] led_run(task, events.take(k)).led_high && !led_run(
                task,
                events.take(k),
            ).is_blinking,
    decreases events.len(),
{
    if events.len() == 0 {
        assert forall|k: int| 0 <= k <= events.len() implies !#[trigger] led_run(
            task,
            events.take(k),
        ).led_high && !led_run(task, events.take(k)).is_blinking by {
            assert(events.take(k) =~= Seq::<BlinkEvent>::empty());
        }
    } else {
        let next = led_task_after(task, events[0]);
        let rest = events.drop_first();
        assert(events[0] != BlinkEvent::Signal(true));
        assert forall|i: int| 0 <= i < rest.len() implies #[trigger] rest[i] != BlinkEvent::Signal(
            true,
        ) by {
            assert(rest[i] == events[i + 1]);
        }
        lemma_led_stays_dark_while_off(next, rest);
        let all = seq![led_task_action(task, events[0])] + led_run_actions(next, rest);
        assert(led_run_actions(task, events) == all);
        assert forall|i: int| 0 <= i < events.len() implies #[trigger] all[i]
            != LedAction::Toggle by {
            if i > 0 {
                assert(all[i] == led_run_actions(next, rest)[i - 1]);
            }
        }
        assert forall|k: int| 0 <= k <= events.len() implies !#[trigger] led_run(
            task,
            events.take(k),
        ).led_high && !led_run(task, events.take(k)).is_blinking by {
            if k == 0 {
                assert(events.take(0) =~= Seq::<BlinkEvent>::empty());
            } else {
                let prefix = events.take(k);
                assert(prefix[0] == events[0]);
                assert(prefix.drop_first() =~= rest.take(k - 1));
                assert(!led_run(next, rest.take(k - 1)).led_high);
                assert(led_run(task, prefix) == led_run(next, rest.take(k - 1)));
            }
        }
    }
}

/// A signal that switches blinking off darkens the LED whatever its state,
/// and from then on, until blinking is switched back on, the LED task never
/// toggles the LED and it stays dark.
pub proof fn lemma_signal_off_keeps_dark(task: LedTask, events: Seq<BlinkEvent>)
    requires
        events.len() > 0,
        events[0] == BlinkEvent::Signal(false),
        forall|i: int| 0 <= i < events.len() ==> #[trigger] events[i] != BlinkEvent::Signal(true),
    ensures
        forall|i: int|
            0 <= i < events.len() ==> #[trigger] led_run_actions(task, events)[i]
                != LedAction::Toggle,
        forall|k: int|
            1 <= k <= events.len() ==> !#[trigger] led_run(task, events.take(k)).led_high && !led_run(
                task,
                events.take(k),
            ).is_blinking,
{
    let next = led_task_after(task, events[0]);
    let rest = events.drop_first();
    assert forall|i: int| 0 <= i < rest.len() implies #[trigger] rest[i] != BlinkEvent::Signal(
        true,
    ) by {
        assert(rest[i] == events[i + 1]);
    }
    lemma_led_stays_dark_while_off(next, rest);
    let all = seq![led_task_action(task, events[0])] + led_run_actions(next, rest);
    assert(led_run_actions(task, events) == all);
    assert forall|i: int| 0 <= i < events.len() implies #[trigger] all[i]
        != LedAction::Toggle by {
        if i > 0 {
            assert(all[i] == led_run_actions(next, rest)[i - 1]);
        }
    }
    assert forall|k: int| 1 <= k <= events.len() implies !#[trigger] led_run(
        task,
        events.take(k),
    ).led_high && !led_run(task, events.take(k)).is_blinking by {
        let prefix = events.take(k);
        assert(prefix[0] == events[0]);
        assert(prefix.drop_first() =~= rest.take(k - 1));
        assert(!led_run(next, rest.take(k - 1)).led_high);
        assert(led_run(task, prefix) == led_run(next, rest.take(k - 1)));
    }
}

/// While blinking, every tick toggles the LED: `count` ticks in a row leave
/// blinking on and the LED at its starting level when `count` is even, at the
/// other level when it is odd.
pub proof fn lemma_ticks_toggle_while_blinking(task: LedTask, count: nat)
    requires
        task.is_blinking,
    ensures
        led_run(task, ticks(count)).is_blinking,
        led_run(task, ticks(count)).led_high == (if count % 2 == 0 {
            task.led_high
        } else {
            !task.led_high
        }),
        led_run_actions(task, ticks(count)).len() == count,
        forall|i: int|
            0 <= i < count ==> #[trigger] led_run_actions(task, ticks(count))[i]
                == LedAction::Toggle,
    decreases count,
{
    if count > 0 {
        let next = led_task_after(task, BlinkEvent::Tick);
        let rest = ticks((count - 1) as nat);
        assert(ticks(count)[0] == BlinkEvent::Tick);
        assert(ticks(count).drop_first() =~= rest);
        lemma_ticks_toggle_while_blinking(next, (count - 1) as nat);
        let all = seq![LedAction::Toggle] + led_run_actions(next, rest);
        assert(led_run_actions(task, ticks(count)) == all);
        assert forall|i: int| 0 <= i < count implies #[trigger] all[i] == LedAction::Toggle by {
            if i > 0 {
                assert(all[i] == led_run_actions(next, rest)[i - 1]);
            }
        }
    }
}

/// A signal sets the LED task's blinking state to the signalled value,
/// whatever the state before: a signal of "on" leaves the LED as it is, and a
/// signal of "off" darkens it.
pub proof fn lemma_signal_sets_state(task: LedTask, on: bool)
    ensures
        led_task_after(task, BlinkEvent::Signal(on)).is_blinking == on,
        on ==> led_task_action(task, BlinkEvent::Signal(on)) == LedAction::Keep && led_task_after(
            task,
            BlinkEvent::Signal(on),
        ).led_high == task.led_high,
        !on ==> led_task_action(task, BlinkEvent::Signal(on)) == LedAction::SetLow
            && !led_task_after(task, BlinkEvent::Signal(on)).led_high,
{
}

/// A press flips the button task's state and announces the new one with a
/// 210 ms pause; a released reading changes nothing and pauses 10 ms.
pub proof fn lemma_button_poll_relations(task: ButtonTask, pressed: bool)
    ensures
        pressed ==> button_after(task, pressed).is_blinking == !task.is_blinking && button_announce(
            task,
            pressed,
        ) == Some(!task.is_blinking) && button_pause(pressed) == 210,
        !pressed ==> button_after(task, pressed) == task && button_announce(task, pressed) is None
            && button_pause(pressed) == 10,
{
}

} // verus!
