//! Decisions taken on sensor readings: the light-dependent resistor's night
//! light, the RFID reader's tag check, and the ultrasonic sensor's echo time.

use vstd::prelude::*;
use crate::timing::{micros_from_ticks, ticks_since};

verus! {

/// ADC readings below this value mean darkness, which lights the LED.
pub const LDR_THRESHOLD: u16 = 200;

/// The pause between two ADC readings, in milliseconds.
pub const LDR_PAUSE_MS: u64 = 1000;

/// Whether the night light is lit for the ADC reading `reading`.
pub fn night_light_on(reading: u16) -> (lit: bool)
    ensures
        lit == (reading < LDR_THRESHOLD),
{
    reading < LDR_THRESHOLD
}

/// A darker reading never switches the light off: if the light is on for a
/// reading, it is on for every lower reading, and off for every reading at or
/// above the threshold.
pub proof fn lemma_night_light_threshold(r1: u16, r2: u16)
    requires
        r1 <= r2,
    ensures
        r2 < LDR_THRESHOLD ==> r1 < LDR_THRESHOLD,
        r1 >= LDR_THRESHOLD ==> r2 >= LDR_THRESHOLD,
{
}

/// The UID of the tag that is let in.
pub const TAG_UID: [u8; 4] = [0x13, 0x37, 0x73, 0x31];

/// How long the LED stays lit for the right tag, in milliseconds.
pub const GRANTED_LIGHT_MS: u64 = 500;

/// The pause between two scans, in milliseconds.
pub const SCAN_PAUSE_MS: u64 = 100;

/// The UID of the tag that is let in, as a sequence.
pub open spec fn tag_uid() -> Seq<u8> {
    seq![0x13u8, 0x37u8, 0x73u8, 0x31u8]
}

/// Whether the UID bytes read from a card are exactly those of the tag that
/// is let in (same length, same bytes).
pub fn tag_matches(uid: &[u8]) -> (matches: bool)
    ensures
        matches == (uid@ == tag_uid()),
{
    if uid.len() != 4 {
        assert(uid@.len() != tag_uid().len());
        return false;
    }
    let expected = TAG_UID;
    assert(expected@ =~= tag_uid());
    let mut i: usize = 0;
    while i < 4
        invariant
            i <= 4,
            uid@.len() == 4,
            expected@ == tag_uid(),
            forall|j: int| 0 <= j < i ==> uid@[j] == tag_uid()[j],
        decreases 4 - i,
    {
        if uid[i] != expected[i] {
            assert(uid@[i as int] != tag_uid()[i as int]);
            return false;
        }
        i = i + 1;
    }
    assert(uid@ =~= tag_uid());
    true
}

/// The length of the echo pulse from `start` to `end` (timer ticks) in whole
/// microseconds, as `Instant::checked_duration_since` followed by
/// `Duration::as_micros` gives it: none when `end` lies before `start`, and
/// otherwise the tick difference, a tick being one microsecond.
pub fn echo_micros(start: u64, end: u64) -> (micros: Option<u64>)
    ensures
        end < start ==> micros is None,
        start <= end ==> micros == Some((end - start) as u64),
{
    match ticks_since(end, start) {
        Some(ticks) => Some(micros_from_ticks(ticks)),
        None => None,
    }
}

} // verus!
