//! Turning sanitized text into keystrokes.
//!
//! Each character of the text is looked up in the key table; characters
//! without an entry are skipped silently, the rest become keystrokes in
//! the text's order. One keystroke unfolds into its injected events:
//! press the key and release it, wrapped in a press and release of the
//! left shift key when the shift flag is set. The caller replays the
//! events in order and pauses for the fixed inter-key delay after each
//! keystroke.

use crate::keys::KeyId;
use crate::keys::char_to_key;
use crate::keys::char_to_key_spec;
use crate::sanitize::sanitize;
use crate::sanitize::sanitize_spec;
use vstd::prelude::*;
use vstd::string::*;

verus! {

/// The fixed pause between two keystrokes, in milliseconds.
pub const KEY_DELAY_MS: u64 = 60;

/// One event handed to the input-injection subsystem.
#[derive(Clone, Copy, Debug, PartialEq, Eq, Structural)]
pub enum InputEvent {
    Press(KeyId),
    Release(KeyId),
}

/// The keystrokes for a text: each character's table entry in order,
/// with the unmapped characters skipped.
pub open spec fn keystrokes_spec(s: Seq<char>) -> Seq<(KeyId, bool)> {
    s.filter_map(|c: char| char_to_key_spec(c))
}

/// The events that replay one keystroke: press and release the key,
/// wrapped in press and release of left shift when the flag is set.
pub open spec fn key_events_spec(key: KeyId, shift: bool) -> Seq<InputEvent> {
    if shift {
        seq![
            InputEvent::Press(KeyId::ShiftLeft),
            InputEvent::Press(key),
            InputEvent::Release(key),
            InputEvent::Release(KeyId::ShiftLeft),
        ]
    } else {
        seq![InputEvent::Press(key), InputEvent::Release(key)]
    }
}

/// The keystrokes that retype a text, in order. A character outside the
/// key table produces no keystroke and no error.
pub fn keystrokes_for(text: &str) -> (r: Vec<(KeyId, bool)>)
    ensures
        r@ == keystrokes_spec(text@),
{
    let n = text.unicode_len();
    let mut out: Vec<(KeyId, bool)> = Vec::new();
    proof {
        assert(text@.subrange(0, 0) =~= Seq::<char>::empty());
        reveal(Seq::filter_map);
    }
    let mut i: usize = 0;
    while i < n
        invariant
            i <= n,
            n == text@.len(),
            out@ == keystrokes_spec(text@.subrange(0, i as int)),
        decreases n - i,
    {
        let c = text.get_char(i);
        proof {
            reveal(Seq::filter_map);
            assert(text@.subrange(0, i as int + 1).drop_last() =~= text@.subrange(0, i as int));
            assert(text@.subrange(0, i as int + 1).last() == text@[i as int]);
        }
        if let Some(stroke) = char_to_key(c) {
            out.push(stroke);
            proof {
                assert(out@ =~= keystrokes_spec(text@.subrange(0, i as int)) + seq![stroke]);
            }
        }
        i = i + 1;
    }
    proof {
        assert(text@.subrange(0, n as int) =~= text@);
    }
    out
}

/// The keystrokes that retype a raw recognized text: the text is
/// sanitized first, then each remaining character is looked up in the
/// key table. This is the whole path from the recognizer's output to
/// the keystroke list.
pub fn typing_plan(raw: &str) -> (r: Vec<(KeyId, bool)>)
    ensures
        r@ == keystrokes_spec(sanitize_spec(raw@)),
{
    let cleaned = sanitize(raw);
    keystrokes_for(cleaned.as_str())
}

/// The event sequence for one keystroke: two events, or four when shift
/// is required.
pub fn key_event_sequence(key: KeyId, shift: bool) -> (r: Vec<InputEvent>)
    ensures
        r@ == key_events_spec(key, shift),
        shift ==> r@.len() == 4,
        !shift ==> r@.len() == 2,
{
    let mut events: Vec<InputEvent> = Vec::new();
    if shift {
        events.push(InputEvent::Press(KeyId::ShiftLeft));
    }
    events.push(InputEvent::Press(key));
    events.push(InputEvent::Release(key));
    if shift {
        events.push(InputEvent::Release(KeyId::ShiftLeft));
    }
    proof {
        assert(events@ =~= key_events_spec(key, shift));
    }
    events
}

} // verus!
