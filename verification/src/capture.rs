//! The input capture service: key-press and key-release notifications go
//! in, display strings for the event channel come out.
//!
//! The service remembers one thing, whether shift is held. A press of a
//! modifier emits nothing, and a press of shift sets the flag. A press of
//! any other key emits its display string under the current flag. A
//! release emits nothing, and a release of shift clears the flag.

use crate::keys::is_modifier;
use crate::keys::is_modifier_key;
use crate::keys::is_shift;
use crate::keys::is_shift_key;
use crate::keys::key_text;
use crate::keys::key_to_string;
use crate::keys::lemma_modifiers_are_ignored;
use crate::keys::Key;
use crate::state::is_ignored_key;
use vstd::prelude::*;

verus! {

/// A notification from the keyboard.
#[derive(Debug, Clone, Copy, PartialEq, Eq, Structural)]
pub enum KeyEvent {
    Press(Key),
    Release(Key),
}

/// The state of the capture service.
#[derive(Debug, Clone, Copy, PartialEq, Eq, Structural)]
pub struct KeyCapture {
    /// Whether a shift key is held.
    pub shift_held: bool,
}

impl KeyCapture {
    /// The service after `event`.
    pub open spec fn after(self, event: KeyEvent) -> KeyCapture {
        match event {
            KeyEvent::Press(key) => if is_shift(key) {
                KeyCapture { shift_held: true }
            } else {
                self
            },
            KeyEvent::Release(key) => if is_shift(key) {
                KeyCapture { shift_held: false }
            } else {
                self
            },
        }
    }

    /// What the service emits on `event`, if anything.
    pub open spec fn emitted(self, event: KeyEvent) -> Option<Seq<char>> {
        match event {
            KeyEvent::Press(key) => if is_modifier(key) {
                None
            } else {
                Some(key_text(key, self.shift_held))
            },
            KeyEvent::Release(_) => None,
        }
    }

    /// The service after a sequence of events, first to last.
    pub open spec fn after_all(self, events: Seq<KeyEvent>) -> KeyCapture
        decreases events.len(),
    {
        if events.len() == 0 {
            self
        } else {
            self.after_all(events.drop_last()).after(events.last())
        }
    }

    /// All that the service emits on a sequence of events, in order.
    pub open spec fn emitted_by_all(self, events: Seq<KeyEvent>) -> Seq<Seq<char>>
        decreases events.len(),
    {
        if events.len() == 0 {
            Seq::empty()
        } else {
            let before = self.emitted_by_all(events.drop_last());
            match self.after_all(events.drop_last()).emitted(events.last()) {
                Some(text) => before.push(text),
                None => before,
            }
        }
    }

    /// A service that has seen no key: shift is not held.
    pub fn new() -> (capture: KeyCapture)
        ensures
            capture == (KeyCapture { shift_held: false }),
    {
        KeyCapture { shift_held: false }
    }

    /// Takes one notification and returns the display string to send on,
    /// if the notification calls for one.
    pub fn on_event(&mut self, event: KeyEvent) -> (out: Option<String>)
        ensures
            *final(self) == old(self).after(event),
            out is Some <==> old(self).emitted(event) is Some,
            out matches Some(text) ==> Some(text@) == old(self).emitted(event),
    {
        match event {
            KeyEvent::Press(key) => {
                if is_modifier_key(key) {
                    if is_shift_key(key) {
                        self.shift_held = true;
                    }
                    None
                } else {
                    Some(key_to_string(key, self.shift_held))
                }
            },
            KeyEvent::Release(key) => {
                if is_shift_key(key) {
                    self.shift_held = false;
                }
                None
            },
        }
    }
}

/// Nothing that the service emits is a key that the controller ignores:
/// every emitted string is an accepted key event.
pub proof fn lemma_emitted_keys_are_accepted(capture: KeyCapture, event: KeyEvent)
    ensures
        capture.emitted(event) matches Some(text) ==> !is_ignored_key(text),
{
    if let KeyEvent::Press(key) = event {
        lemma_modifiers_are_ignored(key, capture.shift_held);
    }
}

/// The flag follows the shift keys alone: after a press of shift it is
/// set, after a release of shift it is clear, and no other key moves it.
pub proof fn lemma_shift_flag_follows_shift(capture: KeyCapture, event: KeyEvent)
    ensures
        event matches KeyEvent::Press(key) && is_shift(key) ==> capture.after(event).shift_held,
        event matches KeyEvent::Release(key) && is_shift(key) ==> !capture.after(
            event,
        ).shift_held,
        (event matches KeyEvent::Press(key) && !is_shift(key)) ==> capture.after(event)
            == capture,
        (event matches KeyEvent::Release(key) && !is_shift(key)) ==> capture.after(event)
            == capture,
{
}

/// The service emits at most one string for each notification, and none
/// for a release or for a modifier.
pub proof fn lemma_emitted_count(capture: KeyCapture, events: Seq<KeyEvent>)
    ensures
        capture.emitted_by_all(events).len() <= events.len(),
    decreases events.len(),
{
    if events.len() > 0 {
        lemma_emitted_count(capture, events.drop_last());
    }
}

} // verus!
