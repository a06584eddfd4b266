//! Laws of the multi-tap decoder, stated over the decoder model and the
//! `..._step` functions that every public operation of [`MultiTap`] is
//! pinned to.

use vstd::prelude::*;

use crate::Key;
use crate::KeyEvent;
use crate::held_key;
use crate::multitap::BACKSPACE;
use crate::multitap::Case;
use crate::multitap::Event;
use crate::multitap::MultiTapModel;
use crate::multitap::decode_step;
use crate::multitap::key_event_step;
use crate::multitap::poll_step;
use crate::multitap::spec_first_char;
use crate::multitap::spec_is_digit_key;
use crate::multitap::spec_key_char;
use crate::multitap::spec_lowercase;

verus! {

/// Whether a key carries a letter group: the digit keys two to nine.
pub open spec fn spec_is_letter_key(k: Key) -> bool {
    match k {
        Key::Two | Key::Three | Key::Four | Key::Five | Key::Six | Key::Seven | Key::Eight
            | Key::Nine => true,
        _ => false,
    }
}

/// For every letter key, a single press with case Lower and no tentative
/// character outstanding yields the first letter of that key's group,
/// lower-cased, as a tentative character.
pub proof fn lemma_first_tap_is_lower_tentative(m: MultiTapModel, k: Key)
    requires
        m.case.case == Case::Lower,
        !(m.last.event matches Some(Event::Tentative(_))),
        spec_is_letter_key(k),
    ensures
        key_event_step(m, KeyEvent::Down(k)).1 == Some(
            Event::Tentative(spec_lowercase(spec_key_char(k))),
        ),
{
}

/// Pressing a different key while a tentative character is outstanding
/// commits the tentative character at once, and the very next poll of
/// the pending slot delivers the new key's first character as the new
/// tentative character — both events, in that order, never lost.
pub proof fn lemma_switch_key_commits_then_starts_fresh(m: MultiTapModel, c: char, j: Key, k: Key)
    requires
        m.pending is None,
        m.last.event == Some(Event::Tentative(c)),
        m.last.held == Some(held_key::Event::Down(j)),
        j != k,
        k != Key::Asterisk,
        k != Key::Hash,
        k != Key::Cancel,
        !(m.case.case == Case::Number && spec_is_digit_key(k)),
    ensures
        ({
            let (m1, committed) = key_event_step(m, KeyEvent::Down(k));
            let (m2, fresh) = poll_step(m1);
            &&& committed == Some(Event::Decided(c))
            &&& fresh == Some(Event::Tentative(spec_first_char(k, m.case.case)))
            &&& m2.pending is None
            &&& m2.case == m.case
        }),
{
}

/// A long press of the case key enters Number case from any case, and a
/// subsequent short press restores the case that was active before
/// Number was entered (Upper, if that case was somehow Number itself).
pub proof fn lemma_number_case_remembers_previous(m: MultiTapModel)
    ensures
        ({
            let (m1, entered) = decode_step(m, Some(held_key::Event::Delay(Key::Hash)));
            let (m2, restored) = decode_step(m1, Some(held_key::Event::Down(Key::Hash)));
            let back = if m.case.case == Case::Number {
                Case::Upper
            } else {
                m.case.case
            };
            &&& entered == Some(Event::Case(Case::Number))
            &&& m1.case.case == Case::Number
            &&& restored == Some(Event::Case(back))
            &&& m2.case.case == back
        }),
{
}

/// Pressing Cancel yields a decided backspace in every state — whatever
/// tentative character is outstanding — and leaves the pending slot
/// exactly as it was: backspace has no tentative phase and queues
/// nothing.
pub proof fn lemma_cancel_is_always_backspace(m: MultiTapModel)
    ensures
        ({
            let (m1, out) = decode_step(m, Some(held_key::Event::Down(Key::Cancel)));
            &&& out == Some(Event::Decided(BACKSPACE))
            &&& m1.pending == m.pending
        }),
{
}

/// Releasing a key resets tap adjacency: two separate brief taps of the
/// same key yield the same first character twice, tentative both times,
/// instead of cycling on to the successor.
pub proof fn lemma_release_resets_tap_adjacency(m: MultiTapModel, k: Key)
    requires
        m.pending is None,
        m.case.case != Case::Number,
        !(m.last.event matches Some(Event::Tentative(_))),
        k != Key::Asterisk,
        k != Key::Hash,
        k != Key::Cancel,
    ensures
        ({
            let (m1, first) = key_event_step(m, KeyEvent::Down(k));
            let (m2, released) = key_event_step(m1, KeyEvent::Up(k));
            let (m3, second) = key_event_step(m2, KeyEvent::Down(k));
            &&& first == Some(Event::Tentative(spec_first_char(k, m.case.case)))
            &&& released is None
            &&& second == first
        }),
{
}

/// The pending-slot discipline: a decoding step is only ever taken with
/// the slot empty (the executable functions require it, and the enqueue
/// inside them is verified against an empty slot); the one step that
/// fills the slot queues the new tentative character behind the commit
/// it emits, and a single poll frees the slot again before the next
/// step.
pub proof fn lemma_pending_slot_discipline(m: MultiTapModel, e: KeyEvent)
    requires
        m.pending is None,
    ensures
        ({
            let (m1, out) = key_event_step(m, e);
            m1.pending is Some ==> {
                &&& m1.pending matches Some(Event::Tentative(_))
                &&& out matches Some(Event::Decided(_))
            }
        }),
        poll_step(key_event_step(m, e).0).0.pending is None,
{
}

} // verus!
