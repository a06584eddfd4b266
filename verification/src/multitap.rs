//! The multi-tap text-entry decoder.
//!
//! It consumes the `Down` / `Delay` / `Repeat` stream of the held-key
//! detector and produces text-composition events: a tentative character
//! that may still change while the same key is re-pressed, a decided
//! character that is final, a case change, or a request to show the
//! special-character picker.
//!
//! The caller drives it in a loop: first [`MultiTap::poll_pending`] (an
//! event committed by the previous call may be waiting in the one-slot
//! lookahead buffer), then, if nothing was pending, it races the armed
//! held-key timer against the raw key source and reports the winner
//! through [`MultiTap::key_event`] or [`MultiTap::timer_event`].
//!
//! Time enters the decoder only through the held-key layer: the
//! long-press `Delay` is the one time-driven commit.  The decoder owns
//! no second timer; a consumer that wants a commit after a fixed quiet
//! period races its own timeout against the decoder and, when the
//! timeout wins, asks for the commit the same way the long press does.

use vstd::prelude::*;

use crate::Key;
use crate::KeyEvent;
use crate::held_key;

mod case;
pub mod laws;
mod pending;

pub use case::Case;
pub use case::CaseModel;
pub use case::CaseState;
pub use case::cycled;
pub use case::numeric;
pub use pending::Pending;

verus! {

/// The character emitted for the backspace key.
pub const BACKSPACE: char = '\u{8}';

/// A text-composition event.
///
/// `Tentative` is provisionally displayed and may still be replaced by
/// its cyclic successor; `Decided` is final.  Backspace is emitted as
/// `Decided(BACKSPACE)` and has no tentative phase.
#[derive(Debug, Clone, Copy, PartialEq, Eq, Structural)]
pub enum Event {
    Tentative(char),
    Decided(char),
    Case(Case),
    ShowSpecialCharacters,
}

/// The cyclic successor of a character under repeated presses of its own
/// key: letters cycle within their phone-keypad group of three or four,
/// digits cycle 1 to 9, then 0, then back to 1; anything else stays put.
pub open spec fn spec_cycle_char(c: char) -> char {
    match c {
        'A' => 'B',
        'B' => 'C',
        'C' => 'A',
        'D' => 'E',
        'E' => 'F',
        'F' => 'D',
        'G' => 'H',
        'H' => 'I',
        'I' => 'G',
        'J' => 'K',
        'K' => 'L',
        'L' => 'J',
        'M' => 'N',
        'N' => 'O',
        'O' => 'M',
        'P' => 'Q',
        'Q' => 'R',
        'R' => 'S',
        'S' => 'P',
        'T' => 'U',
        'U' => 'V',
        'V' => 'T',
        'W' => 'X',
        'X' => 'Y',
        'Y' => 'Z',
        'Z' => 'W',
        'a' => 'b',
        'b' => 'c',
        'c' => 'a',
        'd' => 'e',
        'e' => 'f',
        'f' => 'd',
        'g' => 'h',
        'h' => 'i',
        'i' => 'g',
        'j' => 'k',
        'k' => 'l',
        'l' => 'j',
        'm' => 'n',
        'n' => 'o',
        'o' => 'm',
        'p' => 'q',
        'q' => 'r',
        'r' => 's',
        's' => 'p',
        't' => 'u',
        'u' => 'v',
        'v' => 't',
        'w' => 'x',
        'x' => 'y',
        'y' => 'z',
        'z' => 'w',
        '1' => '2',
        '2' => '3',
        '3' => '4',
        '4' => '5',
        '5' => '6',
        '6' => '7',
        '7' => '8',
        '8' => '9',
        '9' => '0',
        '0' => '1',
        _ => c,
    }
}

/// The lower-case form of an upper-case letter; anything else stays put.
pub open spec fn spec_lowercase(c: char) -> char {
    match c {
        'A' => 'a',
        'B' => 'b',
        'C' => 'c',
        'D' => 'd',
        'E' => 'e',
        'F' => 'f',
        'G' => 'g',
        'H' => 'h',
        'I' => 'i',
        'J' => 'j',
        'K' => 'k',
        'L' => 'l',
        'M' => 'm',
        'N' => 'n',
        'O' => 'o',
        'P' => 'p',
        'Q' => 'q',
        'R' => 'r',
        'S' => 's',
        'T' => 't',
        'U' => 'u',
        'V' => 'v',
        'W' => 'w',
        'X' => 'x',
        'Y' => 'y',
        'Z' => 'z',
        _ => c,
    }
}

/// The digit a key commits in Number case.  Keys that carry no digit
/// fall back to '0'.
pub open spec fn spec_digit(k: Key) -> char {
    match k {
        Key::One => '1',
        Key::Two => '2',
        Key::Three => '3',
        Key::Four => '4',
        Key::Five => '5',
        Key::Six => '6',
        Key::Seven => '7',
        Key::Eight => '8',
        Key::Nine => '9',
        Key::Zero => '0',
        _ => '0',
    }
}

/// The character a key starts its cycle with, before lower-casing: the
/// first letter of the key's classic phone-keypad group for the digit
/// keys two to nine, the digit one for key one (and for the navigation
/// keys, preserved legacy behaviour), space for key zero.
pub open spec fn spec_key_char(k: Key) -> char {
    match k {
        Key::Select => '\r',
        Key::Cancel => BACKSPACE,
        Key::Up => '1',
        Key::Down => '1',
        Key::One => '1',
        Key::Two => 'A',
        Key::Three => 'D',
        Key::Four => 'G',
        Key::Five => 'J',
        Key::Six => 'M',
        Key::Seven => 'P',
        Key::Eight => 'T',
        Key::Nine => 'W',
        Key::Asterisk => '*',
        Key::Zero => ' ',
        Key::Hash => '#',
    }
}

/// The first character of a key's cycle under the given case: its digit
/// in Number case, the first letter of its group in Upper case, the same
/// letter lower-cased in Lower case.
pub open spec fn spec_first_char(k: Key, case: Case) -> char {
    match case {
        Case::Number => spec_digit(k),
        Case::Upper => spec_key_char(k),
        Case::Lower => spec_lowercase(spec_key_char(k)),
    }
}

/// Whether a key carries a digit of its own.
pub open spec fn spec_is_digit_key(k: Key) -> bool {
    match k {
        Key::One | Key::Two | Key::Three | Key::Four | Key::Five | Key::Six | Key::Seven
            | Key::Eight | Key::Nine | Key::Zero => true,
        _ => false,
    }
}

pub fn cycle_char(c: char) -> (r: char)
    ensures
        r == spec_cycle_char(c),
{
    match c {
        'A' => 'B',
        'B' => 'C',
        'C' => 'A',
        'D' => 'E',
        'E' => 'F',
        'F' => 'D',
        'G' => 'H',
        'H' => 'I',
        'I' => 'G',
        'J' => 'K',
        'K' => 'L',
        'L' => 'J',
        'M' => 'N',
        'N' => 'O',
        'O' => 'M',
        'P' => 'Q',
        'Q' => 'R',
        'R' => 'S',
        'S' => 'P',
        'T' => 'U',
        'U' => 'V',
        'V' => 'T',
        'W' => 'X',
        'X' => 'Y',
        'Y' => 'Z',
        'Z' => 'W',
        'a' => 'b',
        'b' => 'c',
        'c' => 'a',
        'd' => 'e',
        'e' => 'f',
        'f' => 'd',
        'g' => 'h',
        'h' => 'i',
        'i' => 'g',
        'j' => 'k',
        'k' => 'l',
        'l' => 'j',
        'm' => 'n',
        'n' => 'o',
        'o' => 'm',
        'p' => 'q',
        'q' => 'r',
        'r' => 's',
        's' => 'p',
        't' => 'u',
        'u' => 'v',
        'v' => 't',
        'w' => 'x',
        'x' => 'y',
        'y' => 'z',
        'z' => 'w',
        '1' => '2',
        '2' => '3',
        '3' => '4',
        '4' => '5',
        '5' => '6',
        '6' => '7',
        '7' => '8',
        '8' => '9',
        '9' => '0',
        '0' => '1',
        _ => c,
    }
}

/// The lower-case form of an upper-case letter; see [`spec_lowercase`].
pub fn lowercase(c: char) -> (r: char)
    ensures
        r == spec_lowercase(c),
{
    match c {
        'A' => 'a',
        'B' => 'b',
        'C' => 'c',
        'D' => 'd',
        'E' => 'e',
        'F' => 'f',
        'G' => 'g',
        'H' => 'h',
        'I' => 'i',
        'J' => 'j',
        'K' => 'k',
        'L' => 'l',
        'M' => 'm',
        'N' => 'n',
        'O' => 'o',
        'P' => 'p',
        'Q' => 'q',
        'R' => 'r',
        'S' => 's',
        'T' => 't',
        'U' => 'u',
        'V' => 'v',
        'W' => 'w',
        'X' => 'x',
        'Y' => 'y',
        'Z' => 'z',
        _ => c,
    }
}

/// The digit a key commits in Number case; see [`spec_digit`].
pub fn digit(k: Key) -> (c: char)
    ensures
        c == spec_digit(k),
{
    match k {
        Key::One => '1',
        Key::Two => '2',
        Key::Three => '3',
        Key::Four => '4',
        Key::Five => '5',
        Key::Six => '6',
        Key::Seven => '7',
        Key::Eight => '8',
        Key::Nine => '9',
        Key::Zero => '0',
        _ => '0',
    }
}

/// The character a key starts its cycle with; see [`spec_key_char`].
pub fn key_char(k: Key) -> (c: char)
    ensures
        c == spec_key_char(k),
{
    match k {
        Key::Select => '\r',
        Key::Cancel => BACKSPACE,
        Key::Up => '1',
        Key::Down => '1',
        Key::One => '1',
        Key::Two => 'A',
        Key::Three => 'D',
        Key::Four => 'G',
        Key::Five => 'J',
        Key::Six => 'M',
        Key::Seven => 'P',
        Key::Eight => 'T',
        Key::Nine => 'W',
        Key::Asterisk => '*',
        Key::Zero => ' ',
        Key::Hash => '#',
    }
}

/// The first character of a key's cycle under a case; see
/// [`spec_first_char`].
pub fn first_char(k: Key, case: Case) -> (c: char)
    ensures
        c == spec_first_char(k, case),
{
    match case {
        Case::Number => digit(k),
        Case::Upper => key_char(k),
        Case::Lower => lowercase(key_char(k)),
    }
}

fn is_digit_key(k: Key) -> (r: bool)
    ensures
        r == spec_is_digit_key(k),
{
    match k {
        Key::One | Key::Two | Key::Three | Key::Four | Key::Five | Key::Six | Key::Seven
            | Key::Eight | Key::Nine | Key::Zero => true,
        _ => false,
    }
}

impl Event {
    /// The committed form of a tentative event; other events have none.
    pub open spec fn spec_decide(self) -> Option<Event> {
        match self {
            Event::Tentative(c) => Some(Event::Decided(c)),
            _ => None,
        }
    }

    /// The event with its character advanced to the cyclic successor;
    /// only a tentative event can still advance.
    pub open spec fn spec_next_char(self) -> Option<Event> {
        match self {
            Event::Tentative(c) => Some(Event::Tentative(spec_cycle_char(c))),
            _ => None,
        }
    }

    fn decide(self) -> (r: Option<Self>)
        ensures
            r == self.spec_decide(),
    {
        match self {
            Self::Tentative(c) => Some(Self::Decided(c)),
            _ => None,
        }
    }

    fn next_char(self) -> (r: Option<Self>)
        ensures
            r == self.spec_next_char(),
    {
        match self {
            Self::Tentative(c) => Some(Self::Tentative(cycle_char(c))),
            _ => None,
        }
    }
}

/// What the decoder remembers of the previous call: the most recent
/// held-key event consumed and the most recent event emitted.  It is how
/// "same key pressed again" is told apart from "different key pressed".
pub struct LastModel {
    pub held: Option<held_key::Event>,
    pub event: Option<Event>,
}

/// The decoder's memory of the previous call; its view is a
/// [`LastModel`].
#[derive(Debug)]
pub struct Last {
    held_key_event: Option<held_key::Event>,
    event: Option<Event>,
}

impl View for Last {
    type V = LastModel;

    closed spec fn view(&self) -> LastModel {
        LastModel { held: self.held_key_event, event: self.event }
    }
}

impl Last {
    fn new() -> (r: Self)
        ensures
            r@ == (LastModel { held: None, event: None }),
    {
        Self { held_key_event: None, event: None }
    }

    fn clear(&mut self)
        ensures
            final(self)@ == (LastModel { held: None, event: None }),
    {
        self.held_key_event = None;
        self.event = None;
    }

    fn set_held_key_event(&mut self, held_key_event: Option<held_key::Event>) -> (r: Option<
        held_key::Event,
    >)
        ensures
            r == old(self)@.held,
            final(self)@ == (LastModel { held: held_key_event, ..old(self)@ }),
    {
        let result = self.held_key_event;
        self.held_key_event = held_key_event;
        result
    }

    fn set_event(&mut self, event: Option<Event>) -> (r: Option<Event>)
        ensures
            r == old(self)@.event,
            final(self)@ == (LastModel { event, ..old(self)@ }),
    {
        let result = self.event;
        self.event = event;
        result
    }
}

/// The abstract state of the whole decoder: the held-key detector, the
/// case machine, the memory of the previous call, the content of the
/// pending slot, and the caller-chosen commit timeout (carried for the
/// consumer, never read by the decoder itself).
pub struct MultiTapModel {
    pub held: held_key::HeldState,
    pub case: CaseModel,
    pub last: LastModel,
    pub pending: Option<Event>,
    pub duration: u64,
}

/// The decoder state a fresh [`MultiTap`] starts in: everything idle,
/// case Lower, and one `Case(Lower)` event already queued so that the
/// consumer learns the initial case first.
pub open spec fn initial_model(duration: u64) -> MultiTapModel {
    MultiTapModel {
        held: held_key::HeldState {
            down: None,
            timer: None,
            delay_duration: 1500,
            repeat_period: 500,
            repeating: false,
        },
        case: CaseModel { case: Case::Lower, prev_case: Case::Lower },
        last: LastModel { held: None, event: None },
        pending: Some(Event::Case(Case::Lower)),
        duration,
    }
}

/// Delivering the pending event, if one waits: the slot empties and the
/// delivered event becomes the most recent one emitted.  With an empty
/// slot nothing changes and nothing is delivered.
pub open spec fn poll_step(m: MultiTapModel) -> (MultiTapModel, Option<Event>) {
    match m.pending {
        Some(e) => (
            MultiTapModel { pending: None, last: LastModel { event: Some(e), ..m.last }, ..m },
            Some(e),
        ),
        None => (m, None),
    }
}

/// The decoding rules, applied to one held-key event (or to its absence,
/// as when a key was released).  `m.held` must already hold the stepped
/// held-key state; this function only records the event in the memory,
/// drives the case machine and the pending slot, and chooses the output:
///
/// * `Down(Asterisk)` requests the special-character picker;
/// * `Down(Hash)` cycles the case, `Delay(Hash)` enters Number case;
/// * `Down(Cancel)` commits a backspace at once; `Delay(Cancel)` is
///   reserved and does nothing;
/// * `Delay(k)` of any other key is an explicit commit of that key's
///   first character under the current case, and clears the memory;
/// * `Down(k)` of any other key: in Number case it commits the key's
///   digit outright; otherwise it advances a tentative character of the
///   same key, or commits a tentative character of a different key while
///   queueing the new key's first character in the pending slot, or
///   starts a fresh tentative character;
/// * `Repeat` and the absence of an event produce nothing.
pub open spec fn decode_step(m: MultiTapModel, he: Option<held_key::Event>) -> (
    MultiTapModel,
    Option<Event>,
) {
    match he {
        Some(held_key::Event::Down(Key::Asterisk)) => (
            MultiTapModel {
                last: LastModel { held: he, event: Some(Event::ShowSpecialCharacters) },
                ..m
            },
            Some(Event::ShowSpecialCharacters),
        ),
        Some(held_key::Event::Down(Key::Hash)) => (
            MultiTapModel {
                case: cycled(m.case),
                last: LastModel { held: he, event: Some(Event::Case(cycled(m.case).case)) },
                ..m
            },
            Some(Event::Case(cycled(m.case).case)),
        ),
        Some(held_key::Event::Down(Key::Cancel)) => (
            MultiTapModel {
                last: LastModel { held: he, event: Some(Event::Decided(BACKSPACE)) },
                ..m
            },
            Some(Event::Decided(BACKSPACE)),
        ),
        Some(held_key::Event::Delay(Key::Hash)) => (
            MultiTapModel {
                case: numeric(m.case),
                last: LastModel { held: he, event: Some(Event::Case(Case::Number)) },
                ..m
            },
            Some(Event::Case(Case::Number)),
        ),
        Some(held_key::Event::Delay(Key::Cancel)) => (
            MultiTapModel { last: LastModel { held: he, event: None }, ..m },
            None,
        ),
        Some(held_key::Event::Delay(d)) => (
            MultiTapModel {
                last: LastModel {
                    held: None,
                    event: Some(Event::Decided(spec_first_char(d, m.case.case))),
                },
                ..m
            },
            Some(Event::Decided(spec_first_char(d, m.case.case))),
        ),
        Some(held_key::Event::Down(d)) => decode_down(m, d),
        Some(held_key::Event::Repeat(_)) => (
            MultiTapModel { last: LastModel { held: he, event: None }, ..m },
            None,
        ),
        None => (
            MultiTapModel { last: LastModel { held: None, event: None }, ..m },
            None,
        ),
    }
}

/// The `Down(d)` rule of [`decode_step`] for a key that is none of
/// Asterisk, Hash and Cancel.
pub open spec fn decode_down(m: MultiTapModel, d: Key) -> (MultiTapModel, Option<Event>) {
    let he = Some(held_key::Event::Down(d));
    if m.case.case == Case::Number && spec_is_digit_key(d) {
        (
            MultiTapModel {
                last: LastModel { held: he, event: Some(Event::Decided(spec_digit(d))) },
                ..m
            },
            Some(Event::Decided(spec_digit(d))),
        )
    } else {
        match m.last.event {
            Some(Event::Tentative(c)) => {
                if m.last.held == he {
                    (
                        MultiTapModel {
                            last: LastModel {
                                held: he,
                                event: Some(Event::Tentative(spec_cycle_char(c))),
                            },
                            ..m
                        },
                        Some(Event::Tentative(spec_cycle_char(c))),
                    )
                } else {
                    (
                        MultiTapModel {
                            pending: Some(Event::Tentative(spec_first_char(d, m.case.case))),
                            last: LastModel { held: he, event: Some(Event::Decided(c)) },
                            ..m
                        },
                        Some(Event::Decided(c)),
                    )
                }
            }
            _ => (
                MultiTapModel {
                    last: LastModel {
                        held: he,
                        event: Some(Event::Tentative(spec_first_char(d, m.case.case))),
                    },
                    ..m
                },
                Some(Event::Tentative(spec_first_char(d, m.case.case))),
            ),
        }
    }
}

/// One raw key transition, fed through the held-key detector and then
/// decoded.
pub open spec fn key_event_step(m: MultiTapModel, e: KeyEvent) -> (MultiTapModel, Option<Event>) {
    let (h, he) = held_key::key_step(m.held, e);
    decode_step(MultiTapModel { held: h, ..m }, he)
}

/// One fire of the armed held-key timer, fed through the detector and
/// then decoded.
pub open spec fn timer_event_step(m: MultiTapModel) -> (MultiTapModel, Option<Event>) {
    let (h, he) = held_key::timeout_step(m.held);
    decode_step(MultiTapModel { held: h, ..m }, he)
}

/// The multi-tap decoder.  Its view is a [`MultiTapModel`]; every public
/// operation is pinned to the corresponding `..._step` function of the
/// model.
#[derive(Debug)]
pub struct MultiTap {
    case_state: CaseState,
    last: Last,
    pending: Pending<Event>,
    held_key: held_key::HeldKey,
    duration: u64,
}

impl View for MultiTap {
    type V = MultiTapModel;

    closed spec fn view(&self) -> MultiTapModel {
        MultiTapModel {
            held: self.held_key@,
            case: self.case_state@,
            last: self.last@,
            pending: self.pending@,
            duration: self.duration,
        }
    }
}

impl MultiTap {
    /// The held-key timer is only ever armed while a key is down.
    pub open spec fn wf(self) -> bool {
        self@.held.timer is Some ==> self@.held.down is Some
    }

    /// A fresh decoder: case Lower, nothing down, and the initial
    /// `Case(Lower)` event queued.  `duration` is the commit timeout the
    /// consumer races this decoder against; the decoder carries it only.
    pub fn new(duration: u64) -> (r: Self)
        ensures
            r.wf(),
            r@ == initial_model(duration),
    {
        let case_state = CaseState::new(Case::Lower);
        let mut pending = Pending::new();
        pending.enqueue(Event::Case(case_state.case()));

        Self {
            case_state,
            last: Last::new(),
            pending,
            held_key: held_key::HeldKey::new(1500, 500),
            duration,
        }
    }

    /// Delivers the event waiting in the pending slot, if any.  The
    /// caller must call this, until it returns `None`, before feeding
    /// the next held-key outcome in: that is what guarantees a `Decided`
    /// is observed before the `Tentative` it triggered.
    pub fn poll_pending(&mut self) -> (r: Option<Event>)
        ensures
            (final(self)@, r) == poll_step(old(self)@),
            old(self).wf() ==> final(self).wf(),
    {
        if let Some(pending) = self.pending.dequeue() {
            self.last.set_event(Some(pending));
            return Some(pending);
        }
        None
    }

    /// Feeds one raw key transition in; see [`key_event_step`].
    pub fn key_event(&mut self, key_event: KeyEvent) -> (r: Option<Event>)
        requires
            old(self).wf(),
            old(self)@.pending is None,
        ensures
            final(self).wf(),
            (final(self)@, r) == key_event_step(old(self)@, key_event),
    {
        let key = self.held_key.key_event(key_event);
        self.handle(key)
    }

    /// Reports that the armed held-key timer fired; see
    /// [`timer_event_step`].
    pub fn timer_event(&mut self) -> (r: Option<Event>)
        requires
            old(self).wf(),
            old(self)@.pending is None,
            old(self)@.held.timer is Some,
        ensures
            final(self).wf(),
            (final(self)@, r) == timer_event_step(old(self)@),
    {
        let key = self.held_key.timeout_event();
        self.handle(key)
    }

    /// The duration the held-key timer is currently armed for, in
    /// milliseconds, counted from the call that armed it.
    pub fn armed_millis(&self) -> (r: Option<u64>)
        ensures
            r == self@.held.timer,
    {
        self.held_key.armed_millis()
    }

    fn case(&self) -> (c: Case)
        ensures
            c == self@.case.case,
    {
        self.case_state.case()
    }

    fn handle(&mut self, key: Option<held_key::Event>) -> (r: Option<Event>)
        requires
            old(self)@.pending is None,
        ensures
            final(self)@.held == old(self)@.held,
            (final(self)@, r) == decode_step(old(self)@, key),
    {
        let last_key = self.last.set_held_key_event(key);

        let result = match key {
            Some(held_key::Event::Down(Key::Asterisk)) => Some(Event::ShowSpecialCharacters),
            Some(held_key::Event::Down(Key::Hash)) => {
                self.case_state.cycle_case();
                Some(Event::Case(self.case()))
            }
            Some(held_key::Event::Down(Key::Cancel)) => Some(Event::Decided(BACKSPACE)),
            Some(held_key::Event::Delay(Key::Hash)) => {
                self.case_state.enable_numeric_case();
                Some(Event::Case(self.case()))
            }
            Some(held_key::Event::Delay(Key::Cancel)) => None,
            Some(held_key::Event::Delay(d)) => {
                self.last.clear();
                Some(Event::Decided(first_char(d, self.case())))
            }
            Some(held_key::Event::Down(now)) => {
                if self.case() == Case::Number && is_digit_key(now) {
                    Some(Event::Decided(digit(now)))
                } else {
                    match self.last.event {
                        Some(Event::Tentative(c)) => {
                            let tentative = Event::Tentative(c);
                            if last_key == Some(held_key::Event::Down(now)) {
                                tentative.next_char()
                            } else {
                                let result = tentative.decide();
                                self.pending.enqueue(
                                    Event::Tentative(first_char(now, self.case())),
                                );
                                result
                            }
                        }
                        _ => Some(Event::Tentative(first_char(now, self.case()))),
                    }
                }
            }
            None | Some(held_key::Event::Repeat(_)) => None,
        };

        self.last.set_event(result);
        result
    }
}

} // verus!
