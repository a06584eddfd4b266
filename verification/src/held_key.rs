//! Held-key detection: turns raw key transitions and timer fires into
//! `Down` / `Delay` / `Repeat` events.
//!
//! The detector owns one conceptual timer.  A key press arms it for
//! `delay_duration`; once it fires the press counts as a long press
//! (`Delay`), and every further fire after `repeat_period` is a `Repeat`.
//! A release disarms everything, so the next press starts a fresh cycle.
//! The caller performs the actual waiting: it races the armed timer
//! against the key source and reports whichever won through
//! [`HeldKey::key_event`] or [`HeldKey::timeout_event`].

use vstd::prelude::*;

use crate::Key;
use crate::KeyEvent;

verus! {

/// A semantic key event: a fresh press, the press turning into a long
/// press, or a long press auto-repeating.
///
/// For one continuous press the detector emits `Down` first, then at most
/// one `Delay`, then only `Repeat`s; a release resets the cycle.
#[derive(Debug, Clone, Copy, PartialEq, Eq, Structural)]
pub enum Event {
    Down(Key),
    Delay(Key),
    Repeat(Key),
}

/// The abstract state of a held-key detector: which key is down, the
/// duration the timer is armed for (if any), the two configured
/// durations, and whether the long-press has already been recognised.
pub struct HeldState {
    pub down: Option<Key>,
    pub timer: Option<u64>,
    pub delay_duration: u64,
    pub repeat_period: u64,
    pub repeating: bool,
}

/// What a raw key transition does to the detector.
///
/// A press records the key, arms the timer for `delay_duration`, clears
/// the repeat flag and reports `Down`.  A release clears everything and
/// reports nothing: a key released before the delay elapses produces only
/// its `Down`, never a `Delay`.
pub open spec fn key_step(s: HeldState, e: KeyEvent) -> (HeldState, Option<Event>) {
    match e {
        KeyEvent::Down(k) => (
            HeldState { down: Some(k), timer: Some(s.delay_duration), repeating: false, ..s },
            Some(Event::Down(k)),
        ),
        KeyEvent::Up(_) => (
            HeldState { down: None, timer: None, repeating: false, ..s },
            None,
        ),
    }
}

/// What a fire of the armed timer does to the detector.
///
/// The first fire of a press recognises the long press: it sets the
/// repeat flag, re-arms for `repeat_period` and reports `Delay`; every
/// later fire re-arms for `repeat_period` and reports `Repeat`.
pub open spec fn timeout_step(s: HeldState) -> (HeldState, Option<Event>) {
    if s.repeating {
        (
            HeldState { timer: Some(s.repeat_period), ..s },
            match s.down {
                Some(k) => Some(Event::Repeat(k)),
                None => None,
            },
        )
    } else {
        (
            HeldState { timer: Some(s.repeat_period), repeating: true, ..s },
            match s.down {
                Some(k) => Some(Event::Delay(k)),
                None => None,
            },
        )
    }
}

/// The held-key detector.  The caller races the armed timer (duration in
/// milliseconds, see [`HeldKey::armed_millis`]) against the raw key
/// source and hands the winner to [`HeldKey::key_event`] or
/// [`HeldKey::timeout_event`].
#[derive(Debug)]
pub struct HeldKey {
    down: Option<Key>,
    timer: Option<u64>,
    delay_duration: u64,
    repeat_period: u64,
    repeating: bool,
}

impl View for HeldKey {
    type V = HeldState;

    closed spec fn view(&self) -> HeldState {
        HeldState {
            down: self.down,
            timer: self.timer,
            delay_duration: self.delay_duration,
            repeat_period: self.repeat_period,
            repeating: self.repeating,
        }
    }
}

impl HeldKey {
    /// The timer is only ever armed while a key is down.
    pub open spec fn wf(self) -> bool {
        self@.timer is Some ==> self@.down is Some
    }

    pub fn new(delay_duration: u64, repeat_period: u64) -> (r: Self)
        ensures
            r.wf(),
            r@ == (HeldState {
                down: None,
                timer: None,
                delay_duration,
                repeat_period,
                repeating: false,
            }),
    {
        Self { down: None, timer: None, delay_duration, repeat_period, repeating: false }
    }

    /// Feeds one raw key transition in; see [`key_step`] for the exact
    /// transition performed.
    pub fn key_event(&mut self, key_event: KeyEvent) -> (r: Option<Event>)
        requires
            old(self).wf(),
        ensures
            final(self).wf(),
            (final(self)@, r) == key_step(old(self)@, key_event),
    {
        match key_event {
            KeyEvent::Down(key) => {
                self.timer = Some(self.delay_duration);
                self.down = Some(key);
                self.repeating = false;
                Some(Event::Down(key))
            }
            KeyEvent::Up(_key) => {
                self.timer = None;
                self.down = None;
                self.repeating = false;
                None
            }
        }
    }

    /// Reports that the armed timer fired; see [`timeout_step`] for the
    /// exact transition performed.
    pub fn timeout_event(&mut self) -> (r: Option<Event>)
        requires
            old(self).wf(),
            old(self)@.timer is Some,
        ensures
            final(self).wf(),
            (final(self)@, r) == timeout_step(old(self)@),
    {
        let result = self.down;

        if self.repeating {
            self.timer = Some(self.repeat_period);
            match result {
                Some(k) => Some(Event::Repeat(k)),
                None => None,
            }
        } else {
            self.timer = Some(self.repeat_period);
            self.repeating = true;
            match result {
                Some(k) => Some(Event::Delay(k)),
                None => None,
            }
        }
    }

    /// The duration the timer is currently armed for, in milliseconds,
    /// counted from the transition that armed it.
    pub fn armed_millis(&self) -> (r: Option<u64>)
        ensures
            r == self@.timer,
    {
        self.timer
    }
}

} // verus!
