//! The character buffer a text box owns.  The decoder only emits
//! events; this consumer applies them: a tentative character sits at
//! the cursor and may still be replaced, a decided character is
//! appended for good, a decided backspace erases.  Drawing the buffer
//! is the caller's business.

use vstd::prelude::*;

use crate::multitap::BACKSPACE;
use crate::multitap::Event;

verus! {

/// The abstract state of a text box: the committed text and the
/// tentative character displayed at the cursor, if any.
pub struct TextboxModel {
    pub buffer: Seq<char>,
    pub tentative: Option<char>,
}

/// The text with its last character erased; erasing empty text leaves
/// it empty.
pub open spec fn erased(b: Seq<char>) -> Seq<char> {
    if b.len() == 0 {
        b
    } else {
        b.drop_last()
    }
}

/// What one decoder event does to the text: a tentative character
/// replaces the one at the cursor (a tentative backspace erases
/// outright), a decided character lands in the text and frees the
/// cursor, a decided backspace drops the last character, and case
/// changes and the picker request leave the text alone.
pub open spec fn textbox_apply(m: TextboxModel, event: Event) -> TextboxModel {
    match event {
        Event::Tentative(c) => {
            if c == BACKSPACE {
                TextboxModel { buffer: erased(m.buffer), tentative: None }
            } else {
                TextboxModel { tentative: Some(c), ..m }
            }
        },
        Event::Decided(c) => {
            if c == BACKSPACE {
                TextboxModel { buffer: erased(m.buffer), tentative: None }
            } else {
                TextboxModel { buffer: m.buffer.push(c), tentative: None }
            }
        },
        _ => m,
    }
}

/// A text box buffer.  Its view is a [`TextboxModel`].
#[derive(Debug)]
pub struct Textbox {
    buffer: Vec<char>,
    tentative: Option<char>,
}

impl View for Textbox {
    type V = TextboxModel;

    closed spec fn view(&self) -> TextboxModel {
        TextboxModel { buffer: self.buffer@, tentative: self.tentative }
    }
}

impl Textbox {
    pub fn new() -> (r: Self)
        ensures
            r@ == (TextboxModel { buffer: Seq::empty(), tentative: None }),
    {
        Self { buffer: Vec::new(), tentative: None }
    }

    /// The committed text.
    pub fn buffer(&self) -> (r: &Vec<char>)
        ensures
            r@ == self@.buffer,
    {
        &self.buffer
    }

    /// The tentative character at the cursor, if one is displayed.
    pub fn tentative(&self) -> (r: Option<char>)
        ensures
            r == self@.tentative,
    {
        self.tentative
    }

    /// Applies one decoder event; see [`textbox_apply`].
    pub fn apply(&mut self, event: Event)
        ensures
            final(self)@ == textbox_apply(old(self)@, event),
    {
        match event {
            Event::Tentative(c) => {
                if c == BACKSPACE {
                    self.buffer.pop();
                    self.tentative = None;
                } else {
                    self.tentative = Some(c);
                }
            }
            Event::Decided(c) => {
                self.tentative = None;
                if c == BACKSPACE {
                    self.buffer.pop();
                } else {
                    self.buffer.push(c);
                }
            }
            _ => {}
        }
    }
}

impl Default for Textbox {
    fn default() -> (r: Self)
        ensures
            r@ == (TextboxModel { buffer: Seq::empty(), tentative: None }),
    {
        Self::new()
    }
}

} // verus!
