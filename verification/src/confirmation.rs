//! A yes/no confirmation dialog: the up and down keys move the
//! selection, the select key commits it, and a committed answer sticks.
//! Drawing the dialog is the caller's business; this is the decision
//! state only.

use vstd::prelude::*;

use crate::Key;
use crate::KeyEvent;

verus! {

/// The abstract state of a confirmation: the texts, the highlighted
/// answer, and the committed answer once there is one.
pub struct ConfirmationModel {
    pub message: Seq<char>,
    pub yes_label: Seq<char>,
    pub no_label: Seq<char>,
    pub selected: bool,
    pub answer: Option<bool>,
}

/// What one key press does to an undecided confirmation: up and down
/// flip the highlighted answer, select commits and reports it, every
/// other key changes nothing.
pub open spec fn confirm_step(m: ConfirmationModel, event: KeyEvent) -> (
    ConfirmationModel,
    Option<bool>,
) {
    match event {
        KeyEvent::Down(Key::Up) | KeyEvent::Down(Key::Down) => (
            ConfirmationModel { selected: !m.selected, ..m },
            None,
        ),
        KeyEvent::Down(Key::Select) => (
            ConfirmationModel { answer: Some(m.selected), ..m },
            Some(m.selected),
        ),
        _ => (m, None),
    }
}

/// A yes/no dialog.  Its view is a [`ConfirmationModel`].
#[derive(Debug, Clone, Copy)]
pub struct Confirmation {
    message: &'static str,
    yes_label: &'static str,
    no_label: &'static str,
    selected: bool,
    answer: Option<bool>,
}

impl View for Confirmation {
    type V = ConfirmationModel;

    closed spec fn view(&self) -> ConfirmationModel {
        ConfirmationModel {
            message: self.message@,
            yes_label: self.yes_label@,
            no_label: self.no_label@,
            selected: self.selected,
            answer: self.answer,
        }
    }
}

impl Confirmation {
    pub fn new(
        message: &'static str,
        yes_label: &'static str,
        no_label: &'static str,
        selected: bool,
    ) -> (r: Self)
        ensures
            r@ == (ConfirmationModel {
                message: message@,
                yes_label: yes_label@,
                no_label: no_label@,
                selected,
                answer: None,
            }),
    {
        Self { message, yes_label, no_label, selected, answer: None }
    }

    /// The committed answer, once one was committed.
    pub fn answer(&self) -> (r: Option<bool>)
        ensures
            r == self@.answer,
    {
        self.answer
    }

    /// Whether the highlighted answer is the yes one.
    pub fn selected(&self) -> (r: bool)
        ensures
            r == self@.selected,
    {
        self.selected
    }

    /// The dialog texts, for the caller to draw.
    pub fn message(&self) -> (r: &'static str)
        ensures
            r@ == self@.message,
    {
        self.message
    }

    pub fn yes_label(&self) -> (r: &'static str)
        ensures
            r@ == self@.yes_label,
    {
        self.yes_label
    }

    pub fn no_label(&self) -> (r: &'static str)
        ensures
            r@ == self@.no_label,
    {
        self.no_label
    }

    /// Feeds one key press in; an already committed answer is reported
    /// again and nothing changes, otherwise see [`confirm_step`].
    pub fn key_event(&mut self, event: KeyEvent) -> (r: Option<bool>)
        ensures
            match old(self)@.answer {
                Some(a) => r == Some(a) && final(self)@ == old(self)@,
                None => (final(self)@, r) == confirm_step(old(self)@, event),
            },
    {
        if let Some(a) = self.answer {
            return Some(a);
        }
        match event {
            KeyEvent::Down(Key::Up) | KeyEvent::Down(Key::Down) => {
                self.selected = !self.selected;
                None
            }
            KeyEvent::Down(Key::Select) => {
                self.answer = Some(self.selected);
                Some(self.selected)
            }
            _ => None,
        }
    }
}

} // verus!
