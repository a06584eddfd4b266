//! The optional USB HID sub-test: after the tester opts in, the device
//! types a short secret on the host, one key press and one release per
//! round.  Building the HID reports and sending them is the caller's
//! business.

use vstd::prelude::*;

use crate::KeyEvent;
use crate::confirmation::Confirmation;
use crate::confirmation::ConfirmationModel;
use crate::hardware_test::Status;
use crate::hardware_test::resolve_answer;
use crate::hardware_test::spec_resolve_answer;
use crate::rtttl::scan;

verus! {

/// What the printer asks the caller to send next: a key pressed for
/// one character, or every key released.
#[derive(Debug, Clone, Copy, PartialEq, Eq, Structural)]
pub enum HidOutput {
    Press(char),
    Release,
}

/// The abstract state of the printer: the text, how much of it was
/// typed, and whether a release is owed before the next press.
pub struct HidPrinterModel {
    pub text: Seq<char>,
    pub index: int,
    pub release_owed: bool,
}

/// One request of the printer: a press of the next character with a
/// release owed after it, until the text is out.
pub open spec fn printer_step(m: HidPrinterModel) -> (HidPrinterModel, Option<HidOutput>) {
    if m.release_owed {
        (HidPrinterModel { release_owed: false, ..m }, Some(HidOutput::Release))
    } else if m.index < m.text.len() {
        (
            HidPrinterModel { index: m.index + 1, release_owed: true, ..m },
            Some(HidOutput::Press(m.text[m.index])),
        )
    } else {
        (m, None)
    }
}

/// Types a fixed text on the host, one report per call.  Its view is a
/// [`HidPrinterModel`].
#[derive(Debug, Clone)]
pub struct HidPrinter {
    text: Vec<char>,
    index: usize,
    release_owed: bool,
}

impl View for HidPrinter {
    type V = HidPrinterModel;

    closed spec fn view(&self) -> HidPrinterModel {
        HidPrinterModel {
            text: self.text@,
            index: self.index as int,
            release_owed: self.release_owed,
        }
    }
}

impl HidPrinter {
    pub fn new(s: &str) -> (r: Self)
        ensures
            r@ == (HidPrinterModel { text: s@, index: 0, release_owed: false }),
    {
        Self { text: scan::chars_vec(s), index: 0, release_owed: false }
    }

    /// The next report to send, if any is left; see [`printer_step`].
    pub fn next(&mut self) -> (r: Option<HidOutput>)
        ensures
            (final(self)@, r) == printer_step(old(self)@),
    {
        if self.release_owed {
            self.release_owed = false;
            Some(HidOutput::Release)
        } else if self.index < self.text.len() {
            let c = self.text[self.index];
            self.index += 1;
            self.release_owed = true;
            Some(HidOutput::Press(c))
        } else {
            None
        }
    }
}

/// The text the HID test types.
pub const HID_SECRET: &'static str = "oevdhr";

/// The confirmation a fresh HID test asks.
pub open spec fn spec_hid_prompt() -> ConfirmationModel {
    ConfirmationModel {
        message: "Perform optional test of USB HID?"@,
        yes_label: "Yes"@,
        no_label: "No"@,
        selected: false,
        answer: None,
    }
}

/// The abstract state of the HID test.
pub struct HidTestModel {
    pub confirmation: ConfirmationModel,
    pub printed: bool,
    pub verified: bool,
    pub printer: HidPrinterModel,
}

/// One round of the HID test: an open confirmation takes the key; a
/// declined test passes (it is optional); an accepted one types the
/// secret report by report, and then waits for a verification that the
/// board build never delivers — only declining ends it.
pub open spec fn hid_step(m: HidTestModel, event: Option<KeyEvent>) -> (
    HidTestModel,
    Status,
    Option<HidOutput>,
) {
    let (c2, answer) = spec_resolve_answer(m.confirmation, event);
    let m1 = HidTestModel { confirmation: c2, ..m };
    match answer {
        None => (m1, Status::InProgress, None),
        Some(false) => (m1, Status::Passed, None),
        Some(true) => {
            if !m1.printed {
                let (p2, out) = printer_step(m1.printer);
                match out {
                    Some(o) => (
                        HidTestModel { printer: p2, ..m1 },
                        Status::InProgress,
                        Some(o),
                    ),
                    None => (
                        HidTestModel { printed: true, printer: p2, ..m1 },
                        Status::InProgress,
                        None,
                    ),
                }
            } else if !m1.verified {
                (m1, Status::InProgress, None)
            } else {
                (m1, Status::Passed, None)
            }
        },
    }
}

/// The HID sub-test.  Its view is a [`HidTestModel`].
#[derive(Debug, Clone)]
pub struct HidTest {
    confirmation: Confirmation,
    printed: bool,
    verified: bool,
    printer: HidPrinter,
}

impl View for HidTest {
    type V = HidTestModel;

    closed spec fn view(&self) -> HidTestModel {
        HidTestModel {
            confirmation: self.confirmation@,
            printed: self.printed,
            verified: self.verified,
            printer: self.printer@,
        }
    }
}

impl HidTest {
    pub fn new() -> (r: Self)
        ensures
            r@ == (HidTestModel {
                confirmation: spec_hid_prompt(),
                printed: false,
                verified: false,
                printer: HidPrinterModel { text: HID_SECRET@, index: 0, release_owed: false },
            }),
    {
        Self {
            confirmation: Confirmation::new(
                "Perform optional test of USB HID?",
                "Yes",
                "No",
                false,
            ),
            printed: false,
            verified: false,
            printer: HidPrinter::new(HID_SECRET),
        }
    }

    /// The dialog to draw.
    pub fn confirmation(&self) -> (r: &Confirmation)
        ensures
            r@ == self@.confirmation,
    {
        &self.confirmation
    }

    /// One round of the test, fed with the key press that arrived
    /// since the last round, if any; the report request returned is
    /// for the caller to send; see [`hid_step`].
    pub fn step(&mut self, event: Option<KeyEvent>) -> (r: (Status, Option<HidOutput>))
        ensures
            ({
                let (m2, status, send) = hid_step(old(self)@, event);
                &&& final(self)@ == m2
                &&& r == (status, send)
            }),
    {
        let answer = resolve_answer(&mut self.confirmation, event);
        match answer {
            None => (Status::InProgress, None),
            Some(false) => (Status::Passed, None),
            Some(true) => {
                if !self.printed {
                    match self.printer.next() {
                        Some(o) => (Status::InProgress, Some(o)),
                        None => {
                            self.printed = true;
                            (Status::InProgress, None)
                        }
                    }
                } else if !self.verified {
                    (Status::InProgress, None)
                } else {
                    (Status::Passed, None)
                }
            }
        }
    }
}

impl Default for HidTest {
    fn default() -> (r: Self)
        ensures
            r@ == (HidTestModel {
                confirmation: spec_hid_prompt(),
                printed: false,
                verified: false,
                printer: HidPrinterModel { text: HID_SECRET@, index: 0, release_owed: false },
            }),
    {
        Self::new()
    }
}

} // verus!
