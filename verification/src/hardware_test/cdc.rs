//! The optional USB CDC sub-test: after the tester opts in, the device
//! sends a prompt over the serial channel and passes once the host
//! echoes the expected secret back, terminated by a nul byte.  Sending
//! and receiving are the caller's business.

use vstd::prelude::*;

use crate::KeyEvent;
use crate::confirmation::Confirmation;
use crate::confirmation::ConfirmationModel;
use crate::hardware_test::Status;
use crate::hardware_test::resolve_answer;
use crate::hardware_test::spec_resolve_answer;

verus! {

/// The prompt sent to the host.
pub const CDC_PROMPT: &'static str = "Enter secret: abxvn\n";

/// The confirmation a fresh CDC test asks.
pub open spec fn spec_cdc_prompt() -> ConfirmationModel {
    ConfirmationModel {
        message: "Perform optional test of USB CDC?"@,
        yes_label: "Yes"@,
        no_label: "No"@,
        selected: false,
        answer: None,
    }
}

/// Whether a response buffer holds the secret: the bytes of "abxvn",
/// then a nul terminator.
pub open spec fn spec_is_secret(b: Seq<u8>) -> bool {
    b.len() == 64 && b[0] == 97 && b[1] == 98 && b[2] == 120 && b[3] == 118 && b[4] == 110 && b[5]
        == 0
}

/// Checks a response buffer for the secret; see [`spec_is_secret`].
pub fn response_is_secret(buf: &[u8; 64]) -> (r: bool)
    ensures
        r == spec_is_secret(buf@),
{
    buf[0] == 97u8 && buf[1] == 98u8 && buf[2] == 120u8 && buf[3] == 118u8 && buf[4] == 110u8
        && buf[5] == 0u8
}

/// The abstract state of the CDC test.
pub struct CdcTestModel {
    pub confirmation: ConfirmationModel,
    pub prompt_sent: bool,
    pub verified: bool,
}

/// One round of the CDC test: an open confirmation takes the key; a
/// declined test passes (it is optional); an accepted one first sends
/// the prompt, then watches the responses for the secret, and passes
/// once it arrived.
pub open spec fn cdc_step(
    m: CdcTestModel,
    event: Option<KeyEvent>,
    response: Option<Seq<u8>>,
) -> (CdcTestModel, Status, Option<Seq<char>>) {
    let (c2, answer) = spec_resolve_answer(m.confirmation, event);
    let m1 = CdcTestModel { confirmation: c2, ..m };
    match answer {
        None => (m1, Status::InProgress, None),
        Some(false) => (m1, Status::Passed, None),
        Some(true) => {
            if !m1.prompt_sent {
                (
                    CdcTestModel { prompt_sent: true, ..m1 },
                    Status::InProgress,
                    Some(CDC_PROMPT@),
                )
            } else if !m1.verified {
                let got = match response {
                    Some(b) => spec_is_secret(b),
                    None => false,
                };
                (CdcTestModel { verified: m1.verified || got, ..m1 }, Status::InProgress, None)
            } else {
                (m1, Status::Passed, None)
            }
        },
    }
}

/// The CDC sub-test.  Its view is a [`CdcTestModel`].
#[derive(Debug, Clone, Copy)]
pub struct CdcTest {
    confirmation: Confirmation,
    prompt_sent: bool,
    verified: bool,
}

impl View for CdcTest {
    type V = CdcTestModel;

    closed spec fn view(&self) -> CdcTestModel {
        CdcTestModel {
            confirmation: self.confirmation@,
            prompt_sent: self.prompt_sent,
            verified: self.verified,
        }
    }
}

impl CdcTest {
    pub fn new() -> (r: Self)
        ensures
            r@ == (CdcTestModel {
                confirmation: spec_cdc_prompt(),
                prompt_sent: false,
                verified: false,
            }),
    {
        Self {
            confirmation: Confirmation::new(
                "Perform optional test of USB CDC?",
                "Yes",
                "No",
                false,
            ),
            prompt_sent: false,
            verified: false,
        }
    }

    /// The dialog to draw.
    pub fn confirmation(&self) -> (r: &Confirmation)
        ensures
            r@ == self@.confirmation,
    {
        &self.confirmation
    }

    /// One round of the test, fed with the key press and the host
    /// response that arrived since the last round, if any; the text
    /// returned is for the caller to send; see [`cdc_step`].
    pub fn step(&mut self, event: Option<KeyEvent>, response: Option<&[u8; 64]>) -> (r: (
        Status,
        Option<&'static str>,
    ))
        ensures
            ({
                let (m2, status, send) = cdc_step(
                    old(self)@,
                    event,
                    match response {
                        Some(b) => Some(b@),
                        None => None,
                    },
                );
                &&& final(self)@ == m2
                &&& r.0 == status
                &&& match r.1 {
                    Some(s) => send == Some(s@),
                    None => send is None,
                }
            }),
    {
        let answer = resolve_answer(&mut self.confirmation, event);
        match answer {
            None => (Status::InProgress, None),
            Some(false) => (Status::Passed, None),
            Some(true) => {
                if !self.prompt_sent {
                    self.prompt_sent = true;
                    (Status::InProgress, Some(CDC_PROMPT))
                } else if !self.verified {
                    if let Some(buf) = response {
                        if response_is_secret(buf) {
                            self.verified = true;
                        }
                    }
                    (Status::InProgress, None)
                } else {
                    (Status::Passed, None)
                }
            }
        }
    }
}

impl Default for CdcTest {
    fn default() -> (r: Self)
        ensures
            r@ == (CdcTestModel {
                confirmation: spec_cdc_prompt(),
                prompt_sent: false,
                verified: false,
            }),
    {
        Self::new()
    }
}

} // verus!
