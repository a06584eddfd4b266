//! The hardware self-test: a fixed round of sub-tests (keypad,
//! vibration, buzzer, backlight), each a small state machine fed with
//! key presses.  Driving the actual hardware and drawing the prompts is
//! the caller's business; these machines only decide.

use vstd::prelude::*;

use crate::Key;
use crate::KeyEvent;
use crate::confirmation::Confirmation;
use crate::confirmation::ConfirmationModel;
use crate::confirmation::confirm_step;
use crate::spec_key_next;

pub mod cdc;
pub mod hid;

verus! {

/// Where a test stands.
#[derive(Debug, Clone, Copy, PartialEq, Eq, Structural)]
pub enum Status {
    Passed,
    Failed,
    InProgress,
}

/// The status that a confirmation answer amounts to: still open, the
/// device worked, or it did not.
pub open spec fn spec_status_of(answer: Option<bool>) -> Status {
    match answer {
        None => Status::InProgress,
        Some(true) => Status::Passed,
        Some(false) => Status::Failed,
    }
}

fn status_of(answer: Option<bool>) -> (r: Status)
    ensures
        r == spec_status_of(answer),
{
    match answer {
        None => Status::InProgress,
        Some(true) => Status::Passed,
        Some(false) => Status::Failed,
    }
}

/// The answer a test round works with: the one committed earlier, or
/// the one the key press of this round just committed.
pub open spec fn spec_resolve_answer(c: ConfirmationModel, event: Option<KeyEvent>) -> (
    ConfirmationModel,
    Option<bool>,
) {
    match c.answer {
        Some(a) => (c, Some(a)),
        None => match event {
            Some(e) => confirm_step(c, e),
            None => (c, None),
        },
    }
}

/// Resolves the answer of a dialog for one round; see
/// [`spec_resolve_answer`].
pub fn resolve_answer(c: &mut Confirmation, event: Option<KeyEvent>) -> (r: Option<bool>)
    ensures
        (final(c)@, r) == spec_resolve_answer(old(c)@, event),
{
    match event {
        Some(e) => c.key_event(e),
        None => c.answer(),
    }
}

/// One key press fed to a confirmation-based sub-test: a committed
/// answer only repeats its verdict; an open one takes the key.
pub open spec fn conf_test_step(c: ConfirmationModel, event: KeyEvent) -> (
    ConfirmationModel,
    Status,
) {
    match c.answer {
        Some(a) => (c, spec_status_of(Some(a))),
        None => {
            let (c2, r) = confirm_step(c, event);
            (c2, spec_status_of(r))
        },
    }
}

/// One key press fed to the keypad test, which expects every key once,
/// in keypad order: the expected key advances the test (and the last
/// key passes it), a wrong key fails it, anything else leaves it open.
pub open spec fn keypad_test_step(expected: Key, event: KeyEvent) -> (Key, Status) {
    match event {
        KeyEvent::Down(key) => {
            if key == expected {
                if expected == Key::Hash {
                    (expected, Status::Passed)
                } else {
                    (spec_key_next(expected).unwrap(), Status::InProgress)
                }
            } else {
                (expected, Status::Failed)
            }
        },
        _ => (expected, Status::InProgress),
    }
}

/// The keypad sub-test; its view is the key it expects next.
#[derive(Debug, Clone, Copy)]
pub struct KeypadTest {
    expected: Key,
}

impl View for KeypadTest {
    type V = Key;

    closed spec fn view(&self) -> Key {
        self.expected
    }
}

impl KeypadTest {
    pub fn new(key: Key) -> (r: Self)
        ensures
            r@ == key,
    {
        Self { expected: key }
    }

    /// Feeds one key press in; see [`keypad_test_step`].
    pub fn key_event(&mut self, event: KeyEvent) -> (r: Status)
        ensures
            (final(self)@, r) == keypad_test_step(old(self)@, event),
    {
        match event {
            KeyEvent::Down(key) => {
                if key == self.expected {
                    if self.expected == Key::Hash {
                        Status::Passed
                    } else {
                        self.expected = self.expected.next().unwrap();
                        Status::InProgress
                    }
                } else {
                    Status::Failed
                }
            }
            _ => Status::InProgress,
        }
    }
}

impl Default for KeypadTest {
    fn default() -> (r: Self)
        ensures
            r@ == Key::Select,
    {
        Self::new(Key::first())
    }
}

/// The confirmation a fresh vibration test asks.
pub open spec fn spec_vibration_prompt() -> ConfirmationModel {
    ConfirmationModel {
        message: "Is the device vibrating?"@,
        yes_label: "Yes"@,
        no_label: "No"@,
        selected: false,
        answer: None,
    }
}

/// The vibration sub-test: the caller starts the motor, asks, and
/// stops it on an answer.  Its view is its confirmation.
#[derive(Debug, Clone, Copy)]
pub struct VibrationTest {
    confirmation: Confirmation,
}

impl View for VibrationTest {
    type V = ConfirmationModel;

    closed spec fn view(&self) -> ConfirmationModel {
        self.confirmation@
    }
}

impl VibrationTest {
    pub fn new() -> (r: Self)
        ensures
            r@ == spec_vibration_prompt(),
    {
        Self { confirmation: Confirmation::new("Is the device vibrating?", "Yes", "No", false) }
    }

    /// The dialog to draw.
    pub fn confirmation(&self) -> (r: &Confirmation)
        ensures
            r@ == self@,
    {
        &self.confirmation
    }

    /// Feeds one key press in; see [`conf_test_step`].
    pub fn key_event(&mut self, event: KeyEvent) -> (r: Status)
        ensures
            (final(self)@, r) == conf_test_step(old(self)@, event),
    {
        status_of(self.confirmation.key_event(event))
    }
}

impl Default for VibrationTest {
    fn default() -> (r: Self)
        ensures
            r@ == spec_vibration_prompt(),
    {
        Self::new()
    }
}

/// The confirmation a fresh buzzer test asks.
pub open spec fn spec_buzzer_prompt() -> ConfirmationModel {
    ConfirmationModel {
        message: "Is the device making a tone?"@,
        yes_label: "Yes"@,
        no_label: "No"@,
        selected: false,
        answer: None,
    }
}

/// The buzzer sub-test: the caller unmutes the buzzer at 440 Hz, asks,
/// and mutes it on an answer.  Its view is its confirmation.
#[derive(Debug, Clone, Copy)]
pub struct BuzzerTest {
    confirmation: Confirmation,
}

impl View for BuzzerTest {
    type V = ConfirmationModel;

    closed spec fn view(&self) -> ConfirmationModel {
        self.confirmation@
    }
}

impl BuzzerTest {
    pub fn new() -> (r: Self)
        ensures
            r@ == spec_buzzer_prompt(),
    {
        Self {
            confirmation: Confirmation::new("Is the device making a tone?", "Yes", "No", false),
        }
    }

    /// The dialog to draw.
    pub fn confirmation(&self) -> (r: &Confirmation)
        ensures
            r@ == self@,
    {
        &self.confirmation
    }

    /// Feeds one key press in; see [`conf_test_step`].
    pub fn key_event(&mut self, event: KeyEvent) -> (r: Status)
        ensures
            (final(self)@, r) == conf_test_step(old(self)@, event),
    {
        status_of(self.confirmation.key_event(event))
    }
}

impl Default for BuzzerTest {
    fn default() -> (r: Self)
        ensures
            r@ == spec_buzzer_prompt(),
    {
        Self::new()
    }
}

/// The confirmation a fresh backlight test asks.
pub open spec fn spec_backlight_prompt() -> ConfirmationModel {
    ConfirmationModel {
        message: "Is the backlight on?"@,
        yes_label: "Yes"@,
        no_label: "No"@,
        selected: false,
        answer: None,
    }
}

/// The backlight sub-test: the caller switches the backlight on, asks,
/// and switches it off on an answer.  Its view is its confirmation.
#[derive(Debug, Clone, Copy)]
pub struct BacklightTest {
    confirmation: Confirmation,
}

impl View for BacklightTest {
    type V = ConfirmationModel;

    closed spec fn view(&self) -> ConfirmationModel {
        self.confirmation@
    }
}

impl BacklightTest {
    pub fn new() -> (r: Self)
        ensures
            r@ == spec_backlight_prompt(),
    {
        Self { confirmation: Confirmation::new("Is the backlight on?", "Yes", "No", false) }
    }

    /// The dialog to draw.
    pub fn confirmation(&self) -> (r: &Confirmation)
        ensures
            r@ == self@,
    {
        &self.confirmation
    }

    /// Feeds one key press in; see [`conf_test_step`].
    pub fn key_event(&mut self, event: KeyEvent) -> (r: Status)
        ensures
            (final(self)@, r) == conf_test_step(old(self)@, event),
    {
        status_of(self.confirmation.key_event(event))
    }
}

impl Default for BacklightTest {
    fn default() -> (r: Self)
        ensures
            r@ == spec_backlight_prompt(),
    {
        Self::new()
    }
}

/// The sub-test the round currently runs.
#[derive(Debug, Clone, Copy)]
pub enum Test {
    Keypad(KeypadTest),
    Vibration(VibrationTest),
    Buzzer(BuzzerTest),
    Backlight(BacklightTest),
}

/// The abstract state of the sub-test the round currently runs.
pub enum PhaseModel {
    Keypad(Key),
    Vibration(ConfirmationModel),
    Buzzer(ConfirmationModel),
    Backlight(ConfirmationModel),
}

/// The abstract state of the whole round.
pub struct HardwareTestModel {
    pub status: Status,
    pub phase: PhaseModel,
}

/// The sub-test after the current one, fresh: keypad, vibration,
/// buzzer, backlight, and around again.
pub open spec fn spec_next_phase(p: PhaseModel) -> PhaseModel {
    match p {
        PhaseModel::Keypad(_) => PhaseModel::Vibration(spec_vibration_prompt()),
        PhaseModel::Vibration(_) => PhaseModel::Buzzer(spec_buzzer_prompt()),
        PhaseModel::Buzzer(_) => PhaseModel::Backlight(spec_backlight_prompt()),
        PhaseModel::Backlight(_) => PhaseModel::Keypad(Key::Select),
    }
}

/// One key press fed to the current sub-test.
pub open spec fn phase_step(p: PhaseModel, event: KeyEvent) -> (PhaseModel, Status) {
    match p {
        PhaseModel::Keypad(k) => {
            let (k2, s) = keypad_test_step(k, event);
            (PhaseModel::Keypad(k2), s)
        },
        PhaseModel::Vibration(c) => {
            let (c2, s) = conf_test_step(c, event);
            (PhaseModel::Vibration(c2), s)
        },
        PhaseModel::Buzzer(c) => {
            let (c2, s) = conf_test_step(c, event);
            (PhaseModel::Buzzer(c2), s)
        },
        PhaseModel::Backlight(c) => {
            let (c2, s) = conf_test_step(c, event);
            (PhaseModel::Backlight(c2), s)
        },
    }
}

/// One key press fed to the round: while it is in progress, the current
/// sub-test takes the key; a passed sub-test gives way to the next
/// fresh one, a failed one fails the round for good.
pub open spec fn hw_step(m: HardwareTestModel, event: KeyEvent) -> HardwareTestModel {
    if m.status != Status::InProgress {
        m
    } else {
        let (p2, s) = phase_step(m.phase, event);
        match s {
            Status::Passed => HardwareTestModel {
                status: Status::InProgress,
                phase: spec_next_phase(p2),
            },
            Status::Failed => HardwareTestModel { status: Status::Failed, phase: p2 },
            Status::InProgress => HardwareTestModel { status: Status::InProgress, phase: p2 },
        }
    }
}

/// The whole self-test round.  Its view is a [`HardwareTestModel`].
#[derive(Debug, Clone, Copy)]
pub struct HardwareTest {
    status: Status,
    test: Test,
}

/// The abstract state of a sub-test.
pub open spec fn phase_view(t: Test) -> PhaseModel {
    match t {
        Test::Keypad(s) => PhaseModel::Keypad(s@),
        Test::Vibration(s) => PhaseModel::Vibration(s@),
        Test::Buzzer(s) => PhaseModel::Buzzer(s@),
        Test::Backlight(s) => PhaseModel::Backlight(s@),
    }
}

impl View for HardwareTest {
    type V = HardwareTestModel;

    closed spec fn view(&self) -> HardwareTestModel {
        HardwareTestModel { status: self.status, phase: phase_view(self.test) }
    }
}

impl HardwareTest {
    /// A round that starts in the given status, at the keypad test.
    pub fn new(test: Status) -> (r: Self)
        ensures
            r@ == (HardwareTestModel { status: test, phase: PhaseModel::Keypad(Key::Select) }),
    {
        Self { status: test, test: Test::Keypad(KeypadTest::default()) }
    }

    /// Replaces the current sub-test with the next one, fresh; see
    /// [`spec_next_phase`].
    pub fn next(&mut self)
        ensures
            final(self)@ == (HardwareTestModel {
                phase: spec_next_phase(old(self)@.phase),
                ..old(self)@
            }),
    {
        match self.test {
            Test::Keypad(_) => {
                self.test = Test::Vibration(VibrationTest::default());
            }
            Test::Vibration(_) => {
                self.test = Test::Buzzer(BuzzerTest::default());
            }
            Test::Buzzer(_) => {
                self.test = Test::Backlight(BacklightTest::default());
            }
            Test::Backlight(_) => {
                self.test = Test::Keypad(KeypadTest::default());
            }
        }
    }

    /// The overall verdict so far.
    pub fn status(&self) -> (r: Status)
        ensures
            r == self@.status,
    {
        self.status
    }

    /// The sub-test currently running, for the caller to draw and to
    /// drive the hardware for.
    pub fn current(&self) -> (r: &Test)
        ensures
            phase_view(*r) == self@.phase,
    {
        &self.test
    }

    /// Feeds one key press to the round; see [`hw_step`].
    pub fn key_event(&mut self, event: KeyEvent) -> (r: Status)
        ensures
            final(self)@ == hw_step(old(self)@, event),
            r == final(self)@.status,
    {
        if self.status != Status::InProgress {
            return self.status;
        }
        let sub = match &mut self.test {
            Test::Keypad(t) => t.key_event(event),
            Test::Vibration(t) => t.key_event(event),
            Test::Buzzer(t) => t.key_event(event),
            Test::Backlight(t) => t.key_event(event),
        };
        match sub {
            Status::Passed => self.next(),
            Status::Failed => {
                self.status = Status::Failed;
            }
            Status::InProgress => {}
        }
        self.status
    }
}

impl Default for HardwareTest {
    fn default() -> (r: Self)
        ensures
            r@ == (HardwareTestModel {
                status: Status::InProgress,
                phase: PhaseModel::Keypad(Key::Select),
            }),
    {
        Self::new(Status::InProgress)
    }
}

} // verus!
