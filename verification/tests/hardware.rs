use pocketpad::Key;
use pocketpad::KeyEvent;
use pocketpad::confirmation::Confirmation;
use pocketpad::hardware_test::HardwareTest;
use pocketpad::hardware_test::KeypadTest;
use pocketpad::hardware_test::Status;
use pocketpad::hardware_test::Test;
use pocketpad::hardware_test::VibrationTest;
use pocketpad::hardware_test::cdc::CdcTest;
use pocketpad::hardware_test::hid::HidOutput;
use pocketpad::hardware_test::hid::HidTest;
use pocketpad::time::write_time;

const ALL_KEYS: [Key; 16] = [
    Key::Select,
    Key::Cancel,
    Key::Up,
    Key::Down,
    Key::One,
    Key::Two,
    Key::Three,
    Key::Four,
    Key::Five,
    Key::Six,
    Key::Seven,
    Key::Eight,
    Key::Nine,
    Key::Asterisk,
    Key::Zero,
    Key::Hash,
];

#[test]
fn test_confirmation_toggle_and_commit() {
    let mut c = Confirmation::new("Is the backlight on?", "Yes", "No", false);
    assert_eq!(c.answer(), None);
    assert!(!c.selected());
    assert_eq!(c.key_event(KeyEvent::Down(Key::Up)), None);
    assert!(c.selected());
    assert_eq!(c.key_event(KeyEvent::Down(Key::Down)), None);
    assert!(!c.selected());
    // Keys other than up, down and select change nothing.
    assert_eq!(c.key_event(KeyEvent::Down(Key::Two)), None);
    assert!(!c.selected());
    assert_eq!(c.key_event(KeyEvent::Down(Key::Up)), None);
    assert_eq!(c.key_event(KeyEvent::Down(Key::Select)), Some(true));
    assert_eq!(c.answer(), Some(true));
    // A committed answer sticks, whatever comes later.
    assert_eq!(c.key_event(KeyEvent::Down(Key::Down)), Some(true));
    assert_eq!(c.answer(), Some(true));
}

#[test]
fn test_keypad_test_walks_all_keys() {
    let mut test = KeypadTest::new(Key::Select);
    for (i, key) in ALL_KEYS.iter().enumerate() {
        // A release leaves the test open.
        assert_eq!(test.key_event(KeyEvent::Up(*key)), Status::InProgress);
        let expected = if i == ALL_KEYS.len() - 1 {
            Status::Passed
        } else {
            Status::InProgress
        };
        assert_eq!(test.key_event(KeyEvent::Down(*key)), expected);
    }
}

#[test]
fn test_keypad_test_fails_on_wrong_key() {
    let mut test = KeypadTest::new(Key::Select);
    assert_eq!(test.key_event(KeyEvent::Down(Key::Nine)), Status::Failed);
}

#[test]
fn test_vibration_test_statuses() {
    let mut test = VibrationTest::new();
    assert_eq!(test.key_event(KeyEvent::Down(Key::Two)), Status::InProgress);
    assert_eq!(test.key_event(KeyEvent::Down(Key::Select)), Status::Failed);

    let mut test = VibrationTest::new();
    assert_eq!(test.key_event(KeyEvent::Down(Key::Up)), Status::InProgress);
    assert_eq!(test.key_event(KeyEvent::Down(Key::Select)), Status::Passed);
    // The verdict repeats once committed.
    assert_eq!(test.key_event(KeyEvent::Down(Key::Down)), Status::Passed);
}

#[test]
fn test_hardware_test_round_advances() {
    let mut round = HardwareTest::new(Status::InProgress);
    assert!(matches!(round.current(), Test::Keypad(_)));
    for key in ALL_KEYS {
        assert_eq!(round.key_event(KeyEvent::Down(key)), Status::InProgress);
    }
    // The keypad test passed, so the round moved on to vibration.
    assert!(matches!(round.current(), Test::Vibration(_)));
    // Answering no fails the vibration test and the whole round.
    assert_eq!(round.key_event(KeyEvent::Down(Key::Select)), Status::Failed);
    assert_eq!(round.status(), Status::Failed);
    // A failed round ignores further keys.
    assert_eq!(round.key_event(KeyEvent::Down(Key::Two)), Status::Failed);
}

#[test]
fn test_hardware_test_next_cycles() {
    let mut round = HardwareTest::new(Status::InProgress);
    round.next();
    assert!(matches!(round.current(), Test::Vibration(_)));
    round.next();
    assert!(matches!(round.current(), Test::Buzzer(_)));
    round.next();
    assert!(matches!(round.current(), Test::Backlight(_)));
    round.next();
    assert!(matches!(round.current(), Test::Keypad(_)));
}

#[test]
fn test_cdc_test_declined_passes() {
    let mut test = CdcTest::new();
    let (status, send) = test.step(Some(KeyEvent::Down(Key::Select)), None);
    assert_eq!(status, Status::Passed);
    assert_eq!(send, None);
}

#[test]
fn test_cdc_test_prompt_and_secret() {
    let mut test = CdcTest::new();
    // Highlight yes, commit: the same round already sends the prompt.
    let (status, send) = test.step(Some(KeyEvent::Down(Key::Up)), None);
    assert_eq!((status, send), (Status::InProgress, None));
    let (status, send) = test.step(Some(KeyEvent::Down(Key::Select)), None);
    assert_eq!(status, Status::InProgress);
    assert_eq!(send, Some("Enter secret: abxvn\n"));
    // A wrong response changes nothing.
    let wrong = [0u8; 64];
    let (status, send) = test.step(None, Some(&wrong));
    assert_eq!((status, send), (Status::InProgress, None));
    // The right response verifies, and the next round passes.
    let mut right = [0u8; 64];
    right[..5].copy_from_slice(b"abxvn");
    let (status, _) = test.step(None, Some(&right));
    assert_eq!(status, Status::InProgress);
    let (status, _) = test.step(None, None);
    assert_eq!(status, Status::Passed);
}

#[test]
fn test_hid_test_types_the_secret() {
    let mut test = HidTest::new();
    let (status, send) = test.step(Some(KeyEvent::Down(Key::Up)));
    assert_eq!((status, send), (Status::InProgress, None));
    let (status, send) = test.step(Some(KeyEvent::Down(Key::Select)));
    assert_eq!(status, Status::InProgress);
    assert_eq!(send, Some(HidOutput::Press('o')));
    let mut typed = vec!['o'];
    loop {
        let (status, send) = test.step(None);
        assert_eq!(status, Status::InProgress);
        match send {
            Some(HidOutput::Press(c)) => typed.push(c),
            Some(HidOutput::Release) => {}
            None => break,
        }
    }
    assert_eq!(typed, vec!['o', 'e', 'v', 'd', 'h', 'r']);
    // With nothing left to type and no verification coming, the test
    // stays open; only declining would have ended it.
    let (status, _) = test.step(None);
    assert_eq!(status, Status::InProgress);
}

#[test]
fn test_hid_test_declined_passes() {
    let mut test = HidTest::new();
    let (status, _) = test.step(Some(KeyEvent::Down(Key::Select)));
    assert_eq!(status, Status::Passed);
}

#[test]
fn test_write_time() {
    assert_eq!(write_time(0, false), vec!['0', '0', ':', '0', '0']);
    assert_eq!(
        write_time(0, true),
        vec!['0', '0', ':', '0', '0', ':', '0', '0']
    );
    // 12:34:56 into an arbitrary day.
    let ts: i64 = 3 * 86400 + 12 * 3600 + 34 * 60 + 56;
    assert_eq!(
        write_time(ts, true),
        vec!['1', '2', ':', '3', '4', ':', '5', '6']
    );
    assert_eq!(write_time(ts, false), vec!['1', '2', ':', '3', '4']);
}

#[test]
fn test_key_labels_and_order() {
    assert_eq!(Key::first(), Key::Select);
    assert_eq!(Key::Select.label(), "Select");
    assert_eq!(Key::Asterisk.label(), "Asterisk");
    let mut count: u32 = 1;
    let mut k = Key::first();
    while let Some(n) = k.next() {
        count += 1;
        k = n;
    }
    assert_eq!(count, 16);
    assert_eq!(k, Key::Hash);
}

#[test]
fn test_pwm_period() {
    // A 125 MHz system clock, divided by 16, against concert A and B5.
    assert_eq!(pocketpad::buzzer::pwm_period(125_000_000, 440), 17754);
    assert_eq!(pocketpad::buzzer::pwm_period(125_000_000, 987), 7914);
}
