//! Input decoding and application logic for a phone-keypad pocket device.
//!
//! The heart of the crate is the multi-tap text-entry engine: a held-key
//! detector turns raw key transitions into `Down` / `Delay` / `Repeat`
//! events, and the multi-tap decoder turns those into tentative characters,
//! decided characters and case changes.  Around it live the RTTTL ringtone
//! parser and the small state machines of the hardware self-test.

use vstd::prelude::*;

pub mod buzzer;
pub mod confirmation;
pub mod grid_menu;
pub mod hardware_test;
pub mod held_key;
pub mod lock_screen;
pub mod menu;
pub mod multitap;
pub mod rtttl;
pub mod textbox;
pub mod time;

verus! {

/// The sixteen physical buttons of the keypad.
#[derive(Debug, Clone, Copy, PartialEq, Eq, Structural)]
pub enum Key {
    Select,
    Cancel,
    Up,
    Down,
    One,
    Two,
    Three,
    Four,
    Five,
    Six,
    Seven,
    Eight,
    Nine,
    Asterisk,
    Zero,
    Hash,
}

/// A raw, driver-debounced key transition.  The driver guarantees that two
/// `Down` events for the same key are always separated by an `Up`.
#[derive(Debug, Clone, Copy, PartialEq, Eq, Structural)]
pub enum KeyEvent {
    Up(Key),
    Down(Key),
}

/// The key after `k` in keypad order — the order the hardware self-test
/// walks the keys in — or `None` after the last one.
pub open spec fn spec_key_next(k: Key) -> Option<Key> {
    match k {
        Key::Select => Some(Key::Cancel),
        Key::Cancel => Some(Key::Up),
        Key::Up => Some(Key::Down),
        Key::Down => Some(Key::One),
        Key::One => Some(Key::Two),
        Key::Two => Some(Key::Three),
        Key::Three => Some(Key::Four),
        Key::Four => Some(Key::Five),
        Key::Five => Some(Key::Six),
        Key::Six => Some(Key::Seven),
        Key::Seven => Some(Key::Eight),
        Key::Eight => Some(Key::Nine),
        Key::Nine => Some(Key::Asterisk),
        Key::Asterisk => Some(Key::Zero),
        Key::Zero => Some(Key::Hash),
        Key::Hash => None,
    }
}

impl Key {
    /// The first key in keypad order.
    pub fn first() -> (r: Key)
        ensures
            r == Key::Select,
    {
        Key::Select
    }

    /// The key after this one in keypad order; see [`spec_key_next`].
    pub fn next(&self) -> (r: Option<Key>)
        ensures
            r == spec_key_next(*self),
    {
        match self {
            Key::Select => Some(Key::Cancel),
            Key::Cancel => Some(Key::Up),
            Key::Up => Some(Key::Down),
            Key::Down => Some(Key::One),
            Key::One => Some(Key::Two),
            Key::Two => Some(Key::Three),
            Key::Three => Some(Key::Four),
            Key::Four => Some(Key::Five),
            Key::Five => Some(Key::Six),
            Key::Six => Some(Key::Seven),
            Key::Seven => Some(Key::Eight),
            Key::Eight => Some(Key::Nine),
            Key::Nine => Some(Key::Asterisk),
            Key::Asterisk => Some(Key::Zero),
            Key::Zero => Some(Key::Hash),
            Key::Hash => None,
        }
    }

    /// The key's display name.
    pub fn label(&self) -> (r: &'static str)
        ensures
            match *self {
                Key::Select => r@ == "Select"@,
                Key::Cancel => r@ == "Cancel"@,
                Key::Up => r@ == "Up"@,
                Key::Down => r@ == "Down"@,
                Key::One => r@ == "One"@,
                Key::Two => r@ == "Two"@,
                Key::Three => r@ == "Three"@,
                Key::Four => r@ == "Four"@,
                Key::Five => r@ == "Five"@,
                Key::Six => r@ == "Six"@,
                Key::Seven => r@ == "Seven"@,
                Key::Eight => r@ == "Eight"@,
                Key::Nine => r@ == "Nine"@,
                Key::Asterisk => r@ == "Asterisk"@,
                Key::Zero => r@ == "Zero"@,
                Key::Hash => r@ == "Hash"@,
            },
    {
        match self {
            Key::Select => "Select",
            Key::Cancel => "Cancel",
            Key::Up => "Up",
            Key::Down => "Down",
            Key::One => "One",
            Key::Two => "Two",
            Key::Three => "Three",
            Key::Four => "Four",
            Key::Five => "Five",
            Key::Six => "Six",
            Key::Seven => "Seven",
            Key::Eight => "Eight",
            Key::Nine => "Nine",
            Key::Asterisk => "Asterisk",
            Key::Zero => "Zero",
            Key::Hash => "Hash",
        }
    }
}

/// The key a one-character key code denotes, the coding the browser
/// build of the device uses: digits, star and hash stand for
/// themselves, and the navigation keys are coded as letters.
pub open spec fn spec_key_of_char(c: char) -> Option<Key> {
    match c {
        '0' => Some(Key::Zero),
        '1' => Some(Key::One),
        '2' => Some(Key::Two),
        '3' => Some(Key::Three),
        '4' => Some(Key::Four),
        '5' => Some(Key::Five),
        '6' => Some(Key::Six),
        '7' => Some(Key::Seven),
        '8' => Some(Key::Eight),
        '9' => Some(Key::Nine),
        '*' => Some(Key::Asterisk),
        '#' => Some(Key::Hash),
        'u' => Some(Key::Up),
        'd' => Some(Key::Down),
        'E' => Some(Key::Select),
        'e' => Some(Key::Cancel),
        _ => None,
    }
}

/// The key a one-character key code denotes; see [`spec_key_of_char`].
pub fn key_of_char(c: char) -> (r: Option<Key>)
    ensures
        r == spec_key_of_char(c),
{
    match c {
        '0' => Some(Key::Zero),
        '1' => Some(Key::One),
        '2' => Some(Key::Two),
        '3' => Some(Key::Three),
        '4' => Some(Key::Four),
        '5' => Some(Key::Five),
        '6' => Some(Key::Six),
        '7' => Some(Key::Seven),
        '8' => Some(Key::Eight),
        '9' => Some(Key::Nine),
        '*' => Some(Key::Asterisk),
        '#' => Some(Key::Hash),
        'u' => Some(Key::Up),
        'd' => Some(Key::Down),
        'E' => Some(Key::Select),
        'e' => Some(Key::Cancel),
        _ => None,
    }
}

/// A transition of the power button.
pub enum ButtonEvent {
    Up,
    Down,
}

/// The channel the system hands USB responses back through.
pub trait SystemResponse {
    fn take(&mut self) -> Option<[u8; 64]>;
}

/// The display backlight.
pub trait Backlight {
    fn on(&mut self);

    fn off(&mut self);
}

/// The vibration motor.
pub trait VibrationMotor {
    fn start_vibrating(&mut self);

    fn stop_vibrating(&mut self);
}

/// The buzzer.
pub trait Buzzer {
    type Error;

    fn set_frequency(&mut self, frequency: u16) -> Result<(), Self::Error>;

    fn set_volume(&mut self, volume: u8);

    fn mute_buzzer(&mut self) -> Result<(), Self::Error>;

    fn unmute_buzzer(&mut self) -> Result<(), Self::Error>;
}

/// The power button.
pub trait PowerButton {
    fn clear(&mut self);
}

/// The real-time clock.
pub trait Rtc {
    type Error;

    fn timestamp(&mut self) -> Result<i64, Self::Error>;

    fn set_timestamp(&mut self, time: i64);
}

/// A USB HID keyboard report: one key press or release.
#[derive(Debug, Clone, Copy, PartialEq, Eq)]
pub struct KeyReport {
    pub modifier: u8,
    pub reserved: u8,
    pub leds: u8,
    pub keycodes: [u8; 6],
}

/// An outgoing USB transfer.
#[derive(Clone, PartialEq)]
pub enum UsbTx {
    CdcBuffer([u8; 64]),
    HidChar(KeyReport),
}

/// A request an application hands to the system layer.
#[derive(Clone, PartialEq)]
pub enum SystemRequest {
    UsbTx(UsbTx),
    ResetToBoot,
    SetTime(i64),
}

/// The system-response source of the board build, which has no host
/// channel: it never yields a response.
pub struct CdcSend;

impl SystemResponse for CdcSend {
    fn take(&mut self) -> (r: Option<[u8; 64]>)
        ensures
            r is None,
    {
        None
    }
}

/// The application that reboots the device into its USB loader: it
/// decides nothing itself, the system layer acts on its name alone.
pub struct ResetToBoot;

impl ResetToBoot {
    pub fn new() -> (r: Self)
        ensures
            r == ResetToBoot,
    {
        Self
    }
}

impl Default for ResetToBoot {
    fn default() -> (r: Self)
        ensures
            r == ResetToBoot,
    {
        Self
    }
}

} // verus!
