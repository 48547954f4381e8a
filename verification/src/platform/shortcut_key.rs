//! Numpad digits for custom shortcut capture.
//!
//! The toolkit names a numpad digit like its main-row counterpart. A passive
//! listener records physical keypad presses, so that the shortcut recorder can
//! tell the two apart while the press is fresh.

use crate::text::{characters, push_text};
use vstd::prelude::*;

verus! {

/// How old a keypad press may be to still explain a keystroke, in nanoseconds.
pub const MAX_AGE: u64 = 100_000_000;

/// A key that the listener tells apart.
#[derive(Debug, Clone, Copy, PartialEq, Eq, Structural)]
pub enum PhysicalKey {
    KeypadDigit(u8),
}

/// Whose key codes a listener reports.
#[derive(Debug, Clone, Copy, PartialEq, Eq, Structural)]
pub enum KeyCodes {
    /// Virtual key codes of macOS.
    MacOs,
    /// Key codes of the Linux input layer.
    Linux,
    /// Virtual-key codes of Windows.
    Windows,
}

/// What is known of physical key presses.
#[derive(Debug, Clone, Copy)]
pub struct ProbeState {
    /// Whether the listener was started.
    pub started: bool,
    /// The last press and when it happened, in nanoseconds.
    pub last: Option<(u64, PhysicalKey)>,
}

impl ProbeState {
    /// No listener, no presses.
    pub fn new() -> (state: Self)
        ensures
            state == (ProbeState { started: false, last: None }),
    {
        ProbeState { started: false, last: None }
    }
}

/// Whether the listener has still to be started; it is started once.
pub fn ensure_running(state: &mut ProbeState) -> (start: bool)
    ensures
        start == !old(state).started,
        *final(state) == (ProbeState { started: true, ..*old(state) }),
{
    let start = !state.started;
    state.started = true;
    start
}

/// Records a press.
pub fn record(state: &mut ProbeState, now: u64, physical: PhysicalKey)
    ensures
        *final(state) == (ProbeState { last: Some((now, physical)), ..*old(state) }),
{
    state.last = Some((now, physical));
}

/// Whether a press at `at` is fresh at `now`.
pub open spec fn fresh(at: u64, now: u64) -> bool {
    now - at <= MAX_AGE
}

/// Whether `key` is the one-character name of `digit`.
pub open spec fn names_digit(key: Seq<char>, digit: u8) -> bool {
    digit <= 9 && key == seq![('0' as int + digit) as char]
}

/// The name of a key that the toolkit calls `key`: of a digit that was just
/// pressed on the keypad, the keypad's; of any other, its own.
pub open spec fn disambiguated(state: ProbeState, key: Seq<char>, now: u64) -> Seq<char> {
    match state.last {
        Some((at, PhysicalKey::KeypadDigit(digit))) => if fresh(at, now) && names_digit(
            key,
            digit,
        ) {
            "kp"@ + key
        } else {
            key
        },
        None => key,
    }
}

/// The name of a key that the toolkit calls `key`.
pub fn disambiguate(state: &ProbeState, key: &str, now: u64) -> (name: String)
    ensures
        name@ == disambiguated(*state, key@, now),
{
    if let Some((at, physical)) = state.last {
        if now <= at || now - at <= MAX_AGE {
            let PhysicalKey::KeypadDigit(digit) = physical;
            let chars = characters(key);
            if chars.len() == 1 && digit <= 9 && chars[0] == (48u8 + digit) as char {
                assert(key@ =~= seq![chars@[0]]);
                let mut name = "kp".to_owned();
                push_text(&mut name, key);
                return name;
            }
        }
    }
    key.to_owned()
}

/// The digit of a keypad key, by the key code that the system reports.
pub open spec fn digit_of(codes: KeyCodes, code: u16) -> Option<u8> {
    match codes {
        KeyCodes::MacOs => if 0x52 <= code <= 0x59 {
            Some((code - 0x52) as u8)
        } else if 0x5b <= code <= 0x5c {
            Some((code - 0x53) as u8)
        } else {
            None
        },
        KeyCodes::Linux => if code == 82 {
            Some(0)
        } else if 79 <= code <= 81 {
            Some((code - 78) as u8)
        } else if 75 <= code <= 77 {
            Some((code - 71) as u8)
        } else if 71 <= code <= 73 {
            Some((code - 64) as u8)
        } else {
            None
        },
        KeyCodes::Windows => if 0x60 <= code <= 0x69 {
            Some((code - 0x60) as u8)
        } else {
            None
        },
    }
}

/// The digit of a keypad key, by the key code that the system reports.
pub fn keypad_digit(codes: KeyCodes, code: u16) -> (digit: Option<u8>)
    ensures
        digit == digit_of(codes, code),
{
    match codes {
        KeyCodes::MacOs => match code {
            0x52 => Some(0),
            0x53 => Some(1),
            0x54 => Some(2),
            0x55 => Some(3),
            0x56 => Some(4),
            0x57 => Some(5),
            0x58 => Some(6),
            0x59 => Some(7),
            0x5b => Some(8),
            0x5c => Some(9),
            _ => None,
        },
        KeyCodes::Linux => match code {
            82 => Some(0),
            79 => Some(1),
            80 => Some(2),
            81 => Some(3),
            75 => Some(4),
            76 => Some(5),
            77 => Some(6),
            71 => Some(7),
            72 => Some(8),
            73 => Some(9),
            _ => None,
        },
        KeyCodes::Windows => if 0x60 <= code && code <= 0x69 {
            Some((code - 0x60) as u8)
        } else {
            None
        },
    }
}

/// On every system each digit has exactly one keypad key.
pub proof fn each_digit_has_one_key(codes: KeyCodes, a: u16, b: u16)
    requires
        digit_of(codes, a) is Some,
        digit_of(codes, a) == digit_of(codes, b),
    ensures
        a == b,
        digit_of(codes, a)->0 <= 9,
{
}

/// A keypad digit that was just recorded is named so, and a digit that was not
/// pressed keeps its name.
pub proof fn a_recorded_digit_is_named(state: ProbeState, digit: u8, at: u64, now: u64, key: Seq<char>)
    requires
        digit <= 9,
        at <= now,
        state.last == Some((at, PhysicalKey::KeypadDigit(digit))),
    ensures
        names_digit(key, digit) && now - at <= MAX_AGE ==> disambiguated(state, key, now) == "kp"@
            + key,
        !names_digit(key, digit) || now - at > MAX_AGE ==> disambiguated(state, key, now) == key,
{
}

} // verus!
