//! Telling keypad digits from main-row ones.

use evdev::KeyCode;
use openlogi_desktop::platform::shortcut_key::{
    disambiguate, ensure_running, keypad_digit, record, KeyCodes, PhysicalKey, ProbeState,
};

const MILLISECOND: u64 = 1_000_000;

#[test]
fn recent_keypad_digit_disambiguates_matching_gpui_key() {
    let mut state = ProbeState::new();
    record(&mut state, 5 * MILLISECOND, PhysicalKey::KeypadDigit(6));
    assert_eq!(disambiguate(&state, "6", 6 * MILLISECOND), "kp6");
    assert_eq!(disambiguate(&state, "7", 6 * MILLISECOND), "7");
}

#[test]
fn stale_keypad_events_do_not_disambiguate() {
    let mut state = ProbeState::new();
    record(&mut state, 0, PhysicalKey::KeypadDigit(6));
    assert_eq!(disambiguate(&state, "6", 250 * MILLISECOND), "6");
}

#[test]
fn a_press_explains_keystrokes_for_a_tenth_of_a_second() {
    let mut state = ProbeState::new();
    assert_eq!(disambiguate(&state, "6", 0), "6");
    record(&mut state, 0, PhysicalKey::KeypadDigit(0));
    assert_eq!(disambiguate(&state, "0", 100 * MILLISECOND), "kp0");
    assert_eq!(disambiguate(&state, "0", 100 * MILLISECOND + 1), "0");
    assert_eq!(disambiguate(&state, "00", 0), "00");
    assert_eq!(disambiguate(&state, "a", 0), "a");
}

#[test]
fn the_listener_is_started_once() {
    let mut state = ProbeState::new();
    assert!(ensure_running(&mut state));
    assert!(!ensure_running(&mut state));
}

#[test]
fn each_platform_names_ten_digits() {
    for codes in [KeyCodes::MacOs, KeyCodes::Linux, KeyCodes::Windows] {
        let mut digits: Vec<u8> =
            (0..=u16::MAX).filter_map(|code| keypad_digit(codes, code)).collect();
        digits.sort_unstable();
        assert_eq!(digits, [0, 1, 2, 3, 4, 5, 6, 7, 8, 9]);
    }
}

#[test]
fn linux_codes_are_those_of_the_input_layer() {
    let keys = [
        KeyCode::KEY_KP0,
        KeyCode::KEY_KP1,
        KeyCode::KEY_KP2,
        KeyCode::KEY_KP3,
        KeyCode::KEY_KP4,
        KeyCode::KEY_KP5,
        KeyCode::KEY_KP6,
        KeyCode::KEY_KP7,
        KeyCode::KEY_KP8,
        KeyCode::KEY_KP9,
    ];
    for (digit, key) in (0u8..10).zip(keys) {
        assert_eq!(keypad_digit(KeyCodes::Linux, key.0), Some(digit));
    }
    assert_eq!(keypad_digit(KeyCodes::Linux, KeyCode::KEY_6.0), None);
}
