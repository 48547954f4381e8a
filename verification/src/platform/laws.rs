//! Which keys the shortcut recorder takes for keys of the keypad.

use crate::platform::shortcut_key::{
    disambiguate, keypad_digit, record, KeyCodes, PhysicalKey, ProbeState,
};
use vstd::prelude::*;

verus! {

/// A digit that was pressed on the keypad within the last tenth of a second is
/// named as the keypad's; any other key keeps its name.
pub proof fn a_fresh_keypad_press_names_the_key(
    probe: &mut ProbeState,
    at: u64,
    digit: u8,
    later: &ProbeState,
    key: &str,
    now: u64,
    name: String,
)
    requires
        call_ensures(record, (probe, at, PhysicalKey::KeypadDigit(digit)), ()),
        *later == *final(probe),
        call_ensures(disambiguate, (later, key, now), name),
    ensures
        digit <= 9 && key@ == seq![('0' as int + digit) as char] && now <= at + 100_000_000
            ==> name@ == "kp"@ + key@,
        now > at + 100_000_000 ==> name@ == key@,
        key@.len() != 1 ==> name@ == key@,
        digit <= 9 && key@.len() == 1 && key@[0] as int != '0' as int + digit ==> name@ == key@,
        final(probe).started == old(probe).started,
{
    if key@.len() == 1 {
        assert(key@ =~= seq![key@[0]]);
    }
}

/// Without a press on the keypad, a key keeps its name.
pub proof fn without_a_press_names_stay(probe: &ProbeState, key: &str, now: u64, name: String)
    requires
        probe.last is None,
        call_ensures(disambiguate, (probe, key, now), name),
    ensures
        name@ == key@,
{
}

/// Which key codes are those of keypad digits, on each system.
pub proof fn keypad_codes_are_digits(codes: KeyCodes, code: u16, digit: Option<u8>)
    requires
        call_ensures(keypad_digit, (codes, code), digit),
    ensures
        digit matches Some(digit) ==> digit <= 9,
        codes is Windows ==> (digit is Some <==> 0x60 <= code <= 0x69) && (digit matches Some(
            digit,
        ) ==> code == 0x60 + digit),
        codes is MacOs ==> (digit is Some <==> 0x52 <= code <= 0x5c && code != 0x5a) && (
        digit matches Some(digit) ==> code == if digit <= 7 {
            0x52 + digit
        } else {
            0x53 + digit
        }),
        codes is Linux ==> (digit is Some <==> 71 <= code <= 82 && code != 74 && code != 78) && (
        digit matches Some(digit) ==> code == if digit == 0 {
            82int
        } else if digit <= 3 {
            78 + digit
        } else if digit <= 6 {
            71 + digit
        } else {
            64 + digit
        }),
{
}

} // verus!
