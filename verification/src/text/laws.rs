//! What holds of the text helpers for all texts.

use crate::text::{
    all_digits, ascii_lowered, contains, decimal, decimal_text, digits, number_of,
    parse_small_number, same_ignoring_case, stands_at, text_le, text_not_after,
};
use vstd::prelude::*;

verus! {

/// Whether `a` is a prefix of `b`, or has the lesser character where the two
/// first differ.
pub open spec fn comes_first(a: Seq<char>, b: Seq<char>) -> bool {
    exists|n: int| #[trigger] parts_at(a, b, n)
}

/// Whether the first `n` characters of two texts agree and `a` ends there or has
/// the lesser character there.
pub open spec fn parts_at(a: Seq<char>, b: Seq<char>, n: int) -> bool {
    &&& 0 <= n <= a.len()
    &&& n <= b.len()
    &&& a.take(n) == b.take(n)
    &&& n == a.len() || n < b.len() && a[n] < b[n]
}

/// Text order is decided where two texts first differ.
pub proof fn order_is_decided_at_the_first_difference(a: Seq<char>, b: Seq<char>)
    ensures
        text_le(a, b) == comes_first(a, b),
    decreases a.len(),
{
    if a.len() == 0 {
        assert(a.take(0) =~= b.take(0));
        assert(parts_at(a, b, 0));
    } else if b.len() == 0 {
        if comes_first(a, b) {
            let n = choose|n: int| #[trigger] parts_at(a, b, n);
            assert(false);
        }
    } else if a[0] == b[0] {
        let (ra, rb) = (a.drop_first(), b.drop_first());
        order_is_decided_at_the_first_difference(ra, rb);
        if comes_first(ra, rb) {
            let n = choose|n: int| #[trigger] parts_at(ra, rb, n);
            let (ta, tb) = (a.take(n + 1), b.take(n + 1));
            assert forall|i: int| 0 <= i < n + 1 implies ta[i] == tb[i] by {
                if i > 0 {
                    assert(ra.take(n)[i - 1] == rb.take(n)[i - 1]);
                }
            }
            assert(a.take(n + 1) =~= b.take(n + 1));
            assert(parts_at(a, b, n + 1));
        }
        if comes_first(a, b) {
            let n = choose|n: int| #[trigger] parts_at(a, b, n);
            let (ta, tb) = (ra.take(n - 1), rb.take(n - 1));
            assert forall|i: int| 0 <= i < n - 1 implies ta[i] == tb[i] by {
                assert(a.take(n)[i + 1] == b.take(n)[i + 1]);
            }
            assert(ra.take(n - 1) =~= rb.take(n - 1));
            assert(parts_at(ra, rb, n - 1));
        }
    } else {
        if a[0] < b[0] {
            assert(a.take(0) =~= b.take(0));
            assert(parts_at(a, b, 0));
        } else if comes_first(a, b) {
            let n = choose|n: int| #[trigger] parts_at(a, b, n);
            if n > 0 {
                assert(a.take(n)[0] == b.take(n)[0]);
            }
            assert(false);
        }
    }
}

/// One text does not come after another exactly where it is a prefix of it or
/// has the lesser character where they first differ.
pub proof fn texts_are_compared_character_by_character(a: &str, b: &str, ordered: bool)
    requires
        call_ensures(text_not_after, (a, b), ordered),
    ensures
        ordered == comes_first(a@, b@),
{
    order_is_decided_at_the_first_difference(a@, b@);
}

/// A text is found in another exactly where its characters stand there in a row.
pub proof fn a_text_is_found_where_it_stands(text: &str, needle: &str, found: bool, at: int)
    requires
        call_ensures(contains, (text, needle), found),
    ensures
        0 <= at && at + needle@.len() <= text@.len() && (forall|i: int|
            0 <= i < needle@.len() ==> text@[at + i] == #[trigger] needle@[i]) ==> found,
        found ==> exists|k: int|
            0 <= k && k + needle@.len() <= text@.len() && #[trigger] text@.subrange(
                k,
                k + needle@.len(),
            ) == needle@,
{
    if 0 <= at && at + needle@.len() <= text@.len() && (forall|i: int|
        0 <= i < needle@.len() ==> text@[at + i] == #[trigger] needle@[i]) {
        assert(text@.subrange(at, at + needle@.len()) =~= needle@);
        assert(stands_at(text@, at, needle@));
    }
    if found {
        let k = choose|k: int| #[trigger] stands_at(text@, k, needle@);
        assert(text@.subrange(k, k + needle@.len()) == needle@);
    }
}

/// Whether two characters are equal but for the case of `A` to `Z`.
pub open spec fn one_letter(a: char, b: char) -> bool {
    ||| a == b
    ||| 'A' <= a <= 'Z' && b as int == a as int + 32
    ||| 'A' <= b <= 'Z' && a as int == b as int + 32
}

/// Two texts are the same without regard to case exactly where they are as long
/// and agree in each character but for the case of `A` to `Z`.
pub proof fn case_does_not_count(a: &str, b: &str, same: bool, i: int)
    requires
        call_ensures(same_ignoring_case, (a, b), same),
    ensures
        same ==> a@.len() == b@.len(),
        same && 0 <= i < a@.len() ==> one_letter(a@[i], b@[i]),
        a@.len() == b@.len() && (forall|k: int|
            #![trigger a@[k]]
            0 <= k < a@.len() ==> one_letter(a@[k], b@[k])) ==> same,
{
    if same {
        assert(ascii_lowered(a@).len() == a@.len());
        assert(ascii_lowered(b@).len() == b@.len());
        if 0 <= i < a@.len() {
            assert(ascii_lowered(a@)[i] == ascii_lowered(b@)[i]);
        }
    }
    if a@.len() == b@.len() && (forall|k: int|
        #![trigger a@[k]]
        0 <= k < a@.len() ==> one_letter(a@[k], b@[k])) {
        assert forall|k: int| 0 <= k < a@.len() implies ascii_lowered(a@)[k] == ascii_lowered(
            b@,
        )[k] by {
            assert(one_letter(a@[k], b@[k]));
        }
        assert(ascii_lowered(a@) =~= ascii_lowered(b@));
    }
}

/// A number is written with one digit more than a tenth of it; a number below
/// ten is written with one digit.
pub proof fn numbers_are_written_digit_by_digit(
    tens: u64,
    ones: u64,
    value: u64,
    short: String,
    text: String,
)
    requires
        call_ensures(decimal_text, (tens,), short),
        call_ensures(decimal_text, (value,), text),
        ones < 10,
        value == 10 * tens + ones,
    ensures
        tens > 0 ==> text@ == short@.push(('0' as int + ones) as char),
        tens == 0 ==> text@ == seq![('0' as int + ones) as char],
{
    assert(value as nat / 10 == tens as nat && value as nat % 10 == ones as nat);
}

/// A number below 256 that was written down is read as that number.
pub proof fn a_written_number_is_read_back(
    value: u8,
    text: String,
    read: &str,
    number: Option<u8>,
)
    requires
        call_ensures(decimal_text, (value as u64,), text),
        call_ensures(parse_small_number, (read,), number),
        read@ == text@,
    ensures
        number == Some(value),
{
    let v = value as nat;
    reveal_with_fuel(digits, 4);
    crate::text::digits_are_read_back(v, 10, 1);
    assert(decimal(v).len() > 0);
    assert(all_digits(decimal(v)));
    assert(decimal(v)[0] != '+');
    assert(number_of(decimal(v), 10) == v);
}

/// Whether a character is a decimal digit.
pub open spec fn is_digit(c: char) -> bool {
    '0' <= c <= '9'
}

/// A text that is empty, or holds anything but digits behind at most one plus
/// sign, is no number.
pub proof fn only_digits_are_a_number(text: &str, number: Option<u8>, i: int)
    requires
        call_ensures(parse_small_number, (text,), number),
        number is Some,
    ensures
        text@.len() > 0,
        0 < i < text@.len() ==> is_digit(text@[i]),
        is_digit(text@[0]) || text@[0] == '+' && text@.len() > 1,
        text@.len() == 1 ==> number == Some((text@[0] as int - '0' as int) as u8),
        text@.len() == 2 && text@[0] != '+' ==> number == Some(
            (10 * (text@[0] as int - '0' as int) + (text@[1] as int - '0' as int)) as u8,
        ),
{
    reveal_with_fuel(number_of, 3);
    let digits = if text@.len() > 0 && text@[0] == '+' {
        text@.skip(1)
    } else {
        text@
    };
    assert(all_digits(digits));
    if 0 < i < text@.len() {
        if text@[0] == '+' {
            assert(digits[i - 1] == text@[i]);
        } else {
            assert(digits[i] == text@[i]);
        }
    }
    assert(digits[0] == digits[0]);
    if text@.len() == 2 && text@[0] != '+' {
        assert(digits[1] == text@[1]);
        assert(digits.drop_last()[0] == text@[0]);
    }
}

} // verus!
