//! Text helpers: comparison, searching, and number formatting over characters.

pub mod laws;

use vstd::prelude::*;
use vstd::string::*;

verus! {

/// What `str::to_lowercase` returns for a text.
pub uninterp spec fn lowercase(text: Seq<char>) -> Seq<char>;

/// Calls `str::to_lowercase`; the result is named by [`lowercase`].
#[verifier::external_body]
pub(crate) fn to_lowercase(text: &str) -> (lower: String)
    ensures
        lower@ == lowercase(text@),
{
    text.to_lowercase()
}

/// Calls `String::push`, which appends one character.
#[verifier::external_body]
pub(crate) fn push_char(text: &mut String, c: char)
    ensures
        final(text)@ == old(text)@.push(c),
{
    text.push(c)
}

/// Whether two texts hold the same characters.
pub fn same_text(a: &str, b: &str) -> (same: bool)
    ensures
        same == (a@ == b@),
{
    a.to_owned() == b.to_owned()
}

/// Whether two optional texts are both absent or hold the same characters.
pub fn same_optional_text(a: Option<&str>, b: Option<&str>) -> (same: bool)
    ensures
        same == (optional_view(a) == optional_view(b)),
{
    match (a, b) {
        (Some(a), Some(b)) => same_text(a, b),
        (None, None) => true,
        _ => false,
    }
}

/// An optional text as an optional sequence of characters.
pub open spec fn optional_view(text: Option<&str>) -> Option<Seq<char>> {
    match text {
        Some(text) => Some(text@),
        None => None,
    }
}

/// An optional owned text as an optional sequence of characters.
pub open spec fn owned_view(text: Option<String>) -> Option<Seq<char>> {
    match text {
        Some(text) => Some(text@),
        None => None,
    }
}

/// Whether two optional owned texts are both absent or hold the same characters.
pub fn same_owned_text(a: &Option<String>, b: &Option<String>) -> (same: bool)
    ensures
        same == (owned_view(*a) == owned_view(*b)),
{
    match (a, b) {
        (Some(a), Some(b)) => same_text(a.as_str(), b.as_str()),
        (None, None) => true,
        _ => false,
    }
}

/// Borrows an optional owned text.
pub fn borrowed(text: &Option<String>) -> (borrowed: Option<&str>)
    ensures
        optional_view(borrowed) == owned_view(*text),
{
    match text {
        Some(text) => Some(text.as_str()),
        None => None,
    }
}

/// The characters of a text, in order.
pub fn characters(text: &str) -> (chars: Vec<char>)
    ensures
        chars@ == text@,
{
    let mut chars: Vec<char> = Vec::new();
    for c in it: text.chars()
        invariant
            it.seq() == text@,
            chars@ == text@.take(it.index()),
    {
        chars.push(c);
    }
    chars
}

/// The text that holds `chars[from..to]`.
pub fn text_of(chars: &Vec<char>, from: usize, to: usize) -> (text: String)
    requires
        from <= to <= chars@.len(),
    ensures
        text@ == chars@.subrange(from as int, to as int),
{
    let mut text = String::new();
    let mut i: usize = from;
    while i < to
        invariant
            from <= i <= to <= chars@.len(),
            text@ == chars@.subrange(from as int, i as int),
        decreases to - i,
    {
        push_char(&mut text, chars[i]);
        assert(chars@.subrange(from as int, i + 1) =~= chars@.subrange(from as int, i as int).push(
            chars@[i as int],
        ));
        i += 1;
    }
    text
}

/// The digit character of a value below sixteen, in lower case.
pub open spec fn digit_char(value: int) -> char {
    if value < 10 {
        ('0' as int + value) as char
    } else {
        ('a' as int + (value - 10)) as char
    }
}

/// `value` written in `base`, without leading zeros.
pub open spec fn digits(value: nat, base: nat) -> Seq<char>
    decreases value,
{
    if base < 2 || value < base {
        seq![digit_char(value as int)]
    } else {
        proof {
            assert(value / base < value) by (nonlinear_arith)
                requires
                    base >= 2,
                    value >= base,
            ;
        }
        digits(value / base, base).push(digit_char((value % base) as int))
    }
}

/// `value` written in base ten.
pub open spec fn decimal(value: nat) -> Seq<char> {
    digits(value, 10)
}

/// `chars` with `pad` put in front until it is `width` long.
pub open spec fn padded(chars: Seq<char>, pad: char, width: nat) -> Seq<char> {
    if chars.len() >= width {
        chars
    } else {
        Seq::new((width - chars.len()) as nat, |i: int| pad) + chars
    }
}

/// `value` in lower-case base sixteen, at least `width` characters wide.
pub open spec fn hex(value: nat, width: nat) -> Seq<char> {
    padded(digits(value, 16), '0', width)
}

fn digit(value: u8) -> (c: char)
    requires
        value < 16,
    ensures
        c == digit_char(value as int),
{
    if value < 10 {
        (48u8 + value) as char
    } else {
        (97u8 + (value - 10)) as char
    }
}

fn push_digits(text: &mut String, value: u64, base: u64)
    requires
        2 <= base <= 16,
    ensures
        final(text)@ == old(text)@ + digits(value as nat, base as nat),
    decreases value,
{
    if value < base {
        push_char(text, digit(value as u8));
    } else {
        assert(value / base < value) by (nonlinear_arith)
            requires
                base >= 2,
                value >= base,
        ;
        push_digits(text, value / base, base);
        push_char(text, digit((value % base) as u8));
    }
}

/// The value of a digit character.
pub open spec fn digit_value(c: char) -> int {
    if '0' <= c <= '9' {
        c as int - '0' as int
    } else {
        c as int - 'a' as int + 10
    }
}

/// The number that `chars` write in `base`.
pub open spec fn number_of(chars: Seq<char>, base: int) -> int
    decreases chars.len(),
{
    if chars.len() == 0 {
        0
    } else {
        number_of(chars.drop_last(), base) * base + digit_value(chars.last())
    }
}

/// Reading the digits of a number brings the number back, and padding with
/// zeros changes nothing of that.
pub proof fn digits_are_read_back(value: nat, base: nat, width: nat)
    requires
        2 <= base <= 16,
    ensures
        number_of(digits(value, base), base as int) == value,
        number_of(padded(digits(value, base), '0', width), base as int) == value,
    decreases value,
{
    let written = digits(value, base);
    if value >= base {
        assert(value / base < value) by (nonlinear_arith)
            requires
                base >= 2,
                value >= base,
        ;
        digits_are_read_back(value / base, base, 0);
        assert(written.drop_last() =~= digits(value / base, base));
        assert((value / base) * base + value % base == value) by (nonlinear_arith)
            requires
                base >= 2,
        ;
    } else {
        assert(written.drop_last() =~= seq![]);
        assert(number_of(written.drop_last(), base as int) == 0);
    }
    if written.len() < width {
        zeros_are_nothing((width - written.len()) as nat, written, base as int);
    }
}

proof fn zeros_are_nothing(count: nat, rest: Seq<char>, base: int)
    ensures
        number_of(Seq::new(count, |i: int| '0') + rest, base) == number_of(rest, base),
    decreases count + rest.len(),
{
    let zeros = Seq::new(count, |i: int| '0');
    let whole = zeros + rest;
    if rest.len() > 0 {
        zeros_are_nothing(count, rest.drop_last(), base);
        assert(whole.drop_last() =~= zeros + rest.drop_last());
    } else if count > 0 {
        let fewer = Seq::new((count - 1) as nat, |i: int| '0');
        zeros_are_nothing((count - 1) as nat, rest, base);
        assert(whole.drop_last() =~= fewer + rest);
        assert(number_of(rest, base) == 0);
        assert(0 * base == 0) by (nonlinear_arith);
    } else {
        assert(whole =~= rest);
    }
}

/// Whether all characters are decimal digits.
pub open spec fn all_digits(chars: Seq<char>) -> bool {
    forall|i: int| 0 <= i < chars.len() ==> '0' <= #[trigger] chars[i] <= '9'
}

/// The number below 256 that a text writes in base ten, with at most one plus
/// sign in front.
pub open spec fn small_number(text: Seq<char>) -> Option<u8> {
    let digits = if text.len() > 0 && text[0] == '+' {
        text.skip(1)
    } else {
        text
    };
    if digits.len() > 0 && all_digits(digits) && number_of(digits, 10) <= u8::MAX {
        Some(number_of(digits, 10) as u8)
    } else {
        None
    }
}

proof fn digits_are_no_sign(chars: Seq<char>)
    requires
        all_digits(chars),
    ensures
        number_of(chars, 10) >= 0,
    decreases chars.len(),
{
    if chars.len() > 0 {
        let shorter = chars.drop_last();
        assert forall|i: int| 0 <= i < shorter.len() implies '0' <= #[trigger] shorter[i]
            <= '9' by {
            assert(shorter[i] == chars[i]);
        }
        digits_are_no_sign(shorter);
        assert('0' <= chars[chars.len() - 1] <= '9');
    }
}

/// The number below 256 that a text writes.
pub fn parse_small_number(text: &str) -> (number: Option<u8>)
    ensures
        number == small_number(text@),
{
    let chars = characters(text);
    let from: usize = if chars.len() > 0 && chars[0] == '+' {
        1
    } else {
        0
    };
    let ghost digits = chars@.skip(from as int);
    assert(text@.skip(0) =~= text@);
    if from == chars.len() {
        return None;
    }
    let mut value: u32 = 0;
    let mut over = false;
    let mut i: usize = from;
    assert(digits.take(0) =~= seq![]);
    while i < chars.len()
        invariant
            from <= i <= chars@.len(),
            digits == chars@.skip(from as int),
            digits == if text@.len() > 0 && text@[0] == '+' {
                text@.skip(1)
            } else {
                text@
            },
            all_digits(digits.take(i - from)),
            value <= u8::MAX,
            over ==> number_of(digits.take(i - from), 10) > u8::MAX,
            !over ==> number_of(digits.take(i - from), 10) == value,
        decreases chars@.len() - i,
    {
        let c = chars[i];
        let ghost longer = digits.take(i - from + 1);
        assert(digits[i - from] == c);
        assert(longer.drop_last() =~= digits.take(i - from));
        if c < '0' || c > '9' {
            assert(!('0' <= digits[i - from] <= '9'));
            return None;
        }
        assert forall|k: int| 0 <= k < longer.len() implies '0' <= #[trigger] longer[k]
            <= '9' by {
            if k < i - from {
                assert(digits.take(i - from)[k] == longer[k]);
            }
        }
        value = value * 10 + (c as u32 - 48);
        if value > 255 {
            over = true;
            value = 0;
        }
        i += 1;
    }
    assert(digits.take(digits.len() as int) =~= digits);
    proof {
        digits_are_no_sign(digits);
    }
    if over {
        None
    } else {
        Some(value as u8)
    }
}

/// How many digits a number has at most.
pub proof fn digits_are_few(value: nat, base: nat, width: nat)
    requires
        2 <= base <= 16,
        1 <= width,
        value < vstd::arithmetic::power::pow(base as int, width),
    ensures
        1 <= digits(value, base).len() <= width,
    decreases value,
{
    if value >= base {
        vstd::arithmetic::power::lemma_pow1(base as int);
        assert(width >= 2);
        assert(value / base < value) by (nonlinear_arith)
            requires
                base >= 2,
                value >= base,
        ;
        let rest = vstd::arithmetic::power::pow(base as int, (width - 1) as nat);
        assert(vstd::arithmetic::power::pow(base as int, width) == base * rest) by {
            reveal(vstd::arithmetic::power::pow);
        }
        assert(value / base < rest) by (nonlinear_arith)
            requires
                base >= 2,
                value < base * rest,
        ;
        digits_are_few(value / base, base, (width - 1) as nat);
    }
}

/// Appends `value` in base ten.
pub fn push_decimal(text: &mut String, value: u64)
    ensures
        final(text)@ == old(text)@ + decimal(value as nat),
{
    push_digits(text, value, 10);
}

/// `value` in base ten.
pub fn decimal_text(value: u64) -> (text: String)
    ensures
        text@ == decimal(value as nat),
{
    let mut text = String::new();
    push_decimal(&mut text, value);
    text
}

/// Appends `value` in lower-case base sixteen, at least `width` characters wide.
pub fn push_hex(text: &mut String, value: u64, width: usize)
    ensures
        final(text)@ == old(text)@ + hex(value as nat, width as nat),
{
    let mut number = String::new();
    push_digits(&mut number, value, 16);
    let length: usize = number.as_str().unicode_len();
    let mut padding: usize = 0;
    while length + padding < width
        invariant
            length == number@.len(),
            padding == 0 || length + padding <= width,
            text@ == old(text)@ + Seq::new(padding as nat, |i: int| '0'),
        decreases width - length - padding,
    {
        push_char(text, '0');
        padding += 1;
    }
    text.append(number.as_str());
}

/// Appends `other` to `text`.
pub fn push_text(text: &mut String, other: &str)
    ensures
        final(text)@ == old(text)@ + other@,
{
    text.append(other);
}

/// Whether `text` begins with `prefix`.
pub fn starts_with(text: &str, prefix: &str) -> (found: bool)
    ensures
        found == prefix@.is_prefix_of(text@),
{
    let text = characters(text);
    let prefix = characters(prefix);
    occurs_at(&text, 0, &prefix)
}

/// Whether `text` ends with `suffix`.
pub fn ends_with(text: &str, suffix: &str) -> (found: bool)
    ensures
        found == suffix@.is_suffix_of(text@),
{
    let text = characters(text);
    let suffix = characters(suffix);
    if suffix.len() > text.len() {
        return false;
    }
    occurs_at(&text, text.len() - suffix.len(), &suffix)
}

/// Whether `needle` stands in `text` from position `at` on.
pub open spec fn stands_at(text: Seq<char>, at: int, needle: Seq<char>) -> bool {
    0 <= at && at + needle.len() <= text.len() && text.subrange(at, at + needle.len()) == needle
}

/// Whether `needle` stands anywhere in `text`.
pub open spec fn within(text: Seq<char>, needle: Seq<char>) -> bool {
    exists|at: int| #[trigger] stands_at(text, at, needle)
}

/// Whether `needle` stands in `text` from position `at` on.
pub fn occurs_at(text: &Vec<char>, at: usize, needle: &Vec<char>) -> (found: bool)
    ensures
        found == stands_at(text@, at as int, needle@),
        at == 0 ==> found == needle@.is_prefix_of(text@),
        at + needle@.len() == text@.len() ==> found == needle@.is_suffix_of(text@),
{
    if at > text.len() || needle.len() > text.len() - at {
        return false;
    }
    let mut i: usize = 0;
    while i < needle.len()
        invariant
            i <= needle@.len(),
            at + needle.len() <= text.len(),
            forall|j: int| 0 <= j < i ==> text@[at + j] == needle@[j],
        decreases needle@.len() - i,
    {
        if text[at + i] != needle[i] {
            assert(text@.subrange(at as int, at + needle@.len())[i as int] == text@[at + i]);
            return false;
        }
        i += 1;
    }
    assert(text@.subrange(at as int, at + needle@.len()) =~= needle@);
    true
}

/// Whether `needle` stands anywhere in `text`.
pub fn contains(text: &str, needle: &str) -> (found: bool)
    ensures
        found == within(text@, needle@),
{
    let hay = characters(text);
    let pin = characters(needle);
    let mut at: usize = 0;
    while at < hay.len()
        invariant
            hay@ == text@,
            pin@ == needle@,
            at <= hay.len(),
            forall|j: int| 0 <= j < at ==> !stands_at(text@, j, needle@),
        decreases hay@.len() - at,
    {
        if occurs_at(&hay, at, &pin) {
            return true;
        }
        at += 1;
    }
    occurs_at(&hay, at, &pin)
}

/// A character with `A` to `Z` in lower case.
pub open spec fn ascii_lower(c: char) -> char {
    if 'A' <= c <= 'Z' {
        (c as int + 32) as char
    } else {
        c
    }
}

/// A text with `A` to `Z` in lower case.
pub open spec fn ascii_lowered(text: Seq<char>) -> Seq<char> {
    text.map_values(|c: char| ascii_lower(c))
}

fn to_ascii_lower(c: char) -> (lower: char)
    ensures
        lower == ascii_lower(c),
{
    if 'A' <= c && c <= 'Z' {
        ((c as u32 as u8) + 32) as char
    } else {
        c
    }
}

/// The characters of a text, with `A` to `Z` in lower case.
pub fn lowered_characters(text: &str) -> (chars: Vec<char>)
    ensures
        chars@ == ascii_lowered(text@),
{
    let source = characters(text);
    let mut chars: Vec<char> = Vec::new();
    let mut i: usize = 0;
    while i < source.len()
        invariant
            i <= source@.len(),
            source@ == text@,
            chars@ =~= ascii_lowered(text@).take(i as int),
        decreases source@.len() - i,
    {
        chars.push(to_ascii_lower(source[i]));
        i += 1;
    }
    assert(ascii_lowered(text@).take(source@.len() as int) =~= ascii_lowered(text@));
    chars
}

/// Whether two texts are the same but for the case of `A` to `Z`.
pub fn same_ignoring_case(a: &str, b: &str) -> (same: bool)
    ensures
        same == (ascii_lowered(a@) == ascii_lowered(b@)),
{
    let left = lowered_characters(a);
    let right = lowered_characters(b);
    if left.len() != right.len() {
        return false;
    }
    assert(left@.subrange(0, left@.len() as int) =~= left@);
    occurs_at(&left, 0, &right)
}

/// Whether `text` ends with `suffix`, but for the case of `A` to `Z`.
pub fn ends_with_ignoring_case(text: &str, suffix: &str) -> (found: bool)
    ensures
        found == ascii_lowered(suffix@).is_suffix_of(ascii_lowered(text@)),
{
    let hay = lowered_characters(text);
    let pin = lowered_characters(suffix);
    if pin.len() > hay.len() {
        return false;
    }
    occurs_at(&hay, hay.len() - pin.len(), &pin)
}

/// Text order: by the first character that differs, a proper prefix first.
pub open spec fn text_le(a: Seq<char>, b: Seq<char>) -> bool
    decreases a.len(),
{
    if a.len() == 0 {
        true
    } else if b.len() == 0 {
        false
    } else if a[0] == b[0] {
        text_le(a.drop_first(), b.drop_first())
    } else {
        a[0] < b[0]
    }
}

/// Whether `a` comes before `b` or equals it in text order.
pub fn text_not_after(a: &str, b: &str) -> (ordered: bool)
    ensures
        ordered == text_le(a@, b@),
{
    let left = characters(a);
    let right = characters(b);
    let mut i: usize = 0;
    assert(a@.skip(0) =~= a@ && b@.skip(0) =~= b@);
    while i < left.len()
        invariant
            left@ == a@,
            right@ == b@,
            i <= a@.len(),
            i <= b@.len(),
            text_le(a@, b@) == text_le(a@.skip(i as int), b@.skip(i as int)),
        decreases a@.len() - i,
    {
        if i == right.len() {
            return false;
        }
        assert(a@.skip(i as int).drop_first() =~= a@.skip(i + 1));
        assert(b@.skip(i as int).drop_first() =~= b@.skip(i + 1));
        if left[i] != right[i] {
            return left[i] < right[i];
        }
        i += 1;
    }
    true
}

/// Text order is total.
pub proof fn text_order_total(a: Seq<char>, b: Seq<char>)
    ensures
        text_le(a, b) || text_le(b, a),
    decreases a.len(),
{
    if a.len() > 0 && b.len() > 0 && a[0] == b[0] {
        text_order_total(a.drop_first(), b.drop_first());
    }
}

/// Text order is transitive.
pub proof fn text_order_transitive(a: Seq<char>, b: Seq<char>, c: Seq<char>)
    requires
        text_le(a, b),
        text_le(b, c),
    ensures
        text_le(a, c),
    decreases a.len(),
{
    if a.len() > 0 && b.len() > 0 && c.len() > 0 && a[0] == b[0] && b[0] == c[0] {
        text_order_transitive(a.drop_first(), b.drop_first(), c.drop_first());
    }
}

/// Texts that are ordered both ways are equal.
pub proof fn text_order_antisymmetric_if(a: Seq<char>, b: Seq<char>)
    ensures
        text_le(a, b) && text_le(b, a) ==> a == b,
{
    if text_le(a, b) && text_le(b, a) {
        text_order_antisymmetric(a, b);
    }
}

/// Texts that are ordered both ways are equal.
pub proof fn text_order_antisymmetric(a: Seq<char>, b: Seq<char>)
    requires
        text_le(a, b),
        text_le(b, a),
    ensures
        a == b,
    decreases a.len(),
{
    if a.len() > 0 && b.len() > 0 {
        text_order_antisymmetric(a.drop_first(), b.drop_first());
        assert(a =~= seq![a[0]] + a.drop_first());
        assert(b =~= seq![b[0]] + b.drop_first());
    }
}

} // verus!
