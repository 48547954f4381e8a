//! Readable names and initials of applications.

use crate::text::{characters, occurs_at, starts_with, text_of};
use vstd::prelude::*;

verus! {

/// What separates the parts of an identifier.
#[derive(Debug, Clone, Copy, PartialEq, Eq, Structural)]
pub enum Separator {
    Dot,
    /// Either slash.
    Slash,
}

/// Whether `c` separates parts.
pub open spec fn separates(separator: Separator, c: char) -> bool {
    match separator {
        Separator::Dot => c == '.',
        Separator::Slash => c == '/' || c == '\\',
    }
}

fn is_separator(separator: Separator, c: char) -> (separates: bool)
    ensures
        separates == self::separates(separator, c),
{
    match separator {
        Separator::Dot => c == '.',
        Separator::Slash => c == '/' || c == '\\',
    }
}

/// Where the last part that is not empty ends, among the first `upto`
/// characters.
pub open spec fn part_end(chars: Seq<char>, separator: Separator, upto: int) -> int
    decreases upto,
{
    if upto <= 0 {
        0
    } else if separates(separator, chars[upto - 1]) {
        part_end(chars, separator, upto - 1)
    } else {
        upto
    }
}

/// Where the part begins that ends at `upto`.
pub open spec fn part_start(chars: Seq<char>, separator: Separator, upto: int) -> int
    decreases upto,
{
    if upto <= 0 || separates(separator, chars[upto - 1]) {
        upto
    } else {
        part_start(chars, separator, upto - 1)
    }
}

/// The last part that is not empty; the whole text if there is none.
pub open spec fn last_part(chars: Seq<char>, separator: Separator) -> Seq<char> {
    let end = part_end(chars, separator, chars.len() as int);
    if end == 0 {
        chars
    } else {
        chars.subrange(part_start(chars, separator, end), end)
    }
}

fn find_last_part(chars: &Vec<char>, from: usize, separator: Separator) -> (part: (usize, usize))
    requires
        from <= chars@.len(),
    ensures
        from <= part.0 <= part.1 <= chars@.len(),
        chars@.subrange(part.0 as int, part.1 as int) == last_part(
            chars@.skip(from as int),
            separator,
        ),
{
    let ghost rest = chars@.skip(from as int);
    let mut end: usize = chars.len();
    while end > from && is_separator(separator, chars[end - 1])
        invariant
            from <= end <= chars@.len(),
            rest == chars@.skip(from as int),
            part_end(rest, separator, rest.len() as int) == part_end(
                rest,
                separator,
                end - from,
            ),
        decreases end,
    {
        assert(rest[end - from - 1] == chars@[end - 1]);
        end -= 1;
    }
    if end == from {
        assert(chars@.subrange(from as int, chars@.len() as int) =~= rest);
        return (from, chars.len());
    }
    assert(rest[end - from - 1] == chars@[end - 1]);
    let mut start: usize = end;
    while start > from && !is_separator(separator, chars[start - 1])
        invariant
            from <= start <= end <= chars@.len(),
            rest == chars@.skip(from as int),
            part_start(rest, separator, end - from) == part_start(
                rest,
                separator,
                start - from,
            ),
        decreases start,
    {
        assert(rest[start - from - 1] == chars@[start - 1]);
        start -= 1;
    }
    proof {
        if start > from {
            assert(rest[start - from - 1] == chars@[start - 1]);
        }
        assert(part_start(rest, separator, end - from) == start - from);
        assert(chars@.subrange(start as int, end as int) =~= rest.subrange(
            start - from,
            end - from,
        ));
    }
    (start, end)
}

/// A text without `.exe` at its end, however often it stands there.
pub open spec fn without_exe(chars: Seq<char>) -> Seq<char>
    decreases chars.len(),
{
    if chars.len() >= 4 && chars.skip(chars.len() - 4) == ".exe"@ {
        without_exe(chars.take(chars.len() - 4))
    } else {
        chars
    }
}

fn exe_start(chars: &Vec<char>, from: usize, to: usize) -> (end: usize)
    requires
        from <= to <= chars@.len(),
    ensures
        from <= end <= to,
        chars@.subrange(from as int, end as int) == without_exe(
            chars@.subrange(from as int, to as int),
        ),
{
    let suffix = characters(".exe");
    proof {
        reveal_strlit(".exe");
    }
    let ghost whole = chars@.subrange(from as int, to as int);
    let mut end: usize = to;
    while end - from >= 4 && occurs_at(chars, end - 4, &suffix)
        invariant
            from <= end <= to <= chars@.len(),
            suffix@ == ".exe"@,
            ".exe"@.len() == 4,
            whole == chars@.subrange(from as int, to as int),
            without_exe(whole) == without_exe(chars@.subrange(from as int, end as int)),
        decreases end,
    {
        proof {
            let now = chars@.subrange(from as int, end as int);
            assert(now.skip(now.len() - 4) =~= chars@.subrange(end - 4, end as int));
            assert(now.take(now.len() - 4) =~= chars@.subrange(from as int, end - 4));
        }
        end -= 4;
    }
    proof {
        let now = chars@.subrange(from as int, end as int);
        if now.len() >= 4 {
            assert(now.skip(now.len() - 4) =~= chars@.subrange(end - 4, end as int));
        }
        assert(without_exe(now) == now);
    }
    end
}

/// The readable part of an application's identifier: of a program's path its
/// file name without `.exe`, of a dotted name the last part.
pub open spec fn friendly_name(identifier: Seq<char>) -> Seq<char> {
    if "exe:"@.is_prefix_of(identifier) {
        without_exe(last_part(identifier.skip(4), Separator::Slash))
    } else {
        last_part(identifier, Separator::Dot)
    }
}

/// The readable part of an application's identifier. The identifier stays what
/// profiles are matched by.
pub fn friendly_app_name(identifier: &str) -> (name: String)
    ensures
        name@ == friendly_name(identifier@),
{
    let chars = characters(identifier);
    proof {
        reveal_strlit("exe:");
        assert(chars@.skip(0) =~= chars@);
    }
    if starts_with(identifier, "exe:") {
        let (start, end): (usize, usize) = find_last_part(&chars, 4, Separator::Slash);
        let end = exe_start(&chars, start, end);
        text_of(&chars, start, end)
    } else {
        let (start, end): (usize, usize) = find_last_part(&chars, 0, Separator::Dot);
        text_of(&chars, start, end)
    }
}

/// Whether `c` is white space.
pub open spec fn white(c: char) -> bool {
    let code = c as u32;
    ||| 0x09 <= code <= 0x0d
    ||| code == 0x20
    ||| code == 0x85
    ||| code == 0xa0
    ||| code == 0x1680
    ||| 0x2000 <= code <= 0x200a
    ||| code == 0x2028
    ||| code == 0x2029
    ||| code == 0x202f
    ||| code == 0x205f
    ||| code == 0x3000
}

/// Whether `c` is white space.
pub fn is_white(c: char) -> (white: bool)
    ensures
        white == self::white(c),
{
    let code: u32 = c as u32;
    (0x09 <= code && code <= 0x0d) || code == 0x20 || code == 0x85 || code == 0xa0 || code
        == 0x1680 || (0x2000 <= code && code <= 0x200a) || code == 0x2028 || code == 0x2029
        || code == 0x202f || code == 0x205f || code == 0x3000
}

/// The first character from position `from` on that is not white space.
pub open spec fn first_mark(name: Seq<char>, from: int) -> Option<char>
    decreases name.len() - from,
{
    if from < 0 || from >= name.len() {
        None
    } else if !white(name[from]) {
        Some(name[from])
    } else {
        first_mark(name, from + 1)
    }
}

/// What stands for an application without an icon: the first character of its
/// name, or a question mark.
pub fn monogram(name: &str) -> (initial: char)
    ensures
        initial == match first_mark(name@, 0) {
            Some(c) => c,
            None => '?',
        },
{
    let chars = characters(name);
    let mut i: usize = 0;
    while i < chars.len()
        invariant
            i <= chars@.len(),
            chars@ == name@,
            first_mark(name@, 0) == first_mark(name@, i as int),
        decreases chars@.len() - i,
    {
        if !is_white(chars[i]) {
            return chars[i];
        }
        i += 1;
    }
    '?'
}

/// How much white space a text begins with, from position `from` on.
pub open spec fn leading_end(text: Seq<char>, from: int) -> int
    decreases text.len() - from,
{
    if from < 0 || from >= text.len() || !white(text[from]) {
        from
    } else {
        leading_end(text, from + 1)
    }
}

/// Where the white space begins that ends a text at `upto`.
pub open spec fn trailing_start(text: Seq<char>, upto: int) -> int
    decreases upto,
{
    if upto <= 0 || !white(text[upto - 1]) {
        upto
    } else {
        trailing_start(text, upto - 1)
    }
}

/// A text without white space at its ends.
pub open spec fn trimmed(text: Seq<char>) -> Seq<char> {
    let start = leading_end(text, 0);
    let end = trailing_start(text, text.len() as int);
    if start < end {
        text.subrange(start, end)
    } else {
        seq![]
    }
}

/// A text without white space at its ends.
pub fn trim(text: &str) -> (trimmed: String)
    ensures
        trimmed@ == self::trimmed(text@),
{
    let chars = characters(text);
    let mut start: usize = 0;
    while start < chars.len() && is_white(chars[start])
        invariant
            start <= chars@.len(),
            chars@ == text@,
            leading_end(text@, 0) == leading_end(text@, start as int),
        decreases chars@.len() - start,
    {
        start += 1;
    }
    let mut end: usize = chars.len();
    while end > 0 && is_white(chars[end - 1])
        invariant
            end <= chars@.len(),
            chars@ == text@,
            trailing_start(text@, text@.len() as int) == trailing_start(text@, end as int),
        decreases end,
    {
        end -= 1;
    }
    if start < end {
        text_of(&chars, start, end)
    } else {
        text_of(&chars, 0, 0)
    }
}

/// A name is never shown empty for an identifier that is not.
pub proof fn friendly_names_are_not_empty(identifier: Seq<char>)
    requires
        identifier.len() > 0,
        !"exe:"@.is_prefix_of(identifier),
    ensures
        friendly_name(identifier).len() > 0,
{
    part_end_is_within(identifier, Separator::Dot, identifier.len() as int);
    let end = part_end(identifier, Separator::Dot, identifier.len() as int);
    if end > 0 {
        part_start_is_before(identifier, Separator::Dot, end - 1);
    }
}

proof fn part_end_is_within(chars: Seq<char>, separator: Separator, upto: int)
    requires
        0 <= upto <= chars.len(),
    ensures
        0 <= part_end(chars, separator, upto) <= upto,
        part_end(chars, separator, upto) > 0 ==> !separates(
            separator,
            chars[part_end(chars, separator, upto) - 1],
        ),
    decreases upto,
{
    if upto > 0 && separates(separator, chars[upto - 1]) {
        part_end_is_within(chars, separator, upto - 1);
    }
}

proof fn part_start_is_before(chars: Seq<char>, separator: Separator, upto: int)
    requires
        0 <= upto <= chars.len(),
    ensures
        0 <= part_start(chars, separator, upto) <= upto,
    decreases upto,
{
    if upto > 0 && !separates(separator, chars[upto - 1]) {
        part_start_is_before(chars, separator, upto - 1);
    }
}

} // verus!
