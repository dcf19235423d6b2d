//! Building the short strings that the consoles send.

use vstd::prelude::*;
use vstd::string::*;

verus! {

/// `String::push` of the standard library: appends one character to the end
/// of the string and leaves the rest as it was.
#[verifier::external_body]
pub(crate) fn push_char(text: &mut String, ch: char)
    ensures
        final(text)@ == old(text)@.push(ch),
{
    text.push(ch)
}

/// Whether a number is the code of a character.
pub open spec fn is_char_code(code: u32) -> bool {
    code <= 0xD7FF || 0xE000 <= code <= 0x10FFFF
}

/// `char::from_u32` of the standard library: the character with the given
/// code, and `None` exactly for the numbers that are no character (the
/// surrogates and everything above `0x10FFFF`).
#[verifier::external_body]
pub(crate) fn char_from_u32(code: u32) -> (ch: Option<char>)
    ensures
        ch == if is_char_code(code) {
            Some(code as char)
        } else {
            None::<char>
        },
{
    char::from_u32(code)
}

/// The string made of `count` copies of one character.
pub open spec fn repeated_spec(ch: char, count: nat) -> Seq<char> {
    Seq::new(count, |i: int| ch)
}

/// Builds the string made of `count` copies of `ch`.
pub fn repeated(ch: char, count: usize) -> (text: String)
    ensures
        text@ == repeated_spec(ch, count as nat),
{
    let mut text = String::new();
    let mut i: usize = 0;
    while i < count
        invariant
            i <= count,
            text@ == repeated_spec(ch, i as nat),
        decreases count - i,
    {
        push_char(&mut text, ch);
        i = i + 1;
        assert(text@ =~= repeated_spec(ch, i as nat));
    }
    text
}

/// Builds the string that holds `ch` and nothing else.
pub fn char_to_string(ch: char) -> (text: String)
    ensures
        text@ == seq![ch],
{
    let mut text = String::new();
    push_char(&mut text, ch);
    assert(text@ =~= seq![ch]);
    text
}

/// The characters of a text, one by one.
pub fn chars_of(text: &str) -> (chars: Vec<char>)
    ensures
        chars@ == text@,
{
    let len = text.unicode_len();
    let mut chars: Vec<char> = Vec::new();
    let mut i: usize = 0;
    while i < len
        invariant
            i <= len,
            len == text@.len(),
            chars@ == text@.subrange(0, i as int),
        decreases len - i,
    {
        chars.push(text.get_char(i));
        i = i + 1;
        assert(chars@ =~= text@.subrange(0, i as int));
    }
    assert(chars@ =~= text@);
    chars
}

/// Whether `pattern` stands in `text` at position `at`.
pub open spec fn occurs_at(text: Seq<char>, pattern: Seq<char>, at: int) -> bool {
    0 <= at && at + pattern.len() <= text.len() && text.subrange(at, at + pattern.len())
        == pattern
}

/// Whether `pattern` stands somewhere in `text`.
pub open spec fn contains_spec(text: Seq<char>, pattern: Seq<char>) -> bool {
    exists|at: int| occurs_at(text, pattern, at)
}

/// Tells whether `pattern` stands in `text` at position `at`.
pub fn matches_at(text: &Vec<char>, pattern: &Vec<char>, at: usize) -> (found: bool)
    ensures
        found == occurs_at(text@, pattern@, at as int),
{
    if pattern.len() > text.len() || at > text.len() - pattern.len() {
        return false;
    }
    let mut i: usize = 0;
    while i < pattern.len()
        invariant
            i <= pattern.len(),
            at + pattern.len() <= text.len(),
            text@.subrange(at as int, at + i) == pattern@.subrange(0, i as int),
        decreases pattern.len() - i,
    {
        if text[at + i] != pattern[i] {
            assert(text@.subrange(at as int, at + pattern@.len())[i as int] != pattern@[i as int]);
            return false;
        }
        i = i + 1;
        assert(text@.subrange(at as int, at + i) =~= pattern@.subrange(0, i as int)) by {
            assert(text@.subrange(at as int, at + i - 1) == pattern@.subrange(0, i - 1));
            assert forall|j: int| 0 <= j < i implies text@.subrange(at as int, at + i)[j]
                == pattern@.subrange(0, i as int)[j] by {
                if j < i - 1 {
                    assert(text@.subrange(at as int, at + i - 1)[j] == pattern@.subrange(
                        0,
                        i - 1,
                    )[j]);
                }
            }
        }
    }
    assert(pattern@.subrange(0, pattern@.len() as int) =~= pattern@);
    true
}

/// Tells whether `pattern` stands somewhere in `text`.
pub fn contains(text: &Vec<char>, pattern: &Vec<char>) -> (found: bool)
    ensures
        found == contains_spec(text@, pattern@),
{
    if pattern.len() > text.len() {
        assert forall|at: int| !occurs_at(text@, pattern@, at) by {}
        return false;
    }
    let last: usize = text.len() - pattern.len();
    let mut at: usize = 0;
    loop
        invariant
            at <= last,
            last == text@.len() - pattern@.len(),
            forall|before: int| 0 <= before < at ==> !occurs_at(text@, pattern@, before),
        decreases last - at,
    {
        if matches_at(text, pattern, at) {
            return true;
        }
        if at == last {
            assert forall|any: int| !occurs_at(text@, pattern@, any) by {}
            return false;
        }
        at = at + 1;
    }
}

/// The parts of a text between its separators, in order. A text without a
/// separator is one part; two separators side by side, or one at either end,
/// enclose an empty part.
pub open spec fn split_spec(text: Seq<char>, separator: char) -> Seq<Seq<char>>
    decreases text.len(),
{
    if text.len() == 0 {
        seq![Seq::empty()]
    } else {
        let before = split_spec(text.drop_last(), separator);
        if text.last() == separator {
            before.push(Seq::empty())
        } else {
            before.update(before.len() - 1, before.last().push(text.last()))
        }
    }
}

/// The parts put together again, with the separator between every two.
pub open spec fn joined_spec(parts: Seq<Seq<char>>, separator: char) -> Seq<char>
    decreases parts.len(),
{
    if parts.len() == 0 {
        Seq::empty()
    } else if parts.len() == 1 {
        parts[0]
    } else {
        joined_spec(parts.drop_last(), separator).push(separator) + parts.last()
    }
}

/// Splitting loses nothing and leaves no separator behind: there is at least
/// one part, no part holds the separator, and the parts joined by the
/// separator are the text again.
pub proof fn split_then_joined(text: Seq<char>, separator: char)
    ensures
        split_spec(text, separator).len() >= 1,
        forall|i: int, j: int|
            0 <= i < split_spec(text, separator).len() && 0 <= j < split_spec(
                text,
                separator,
            )[i].len() ==> (#[trigger] split_spec(text, separator)[i][j]) != separator,
        joined_spec(split_spec(text, separator), separator) == text,
    decreases text.len(),
{
    let parts = split_spec(text, separator);
    if text.len() == 0 {
        assert(joined_spec(parts, separator) =~= text);
    } else {
        let before = split_spec(text.drop_last(), separator);
        split_then_joined(text.drop_last(), separator);
        if text.last() == separator {
            assert(parts.drop_last() =~= before);
            assert(joined_spec(parts, separator) =~= text.drop_last().push(separator));
            assert(text.drop_last().push(text.last()) =~= text);
        } else {
            let grown = before.last().push(text.last());
            if before.len() == 1 {
                assert(joined_spec(before, separator) == before[0]);
                assert(joined_spec(parts, separator) == grown);
                assert(grown =~= text.drop_last().push(text.last()));
            } else {
                assert(parts.drop_last() =~= before.drop_last());
                assert(joined_spec(parts, separator) =~= joined_spec(before, separator).push(
                    text.last(),
                ));
            }
            assert(text.drop_last().push(text.last()) =~= text);
        }
    }
}

/// The texts that a vector of strings holds.
pub open spec fn texts_of(strings: Seq<String>) -> Seq<Seq<char>> {
    Seq::new(strings.len(), |i: int| strings[i]@)
}

/// Splits a text at every occurrence of a separator.
pub fn split(text: &str, separator: char) -> (parts: Vec<String>)
    ensures
        texts_of(parts@) == split_spec(text@, separator),
{
    let chars = chars_of(text);
    let mut parts: Vec<String> = Vec::new();
    let mut current = String::new();
    let mut i: usize = 0;
    assert(chars@.subrange(0, 0) =~= Seq::<char>::empty());
    assert(texts_of(parts@).push(current@) =~= split_spec(Seq::<char>::empty(), separator));
    while i < chars.len()
        invariant
            i <= chars.len(),
            texts_of(parts@).push(current@) == split_spec(chars@.subrange(0, i as int), separator),
        decreases chars.len() - i,
    {
        let ghost before = texts_of(parts@).push(current@);
        let ghost prefix = chars@.subrange(0, i + 1);
        assert(prefix.drop_last() =~= chars@.subrange(0, i as int));
        assert(prefix.last() == chars@[i as int]);
        if chars[i] == separator {
            parts.push(current);
            current = String::new();
            assert(texts_of(parts@).push(current@) =~= before.push(Seq::empty()));
        } else {
            push_char(&mut current, chars[i]);
            assert(texts_of(parts@).push(current@) =~= before.update(
                before.len() - 1,
                before.last().push(chars@[i as int]),
            ));
        }
        i = i + 1;
    }
    assert(chars@.subrange(0, chars@.len() as int) =~= text@);
    let ghost before = texts_of(parts@).push(current@);
    parts.push(current);
    assert(texts_of(parts@) =~= before);
    parts
}

/// The UTF-16 units of one character: the character's code where it fits in
/// one unit, else a pair of surrogates.
pub open spec fn utf16_units(ch: char) -> Seq<u16> {
    let code = ch as u32;
    if code < 0x10000 {
        seq![code as u16]
    } else {
        seq![(0xD800 + (code - 0x10000) / 0x400) as u16, (0xDC00 + (code - 0x10000) % 0x400) as u16]
    }
}

/// A text in UTF-16.
pub open spec fn utf16_spec(text: Seq<char>) -> Seq<u16>
    decreases text.len(),
{
    if text.len() == 0 {
        Seq::empty()
    } else {
        utf16_spec(text.drop_last()) + utf16_units(text.last())
    }
}

/// Encodes a text in UTF-16.
pub fn encode_utf16(text: &Vec<char>) -> (units: Vec<u16>)
    ensures
        units@ == utf16_spec(text@),
{
    let mut units: Vec<u16> = Vec::new();
    let mut i: usize = 0;
    assert(text@.subrange(0, 0) =~= Seq::<char>::empty());
    while i < text.len()
        invariant
            i <= text.len(),
            units@ == utf16_spec(text@.subrange(0, i as int)),
        decreases text.len() - i,
    {
        let ghost before = units@;
        let code: u32 = text[i] as u32;
        if code < 0x10000 {
            units.push(code as u16);
        } else {
            let rest: u32 = code - 0x10000;
            units.push((0xD800 + rest / 0x400) as u16);
            units.push((0xDC00 + rest % 0x400) as u16);
        }
        proof {
            let prefix = text@.subrange(0, i + 1);
            assert(prefix.drop_last() =~= text@.subrange(0, i as int));
            assert(prefix.last() == text@[i as int]);
            assert(units@ =~= before + utf16_units(text@[i as int]));
        }
        i = i + 1;
    }
    assert(text@.subrange(0, text@.len() as int) =~= text@);
    units
}

/// The character of a decimal digit.
pub open spec fn digit_spec(digit: nat) -> char
    recommends
        digit < 10,
{
    (48 + digit) as char
}

/// A number written in decimal, without sign or leading zeros.
pub open spec fn decimal_spec(n: nat) -> Seq<char>
    decreases n,
{
    if n < 10 {
        seq![digit_spec(n)]
    } else {
        decimal_spec(n / 10).push(digit_spec(n % 10))
    }
}

fn digit(d: u32) -> (ch: char)
    requires
        d < 10,
    ensures
        ch == digit_spec(d as nat),
{
    if d == 0 {
        '0'
    } else if d == 1 {
        '1'
    } else if d == 2 {
        '2'
    } else if d == 3 {
        '3'
    } else if d == 4 {
        '4'
    } else if d == 5 {
        '5'
    } else if d == 6 {
        '6'
    } else if d == 7 {
        '7'
    } else if d == 8 {
        '8'
    } else {
        '9'
    }
}

/// Appends `n`, written in decimal, to `text`.
pub fn push_decimal(text: &mut String, n: u32)
    ensures
        final(text)@ == old(text)@ + decimal_spec(n as nat),
    decreases n,
{
    if n < 10 {
        push_char(text, digit(n));
        assert(text@ =~= old(text)@ + decimal_spec(n as nat));
    } else {
        push_decimal(text, n / 10);
        push_char(text, digit(n % 10));
        assert(text@ =~= old(text)@ + decimal_spec(n as nat));
    }
}

} // verus!
