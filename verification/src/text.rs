//! Text rules that every parser of the service shares, stated over character
//! sequences.
use crate::config::texts_of;
use vstd::prelude::*;
use vstd::utf8::{decode_first_scalar, decode_utf8, pop_first_scalar, valid_first_scalar, valid_utf8};

verus! {

/// `String::push`: the character is appended to the end of the text.
pub assume_specification[ String::push ](buffer: &mut String, added: char)
    ensures
        final(buffer)@ == old(buffer)@.push(added),
;

/// The text with every Unicode character lowered, as `str::to_lowercase` lowers it.
pub uninterp spec fn unicode_lowercase(text: Seq<char>) -> Seq<char>;

/// `str::to_lowercase`: the lowered text depends on the text alone. Which
/// characters change, and into what, is left to the Unicode tables of std.
#[verifier::external_body]
pub(crate) fn to_lowercase(text: &str) -> (lowered: String)
    ensures
        lowered@ == unicode_lowercase(text@),
{
    text.to_lowercase()
}

/// `std::str::from_utf8`: the text that the bytes encode, where they are UTF-8.
#[verifier::external_body]
pub(crate) fn from_utf8(bytes: &[u8]) -> (decoded: Option<String>)
    ensures
        decoded is Some == vstd::utf8::valid_utf8(bytes@),
        decoded is Some ==> decoded->0@ == vstd::utf8::decode_utf8(bytes@),
{
    std::str::from_utf8(bytes).ok().map(str::to_owned)
}

/// The text that `String::from_utf8_lossy` reads out of arbitrary bytes.
pub uninterp spec fn utf8_lossy(bytes: Seq<u8>) -> Seq<char>;

/// `String::from_utf8_lossy`: UTF-8 is decoded as it stands, and what is not
/// UTF-8 is replaced in a way that depends on the bytes alone.
#[verifier::external_body]
pub(crate) fn from_utf8_lossy(bytes: &[u8]) -> (decoded: String)
    ensures
        decoded@ == utf8_lossy(bytes@),
        vstd::utf8::valid_utf8(bytes@) ==> decoded@ == vstd::utf8::decode_utf8(bytes@),
{
    String::from_utf8_lossy(bytes).into_owned()
}

/// Whether `character` has the Unicode property White_Space.
pub open spec fn is_white_space(character: char) -> bool {
    ||| '\u{9}' <= character <= '\u{d}'
    ||| character == ' '
    ||| character == '\u{85}'
    ||| character == '\u{a0}'
    ||| character == '\u{1680}'
    ||| '\u{2000}' <= character <= '\u{200a}'
    ||| character == '\u{2028}'
    ||| character == '\u{2029}'
    ||| character == '\u{202f}'
    ||| character == '\u{205f}'
    ||| character == '\u{3000}'
}

pub open spec fn is_ascii_alphabetic(character: char) -> bool {
    'a' <= character <= 'z' || 'A' <= character <= 'Z'
}

pub open spec fn is_ascii_digit(character: char) -> bool {
    '0' <= character <= '9'
}

pub open spec fn is_ascii_alphanumeric(character: char) -> bool {
    is_ascii_alphabetic(character) || is_ascii_digit(character)
}

/// The ASCII lower-case form of one character; every other character is kept.
pub open spec fn ascii_lower_char(character: char) -> char {
    if 'A' <= character <= 'Z' {
        ((character as u32) + 32) as char
    } else {
        character
    }
}

pub open spec fn ascii_lower(text: Seq<char>) -> Seq<char> {
    text.map_values(|c: char| ascii_lower_char(c))
}

/// The ASCII upper-case form of one character; every other character is kept.
pub open spec fn ascii_upper_char(character: char) -> char {
    if 'a' <= character <= 'z' {
        ((character as u32) - 32) as char
    } else {
        character
    }
}

pub open spec fn ascii_upper(text: Seq<char>) -> Seq<char> {
    text.map_values(|c: char| ascii_upper_char(c))
}

/// The bytes with capitals in place of small ASCII letters.
pub open spec fn upper_bytes(bytes: Seq<u8>) -> Seq<u8> {
    bytes.map_values(
        |byte: u8|
            if 97 <= byte <= 122 {
                (byte - 32) as u8
            } else {
                byte
            },
    )
}

/// Two pieces of UTF-8 are decoded one by one.
pub(crate) proof fn lemma_decode_concat(first: Seq<u8>, second: Seq<u8>)
    requires
        valid_utf8(first),
        valid_utf8(second),
    ensures
        valid_utf8(first + second),
        decode_utf8(first + second) == decode_utf8(first) + decode_utf8(second),
    decreases first.len(),
{
    if first.len() == 0 {
        assert(first + second =~= second);
        assert(decode_utf8(first) + decode_utf8(second) =~= decode_utf8(second));
    } else {
        let rest = pop_first_scalar(first);
        lemma_decode_concat(rest, second);
        assert(pop_first_scalar(first + second) =~= rest + second);
        assert(decode_utf8(first + second) =~= decode_utf8(first) + decode_utf8(second));
    }
}

/// Capitals stand where small ASCII letters stood, and nothing else changes.
pub(crate) proof fn lemma_decode_upper(bytes: Seq<u8>)
    requires
        valid_utf8(bytes),
    ensures
        valid_utf8(upper_bytes(bytes)),
        decode_utf8(upper_bytes(bytes)) == ascii_upper(decode_utf8(bytes)),
    decreases bytes.len(),
{
    let upper = upper_bytes(bytes);
    if bytes.len() == 0 {
        assert(decode_utf8(upper) =~= ascii_upper(decode_utf8(bytes)));
    } else {
        let rest = pop_first_scalar(bytes);
        lemma_decode_upper(rest);
        let first = bytes[0];
        let raised = upper[0];
        if first <= 0x7f {
            assert((first & 0x7f) == first) by (bit_vector)
                requires
                    first <= 0x7f,
            ;
            assert((raised & 0x7f) == raised) by (bit_vector)
                requires
                    raised <= 0x7f,
            ;
            assert(decode_first_scalar(bytes) == first);
            assert(decode_first_scalar(upper) == raised);
            assert(first as char == decode_first_scalar(bytes) as char);
        } else {
            assert(upper[0] == bytes[0]);
            let character = decode_first_scalar(bytes) as char;
            vstd::utf8::decode_utf8_first_scalar(bytes);
            assert(vstd::utf8::take_first_scalar(bytes).len() > 1);
            if character as u32 <= 0x7f {
                assert(vstd::utf8::encode_scalar(character as u32).len() == 1);
            }
            assert(character > 'z');
            assert(decode_first_scalar(upper) == decode_first_scalar(bytes));
        }
        assert(valid_first_scalar(upper));
        assert(pop_first_scalar(upper) =~= upper_bytes(rest));
        assert(decode_first_scalar(upper) as char == ascii_upper_char(
            decode_first_scalar(bytes) as char,
        ));
        assert(decode_utf8(upper) =~= ascii_upper(decode_utf8(bytes)));
    }
}

pub open spec fn starts_with_at(text: Seq<char>, at: int, pattern: Seq<char>) -> bool {
    &&& 0 <= at
    &&& at + pattern.len() <= text.len()
    &&& text.subrange(at, at + pattern.len()) == pattern
}

pub open spec fn starts_with(text: Seq<char>, pattern: Seq<char>) -> bool {
    starts_with_at(text, 0, pattern)
}

pub open spec fn ends_with(text: Seq<char>, pattern: Seq<char>) -> bool {
    starts_with_at(text, text.len() - pattern.len(), pattern)
}

/// Whether `pattern` occurs somewhere in `text`.
pub open spec fn contains(text: Seq<char>, pattern: Seq<char>) -> bool {
    exists|at: int| #[trigger] starts_with_at(text, at, pattern)
}

/// `at` is where `pattern` first occurs in `text` at or after `from`.
pub open spec fn first_at(text: Seq<char>, from: int, pattern: Seq<char>, at: int) -> bool {
    &&& from <= at
    &&& starts_with_at(text, at, pattern)
    &&& forall|earlier: int|
        from <= earlier < at ==> !#[trigger] starts_with_at(text, earlier, pattern)
}

/// The white space at the start of `text`, as a number of characters.
pub open spec fn leading_white_space(text: Seq<char>) -> nat
    decreases text.len(),
{
    if text.len() > 0 && is_white_space(text[0]) {
        1 + leading_white_space(text.subrange(1, text.len() as int))
    } else {
        0
    }
}

/// The white space at the end of `text`, as a number of characters.
pub open spec fn trailing_white_space(text: Seq<char>) -> nat
    decreases text.len(),
{
    if text.len() > 0 && is_white_space(text.last()) {
        1 + trailing_white_space(text.drop_last())
    } else {
        0
    }
}

/// `text` without the white space at both of its ends.
pub open spec fn trimmed(text: Seq<char>) -> Seq<char> {
    let front = text.subrange(leading_white_space(text) as int, text.len() as int);
    front.subrange(0, front.len() - trailing_white_space(front))
}

proof fn lemma_leading(text: Seq<char>, count: int)
    requires
        0 <= count <= text.len(),
        forall|i: int| 0 <= i < count ==> is_white_space(#[trigger] text[i]),
        count < text.len() ==> !is_white_space(text[count]),
    ensures
        leading_white_space(text) == count,
    decreases text.len(),
{
    if count > 0 {
        assert(is_white_space(text[0]));
        let rest = text.subrange(1, text.len() as int);
        assert forall|i: int| 0 <= i < count - 1 implies is_white_space(#[trigger] rest[i]) by {
            assert(rest[i] == text[i + 1]);
        }
        lemma_leading(rest, count - 1);
    }
}

proof fn lemma_trailing(text: Seq<char>, count: int)
    requires
        0 <= count <= text.len(),
        forall|i: int| text.len() - count <= i < text.len() ==> is_white_space(#[trigger] text[i]),
        count < text.len() ==> !is_white_space(text[text.len() - count - 1]),
    ensures
        trailing_white_space(text) == count,
    decreases text.len(),
{
    if count > 0 {
        assert(is_white_space(text[text.len() - 1]));
        let rest = text.drop_last();
        assert forall|i: int| rest.len() - (count - 1) <= i < rest.len() implies is_white_space(
            #[trigger] rest[i],
        ) by {
            assert(rest[i] == text[i]);
        }
        lemma_trailing(rest, count - 1);
    }
}

proof fn lemma_white_space_counts(text: Seq<char>)
    ensures
        leading_white_space(text) <= text.len(),
        trailing_white_space(text) <= text.len(),
    decreases text.len(),
{
    if text.len() > 0 {
        lemma_white_space_counts(text.subrange(1, text.len() as int));
        lemma_white_space_counts(text.drop_last());
    }
}

/// Trimming a trimmed text changes nothing.
pub proof fn trimming_twice_is_trimming_once(text: Seq<char>)
    ensures
        trimmed(trimmed(text)) == trimmed(text),
{
    lemma_white_space_counts(text);
    let front = text.subrange(leading_white_space(text) as int, text.len() as int);
    lemma_white_space_counts(front);
    lemma_front_is_bare(text);
    lemma_back_is_bare(front);
    let core = trimmed(text);
    if core.len() > 0 {
        assert(core[0] == front[0]);
    }
    lemma_leading(core, 0);
    assert(core.subrange(0, core.len() as int) == core);
    lemma_trailing(core, 0);
}

proof fn lemma_front_is_bare(text: Seq<char>)
    ensures
        ({
            let front = text.subrange(leading_white_space(text) as int, text.len() as int);
            front.len() > 0 ==> !is_white_space(front[0])
        }),
    decreases text.len(),
{
    lemma_white_space_counts(text);
    if text.len() > 0 && is_white_space(text[0]) {
        let rest = text.subrange(1, text.len() as int);
        lemma_white_space_counts(rest);
        lemma_front_is_bare(rest);
        assert(rest.subrange(leading_white_space(rest) as int, rest.len() as int)
            == text.subrange(leading_white_space(text) as int, text.len() as int));
    }
}

proof fn lemma_back_is_bare(text: Seq<char>)
    ensures
        ({
            let back = text.subrange(0, text.len() - trailing_white_space(text));
            back.len() > 0 ==> !is_white_space(back.last())
        }),
    decreases text.len(),
{
    lemma_white_space_counts(text);
    if text.len() > 0 && is_white_space(text.last()) {
        let rest = text.drop_last();
        lemma_white_space_counts(rest);
        lemma_back_is_bare(rest);
        assert(rest.subrange(0, rest.len() - trailing_white_space(rest))
            == text.subrange(0, text.len() - trailing_white_space(text)));
    }
}

/// The characters of `text`, in order.
pub fn characters(text: &str) -> (chars: Vec<char>)
    ensures
        chars@ == text@,
{
    let mut chars: Vec<char> = Vec::new();
    for c in it: text.chars()
        invariant
            it.seq() == text@,
            chars@ == text@.take(it.index() as int),
    {
        chars.push(c);
    }
    chars
}

/// The text made of the characters from `start` up to `end`.
pub fn text_of(chars: &Vec<char>, start: usize, end: usize) -> (text: String)
    requires
        start <= end <= chars.len(),
    ensures
        text@ == chars@.subrange(start as int, end as int),
{
    let mut text = String::new();
    let mut i: usize = start;
    while i < end
        invariant
            start <= i <= end <= chars.len(),
            text@ == chars@.subrange(start as int, i as int),
        decreases end - i,
    {
        text.push(chars[i]);
        i = i + 1;
    }
    text
}

/// Whether `wanted` is one of the characters.
pub fn holds_character(chars: &Vec<char>, wanted: char) -> (held: bool)
    ensures
        held == chars@.contains(wanted),
{
    let mut i: usize = 0;
    while i < chars.len()
        invariant
            i <= chars@.len(),
            forall|j: int| 0 <= j < i ==> #[trigger] chars@[j] != wanted,
        decreases chars@.len() - i,
    {
        if chars[i] == wanted {
            return true;
        }
        i = i + 1;
    }
    false
}

/// Whether two texts hold the same characters.
pub fn same_text(left: &str, right: &str) -> (same: bool)
    ensures
        same == (left@ == right@),
{
    left.to_owned() == right.to_owned()
}

pub fn white_space(character: char) -> (white: bool)
    ensures
        white == is_white_space(character),
{
    ('\u{9}' <= character && character <= '\u{d}') || character == ' ' || character == '\u{85}'
        || character == '\u{a0}' || character == '\u{1680}' || ('\u{2000}' <= character
        && character <= '\u{200a}') || character == '\u{2028}' || character == '\u{2029}'
        || character == '\u{202f}' || character == '\u{205f}' || character == '\u{3000}'
}

pub fn ascii_alphabetic(character: char) -> (yes: bool)
    ensures
        yes == is_ascii_alphabetic(character),
{
    ('a' <= character && character <= 'z') || ('A' <= character && character <= 'Z')
}

pub fn ascii_digit(character: char) -> (yes: bool)
    ensures
        yes == is_ascii_digit(character),
{
    '0' <= character && character <= '9'
}

pub fn ascii_alphanumeric(character: char) -> (yes: bool)
    ensures
        yes == is_ascii_alphanumeric(character),
{
    ascii_alphabetic(character) || ascii_digit(character)
}

pub fn to_ascii_lower_char(character: char) -> (lowered: char)
    ensures
        lowered == ascii_lower_char(character),
{
    if 'A' <= character && character <= 'Z' {
        ((character as u8) + 32) as char
    } else {
        character
    }
}

/// `text` with its ASCII letters in lower case.
pub fn to_ascii_lowercase(text: &str) -> (lowered: String)
    ensures
        lowered@ == ascii_lower(text@),
{
    let mut lowered = String::new();
    for c in it: text.chars()
        invariant
            it.seq() == text@,
            lowered@ == ascii_lower(text@.take(it.index() as int)),
    {
        lowered.push(to_ascii_lower_char(c));
        proof {
            assert(text@.take(it.index() + 1) == text@.take(it.index() as int).push(c));
        }
    }
    lowered
}

/// Whether `pattern` stands in `chars` at position `at`.
pub fn matches_at(chars: &Vec<char>, at: usize, pattern: &Vec<char>) -> (found: bool)
    ensures
        found == starts_with_at(chars@, at as int, pattern@),
{
    if at > chars.len() || pattern.len() > chars.len() - at {
        return false;
    }
    let mut i: usize = 0;
    while i < pattern.len()
        invariant
            at + pattern.len() <= chars.len(),
            i <= pattern.len(),
            forall|j: int| 0 <= j < i ==> chars@[at + j] == #[trigger] pattern@[j],
        decreases pattern.len() - i,
    {
        if chars[at + i] != pattern[i] {
            proof {
                assert(chars@.subrange(at as int, at + pattern@.len())[i as int] == chars@[at + i]);
            }
            return false;
        }
        i = i + 1;
    }
    proof {
        assert(chars@.subrange(at as int, at + pattern@.len()) =~= pattern@);
    }
    true
}

/// Where `pattern` first occurs in `chars` at or after `from`.
pub fn find_from(chars: &Vec<char>, from: usize, pattern: &Vec<char>) -> (found: Option<usize>)
    ensures
        match found {
            Some(at) => first_at(chars@, from as int, pattern@, at as int),
            None => forall|at: int| from <= at ==> !#[trigger] starts_with_at(chars@, at, pattern@),
        },
{
    let mut at: usize = from;
    while at < chars.len()
        invariant
            from <= at,
            forall|earlier: int|
                from <= earlier < at ==> !#[trigger] starts_with_at(chars@, earlier, pattern@),
        decreases chars.len() - at,
    {
        if matches_at(chars, at, pattern) {
            return Some(at);
        }
        at = at + 1;
    }
    if matches_at(chars, at, pattern) {
        Some(at)
    } else {
        None
    }
}

/// Whether `pattern` occurs somewhere in `text`.
pub fn text_contains(text: &str, pattern: &str) -> (found: bool)
    ensures
        found == contains(text@, pattern@),
{
    find_from(&characters(text), 0, &characters(pattern)).is_some()
}

pub fn text_starts_with(text: &str, pattern: &str) -> (found: bool)
    ensures
        found == starts_with(text@, pattern@),
{
    matches_at(&characters(text), 0, &characters(pattern))
}

/// The bounds of `chars` without the white space at both ends.
pub fn trim_bounds(chars: &Vec<char>) -> (bounds: (usize, usize))
    ensures
        bounds.0 <= bounds.1 <= chars.len(),
        chars@.subrange(bounds.0 as int, bounds.1 as int) == trimmed(chars@),
{
    let mut start: usize = 0;
    while start < chars.len() && white_space(chars[start])
        invariant
            start <= chars.len(),
            forall|i: int| 0 <= i < start ==> is_white_space(#[trigger] chars@[i]),
        decreases chars.len() - start,
    {
        start = start + 1;
    }
    let mut end: usize = chars.len();
    while start < end && white_space(chars[end - 1])
        invariant
            start <= end <= chars.len(),
            forall|i: int| end <= i < chars.len() ==> is_white_space(#[trigger] chars@[i]),
        decreases end - start,
    {
        end = end - 1;
    }
    proof {
        lemma_leading(chars@, start as int);
        let front = chars@.subrange(start as int, chars@.len() as int);
        lemma_trailing(front, chars@.len() - end);
        assert(front.subrange(0, front.len() - (chars@.len() - end)) == chars@.subrange(
            start as int,
            end as int,
        ));
    }
    (start, end)
}

/// `text` without the white space at both ends.
pub fn trim(text: &str) -> (core: String)
    ensures
        core@ == trimmed(text@),
{
    let chars = characters(text);
    let (start, end) = trim_bounds(&chars);
    text_of(&chars, start, end)
}

/// The digit that `value` ends in.
pub open spec fn last_digit(value: nat) -> char {
    (('0' as u32) + (value % 10)) as char
}

/// `value` in decimal, without leading zeros.
pub open spec fn decimal(value: nat) -> Seq<char>
    decreases value,
{
    if value < 10 {
        seq![last_digit(value)]
    } else {
        decimal(value / 10).push(last_digit(value))
    }
}

/// `value` in decimal, with a sign where it is negative.
pub open spec fn signed_decimal(value: int) -> Seq<char> {
    if value < 0 {
        seq!['-'] + decimal((-value) as nat)
    } else {
        decimal(value as nat)
    }
}

fn push_decimal(buffer: &mut String, value: u64)
    ensures
        final(buffer)@ == old(buffer)@ + decimal(value as nat),
    decreases value,
{
    if value >= 10 {
        push_decimal(buffer, value / 10);
    }
    let digit: u8 = (value % 10) as u8;
    buffer.push((48 + digit) as char);
}

pub fn decimal_text(value: u64) -> (digits: String)
    ensures
        digits@ == decimal(value as nat),
{
    let mut digits = String::new();
    push_decimal(&mut digits, value);
    digits
}

pub fn signed_decimal_text(value: i32) -> (digits: String)
    ensures
        digits@ == signed_decimal(value as int),
{
    let mut digits = String::new();
    if value < 0 {
        digits.push('-');
        push_decimal(&mut digits, (-(value as i64)) as u64);
    } else {
        push_decimal(&mut digits, value as u64);
    }
    digits
}

/// Two texts, one after the other.
pub fn joined(first: &str, second: &str) -> (whole: String)
    ensures
        whole@ == first@ + second@,
{
    let mut whole = first.to_owned();
    whole.append(second);
    whole
}

/// The parts of `text` between the occurrences of `separator`, empty ones too.
pub open spec fn pieces(text: Seq<char>, separator: char) -> Seq<Seq<char>>
    decreases text.len(),
{
    if text.len() == 0 {
        seq![Seq::<char>::empty()]
    } else {
        let before = pieces(text.drop_last(), separator);
        if text.last() == separator {
            before.push(Seq::<char>::empty())
        } else {
            before.drop_last().push(before.last().push(text.last()))
        }
    }
}

/// Splits `text` at every `separator`.
pub fn split_text(text: &str, separator: char) -> (parts: Vec<String>)
    ensures
        texts_of(parts@) == pieces(text@, separator),
{
    let mut parts: Vec<String> = Vec::new();
    let mut current = String::new();
    for c in it: text.chars()
        invariant
            it.seq() == text@,
            texts_of(parts@).push(current@) == pieces(text@.take(it.index() as int), separator),
    {
        proof {
            let seen = text@.take(it.index() + 1);
            assert(seen.drop_last() == text@.take(it.index() as int));
            assert(seen.last() == c);
            let before = texts_of(parts@).push(current@);
            assert(before.drop_last() == texts_of(parts@));
        }
        let ghost done = parts@;
        if c == separator {
            let ghost last = current;
            parts.push(current);
            proof {
                assert(texts_of(parts@) == texts_of(done).push(last@));
            }
            current = String::new();
        } else {
            current.push(c);
        }
    }
    let ghost done = parts@;
    let ghost last = current;
    parts.push(current);
    proof {
        assert(text@.take(text@.len() as int) == text@);
        assert(texts_of(parts@) == texts_of(done).push(last@));
    }
    parts
}

/// The number that decimal digits write.
pub open spec fn number(digits: Seq<char>) -> nat
    decreases digits.len(),
{
    if digits.len() == 0 {
        0
    } else {
        number(digits.drop_last()) * 10 + ((digits.last() as u32) - ('0' as u32)) as nat
    }
}

/// The number that a text of digits alone writes, where 64 bits hold it.
pub open spec fn whole_number(text: Seq<char>) -> Option<u64> {
    if text.len() > 0 && (forall|i: int| 0 <= i < text.len() ==> is_ascii_digit(#[trigger] text[i]))
        && number(text) <= u64::MAX {
        Some(number(text) as u64)
    } else {
        None
    }
}

/// A longer row of digits writes no smaller number.
proof fn lemma_number_grows(digits: Seq<char>, length: int)
    requires
        0 <= length <= digits.len(),
    ensures
        number(digits.take(length)) <= number(digits),
    decreases digits.len() - length,
{
    if length < digits.len() {
        let more = digits.take(length + 1);
        assert(more.drop_last() == digits.take(length));
        lemma_number_grows(digits, length + 1);
    } else {
        assert(digits.take(length) == digits);
    }
}

pub fn parse_whole_number(text: &str) -> (value: Option<u64>)
    ensures
        value == whole_number(text@),
{
    let chars = characters(text);
    if chars.len() == 0 {
        return None;
    }
    let mut i: usize = 0;
    while i < chars.len()
        invariant
            chars@ == text@,
            i <= chars@.len(),
            forall|j: int| 0 <= j < i ==> is_ascii_digit(#[trigger] chars@[j]),
        decreases chars@.len() - i,
    {
        if !ascii_digit(chars[i]) {
            return None;
        }
        i = i + 1;
    }
    let mut value: u64 = 0;
    let mut read: usize = 0;
    while read < chars.len()
        invariant
            chars@ == text@,
            read <= chars@.len(),
            forall|j: int| 0 <= j < chars@.len() ==> is_ascii_digit(#[trigger] chars@[j]),
            value == number(chars@.take(read as int)),
        decreases chars@.len() - read,
    {
        let digit: u64 = ((chars[read] as u32) - 48) as u64;
        proof {
            let more = chars@.take(read + 1);
            assert(more.drop_last() == chars@.take(read as int));
            assert(more.last() == chars@[read as int]);
            lemma_number_grows(chars@, read + 1);
        }
        if value > (u64::MAX - digit) / 10 {
            return None;
        }
        value = value * 10 + digit;
        read = read + 1;
    }
    proof {
        assert(chars@.take(chars@.len() as int) == chars@);
    }
    Some(value)
}

/// The length of a text in UTF-16.
pub open spec fn utf16_len(text: Seq<char>) -> nat
    decreases text.len(),
{
    if text.len() == 0 {
        0
    } else {
        utf16_len(text.drop_last()) + (if text.last() as u32 >= 0x10000 {
            2nat
        } else {
            1nat
        })
    }
}

proof fn lemma_utf16_len_grows(text: Seq<char>, length: int)
    requires
        0 <= length <= text.len(),
    ensures
        utf16_len(text.take(length)) <= utf16_len(text),
    decreases text.len() - length,
{
    if length < text.len() {
        assert(text.take(length + 1).drop_last() == text.take(length));
        lemma_utf16_len_grows(text, length + 1);
    } else {
        assert(text.take(length) == text);
    }
}

/// Whether a text is longer in UTF-16 than `limit`.
pub fn exceeds_utf16(text: &str, limit: usize) -> (longer: bool)
    ensures
        longer == (utf16_len(text@) > limit),
{
    let chars = characters(text);
    let mut length: usize = 0;
    let mut i: usize = 0;
    while i < chars.len()
        invariant
            chars@ == text@,
            i <= chars@.len(),
            length == utf16_len(chars@.take(i as int)),
            length <= limit,
        decreases chars@.len() - i,
    {
        proof {
            assert(chars@.take(i + 1).drop_last() == chars@.take(i as int));
            lemma_utf16_len_grows(chars@, i + 1);
        }
        let units: usize = if chars[i] as u32 >= 0x10000 {
            2
        } else {
            1
        };
        if units > limit - length {
            return true;
        }
        length = length + units;
        i = i + 1;
    }
    proof {
        assert(chars@.take(chars@.len() as int) == chars@);
    }
    false
}

/// The number that a text writes as `u64` reads it: digits, with a plus sign
/// before them or without.
pub open spec fn unsigned_number(text: Seq<char>) -> Option<u64> {
    if text.len() > 0 && text[0] == '+' {
        whole_number(text.skip(1))
    } else {
        whole_number(text)
    }
}

pub fn parse_unsigned_number(text: &str) -> (value: Option<u64>)
    ensures
        value == unsigned_number(text@),
{
    let chars = characters(text);
    if chars.len() > 0 && chars[0] == '+' {
        let digits = text_of(&chars, 1, chars.len());
        proof {
            assert(digits@ == text@.skip(1));
        }
        parse_whole_number(digits.as_str())
    } else {
        parse_whole_number(text)
    }
}

/// Where `pattern` first occurs in `text` at or after `from`.
pub open spec fn position(text: Seq<char>, from: int, pattern: Seq<char>) -> Option<int> {
    if exists|at: int| #[trigger] first_at(text, from, pattern, at) {
        Some(choose|at: int| #[trigger] first_at(text, from, pattern, at))
    } else {
        None
    }
}

/// A text occurs first in one place only.
proof fn lemma_position(text: Seq<char>, from: int, pattern: Seq<char>, at: int)
    requires
        first_at(text, from, pattern, at),
    ensures
        position(text, from, pattern) == Some(at),
{
    let chosen = choose|chosen: int| #[trigger] first_at(text, from, pattern, chosen);
    assert(first_at(text, from, pattern, chosen));
    assert(starts_with_at(text, chosen, pattern) && starts_with_at(text, at, pattern));
}

/// Where `pattern` first occurs in `chars` at or after `from`.
pub fn position_of(chars: &Vec<char>, from: usize, pattern: &str) -> (found: Option<usize>)
    ensures
        match found {
            Some(at) => position(chars@, from as int, pattern@) == Some(at as int) && from <= at
                && at + pattern@.len() <= chars@.len(),
            None => position(chars@, from as int, pattern@) is None,
        },
{
    let wanted = characters(pattern);
    let found = find_from(chars, from, &wanted);
    proof {
        match found {
            Some(at) => {
                lemma_position(chars@, from as int, pattern@, at as int);
            },
            None => {},
        }
    }
    found
}

/// What stands in `text` between the first `open` and the `close` after it.
pub open spec fn between(text: Seq<char>, open: Seq<char>, close: Seq<char>) -> Option<Seq<char>> {
    match position(text, 0, open) {
        Some(at) => match position(text, at + open.len(), close) {
            Some(end) => Some(text.subrange((at + open.len()) as int, end)),
            None => None,
        },
        None => None,
    }
}

pub fn extract_between(document: &str, open: &str, close: &str) -> (value: Option<String>)
    ensures
        match value {
            Some(value) => between(document@, open@, close@) == Some(value@),
            None => between(document@, open@, close@) is None,
        },
{
    let chars = characters(document);
    match position_of(&chars, 0, open) {
        Some(at) => {
            let opening = characters(open);
            let total: usize = chars.len();
            assert(at + opening@.len() <= total);
            let start: usize = at + opening.len();
            match position_of(&chars, start, close) {
                Some(end) => Some(text_of(&chars, start, end)),
                None => None,
            }
        },
        None => None,
    }
}

/// The units of one character in UTF-16.
pub open spec fn utf16_of(character: char) -> Seq<u16> {
    let code = character as u32;
    if code < 0x10000 {
        seq![code as u16]
    } else {
        seq![(0xd800 + (code - 0x10000) / 0x400) as u16, (0xdc00 + (code - 0x10000) % 0x400) as u16]
    }
}

/// A text in UTF-16.
pub open spec fn utf16_units(text: Seq<char>) -> Seq<u16>
    decreases text.len(),
{
    if text.len() == 0 {
        Seq::empty()
    } else {
        utf16_units(text.drop_last()) + utf16_of(text.last())
    }
}

pub fn encode_utf16(text: &str) -> (units: Vec<u16>)
    ensures
        units@ == utf16_units(text@),
{
    let mut units: Vec<u16> = Vec::new();
    for c in it: text.chars()
        invariant
            it.seq() == text@,
            units@ == utf16_units(text@.take(it.index() as int)),
    {
        proof {
            let seen = text@.take(it.index() + 1);
            assert(seen.drop_last() == text@.take(it.index() as int));
            assert(seen.last() == c);
        }
        let ghost before = units@;
        let code: u32 = c as u32;
        if code < 0x10000 {
            units.push(code as u16);
        } else {
            let rest: u32 = code - 0x10000;
            units.push((0xd800 + rest / 0x400) as u16);
            units.push((0xdc00 + rest % 0x400) as u16);
        }
        proof {
            assert(units@ =~= before + utf16_of(c));
        }
    }
    proof {
        assert(text@.take(text@.len() as int) == text@);
    }
    units
}

} // verus!
