//! What becomes of texts and numbers.
use crate::text::{
    ascii_lower, ascii_lower_char, ascii_upper, between, contains, decimal, ends_with, first_at,
    is_ascii_digit, is_white_space, leading_white_space, number, pieces, position, signed_decimal,
    starts_with, starts_with_at, trailing_white_space, trimmed, unsigned_number, utf16_len,
    utf16_of, utf16_units, whole_number,
};
use vstd::prelude::*;

verus! {

/// White space at the start is counted up to the first character that is none.
pub proof fn space_at_the_start(text: Seq<char>, i: int)
    ensures
        leading_white_space(text) <= text.len(),
        0 <= i < leading_white_space(text) ==> is_white_space(text[i]),
        leading_white_space(text) < text.len() ==> !is_white_space(
            text[leading_white_space(text) as int],
        ),
    decreases text.len(),
{
    if text.len() > 0 && is_white_space(text[0]) {
        let rest = text.subrange(1, text.len() as int);
        space_at_the_start(rest, i - 1);
        if 0 < i < leading_white_space(text) {
            assert(rest[i - 1] == text[i]);
        }
        if leading_white_space(text) < text.len() {
            assert(rest[leading_white_space(rest) as int] == text[leading_white_space(text) as int]);
        }
    }
}

/// White space at the end is counted back to the last character that is none.
pub proof fn space_at_the_end(text: Seq<char>, i: int)
    ensures
        trailing_white_space(text) <= text.len(),
        text.len() - trailing_white_space(text) <= i < text.len() ==> is_white_space(text[i]),
        trailing_white_space(text) < text.len() ==> !is_white_space(
            text[text.len() - trailing_white_space(text) - 1],
        ),
    decreases text.len(),
{
    if text.len() > 0 && is_white_space(text.last()) {
        let rest = text.drop_last();
        space_at_the_end(rest, i);
        if text.len() - trailing_white_space(text) <= i < text.len() - 1 {
            assert(rest[i] == text[i]);
        }
        if trailing_white_space(text) < text.len() {
            assert(rest[rest.len() - trailing_white_space(rest) - 1] == text[text.len()
                - trailing_white_space(text) - 1]);
        }
    }
}

/// A trimmed text is a part of the text with space alone around it, and neither
/// starts nor ends with space.
pub proof fn trimming_takes_space_alone(text: Seq<char>)
    ensures
        ({
            let core = trimmed(text);
            let front = leading_white_space(text) as int;
            &&& front + core.len() <= text.len()
            &&& core == text.subrange(front, front + core.len())
            &&& forall|i: int| 0 <= i < front ==> is_white_space(#[trigger] text[i])
            &&& forall|i: int|
                front + core.len() <= i < text.len() ==> is_white_space(#[trigger] text[i])
            &&& core.len() > 0 ==> !is_white_space(core[0]) && !is_white_space(core.last())
        }),
{
    let front = leading_white_space(text) as int;
    let rest = text.subrange(front, text.len() as int);
    let core = trimmed(text);
    space_at_the_start(text, 0);
    space_at_the_end(rest, 0);
    assert(core =~= text.subrange(front, front + core.len()));
    assert forall|i: int| 0 <= i < front implies is_white_space(#[trigger] text[i]) by {
        space_at_the_start(text, i);
    }
    assert forall|i: int| front + core.len() <= i < text.len() implies is_white_space(
        #[trigger] text[i],
    ) by {
        space_at_the_end(rest, i - front);
        assert(rest[i - front] == text[i]);
    }
    if core.len() > 0 {
        assert(core.last() == rest[rest.len() - trailing_white_space(rest) - 1]);
        assert(core[0] == text[front]);
    }
}

/// A text without space at its ends is left as it is.
pub proof fn a_bare_text_is_left_as_it_is(text: Seq<char>)
    requires
        text.len() > 0 ==> !is_white_space(text[0]) && !is_white_space(text.last()),
    ensures
        trimmed(text) == text,
{
    assert(text.subrange(0, text.len() as int) =~= text);
    assert(trimmed(text) =~= text);
}

/// Space is what shows nothing: blanks and line ends, and no letter or sign.
pub proof fn what_space_is(character: char)
    ensures
        is_white_space(' ') && is_white_space('\t') && is_white_space('\n') && is_white_space('\r'),
        '!' <= character <= '~' ==> !is_white_space(character),
        is_white_space('\u{a0}') && is_white_space('\u{3000}') && !is_white_space('\u{200b}'),
{
}

/// Letters keep what they are when they are lowered or raised, and other signs
/// stay.
pub proof fn letters_keep_what_they_are(text: Seq<char>, i: int)
    requires
        0 <= i < text.len(),
    ensures
        ascii_lower(text).len() == text.len(),
        'A' <= text[i] <= 'Z' ==> ascii_lower(text)[i] as u32 == text[i] as u32 + 32,
        !('A' <= text[i] <= 'Z') ==> ascii_lower(text)[i] == text[i],
        ascii_lower(ascii_lower(text)) == ascii_lower(text),
        ascii_lower(ascii_upper(text)) == ascii_lower(text),
{
    assert(ascii_lower(ascii_lower(text)) =~= ascii_lower(text));
    assert(ascii_lower(ascii_upper(text)) =~= ascii_lower(text));
}

/// A text starts, ends and is found where its characters are.
pub proof fn where_a_pattern_is(text: Seq<char>, pattern: Seq<char>, at: int, i: int)
    ensures
        starts_with_at(text, at, pattern) ==> 0 <= at && at + pattern.len() <= text.len() && (0 <= i
            < pattern.len() ==> text[at + i] == pattern[i]),
        starts_with_at(text, at, pattern) ==> contains(text, pattern),
        starts_with(text, pattern) <==> starts_with_at(text, 0, pattern),
        ends_with(text, pattern) <==> starts_with_at(text, text.len() - pattern.len(), pattern),
        starts_with(pattern + text, pattern),
        ends_with(text + pattern, pattern),
{
    if starts_with_at(text, at, pattern) && 0 <= i < pattern.len() {
        assert(text.subrange(at, at + pattern.len())[i] == text[at + i]);
    }
    assert((pattern + text).subrange(0, pattern.len() as int) =~= pattern);
    assert((text + pattern).subrange(text.len() as int, (text.len() + pattern.len()) as int)
        =~= pattern);
}

/// A pattern is found at its first place, and found wherever it is.
pub proof fn the_first_place_is_found(text: Seq<char>, from: int, pattern: Seq<char>, at: int)
    ensures
        position(text, from, pattern) is Some ==> {
            let found = position(text, from, pattern)->0;
            &&& from <= found
            &&& starts_with_at(text, found, pattern)
            &&& from <= at < found ==> !starts_with_at(text, at, pattern)
        },
        from <= at && starts_with_at(text, at, pattern) ==> position(text, from, pattern) is Some
            && position(text, from, pattern)->0 <= at,
{
    if from <= at && starts_with_at(text, at, pattern) {
        a_first_place_exists(text, from, pattern, at);
    }
    if position(text, from, pattern) is Some {
        let found = position(text, from, pattern)->0;
        assert(first_at(text, from, pattern, found));
    }
}

/// Where a pattern is at all, it is somewhere first.
pub proof fn a_first_place_exists(text: Seq<char>, from: int, pattern: Seq<char>, at: int)
    requires
        from <= at,
        starts_with_at(text, at, pattern),
    ensures
        exists|first: int| #[trigger] first_at(text, from, pattern, first) && first <= at,
    decreases at - from,
{
    if exists|earlier: int| from <= earlier < at && #[trigger] starts_with_at(text, earlier, pattern) {
        let earlier = choose|earlier: int|
            from <= earlier < at && #[trigger] starts_with_at(text, earlier, pattern);
        a_first_place_exists(text, from, pattern, earlier);
        let first = choose|first: int| #[trigger]
            first_at(text, from, pattern, first) && first <= earlier;
        assert(first_at(text, from, pattern, first) && first <= at);
    } else {
        assert(first_at(text, from, pattern, at));
    }
}

/// What stands between two marks is between the first of the one and the next of
/// the other.
pub proof fn what_stands_between(text: Seq<char>, open: Seq<char>, close: Seq<char>)
    ensures
        between(text, open, close) is Some ==> {
            let start = position(text, 0, open)->0;
            let end = position(text, start + open.len() as int, close)->0;
            &&& starts_with_at(text, start, open)
            &&& start + open.len() <= end
            &&& starts_with_at(text, end, close)
            &&& between(text, open, close)->0 == text.subrange(start + open.len() as int, end)
        },
        !contains(text, open) ==> between(text, open, close) is None,
{
    if position(text, 0, open) is Some {
        let start = position(text, 0, open)->0;
        the_first_place_is_found(text, 0, open, start);
        if position(text, start + open.len() as int, close) is Some {
            the_first_place_is_found(text, start + open.len() as int, close, start);
        }
    }
}

/// A number is written in digits that read as the number.
pub proof fn digits_read_as_their_number(value: nat)
    ensures
        number(decimal(value)) == value,
        decimal(value).len() > 0,
        forall|i: int| 0 <= i < decimal(value).len() ==> is_ascii_digit(#[trigger] decimal(value)[i]),
        value > 0 ==> decimal(value)[0] != '0',
    decreases value,
{
    if value < 10 {
        let digits = decimal(value);
        assert(digits.drop_last() =~= Seq::<char>::empty());
        assert(number(Seq::<char>::empty()) == 0);
        assert(digits.last() as u32 == '0' as u32 + value);
    } else {
        digits_read_as_their_number(value / 10);
        let digits = decimal(value);
        let rest = decimal(value / 10);
        assert(digits.drop_last() =~= rest);
        assert(digits.last() as u32 == '0' as u32 + value % 10);
        assert forall|i: int| 0 <= i < digits.len() implies is_ascii_digit(#[trigger] digits[i]) by {
            if i < rest.len() {
                assert(digits[i] == rest[i]);
            }
        }
        assert(digits[0] == rest[0]);
    }
}

/// A number that was written is read back, and one that is too large is not.
pub proof fn a_written_number_is_read_back(value: nat)
    ensures
        value <= u64::MAX ==> whole_number(decimal(value)) == Some(value as u64),
        value > u64::MAX ==> whole_number(decimal(value)) is None,
        value <= u64::MAX ==> unsigned_number(decimal(value)) == Some(value as u64),
        value <= u64::MAX ==> unsigned_number(seq!['+'] + decimal(value)) == Some(value as u64),
        whole_number(Seq::empty()) is None,
{
    digits_read_as_their_number(value);
    assert(is_ascii_digit(decimal(value)[0]));
    let signed = seq!['+'] + decimal(value);
    assert(signed[0] == '+');
    assert(signed.skip(1) =~= decimal(value));
}

/// A text with anything but digits is no whole number.
pub proof fn only_digits_are_a_number(text: Seq<char>, i: int)
    requires
        0 <= i < text.len(),
        !('0' <= text[i] <= '9'),
    ensures
        whole_number(text) is None,
        i > 0 || text[0] != '+' ==> unsigned_number(text) is None,
{
    if text[0] == '+' && i > 0 {
        assert(text.skip(1)[i - 1] == text[i]);
    }
    assert(!is_ascii_digit(text[i]));
}

/// A negative number is written with its sign.
pub proof fn a_negative_number_has_a_sign(value: int)
    ensures
        value >= 0 ==> signed_decimal(value) == decimal(value as nat),
        value < 0 ==> signed_decimal(value) == seq!['-'] + decimal((-value) as nat),
{
}

/// The pieces of a text hold no separator, and one more piece comes with each.
pub proof fn pieces_are_cut_at_separators(text: Seq<char>, separator: char, character: char)
    ensures
        pieces(text, separator).len() >= 1,
        forall|i: int|
            0 <= i < pieces(text, separator).len() ==> !(#[trigger] pieces(
                text,
                separator,
            )[i]).contains(separator),
        pieces(text.push(separator), separator) == pieces(text, separator).push(Seq::empty()),
        character != separator ==> pieces(text.push(character), separator).len() == pieces(
            text,
            separator,
        ).len() && pieces(text.push(character), separator).last() == pieces(
            text,
            separator,
        ).last().push(character),
        pieces(Seq::empty(), separator) == seq![Seq::<char>::empty()],
    decreases text.len(),
{
    assert(text.push(separator).drop_last() =~= text);
    assert(text.push(character).drop_last() =~= text);
    let all = pieces(text, separator);
    if text.len() > 0 {
        let before = pieces(text.drop_last(), separator);
        pieces_are_cut_at_separators(text.drop_last(), separator, character);
        assert forall|i: int| 0 <= i < all.len() implies !(#[trigger] all[i]).contains(separator) by {
            if text.last() == separator {
                if i < before.len() {
                    assert(all[i] == before[i]);
                }
            } else {
                if i < before.len() - 1 {
                    assert(all[i] == before[i]);
                } else {
                    let last = before[before.len() - 1];
                    assert(all[i] == last.push(text.last()));
                    if all[i].contains(separator) {
                        let at = all[i].index_of(separator);
                        if at < last.len() {
                            assert(last[at] == separator);
                            assert(last.contains(separator));
                        }
                    }
                }
            }
        }
    }
}

/// A text is as long in UTF-16 as its units are many: one for each character, and
/// two for those beyond the first plane.
pub proof fn units_are_counted(text: Seq<char>, character: char)
    ensures
        utf16_units(text).len() == utf16_len(text),
        utf16_len(text.push(character)) == utf16_len(text) + (if character as u32 >= 0x10000 {
            2nat
        } else {
            1nat
        }),
        utf16_units(text.push(character)) == utf16_units(text) + utf16_of(character),
        (character as u32) < 0x10000 ==> utf16_of(character).len() == 1 && utf16_of(character)[0]
            as u32 == character as u32,
        utf16_units(Seq::empty()).len() == 0,
    decreases text.len(),
{
    assert(text.push(character).drop_last() =~= text);
    if text.len() > 0 {
        units_are_counted(text.drop_last(), text.last());
        assert(text.drop_last().push(text.last()) =~= text);
    }
}

/// Letters and digits are those of ASCII.
pub proof fn what_letters_and_digits_are(character: char)
    ensures
        crate::text::is_ascii_alphabetic(character) <==> ('a' <= character && character <= 'z') || (
        'A' <= character && character <= 'Z'),
        is_ascii_digit(character) <==> '0' <= character && character <= '9',
        crate::text::is_ascii_alphanumeric(character) <==> crate::text::is_ascii_alphabetic(
            character,
        ) || is_ascii_digit(character),
        ascii_lower_char(character) != character ==> 'A' <= character && character <= 'Z',
{
}

} // verus!
