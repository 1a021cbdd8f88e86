//! What holds of every text.

use crate::text;
use vstd::prelude::*;

verus! {

/// A number is written with the digit of its last place at the end and the rest of it
/// before that; a number below ten is its digit alone.
pub proof fn law_decimal_places(tens: nat, digit: nat)
    requires
        digit < 10,
    ensures
        text::decimal(digit).len() == 1,
        text::decimal(digit)[0] as u32 == 48 + digit,
        tens > 0 ==> text::decimal(tens * 10 + digit) == text::decimal(tens)
            + text::decimal(digit),
{
    if tens > 0 {
        assert((tens * 10 + digit) / 10 == tens);
        assert((tens * 10 + digit) % 10 == digit);
    }
}

/// Reading a number goes place by place, the same way. A plus sign before it changes
/// nothing.
pub proof fn law_number_places(places: Seq<char>, last: char)
    requires
        '0' <= last && last <= '9',
    ensures
        text::number(Seq::<char>::empty()) == 0,
        text::number(places.push(last)) == text::number(places) * 10 + (last as u32 - 48),
{
    assert(places.push(last).drop_last() =~= places);
}

/// A text is read as a number exactly where it is digits, at least one of them, after an
/// optional plus sign, and its value is within the limit.
pub proof fn law_numbers_are_digits(digits: Seq<char>, limit: nat)
    ensures
        text::parsed(Seq::<char>::empty(), limit) is None,
        text::parsed(seq!['+'], limit) is None,
        digits.len() > 0 && (forall|i: int|
            0 <= i < digits.len() ==> '0' <= #[trigger] digits[i] && digits[i] <= '9') ==> {
            &&& text::number(digits) <= limit ==> text::parsed(digits, limit) == Some(
                text::number(digits),
            )
            &&& text::number(digits) <= limit ==> text::parsed(seq!['+'] + digits, limit) == Some(
                text::number(digits),
            )
            &&& text::number(digits) > limit ==> text::parsed(digits, limit) is None
        },
        digits.len() > 1 && (exists|i: int|
            0 < i < digits.len() && !('0' <= #[trigger] digits[i] && digits[i] <= '9'))
            ==> text::parsed(digits, limit) is None,
        digits.len() > 0 && digits[0] != '+' && !('0' <= digits[0] && digits[0] <= '9')
            ==> text::parsed(digits, limit) is None,
{
    assert(seq!['+'].skip(1) =~= Seq::<char>::empty());
    assert((seq!['+'] + digits).skip(1) =~= digits);
    if digits.len() > 0 && (forall|i: int|
        0 <= i < digits.len() ==> '0' <= #[trigger] digits[i] && digits[i] <= '9') {
        assert('0' <= digits[0]);
        assert(text::all_digits(digits));
    }
    if digits.len() > 1 && (exists|i: int|
        0 < i < digits.len() && !('0' <= #[trigger] digits[i] && digits[i] <= '9')) {
        let i = choose|i: int|
            0 < i < digits.len() && !('0' <= #[trigger] digits[i] && digits[i] <= '9');
        if digits[0] == '+' {
            assert(digits.skip(1)[i - 1] == digits[i]);
        }
        assert(!text::is_digit(text::without_plus(digits)[if digits[0] == '+' {
            i - 1
        } else {
            i
        }]));
    }
    if digits.len() > 0 && digits[0] != '+' && !('0' <= digits[0] && digits[0] <= '9') {
        assert(!text::is_digit(text::without_plus(digits)[0]));
    }
}

/// A text begins with a prefix exactly where it is that prefix and something after it.
pub proof fn law_prefixes(prefix: Seq<char>, rest: Seq<char>, whole: Seq<char>)
    ensures
        text::begins_with(prefix + rest, prefix),
        (prefix + rest).skip(prefix.len() as int) == rest,
        text::begins_with(whole, prefix) ==> whole == prefix + whole.skip(prefix.len() as int),
        whole.len() < prefix.len() ==> !text::begins_with(whole, prefix),
{
    assert((prefix + rest).take(prefix.len() as int) =~= prefix);
    assert((prefix + rest).skip(prefix.len() as int) =~= rest);
    if text::begins_with(whole, prefix) {
        assert(whole =~= whole.take(prefix.len() as int) + whole.skip(prefix.len() as int));
    }
}

/// The classes of characters by their codes.
pub proof fn law_character_classes(c: char)
    ensures
        text::is_lowercase(c) <==> 97 <= c as u32 <= 122,
        text::is_uppercase(c) <==> 65 <= c as u32 <= 90,
        text::is_digit(c) <==> 48 <= c as u32 <= 57,
        text::is_control(c) <==> c as u32 <= 31 || 127 <= c as u32 <= 159,
        text::ascii_lower(c) as u32 == if 65 <= c as u32 <= 90 {
            c as u32 + 32
        } else {
            c as int
        },
        text::ascii_upper(c) as u32 == if 97 <= c as u32 <= 122 {
            c as u32 - 32
        } else {
            c as int
        },
{
}

/// Text of lower-case letters has nothing else in it, and ASCII text nothing above 127.
pub proof fn law_whole_texts(text: Seq<char>, index: int)
    requires
        0 <= index < text.len(),
    ensures
        text::all_lowercase(text) ==> 97 <= text[index] as u32 <= 122,
        text::is_ascii(text) ==> text[index] as u32 <= 127,
        text::all_digits(text) ==> 48 <= text[index] as u32 <= 57,
        !(97 <= text[index] as u32 <= 122) ==> !text::all_lowercase(text),
        (forall|i: int| 0 <= i < text.len() ==> 'a' <= #[trigger] text[i] && text[i] <= 'z')
            ==> text::all_lowercase(text),
        (forall|i: int| 0 <= i < text.len() ==> '0' <= #[trigger] text[i] && text[i] <= '9')
            ==> text::all_digits(text),
        !(text[index] as u32 <= 127) ==> !text::is_ascii(text),
        (forall|i: int| 0 <= i < text.len() ==> #[trigger] text[i] <= '\u{7f}') ==> text::is_ascii(
            text,
        ),
{
    let c: char = text[index];
    law_character_classes(c);
    if text::is_ascii(text) {
        assert(c <= '\u{7f}');
    }
    if text::all_lowercase(text) {
        assert(text::is_lowercase(text[index]));
    }
    if text::all_digits(text) {
        assert(text::is_digit(text[index]));
    }
}

} // verus!
