//! Texts and characters.

pub mod laws;

use vstd::prelude::*;
use vstd::string::*;

verus! {

/// `String::push` of std: appends the character at the end.
pub assume_specification[ String::push ](s: &mut String, c: char)
    ensures
        final(s)@ == old(s)@.push(c),
;

/// `==` of std on `str`: two texts are equal exactly where they hold the same
/// characters.
#[verifier::external_body]
pub(crate) fn same_text(a: &str, b: &str) -> (same: bool)
    ensures
        same == (a@ == b@),
{
    a == b
}

/// What `str::to_lowercase` of std makes of a text.
pub uninterp spec fn lowercased(text: Seq<char>) -> Seq<char>;

/// What `str::to_uppercase` of std makes of a text.
pub uninterp spec fn uppercased(text: Seq<char>) -> Seq<char>;

/// Whether a text is made of ASCII characters alone.
pub open spec fn is_ascii(text: Seq<char>) -> bool {
    forall|i: int| 0 <= i < text.len() ==> #[trigger] text[i] <= '\u{7f}'
}

/// The lower case counterpart of an ASCII letter, and any other character as it is.
pub open spec fn ascii_lower(c: char) -> char {
    if is_uppercase(c) {
        (c as u32 + 0x20) as char
    } else {
        c
    }
}

/// The upper case counterpart of an ASCII letter, and any other character as it is.
pub open spec fn ascii_upper(c: char) -> char {
    if is_lowercase(c) {
        (c as u32 - 0x20) as char
    } else {
        c
    }
}

/// `str::to_lowercase` of std: the lower case equivalent of the text, by the tables of
/// Unicode. Of these only the part on ASCII is stated: a text of ASCII characters keeps
/// its length, and each letter becomes its lower case counterpart.
#[verifier::external_body]
pub(crate) fn to_lowercase(s: &str) -> (lower: String)
    ensures
        lower@ == lowercased(s@),
        is_ascii(s@) ==> lower@ == s@.map_values(|c: char| ascii_lower(c)),
{
    s.to_lowercase()
}

/// `str::to_uppercase` of std: the upper case equivalent of the text, by the tables of
/// Unicode. Of these only the part on ASCII is stated: a text of ASCII characters keeps
/// its length, and each letter becomes its upper case counterpart.
#[verifier::external_body]
pub(crate) fn to_uppercase(s: &str) -> (upper: String)
    ensures
        upper@ == uppercased(s@),
        is_ascii(s@) ==> upper@ == s@.map_values(|c: char| ascii_upper(c)),
{
    s.to_uppercase()
}

/// Lower case letters of ASCII.
pub open spec fn is_lowercase(c: char) -> bool {
    'a' <= c && c <= 'z'
}

/// Upper case letters of ASCII.
pub open spec fn is_uppercase(c: char) -> bool {
    'A' <= c && c <= 'Z'
}

/// Control characters, the Unicode category Cc.
pub open spec fn is_control(c: char) -> bool {
    c <= '\u{1f}' || ('\u{7f}' <= c && c <= '\u{9f}')
}

pub fn lowercase(c: char) -> (yes: bool)
    ensures
        yes == is_lowercase(c),
{
    'a' <= c && c <= 'z'
}

pub fn control(c: char) -> (yes: bool)
    ensures
        yes == is_control(c),
{
    c <= '\u{1f}' || ('\u{7f}' <= c && c <= '\u{9f}')
}

/// Whether a text holds lower case letters only.
pub open spec fn all_lowercase(text: Seq<char>) -> bool {
    forall|i: int| 0 <= i < text.len() ==> is_lowercase(#[trigger] text[i])
}

pub fn only_lowercase(text: &str) -> (yes: bool)
    ensures
        yes == all_lowercase(text@),
{
    let length: usize = text.unicode_len();
    let mut index: usize = 0;
    while index < length
        invariant
            length == text@.len(),
            index <= length,
            forall|i: int| 0 <= i < index ==> is_lowercase(#[trigger] text@[i]),
        decreases length - index,
    {
        let c = text.get_char(index);
        if !lowercase(c) {
            assert(!is_lowercase(text@[index as int]));
            return false;
        }
        index += 1;
    }
    true
}

/// A text of one character.
pub fn char_text(c: char) -> (text: String)
    ensures
        text@ == seq![c],
{
    let mut text = String::new();
    text.push(c);
    text
}

/// Two texts after one another.
pub fn joined(a: &str, b: &str) -> (text: String)
    ensures
        text@ == a@ + b@,
{
    let mut text = a.to_owned();
    text.append(b);
    text
}

/// Whether a text begins with another one.
pub open spec fn begins_with(text: Seq<char>, prefix: Seq<char>) -> bool {
    prefix.len() <= text.len() && text.take(prefix.len() as int) == prefix
}

/// What follows a prefix of a text, where the text begins with it.
pub fn after_prefix<'a>(text: &'a str, prefix: &str) -> (rest: Option<&'a str>)
    ensures
        match rest {
            Some(rest) => begins_with(text@, prefix@) && rest@ == text@.skip(
                prefix@.len() as int,
            ),
            None => !begins_with(text@, prefix@),
        },
{
    let length: usize = text.unicode_len();
    let prefix_length: usize = prefix.unicode_len();
    if prefix_length > length {
        return None;
    }
    if !same_text(text.substring_char(0, prefix_length), prefix) {
        assert(text@.take(prefix_length as int) =~= text@.subrange(0, prefix_length as int));
        return None;
    }
    assert(text@.take(prefix_length as int) =~= text@.subrange(0, prefix_length as int));
    assert(text@.skip(prefix_length as int) =~= text@.subrange(
        prefix_length as int,
        length as int,
    ));
    Some(text.substring_char(prefix_length, length))
}

/// The decimal digit of a number below ten.
pub open spec fn digit(n: nat) -> char {
    (0x30 + n % 10) as char
}

/// A number in decimal digits, without leading zeros.
pub open spec fn decimal(n: nat) -> Seq<char>
    decreases n,
{
    if n < 10 {
        seq![digit(n)]
    } else {
        decimal(n / 10).push(digit(n % 10))
    }
}

pub open spec fn is_digit(c: char) -> bool {
    '0' <= c && c <= '9'
}

/// The number that a text of digits stands for.
pub open spec fn number(text: Seq<char>) -> nat
    decreases text.len(),
{
    if text.len() == 0 {
        0
    } else {
        number(text.drop_last()) * 10 + (text.last() as u32 - 0x30) as nat
    }
}

pub open spec fn all_digits(text: Seq<char>) -> bool {
    forall|i: int| 0 <= i < text.len() ==> is_digit(#[trigger] text[i])
}

/// A text without the plus sign in front of it, where it has one.
pub open spec fn without_plus(text: Seq<char>) -> Seq<char> {
    if text.len() > 0 && text[0] == '+' {
        text.skip(1)
    } else {
        text
    }
}

/// What parsing an unsigned number gives: digits, with a plus sign in front or without
/// one, that stand for a number which fits.
pub open spec fn parsed(text: Seq<char>, limit: nat) -> Option<nat> {
    let digits = without_plus(text);
    if digits.len() > 0 && all_digits(digits) && number(digits) <= limit {
        Some(number(digits))
    } else {
        None
    }
}

fn digit_char(n: usize) -> (c: char)
    requires
        n < 10,
    ensures
        c == digit(n as nat),
{
    match n {
        0 => '0',
        1 => '1',
        2 => '2',
        3 => '3',
        4 => '4',
        5 => '5',
        6 => '6',
        7 => '7',
        8 => '8',
        _ => '9',
    }
}

/// A number in decimal.
pub fn decimal_text(n: usize) -> (text: String)
    ensures
        text@ == decimal(n as nat),
    decreases n,
{
    if n < 10 {
        char_text(digit_char(n))
    } else {
        let mut text = decimal_text(n / 10);
        text.push(digit_char(n % 10));
        text
    }
}

/// Parses an unsigned number.
pub fn parse_number(text: &str) -> (n: Option<usize>)
    ensures
        match n {
            Some(n) => parsed(text@, usize::MAX as nat) == Some(n as nat),
            None => parsed(text@, usize::MAX as nat) is None,
        },
{
    let length: usize = text.unicode_len();
    let start: usize = if length > 0 && text.get_char(0) == '+' {
        1
    } else {
        0
    };
    let ghost digits = without_plus(text@);
    if start == length {
        return None;
    }
    let mut index: usize = start;
    let mut value: usize = 0;
    while index < length
        invariant
            length == text@.len(),
            start <= index <= length,
            start <= 1,
            digits == without_plus(text@),
            start == 1 <==> text@.len() > 0 && text@[0] == '+',
            forall|i: int| 0 <= i < index - start ==> is_digit(#[trigger] digits[i]),
            value == number(digits.take(index - start)),
        decreases length - index,
    {
        let c = text.get_char(index);
        let ghost at: int = index - start;
        assert(digits[at] == c);
        if !('0' <= c && c <= '9') {
            assert(!is_digit(digits[at]));
            return None;
        }
        let d: usize = (c as u32 - 0x30) as usize;
        proof {
            assert(digits.take(at + 1).drop_last() =~= digits.take(at));
            lemma_number_prefix(digits, at + 1);
        }
        if value > (usize::MAX - d) / 10 {
            proof {
                assert(number(digits.take(at + 1)) == value * 10 + d);
                assert(value * 10 + d > usize::MAX);
            }
            return None;
        }
        value = value * 10 + d;
        index += 1;
    }
    assert(digits.take(index - start) =~= digits);
    Some(value)
}

proof fn lemma_number_prefix(digits: Seq<char>, count: int)
    requires
        0 <= count <= digits.len(),
    ensures
        number(digits.take(count)) <= number(digits),
    decreases digits.len() - count,
{
    if count < digits.len() {
        assert(digits.take(count + 1).drop_last() =~= digits.take(count));
        lemma_number_prefix(digits, count + 1);
    } else {
        assert(digits.take(count) =~= digits);
    }
}

/// What a number looks like in decimal parses back to it.
pub proof fn law_decimal_parses_back(n: nat, limit: nat)
    requires
        n <= limit,
    ensures
        parsed(decimal(n), limit) == Some(n),
{
    lemma_decimal_digits(n);
    assert(decimal(n)[0] != '+');
}

proof fn lemma_decimal_digits(n: nat)
    ensures
        decimal(n).len() > 0,
        forall|i: int| 0 <= i < decimal(n).len() ==> is_digit(#[trigger] decimal(n)[i]),
        number(decimal(n)) == n,
    decreases n,
{
    if n < 10 {
        assert(decimal(n) =~= seq![digit(n)]);
        assert(seq![digit(n)].drop_last() =~= Seq::<char>::empty());
        reveal_with_fuel(number, 2);
        lemma_digit(n);
    } else {
        lemma_decimal_digits(n / 10);
        assert(decimal(n).drop_last() =~= decimal(n / 10));
        lemma_digit(n % 10);
    }
}

proof fn lemma_digit(n: nat)
    requires
        n < 10,
    ensures
        is_digit(digit(n)),
        digit(n) as u32 == 0x30 + n,
{
}

/// Two numbers that look the same in decimal are the same.
pub proof fn law_decimal_is_injective(a: nat, b: nat)
    requires
        decimal(a) == decimal(b),
    ensures
        a == b,
{
    lemma_decimal_digits(a);
    lemma_decimal_digits(b);
}

} // verus!
