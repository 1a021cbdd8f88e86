//! Numbers as bytes, the most significant first, and texts as bytes.

pub mod laws;

use vstd::arithmetic::power::*;
use vstd::prelude::*;
use vstd::string::*;
use vstd::utf8::*;

verus! {

/// The number that bytes stand for, the most significant first.
pub open spec fn big_endian(bytes: Seq<u8>) -> nat
    decreases bytes.len(),
{
    if bytes.len() == 0 {
        0
    } else {
        big_endian(bytes.drop_last()) * 256 + bytes.last() as nat
    }
}

/// The low `count` bytes of a number, the most significant first.
pub open spec fn low_bytes(n: nat, count: nat) -> Seq<u8>
    decreases count,
{
    if count == 0 {
        seq![]
    } else {
        low_bytes(n / 256, (count - 1) as nat).push((n % 256) as u8)
    }
}

/// The low bytes of a number.
pub fn be_bytes(n: u64, count: usize) -> (bytes: Vec<u8>)
    ensures
        bytes@ == low_bytes(n as nat, count as nat),
    decreases count,
{
    if count == 0 {
        Vec::new()
    } else {
        let mut bytes: Vec<u8> = be_bytes(n / 256, count - 1);
        bytes.push((n % 256) as u8);
        bytes
    }
}

/// The number that bytes stand for, where there are few enough of them.
pub fn be_number(bytes: &[u8]) -> (n: u64)
    requires
        bytes@.len() <= 8,
    ensures
        n == big_endian(bytes@),
{
    let mut n: u64 = 0;
    let mut index: usize = 0;
    while index < bytes.len()
        invariant
            bytes@.len() <= 8,
            index <= bytes@.len(),
            n == big_endian(bytes@.take(index as int)),
            index == 0 ==> n < 1,
            index == 1 ==> n < 0x100,
            index == 2 ==> n < 0x1_0000,
            index == 3 ==> n < 0x100_0000,
            index == 4 ==> n < 0x1_0000_0000,
            index == 5 ==> n < 0x100_0000_0000,
            index == 6 ==> n < 0x1_0000_0000_0000,
            index == 7 ==> n < 0x100_0000_0000_0000,
        decreases bytes@.len() - index,
    {
        assert(bytes@.take(index + 1).drop_last() =~= bytes@.take(index as int));
        n = n * 256 + bytes[index] as u64;
        index += 1;
    }
    assert(bytes@.take(index as int) =~= bytes@);
    n
}

/// A number is read back from as many bytes as it fits into.
pub proof fn law_bytes_read_back(n: nat, count: nat)
    requires
        n < pow(256, count),
    ensures
        low_bytes(n, count).len() == count,
        big_endian(low_bytes(n, count)) == n,
    decreases count,
{
    if count == 0 {
        lemma_pow0(256);
    } else {
        lemma_pow1(256);
        lemma_pow_adds(256, 1, (count - 1) as nat);
        assert(n / 256 < pow(256, (count - 1) as nat));
        law_bytes_read_back(n / 256, (count - 1) as nat);
        assert(low_bytes(n, count).drop_last() =~= low_bytes(n / 256, (count - 1) as nat));
    }
}

/// Four bytes hold every number below 2 to the power of 32, eight every one below 2 to the
/// power of 64.
pub proof fn lemma_byte_powers()
    ensures
        pow(256, 4) == 0x1_0000_0000,
        pow(256, 8) == 0x1_0000_0000_0000_0000,
{
    reveal_with_fuel(pow, 9);
}

/// `String::from_utf8` of std: the text that bytes encode, where they are valid UTF-8.
#[verifier::external_body]
pub(crate) fn text_from_utf8(bytes: Vec<u8>) -> (text: Option<String>)
    ensures
        match text {
            Some(text) => valid_utf8(bytes@) && text@ == decode_utf8(bytes@),
            None => !valid_utf8(bytes@),
        },
{
    String::from_utf8(bytes).ok()
}

/// The hexadecimal digit of a number below sixteen.
pub open spec fn hex_digit(n: int) -> char {
    if n < 10 {
        (0x30 + n) as char
    } else {
        (0x57 + n) as char
    }
}

/// A number in `count` hexadecimal digits in lower case, the high ones first.
pub open spec fn hex(n: nat, count: nat) -> Seq<char>
    decreases count,
{
    if count == 0 {
        seq![]
    } else {
        hex(n / 16, (count - 1) as nat).push(hex_digit((n % 16) as int))
    }
}

fn hex_char(n: u64) -> (c: char)
    requires
        n < 16,
    ensures
        c == hex_digit(n as int),
{
    match n {
        0 => '0',
        1 => '1',
        2 => '2',
        3 => '3',
        4 => '4',
        5 => '5',
        6 => '6',
        7 => '7',
        8 => '8',
        9 => '9',
        10 => 'a',
        11 => 'b',
        12 => 'c',
        13 => 'd',
        14 => 'e',
        _ => 'f',
    }
}

/// A number in hexadecimal digits.
pub fn hex_text(n: u64, count: usize) -> (text: String)
    ensures
        text@ == hex(n as nat, count as nat),
    decreases count,
{
    if count == 0 {
        String::new()
    } else {
        let mut text = hex_text(n / 16, count - 1);
        text.push(hex_char(n % 16));
        text
    }
}

} // verus!
