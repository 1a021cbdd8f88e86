//! What holds of numbers written as bytes and as digits.

use crate::bytes;
use vstd::prelude::*;

verus! {

/// The first byte counts most: each byte more is worth a 256th of the one before.
pub proof fn law_bytes_count_by_place(first: Seq<u8>, last: u8, n: nat, count: nat)
    ensures
        bytes::big_endian(Seq::<u8>::empty()) == 0,
        bytes::big_endian(first.push(last)) == bytes::big_endian(first) * 256 + last,
        bytes::low_bytes(n, 0) == Seq::<u8>::empty(),
        bytes::low_bytes(n * 256 + last as nat, count + 1) == bytes::low_bytes(n, count).push(last),
{
    assert(first.push(last).drop_last() =~= first);
    assert((n * 256 + last as nat) / 256 == n);
    assert((n * 256 + last as nat) % 256 == last);
}

/// The sixteen hexadecimal digits, the letters in lower case.
pub proof fn law_hex_digits()
    ensures
        forall|n: int|
            0 <= n < 16 ==> #[trigger] bytes::hex_digit(n) == "0123456789abcdef"@[n],
        "0123456789abcdef"@.len() == 16,
{
    reveal_strlit("0123456789abcdef");
    assert forall|n: int| 0 <= n < 16 implies #[trigger] bytes::hex_digit(n)
        == "0123456789abcdef"@[n] by {
        assert(n == 0 || n == 1 || n == 2 || n == 3 || n == 4 || n == 5 || n == 6 || n == 7 || n
            == 8 || n == 9 || n == 10 || n == 11 || n == 12 || n == 13 || n == 14 || n == 15);
    }
}

/// A number has as many hexadecimal digits as were asked for, the last place at the end.
pub proof fn law_hex_places(n: nat, digit: nat, count: nat)
    requires
        digit < 16,
    ensures
        bytes::hex(n, 0) == Seq::<char>::empty(),
        bytes::hex(n * 16 + digit, count + 1) == bytes::hex(n, count).push(
            "0123456789abcdef"@[digit as int],
        ),
        bytes::hex(n, count).len() == count,
    decreases count,
{
    law_hex_digits();
    assert((n * 16 + digit) / 16 == n);
    assert((n * 16 + digit) % 16 == digit);
    assert(bytes::hex_digit(digit as int) == "0123456789abcdef"@[digit as int]);
    if count > 0 {
        law_hex_places(n / 16, digit, (count - 1) as nat);
    }
}

} // verus!
