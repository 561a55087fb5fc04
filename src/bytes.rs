//! Byte strings: their big-endian value, and their hex and decimal renderings.

use vstd::prelude::*;

verus! {

/// The unsigned integer that `s` spells in big-endian order.
pub open spec fn be_value(s: Seq<u8>) -> nat
    decreases s.len(),
{
    if s.len() == 0 {
        0
    } else {
        be_value(s.drop_last()) * 256 + s.last() as nat
    }
}

/// The character of the digit `d` in base 16, lower case.
pub open spec fn hex_digit(d: nat) -> char {
    seq!['0', '1', '2', '3', '4', '5', '6', '7', '8', '9', 'a', 'b', 'c', 'd', 'e', 'f'][d as int]
}

/// Two lower-case hex digits for each byte of `s`, high half first, no prefix.
pub open spec fn hex_of(s: Seq<u8>) -> Seq<char>
    decreases s.len(),
{
    if s.len() == 0 {
        seq![]
    } else {
        hex_of(s.drop_last()) + seq![hex_digit(s.last() as nat / 16), hex_digit(s.last() as nat % 16)]
    }
}

/// The base-10 digits of `n`, most significant first, without leading zeros
/// (zero is the single digit `0`).
pub open spec fn decimal_of(n: nat) -> Seq<char>
    decreases n,
{
    if n < 10 {
        seq![hex_digit(n)]
    } else {
        decimal_of(n / 10) + seq![hex_digit(n % 10)]
    }
}

/// Relies on `substreams::Hex::to_string`: each byte becomes two lower-case hex
/// digits, in order, with no prefix.
#[verifier::external_body]
pub(crate) fn hex_string(b: &[u8]) -> (r: String)
    ensures
        r@ == hex_of(b@),
{
    substreams::Hex(b).to_string()
}

/// Relies on `substreams::scalar::BigInt::from_unsigned_bytes_be`, which reads the
/// bytes as a non-negative big-endian integer, and on its `Display`, which writes
/// that integer in base 10.
#[verifier::external_body]
pub(crate) fn decimal_string(b: &[u8]) -> (r: String)
    ensures
        r@ == decimal_of(be_value(b@)),
{
    substreams::scalar::BigInt::from_unsigned_bytes_be(b).to_string()
}

/// Whether the two byte strings are equal.
pub fn bytes_equal(a: &[u8], b: &[u8]) -> (r: bool)
    ensures
        r == (a@ == b@),
{
    if a.len() != b.len() {
        return false;
    }
    let mut i: usize = 0;
    while i < a.len()
        invariant
            a@.len() == b@.len(),
            0 <= i <= a@.len(),
            forall|j: int| 0 <= j < i ==> a@[j] == b@[j],
        decreases a@.len() - i,
    {
        if a[i] != b[i] {
            return false;
        }
        i = i + 1;
    }
    assert(a@ =~= b@);
    true
}

} // verus!
