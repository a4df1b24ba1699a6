//! Byte strings read as little-endian natural numbers.
use vstd::prelude::*;

verus! {

/// The natural number that a byte string denotes in little-endian order.
pub open spec fn le_value(bytes: Seq<u8>) -> nat
    decreases bytes.len(),
{
    if bytes.len() == 0 {
        0
    } else {
        bytes[0] as nat + 256 * le_value(bytes.drop_first())
    }
}

/// The `len` low-order bytes of `value`, least significant first.
pub open spec fn le_bytes(value: nat, len: nat) -> Seq<u8>
    decreases len,
{
    if len == 0 {
        Seq::empty()
    } else {
        seq![(value % 256) as u8] + le_bytes(value / 256, (len - 1) as nat)
    }
}

/// 256 to the power `n`: the number of byte strings of length `n`.
pub open spec fn radix_pow(n: nat) -> nat
    decreases n,
{
    if n == 0 {
        1
    } else {
        256 * radix_pow((n - 1) as nat)
    }
}

/// A string of `n` zero bytes.
pub open spec fn zeros(n: nat) -> Seq<u8> {
    Seq::new(n, |i: int| 0u8)
}

/// A string of zero bytes denotes zero.
pub proof fn lemma_le_value_zeros(n: nat)
    ensures
        le_value(zeros(n)) == 0,
    decreases n,
{
    if n > 0 {
        assert(zeros(n).drop_first() =~= zeros((n - 1) as nat));
        lemma_le_value_zeros((n - 1) as nat);
    }
}

/// `le_bytes` yields exactly `len` bytes.
pub proof fn lemma_le_bytes_len(value: nat, len: nat)
    ensures
        le_bytes(value, len).len() == len,
    decreases len,
{
    if len > 0 {
        lemma_le_bytes_len(value / 256, (len - 1) as nat);
    }
}

/// Reading back the bytes written for a number that fits gives the number.
pub proof fn lemma_le_value_of_le_bytes(value: nat, len: nat)
    requires
        value < radix_pow(len),
    ensures
        le_value(le_bytes(value, len)) == value,
    decreases len,
{
    if len > 0 {
        let rest = le_bytes(value / 256, (len - 1) as nat);
        let all = le_bytes(value, len);
        assert(all.drop_first() =~= rest);
        assert(all[0] == (value % 256) as u8);
        lemma_le_value_of_le_bytes(value / 256, (len - 1) as nat);
    }
}

/// Writing the number that a byte string denotes, at the string's own
/// length, gives the string back.
pub proof fn lemma_le_bytes_of_le_value(bytes: Seq<u8>)
    ensures
        le_bytes(le_value(bytes), bytes.len()) == bytes,
    decreases bytes.len(),
{
    if bytes.len() > 0 {
        let rest = bytes.drop_first();
        let value = le_value(bytes);
        lemma_le_bytes_of_le_value(rest);
        assert(value % 256 == bytes[0] as nat);
        assert(value / 256 == le_value(rest));
        assert(le_bytes(value, bytes.len()) =~= bytes);
    } else {
        assert(le_bytes(le_value(bytes), bytes.len()) =~= bytes);
    }
}

/// There are `2^256` strings of 32 bytes.
pub proof fn lemma_radix_pow_32()
    ensures
        radix_pow(32) == 0x10000000000000000000000000000000000000000000000000000000000000000nat,
{
    reveal_with_fuel(radix_pow, 33);
}

} // verus!
