//! The numeric codec: a number in a buffer is exactly eight bytes, most
//! significant byte first.

use crate::error::VmError;
use vstd::prelude::*;

verus! {

/// The number of bytes in a numeric buffer.
pub const WORD_BYTES: usize = 8;

/// The natural number that `bytes` denotes when read most significant byte
/// first.
pub open spec fn be_value(bytes: Seq<u8>) -> nat
    decreases bytes.len(),
{
    if bytes.len() == 0 {
        0
    } else {
        be_value(bytes.drop_last()) * 256 + bytes.last() as nat
    }
}

/// The `width` low-order base-256 digits of `value`, most significant first.
pub open spec fn be_digits(value: nat, width: nat) -> Seq<u8>
    decreases width,
{
    if width == 0 {
        Seq::empty()
    } else {
        be_digits(value / 256, (width - 1) as nat).push((value % 256) as u8)
    }
}

/// `256` raised to the power `width`: one more than the largest number that
/// `width` bytes can hold.
pub open spec fn capacity(width: nat) -> nat
    decreases width,
{
    if width == 0 {
        1
    } else {
        256 * capacity((width - 1) as nat)
    }
}

/// The eight-byte encoding of `value`.
pub open spec fn be_bytes(value: u64) -> Seq<u8> {
    be_digits(value as nat, 8)
}

/// What decoding `bytes` yields: the number they denote when there are
/// exactly eight of them, and `InvalidNumericLength` otherwise.
pub open spec fn decode(bytes: Seq<u8>) -> Result<u64, VmError> {
    if bytes.len() == 8 {
        Ok(be_value(bytes) as u64)
    } else {
        Err(VmError::InvalidNumericLength)
    }
}

/// A byte sequence denotes a number below the capacity of its length.
pub proof fn lemma_be_value_bound(bytes: Seq<u8>)
    ensures
        be_value(bytes) < capacity(bytes.len()),
    decreases bytes.len(),
{
    if bytes.len() > 0 {
        lemma_be_value_bound(bytes.drop_last());
    }
}

/// Eight bytes hold exactly the range of a `u64`.
pub proof fn lemma_capacity_of_word()
    ensures
        capacity(8) == 0x1_0000_0000_0000_0000,
        capacity(7) == 0x100_0000_0000_0000,
{
    reveal_with_fuel(capacity, 9);
}

/// `be_digits` yields as many digits as asked for.
pub proof fn lemma_be_digits_len(value: nat, width: nat)
    ensures
        be_digits(value, width).len() == width,
    decreases width,
{
    if width > 0 {
        lemma_be_digits_len(value / 256, (width - 1) as nat);
    }
}

/// Reading back the digits of a number that fits in `width` bytes gives the
/// number.
pub proof fn lemma_value_of_digits(value: nat, width: nat)
    requires
        value < capacity(width),
    ensures
        be_value(be_digits(value, width)) == value,
    decreases width,
{
    if width > 0 {
        let high = be_digits(value / 256, (width - 1) as nat);
        lemma_value_of_digits(value / 256, (width - 1) as nat);
        assert(high.push((value % 256) as u8).drop_last() =~= high);
    }
}

/// Writing out the number that a byte sequence denotes, at the same width,
/// gives the sequence back.
pub proof fn lemma_digits_of_value(bytes: Seq<u8>)
    ensures
        be_digits(be_value(bytes), bytes.len()) == bytes,
    decreases bytes.len(),
{
    if bytes.len() > 0 {
        lemma_digits_of_value(bytes.drop_last());
        assert(bytes.drop_last().push(bytes.last()) =~= bytes);
    } else {
        assert(bytes =~= Seq::<u8>::empty());
    }
}

/// Reads a buffer as a number.
pub fn decode_u64(bytes: &Vec<u8>) -> (r: Result<u64, VmError>)
    ensures
        r == decode(bytes@),
{
    if bytes.len() != WORD_BYTES {
        return Err(VmError::InvalidNumericLength);
    }
    let mut acc: u64 = 0;
    let mut i: usize = 0;
    while i < 8
        invariant
            bytes.len() == 8,
            i <= 8,
            acc == be_value(bytes@.take(i as int)),
        decreases 8 - i,
    {
        proof {
            lemma_be_value_bound(bytes@.take(i as int));
            lemma_capacity_of_word();
            reveal_with_fuel(capacity, 9);
            assert(bytes@.take(i + 1).drop_last() =~= bytes@.take(i as int));
        }
        acc = acc * 256 + bytes[i] as u64;
        i = i + 1;
    }
    proof {
        assert(bytes@.take(8) =~= bytes@);
    }
    Ok(acc)
}

/// Writes a number as the contents of a buffer.
pub fn encode_u64(value: u64) -> (bytes: Vec<u8>)
    ensures
        bytes@ == be_bytes(value),
{
    let v7: u64 = value;
    let v6: u64 = v7 / 256;
    let v5: u64 = v6 / 256;
    let v4: u64 = v5 / 256;
    let v3: u64 = v4 / 256;
    let v2: u64 = v3 / 256;
    let v1: u64 = v2 / 256;
    let v0: u64 = v1 / 256;
    let mut bytes: Vec<u8> = Vec::new();
    bytes.push((v0 % 256) as u8);
    bytes.push((v1 % 256) as u8);
    bytes.push((v2 % 256) as u8);
    bytes.push((v3 % 256) as u8);
    bytes.push((v4 % 256) as u8);
    bytes.push((v5 % 256) as u8);
    bytes.push((v6 % 256) as u8);
    bytes.push((v7 % 256) as u8);
    proof {
        reveal_with_fuel(be_digits, 9);
        assert(bytes@ =~= be_digits(value as nat, 8));
    }
    bytes
}

} // verus!
