//! Operations on the contents of a single buffer.

use crate::error::VmError;
use vstd::prelude::*;

verus! {

/// `count` zero bytes.
pub open spec fn zeros(count: int) -> Seq<u8> {
    Seq::new(count as nat, |i: int| 0u8)
}

/// The bytes of `bytes` from index `start` up to, not including, index
/// `end`. The bounds are in range when `start <= end <= bytes.len()`.
pub open spec fn slice_of(bytes: Seq<u8>, start: u64, end: u64) -> Result<Seq<u8>, VmError> {
    if start <= end && end <= bytes.len() {
        Ok(bytes.subrange(start as int, end as int))
    } else {
        Err(VmError::IndexOutOfRange)
    }
}

/// `bytes` without its last `amount` bytes, followed by `amount` zero bytes.
/// The amount is in range when it does not exceed the length.
pub open spec fn shift_left_of(bytes: Seq<u8>, amount: u64) -> Result<Seq<u8>, VmError> {
    if amount <= bytes.len() {
        Ok(bytes.take(bytes.len() - amount) + zeros(amount as int))
    } else {
        Err(VmError::IndexOutOfRange)
    }
}

/// `amount` zero bytes, followed by `bytes` without its first `amount`
/// bytes. The amount is in range when it does not exceed the length.
pub open spec fn shift_right_of(bytes: Seq<u8>, amount: u64) -> Result<Seq<u8>, VmError> {
    if amount <= bytes.len() {
        Ok(zeros(amount as int) + bytes.skip(amount as int))
    } else {
        Err(VmError::IndexOutOfRange)
    }
}

/// Copies the bytes of `bytes` between two bounds.
pub fn slice_bytes(bytes: &Vec<u8>, start: u64, end: u64) -> (r: Result<Vec<u8>, VmError>)
    ensures
        match slice_of(bytes@, start, end) {
            Ok(part) => r matches Ok(out) && out@ == part,
            Err(e) => r matches Err(f) && f == e,
        },
{
    if start > end || end > bytes.len() as u64 {
        return Err(VmError::IndexOutOfRange);
    }
    let first: usize = start as usize;
    let last: usize = end as usize;
    let mut out: Vec<u8> = Vec::new();
    let mut i: usize = first;
    while i < last
        invariant
            first <= i <= last <= bytes.len(),
            out@ == bytes@.subrange(first as int, i as int),
        decreases last - i,
    {
        out.push(bytes[i]);
        i = i + 1;
        assert(out@ =~= bytes@.subrange(first as int, i as int));
    }
    Ok(out)
}

/// Drops the last `amount` bytes of `bytes` and appends as many zero bytes.
pub fn shift_left_bytes(bytes: &Vec<u8>, amount: u64) -> (r: Result<Vec<u8>, VmError>)
    ensures
        match shift_left_of(bytes@, amount) {
            Ok(shifted) => r matches Ok(out) && out@ == shifted,
            Err(e) => r matches Err(f) && f == e,
        },
{
    let len: usize = bytes.len();
    if amount > len as u64 {
        return Err(VmError::IndexOutOfRange);
    }
    let kept: usize = len - amount as usize;
    let mut out: Vec<u8> = Vec::new();
    let mut i: usize = 0;
    while i < len
        invariant
            i <= len,
            len == bytes.len(),
            kept <= len,
            out.len() == i,
            forall|j: int|
                0 <= j < i ==> out@[j] == (if j < kept {
                    bytes@[j]
                } else {
                    0u8
                }),
        decreases len - i,
    {
        if i < kept {
            out.push(bytes[i]);
        } else {
            out.push(0u8);
        }
        i = i + 1;
    }
    assert(out@ =~= bytes@.take(kept as int) + zeros(amount as int));
    Ok(out)
}

/// Drops the first `amount` bytes of `bytes` and prepends as many zero
/// bytes.
pub fn shift_right_bytes(bytes: &Vec<u8>, amount: u64) -> (r: Result<Vec<u8>, VmError>)
    ensures
        match shift_right_of(bytes@, amount) {
            Ok(shifted) => r matches Ok(out) && out@ == shifted,
            Err(e) => r matches Err(f) && f == e,
        },
{
    let len: usize = bytes.len();
    if amount > len as u64 {
        return Err(VmError::IndexOutOfRange);
    }
    let dropped: usize = amount as usize;
    let mut out: Vec<u8> = Vec::new();
    let mut i: usize = 0;
    while i < len
        invariant
            i <= len,
            len == bytes.len(),
            dropped <= len,
            out.len() == i,
            forall|j: int|
                0 <= j < i ==> out@[j] == (if j < dropped {
                    0u8
                } else {
                    bytes@[j]
                }),
        decreases len - i,
    {
        if i < dropped {
            out.push(0u8);
        } else {
            out.push(bytes[i]);
        }
        i = i + 1;
    }
    assert(out@ =~= zeros(amount as int) + bytes@.skip(amount as int));
    Ok(out)
}

/// `first` followed by `second`.
pub fn concat_bytes(first: &Vec<u8>, second: &Vec<u8>) -> (out: Vec<u8>)
    ensures
        out@ == first@ + second@,
{
    let mut out: Vec<u8> = Vec::new();
    let mut i: usize = 0;
    while i < first.len()
        invariant
            i <= first.len(),
            out@ == first@.take(i as int),
        decreases first.len() - i,
    {
        out.push(first[i]);
        i = i + 1;
        assert(out@ =~= first@.take(i as int));
    }
    assert(first@.take(first.len() as int) =~= first@);
    let mut j: usize = 0;
    while j < second.len()
        invariant
            j <= second.len(),
            out@ == first@ + second@.take(j as int),
        decreases second.len() - j,
    {
        out.push(second[j]);
        j = j + 1;
        assert(out@ =~= first@ + second@.take(j as int));
    }
    assert(second@.take(second.len() as int) =~= second@);
    out
}

} // verus!
