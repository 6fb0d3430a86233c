//! The effect of each buffer instruction on the store.
//!
//! Every operation checks all it needs before it changes anything: it either
//! has its whole effect or reports an error and leaves the store as it was.

use crate::bytes::concat_bytes;
use crate::bytes::shift_left_bytes;
use crate::bytes::shift_left_of;
use crate::bytes::shift_right_bytes;
use crate::bytes::shift_right_of;
use crate::bytes::slice_bytes;
use crate::bytes::slice_of;
use crate::codec::decode;
use crate::error::VmError;
use crate::hexlit::decode_hex;
use crate::hexlit::hex_decoded;
use crate::math::number_at;
use crate::math::read_number;
use crate::store::BufferStore;
use crate::store::Store;
use crate::text::decode_text;
use crate::text::text_of;
use vstd::prelude::*;
use vstd::utf8::encode_utf8;

verus! {

/// The store after the empty buffer `id` has been created.
pub open spec fn initialized(store: Store, id: Seq<char>) -> Result<Store, VmError> {
    if store.contains_key(id) {
        Err(VmError::AlreadyInitialized)
    } else {
        Ok(store.insert(id, Seq::<u8>::empty()))
    }
}

/// The store after buffer `id` has been removed.
pub open spec fn freed(store: Store, id: Seq<char>) -> Result<Store, VmError> {
    if store.contains_key(id) {
        Ok(store.remove(id))
    } else {
        Err(VmError::NotInitialized)
    }
}

/// The store after `dst` has received the contents of `src`.
pub open spec fn copied(store: Store, src: Seq<char>, dst: Seq<char>) -> Result<Store, VmError> {
    if store.contains_key(src) && store.contains_key(dst) {
        Ok(store.insert(dst, store[src]))
    } else {
        Err(VmError::NotInitialized)
    }
}

/// The store after `dst` has received one byte that says whether `id` names
/// a buffer. Only `dst` has to exist.
pub open spec fn status_written(store: Store, id: Seq<char>, dst: Seq<char>) -> Result<
    Store,
    VmError,
> {
    if store.contains_key(dst) {
        Ok(
            store.insert(
                dst,
                seq![
                    if store.contains_key(id) {
                        1u8
                    } else {
                        0u8
                    },
                ],
            ),
        )
    } else {
        Err(VmError::NotInitialized)
    }
}

/// The store after the contents of `src` have been appended to `dst`.
pub open spec fn appended(store: Store, dst: Seq<char>, src: Seq<char>) -> Result<Store, VmError> {
    if store.contains_key(dst) && store.contains_key(src) {
        Ok(store.insert(dst, store[dst] + store[src]))
    } else {
        Err(VmError::NotInitialized)
    }
}

/// The store after `buf` has been cut down to the bytes between the bounds
/// that `start` and `end` hold.
pub open spec fn sliced(store: Store, buf: Seq<char>, start: Seq<char>, end: Seq<char>) -> Result<
    Store,
    VmError,
> {
    if !store.contains_key(buf) || !store.contains_key(start) || !store.contains_key(end) {
        Err(VmError::NotInitialized)
    } else {
        match decode(store[start]) {
            Err(e) => Err(e),
            Ok(from) => match decode(store[end]) {
                Err(e) => Err(e),
                Ok(to) => match slice_of(store[buf], from, to) {
                    Err(e) => Err(e),
                    Ok(part) => Ok(store.insert(buf, part)),
                },
            },
        }
    }
}

/// The store after `buf` has been shifted left by the amount that `amount`
/// holds.
pub open spec fn shifted_left(store: Store, buf: Seq<char>, amount: Seq<char>) -> Result<
    Store,
    VmError,
> {
    if !store.contains_key(buf) || !store.contains_key(amount) {
        Err(VmError::NotInitialized)
    } else {
        match decode(store[amount]) {
            Err(e) => Err(e),
            Ok(count) => match shift_left_of(store[buf], count) {
                Err(e) => Err(e),
                Ok(shifted) => Ok(store.insert(buf, shifted)),
            },
        }
    }
}

/// The store after `buf` has been shifted right by the amount that `amount`
/// holds.
pub open spec fn shifted_right(store: Store, buf: Seq<char>, amount: Seq<char>) -> Result<
    Store,
    VmError,
> {
    if !store.contains_key(buf) || !store.contains_key(amount) {
        Err(VmError::NotInitialized)
    } else {
        match decode(store[amount]) {
            Err(e) => Err(e),
            Ok(count) => match shift_right_of(store[buf], count) {
                Err(e) => Err(e),
                Ok(shifted) => Ok(store.insert(buf, shifted)),
            },
        }
    }
}

/// The store after `buf` has received the bytes of the literal `hex`. A
/// missing buffer is reported before a malformed literal.
pub open spec fn constant_set(store: Store, buf: Seq<char>, hex: Seq<char>) -> Result<
    Store,
    VmError,
> {
    if !store.contains_key(buf) {
        Err(VmError::NotInitialized)
    } else {
        match hex_decoded(hex) {
            Err(e) => Err(e),
            Ok(bytes) => Ok(store.insert(buf, bytes)),
        }
    }
}

/// The contents of `buf`, to be handed to the host.
pub open spec fn output_of(store: Store, buf: Seq<char>) -> Result<Seq<u8>, VmError> {
    if store.contains_key(buf) {
        Ok(store[buf])
    } else {
        Err(VmError::NotInitialized)
    }
}

/// The three texts of a transaction. Missing buffers are reported before
/// contents that are not UTF-8.
pub open spec fn transaction_of(
    store: Store,
    sender: Seq<char>,
    receiver: Seq<char>,
    amount: Seq<char>,
) -> Result<(Seq<char>, Seq<char>, Seq<char>), VmError> {
    if !store.contains_key(sender) || !store.contains_key(receiver) || !store.contains_key(amount) {
        Err(VmError::NotInitialized)
    } else {
        match text_of(store[sender]) {
            Err(e) => Err(e),
            Ok(from) => match text_of(store[receiver]) {
                Err(e) => Err(e),
                Ok(to) => match text_of(store[amount]) {
                    Err(e) => Err(e),
                    Ok(sum) => Ok((from, to, sum)),
                },
            },
        }
    }
}

/// A 64-bit pattern read as a signed number in two's complement.
pub open spec fn as_signed(value: u64) -> i64 {
    if value < 0x8000_0000_0000_0000 {
        value as i64
    } else {
        (value - 0x1_0000_0000_0000_0000) as i64
    }
}

/// The block index of a chain query. All three buffers have to exist, the
/// index and the property selector have to be numbers, and the selector has
/// to be `0`, which stands for the block's hash; any other selector is a
/// `GatewayFailure`.
pub open spec fn block_index_of(
    store: Store,
    index: Seq<char>,
    property: Seq<char>,
    result: Seq<char>,
) -> Result<i64, VmError> {
    if !store.contains_key(index) || !store.contains_key(property) || !store.contains_key(result) {
        Err(VmError::NotInitialized)
    } else {
        match decode(store[index]) {
            Err(e) => Err(e),
            Ok(block) => match decode(store[property]) {
                Err(e) => Err(e),
                Ok(selector) => if selector == 0 {
                    Ok(as_signed(block))
                } else {
                    Err(VmError::GatewayFailure)
                },
            },
        }
    }
}

/// The store after the host's answer to a chain query has arrived: the
/// text's UTF-8 bytes go to `result`. No answer is a `GatewayFailure`.
pub open spec fn reply_stored(store: Store, result: Seq<char>, reply: Option<Seq<char>>) -> Result<
    Store,
    VmError,
> {
    match reply {
        None => Err(VmError::GatewayFailure),
        Some(text) => if store.contains_key(result) {
            Ok(store.insert(result, encode_utf8(text)))
        } else {
            Err(VmError::NotInitialized)
        },
    }
}

/// Replaces the contents of `dst` by a copy of those of `src`.
pub fn copy_buffer(buffers: &mut BufferStore, src: &str, dst: &str) -> (r: Result<(), VmError>)
    ensures
        match copied(old(buffers)@, src@, dst@) {
            Ok(next) => r == Ok::<(), VmError>(()) && final(buffers)@ == next,
            Err(e) => r == Err::<(), VmError>(e) && final(buffers)@ == old(buffers)@,
        },
{
    match buffers.read(src) {
        Ok(bytes) => buffers.write(dst, bytes),
        Err(e) => Err(e),
    }
}

/// Writes to `dst` the byte `1` when `present` holds, else `0`.
pub fn write_status(buffers: &mut BufferStore, present: bool, dst: &str) -> (r: Result<
    (),
    VmError,
>)
    ensures
        old(buffers)@.contains_key(dst@) ==> r == Ok::<(), VmError>(()) && final(buffers)@ == old(
            buffers,
        )@.insert(
            dst@,
            seq![
                if present {
                    1u8
                } else {
                    0u8
                },
            ],
        ),
        !old(buffers)@.contains_key(dst@) ==> r == Err::<(), VmError>(VmError::NotInitialized)
            && final(buffers)@ == old(buffers)@,
{
    let mut status: Vec<u8> = Vec::new();
    status.push(
        if present {
            1u8
        } else {
            0u8
        },
    );
    assert(status@ =~= seq![
        if present {
            1u8
        } else {
            0u8
        },
    ]);
    buffers.write(dst, status)
}

/// Appends the contents of `src` to `dst`.
pub fn append_buffer(buffers: &mut BufferStore, dst: &str, src: &str) -> (r: Result<(), VmError>)
    ensures
        match appended(old(buffers)@, dst@, src@) {
            Ok(next) => r == Ok::<(), VmError>(()) && final(buffers)@ == next,
            Err(e) => r == Err::<(), VmError>(e) && final(buffers)@ == old(buffers)@,
        },
{
    let head = match buffers.read(dst) {
        Ok(bytes) => bytes,
        Err(e) => {
            return Err(e);
        },
    };
    let tail = match buffers.read(src) {
        Ok(bytes) => bytes,
        Err(e) => {
            return Err(e);
        },
    };
    buffers.write(dst, concat_bytes(&head, &tail))
}

/// Cuts `buf` down to the bytes between the bounds that `start` and `end`
/// hold.
pub fn slice_buffer(buffers: &mut BufferStore, buf: &str, start: &str, end: &str) -> (r: Result<
    (),
    VmError,
>)
    ensures
        match sliced(old(buffers)@, buf@, start@, end@) {
            Ok(next) => r == Ok::<(), VmError>(()) && final(buffers)@ == next,
            Err(e) => r == Err::<(), VmError>(e) && final(buffers)@ == old(buffers)@,
        },
{
    if !buffers.contains(buf) || !buffers.contains(start) || !buffers.contains(end) {
        return Err(VmError::NotInitialized);
    }
    let from = match read_number(buffers, start) {
        Ok(value) => value,
        Err(e) => {
            return Err(e);
        },
    };
    let to = match read_number(buffers, end) {
        Ok(value) => value,
        Err(e) => {
            return Err(e);
        },
    };
    let bytes = match buffers.read(buf) {
        Ok(bytes) => bytes,
        Err(e) => {
            return Err(e);
        },
    };
    match slice_bytes(&bytes, from, to) {
        Ok(part) => buffers.write(buf, part),
        Err(e) => Err(e),
    }
}

/// Shifts `buf` left by the amount that `amount` holds.
pub fn shift_buffer_left(buffers: &mut BufferStore, buf: &str, amount: &str) -> (r: Result<
    (),
    VmError,
>)
    ensures
        match shifted_left(old(buffers)@, buf@, amount@) {
            Ok(next) => r == Ok::<(), VmError>(()) && final(buffers)@ == next,
            Err(e) => r == Err::<(), VmError>(e) && final(buffers)@ == old(buffers)@,
        },
{
    if !buffers.contains(buf) || !buffers.contains(amount) {
        return Err(VmError::NotInitialized);
    }
    let count = match read_number(buffers, amount) {
        Ok(value) => value,
        Err(e) => {
            return Err(e);
        },
    };
    let bytes = match buffers.read(buf) {
        Ok(bytes) => bytes,
        Err(e) => {
            return Err(e);
        },
    };
    match shift_left_bytes(&bytes, count) {
        Ok(shifted) => buffers.write(buf, shifted),
        Err(e) => Err(e),
    }
}

/// Shifts `buf` right by the amount that `amount` holds.
pub fn shift_buffer_right(buffers: &mut BufferStore, buf: &str, amount: &str) -> (r: Result<
    (),
    VmError,
>)
    ensures
        match shifted_right(old(buffers)@, buf@, amount@) {
            Ok(next) => r == Ok::<(), VmError>(()) && final(buffers)@ == next,
            Err(e) => r == Err::<(), VmError>(e) && final(buffers)@ == old(buffers)@,
        },
{
    if !buffers.contains(buf) || !buffers.contains(amount) {
        return Err(VmError::NotInitialized);
    }
    let count = match read_number(buffers, amount) {
        Ok(value) => value,
        Err(e) => {
            return Err(e);
        },
    };
    let bytes = match buffers.read(buf) {
        Ok(bytes) => bytes,
        Err(e) => {
            return Err(e);
        },
    };
    match shift_right_bytes(&bytes, count) {
        Ok(shifted) => buffers.write(buf, shifted),
        Err(e) => Err(e),
    }
}

/// Replaces the contents of `buf` by the bytes of the literal `hex`.
pub fn set_constant(buffers: &mut BufferStore, buf: &str, hex: &str) -> (r: Result<(), VmError>)
    ensures
        match constant_set(old(buffers)@, buf@, hex@) {
            Ok(next) => r == Ok::<(), VmError>(()) && final(buffers)@ == next,
            Err(e) => r == Err::<(), VmError>(e) && final(buffers)@ == old(buffers)@,
        },
{
    if !buffers.contains(buf) {
        return Err(VmError::NotInitialized);
    }
    match decode_hex(hex) {
        Ok(bytes) => buffers.write(buf, bytes),
        Err(e) => Err(e),
    }
}

/// Reads the three buffers of a transaction as text.
pub fn read_transaction(buffers: &BufferStore, sender: &str, receiver: &str, amount: &str) -> (r:
    Result<(String, String, String), VmError>)
    ensures
        match transaction_of(buffers@, sender@, receiver@, amount@) {
            Ok(texts) => r matches Ok(out) && out.0@ == texts.0 && out.1@ == texts.1 && out.2@
                == texts.2,
            Err(e) => r matches Err(f) && f == e,
        },
{
    let from = match buffers.read(sender) {
        Ok(bytes) => bytes,
        Err(e) => {
            return Err(e);
        },
    };
    let to = match buffers.read(receiver) {
        Ok(bytes) => bytes,
        Err(e) => {
            return Err(e);
        },
    };
    let sum = match buffers.read(amount) {
        Ok(bytes) => bytes,
        Err(e) => {
            return Err(e);
        },
    };
    let from_text = match decode_text(from) {
        Ok(text) => text,
        Err(e) => {
            return Err(e);
        },
    };
    let to_text = match decode_text(to) {
        Ok(text) => text,
        Err(e) => {
            return Err(e);
        },
    };
    match decode_text(sum) {
        Ok(sum_text) => Ok((from_text, to_text, sum_text)),
        Err(e) => Err(e),
    }
}

/// Reads a 64-bit pattern as a signed number in two's complement.
pub fn reinterpret_signed(value: u64) -> (signed: i64)
    ensures
        signed == as_signed(value),
{
    if value < 0x8000_0000_0000_0000 {
        value as i64
    } else {
        (value - 0x8000_0000_0000_0000) as i64 + i64::MIN
    }
}

/// Reads the block index of a chain query and checks the property selector.
pub fn read_block_query(buffers: &BufferStore, index: &str, property: &str, result: &str) -> (r:
    Result<i64, VmError>)
    ensures
        r == block_index_of(buffers@, index@, property@, result@),
{
    if !buffers.contains(index) || !buffers.contains(property) || !buffers.contains(result) {
        return Err(VmError::NotInitialized);
    }
    let block = match read_number(buffers, index) {
        Ok(value) => value,
        Err(e) => {
            return Err(e);
        },
    };
    let selector = match read_number(buffers, property) {
        Ok(value) => value,
        Err(e) => {
            return Err(e);
        },
    };
    if selector == 0 {
        Ok(reinterpret_signed(block))
    } else {
        Err(VmError::GatewayFailure)
    }
}

/// Stores the host's answer to a chain query in `result`.
pub fn store_reply(buffers: &mut BufferStore, result: &str, reply: Option<String>) -> (r: Result<
    (),
    VmError,
>)
    ensures
        match reply_stored(
            old(buffers)@,
            result@,
            match reply {
                Some(text) => Some(text@),
                None => None,
            },
        ) {
            Ok(next) => r == Ok::<(), VmError>(()) && final(buffers)@ == next,
            Err(e) => r == Err::<(), VmError>(e) && final(buffers)@ == old(buffers)@,
        },
{
    match reply {
        None => Err(VmError::GatewayFailure),
        Some(text) => buffers.write(result, text.as_str().as_bytes_vec()),
    }
}

} // verus!
