//! Hexadecimal literals.

use crate::error::VmError;
use vstd::prelude::*;

verus! {

/// The value of a hexadecimal digit, upper or lower case, or `None` for any
/// other character.
pub open spec fn hex_digit(c: char) -> Option<int> {
    if '0' <= c && c <= '9' {
        Some(c as int - '0' as int)
    } else if 'a' <= c && c <= 'f' {
        Some(c as int - 'a' as int + 10)
    } else if 'A' <= c && c <= 'F' {
        Some(c as int - 'A' as int + 10)
    } else {
        None
    }
}

/// A hexadecimal literal is an even number of hexadecimal digits.
pub open spec fn is_hex_literal(text: Seq<char>) -> bool {
    &&& text.len() % 2 == 0
    &&& forall|i: int| 0 <= i < text.len() ==> (#[trigger] hex_digit(text[i])) is Some
}

/// The bytes that a hexadecimal literal denotes: one byte for each pair of
/// digits, the first digit of a pair being the high half.
pub open spec fn hex_bytes(text: Seq<char>) -> Seq<u8> {
    Seq::new(
        text.len() / 2,
        |i: int| (16 * hex_digit(text[2 * i])->0 + hex_digit(text[2 * i + 1])->0) as u8,
    )
}

/// What decoding `text` yields: its bytes when it is a hexadecimal literal,
/// and `InvalidEncoding` otherwise.
pub open spec fn hex_decoded(text: Seq<char>) -> Result<Seq<u8>, VmError> {
    if is_hex_literal(text) {
        Ok(hex_bytes(text))
    } else {
        Err(VmError::InvalidEncoding)
    }
}

/// The error of `hex::decode`, declared so that it can be passed on. Nothing
/// is known of its contents.
#[verifier::external_type_specification]
#[verifier::external_body]
pub struct ExFromHexError(hex::FromHexError);

/// Calls `hex::decode` on `text`.
///
/// Trusted: the call succeeds exactly on an even number of characters drawn
/// from `0-9`, `a-f` and `A-F`, and then yields, for each pair of digits,
/// the byte whose high half is the first digit and whose low half is the
/// second.
#[verifier::external_body]
fn hex_decode(text: &str) -> (r: Result<Vec<u8>, hex::FromHexError>)
    ensures
        r is Ok <==> is_hex_literal(text@),
        r matches Ok(bytes) ==> bytes@ == hex_bytes(text@),
{
    hex::decode(text)
}

/// Decodes a hexadecimal literal into the bytes it denotes.
pub fn decode_hex(text: &str) -> (r: Result<Vec<u8>, VmError>)
    ensures
        match hex_decoded(text@) {
            Ok(bytes) => r matches Ok(out) && out@ == bytes,
            Err(e) => r matches Err(f) && f == e,
        },
{
    match hex_decode(text) {
        Ok(bytes) => Ok(bytes),
        Err(_) => Err(VmError::InvalidEncoding),
    }
}

} // verus!
