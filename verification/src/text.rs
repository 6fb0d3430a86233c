//! Buffers read as UTF-8 text.

use crate::error::VmError;
use vstd::prelude::*;
use vstd::utf8::decode_utf8;
use vstd::utf8::encode_utf8;
use vstd::utf8::encode_utf8_decode_utf8;
use vstd::utf8::valid_utf8;

verus! {

/// What reading `bytes` as text yields: the characters they encode when they
/// are well-formed UTF-8, and `InvalidEncoding` otherwise.
pub open spec fn text_of(bytes: Seq<u8>) -> Result<Seq<char>, VmError> {
    if valid_utf8(bytes) {
        Ok(decode_utf8(bytes))
    } else {
        Err(VmError::InvalidEncoding)
    }
}

/// The record of a transaction as one line of text: sender, receiver and
/// amount, separated by single spaces.
pub open spec fn transaction_line_of(sender: Seq<char>, receiver: Seq<char>, amount: Seq<char>)
    -> Seq<char> {
    sender + seq![' '] + receiver + seq![' '] + amount
}

/// The error of `String::from_utf8`, declared so that it can be passed on.
/// Nothing is known of its contents.
#[verifier::external_type_specification]
#[verifier::external_body]
pub struct ExFromUtf8Error(std::string::FromUtf8Error);

/// Calls `String::from_utf8` on `bytes`.
///
/// Trusted: the call succeeds exactly when `bytes` is well-formed UTF-8, and
/// the string it yields is then made of these very bytes.
#[verifier::external_body]
fn string_from_utf8(bytes: Vec<u8>) -> (r: Result<String, std::string::FromUtf8Error>)
    ensures
        r is Ok <==> valid_utf8(bytes@),
        r matches Ok(text) ==> encode_utf8(text@) == bytes@,
{
    String::from_utf8(bytes)
}

/// Reads `bytes` as UTF-8 text.
pub fn decode_text(bytes: Vec<u8>) -> (r: Result<String, VmError>)
    ensures
        match text_of(bytes@) {
            Ok(chars) => r matches Ok(text) && text@ == chars,
            Err(e) => r matches Err(f) && f == e,
        },
{
    match string_from_utf8(bytes) {
        Ok(text) => {
            proof {
                encode_utf8_decode_utf8(text@);
            }
            Ok(text)
        },
        Err(_) => Err(VmError::InvalidEncoding),
    }
}

/// Writes the record of a transaction as one line of text.
pub fn transaction_line(sender: &str, receiver: &str, amount: &str) -> (line: String)
    ensures
        line@ == transaction_line_of(sender@, receiver@, amount@),
{
    let mut line = sender.to_owned();
    line.append(" ");
    line.append(receiver);
    line.append(" ");
    line.append(amount);
    proof {
        reveal_strlit(" ");
        assert(" "@ =~= seq![' ']);
    }
    line
}

} // verus!
