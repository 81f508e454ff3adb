//! Storage encoding: key and signature text is kept as base64, so that what
//! is written to disk is plain ASCII whatever the text holds.

use base64::engine::general_purpose::STANDARD;
use base64::Engine;
use vstd::prelude::*;
use vstd::utf8::*;

use crate::error::Error;

verus! {

/// The standard, padded base64 encoding of `bytes`.
pub uninterp spec fn base64_text(bytes: Seq<u8>) -> Seq<char>;

/// The bytes that `text` stands for as standard, padded base64, if it is
/// well formed.
pub uninterp spec fn base64_bytes(text: Seq<char>) -> Option<Seq<u8>>;

/// Whether `len` bytes can be encoded: the encoded text, four characters
/// for every three bytes, must fit in one allocation.
pub open spec fn can_encode(len: nat) -> bool {
    len <= isize::MAX / 4 * 3
}

/// Whether `text` can be put in stored form on this machine.
pub open spec fn can_store(text: Seq<char>) -> bool {
    can_encode(encode_utf8(text).len())
}

/// The stored form of `text`: the base64 of its UTF-8 bytes.
pub open spec fn stored_text(text: Seq<char>) -> Seq<char> {
    base64_text(encode_utf8(text))
}

/// What stored text decodes to: the text whose UTF-8 bytes are encoded as
/// base64, if there is one.
pub open spec fn decoded_text(stored: Seq<char>) -> Option<Seq<char>> {
    match base64_bytes(stored) {
        Some(bytes) => if valid_utf8(bytes) {
            Some(decode_utf8(bytes))
        } else {
            None
        },
        None => None,
    }
}

/// Calls `Engine::encode` of the base64 crate on its `STANDARD` engine.
///
/// Trusted: the result is the standard base64 of the input, and it decodes
/// back to the input. The engine panics where the encoded length does not
/// fit in memory, so such input is excluded.
#[verifier::external_body]
fn standard_encode(bytes: &[u8]) -> (text: String)
    requires
        can_encode(bytes@.len()),
    ensures
        text@ == base64_text(bytes@),
        base64_bytes(text@) == Some(bytes@),
{
    STANDARD.encode(bytes)
}

/// Calls `Engine::decode` of the base64 crate on its `STANDARD` engine.
///
/// Trusted: the call succeeds exactly on well-formed input and then returns
/// the bytes that the input stands for. The kind of fault is dropped.
#[verifier::external_body]
fn standard_decode(text: &str) -> (bytes: Option<Vec<u8>>)
    ensures
        bytes is Some <==> base64_bytes(text@) is Some,
        bytes is Some ==> bytes->0@ == base64_bytes(text@)->0,
{
    STANDARD.decode(text).ok()
}

/// Calls `String::from_utf8` of std.
///
/// Trusted: the call succeeds exactly on valid UTF-8 and then returns the
/// characters that the bytes encode.
#[verifier::external_body]
fn text_from_utf8(bytes: Vec<u8>) -> (text: Option<String>)
    ensures
        text is Some <==> valid_utf8(bytes@),
        text is Some ==> text->0@ == decode_utf8(bytes@),
{
    String::from_utf8(bytes).ok()
}

/// Encodes bytes as base64.
pub fn encode_base64(bytes: &[u8]) -> (text: String)
    requires
        can_encode(bytes@.len()),
    ensures
        text@ == base64_text(bytes@),
        base64_bytes(text@) == Some(bytes@),
{
    standard_encode(bytes)
}

/// Encodes text for storage: the base64 of its UTF-8 bytes. Decoding the
/// result gives the text back. Fails with `PayloadTooLarge` where the text
/// is too long to be encoded.
pub fn encode_text(text: &str) -> (stored: Result<String, Error>)
    ensures
        stored is Ok <==> can_store(text@),
        stored is Err ==> stored->Err_0 == Error::PayloadTooLarge,
        stored is Ok ==> stored->Ok_0@ == stored_text(text@),
        stored is Ok ==> decoded_text(stored->Ok_0@) == Some(text@),
{
    let bytes = text.as_bytes();
    if bytes.len() > (isize::MAX as usize) / 4 * 3 {
        return Err(Error::PayloadTooLarge);
    }
    let stored = standard_encode(bytes);
    proof {
        encode_utf8_valid_utf8(text@);
        encode_utf8_decode_utf8(text@);
    }
    Ok(stored)
}

/// Decodes stored text: base64, then UTF-8. Fails with `InvalidEncoding`
/// where the input is not well-formed base64 or the bytes are not UTF-8.
pub fn decode_base64(stored: &str) -> (text: Result<String, Error>)
    ensures
        text is Ok <==> decoded_text(stored@) is Some,
        text is Ok ==> text->Ok_0@ == decoded_text(stored@)->0,
        text is Err ==> text->Err_0 == Error::InvalidEncoding,
{
    match standard_decode(stored) {
        Some(bytes) => match text_from_utf8(bytes) {
            Some(text) => Ok(text),
            None => Err(Error::InvalidEncoding),
        },
        None => Err(Error::InvalidEncoding),
    }
}

} // verus!
