//! Post bodies are stored as base64 of their UTF-8 text.
use vstd::prelude::*;
use vstd::utf8::{decode_utf8, encode_utf8, encode_utf8_decode_utf8, encode_utf8_valid_utf8, valid_utf8};

verus! {

/// The bytes that a base64 text (standard alphabet) stands for, if it is base64.
pub uninterp spec fn base64_decoded(text: Seq<char>) -> Option<Seq<u8>>;

/// What the base64 encoder (standard alphabet, padded) writes for some bytes.
pub uninterp spec fn base64_encoded(bytes: Seq<u8>) -> Seq<char>;

/// Relies on `base64::decode`: it succeeds exactly on base64 text, with the
/// bytes that the text stands for.
#[verifier::external_body]
fn base64_decode(text: &str) -> (r: Option<Vec<u8>>)
    ensures
        match r {
            Some(b) => base64_decoded(text@) == Some(b@),
            None => base64_decoded(text@) is None,
        },
{
    base64::decode(text).ok()
}

/// Relies on `base64::encode`, which `base64::decode` inverts.
#[verifier::external_body]
fn base64_encode(bytes: &[u8]) -> (r: String)
    requires
        bytes@.len() <= isize::MAX,
    ensures
        r@ == base64_encoded(bytes@),
        base64_decoded(r@) == Some(bytes@),
{
    base64::encode(bytes)
}

/// Relies on `String::from_utf8`: it accepts exactly well-formed UTF-8 and
/// gives the characters that the bytes encode.
#[verifier::external_body]
fn utf8_text(bytes: Vec<u8>) -> (r: Option<String>)
    ensures
        r is Some <==> valid_utf8(bytes@),
        r matches Some(s) ==> s@ == decode_utf8(bytes@),
{
    String::from_utf8(bytes).ok()
}

/// Why a stored body could not be read.
#[derive(Clone, Copy, Debug, PartialEq, Eq)]
pub enum DecodeError {
    /// The stored text is not base64.
    InvalidBase64,
    /// The bytes it stands for are not UTF-8.
    InvalidUtf8,
}

/// The text of a stored body, if it is base64 of UTF-8.
pub open spec fn decoded_body(encoded: Seq<char>) -> Option<Seq<char>> {
    match base64_decoded(encoded) {
        Some(bytes) => if valid_utf8(bytes) {
            Some(decode_utf8(bytes))
        } else {
            None
        },
        None => None,
    }
}

/// The stored form of a body text.
pub open spec fn encoded_body(text: Seq<char>) -> Seq<char> {
    base64_encoded(encode_utf8(text))
}

/// Reads a stored body: base64, then UTF-8.
pub fn decode_body(encoded: &str) -> (r: Result<String, DecodeError>)
    ensures
        match r {
            Ok(text) => decoded_body(encoded@) == Some(text@),
            Err(DecodeError::InvalidBase64) => base64_decoded(encoded@) is None,
            Err(DecodeError::InvalidUtf8) => base64_decoded(encoded@) matches Some(b) && !valid_utf8(b),
        },
        r is Ok <==> decoded_body(encoded@) is Some,
{
    match base64_decode(encoded) {
        None => Err(DecodeError::InvalidBase64),
        Some(bytes) => match utf8_text(bytes) {
            Some(text) => Ok(text),
            None => Err(DecodeError::InvalidUtf8),
        },
    }
}

/// Writes a body text in its stored form; reading it back gives the text.
pub fn encode_body(text: &str) -> (r: String)
    requires
        encode_utf8(text@).len() <= isize::MAX,
    ensures
        r@ == encoded_body(text@),
        decoded_body(r@) == Some(text@),
{
    let bytes = text.as_bytes();
    proof {
        encode_utf8_valid_utf8(text@);
        encode_utf8_decode_utf8(text@);
    }
    base64_encode(bytes)
}

} // verus!
