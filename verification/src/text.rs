//! Lenient decoding of foreign-sourced byte buffers into text.
//!
//! Mnemonics, operand strings and error messages come back from the foreign
//! engine as raw bytes with no guarantee of valid UTF-8.  Text meant for
//! instruction records is decoded strictly and replaced as a whole by a fixed
//! placeholder when invalid; error descriptions are decoded lossily, with
//! invalid sequences substituted character by character.  A decoding problem
//! never fails the surrounding operation.

use vstd::prelude::*;
use vstd::string::StringExecFns;

verus! {

/// What `String::from_utf8_lossy` returns for the given bytes: a function of
/// the bytes alone, left unspecified here.
pub uninterp spec fn lossy_text(b: Seq<u8>) -> Seq<char>;

/// Relies on `String::from_utf8_lossy`: the output depends on the input
/// bytes alone, and is empty only for empty input — valid input decodes to
/// its characters and every invalid sequence becomes a replacement
/// character, so no byte disappears without trace.
#[verifier::external_body]
pub(crate) fn decode_lossy(b: &Vec<u8>) -> (r: String)
    ensures
        r@ == lossy_text(b@),
        (r@.len() == 0) == (b@.len() == 0),
{
    String::from_utf8_lossy(b.as_slice()).into_owned()
}

/// Relies on `str::from_utf8`: it succeeds exactly on valid UTF-8 input and
/// then yields the decoded character sequence.
#[verifier::external_body]
fn decode_strict(b: &Vec<u8>) -> (r: Option<String>)
    ensures
        (r is Some) == vstd::utf8::valid_utf8(b@),
        r matches Some(s) ==> s@ == vstd::utf8::decode_utf8(b@),
{
    match std::str::from_utf8(b.as_slice()) {
        Ok(s) => Some(s.to_string()),
        Err(_) => None,
    }
}

/// The text standing in for a byte buffer that is not valid UTF-8.
pub open spec fn placeholder_text() -> Seq<char> {
    "<invalid utf8>"@
}

/// What a foreign byte buffer reads as when decoded strictly with the
/// placeholder fallback.
pub open spec fn text_of(b: Seq<u8>) -> Seq<char> {
    if vstd::utf8::valid_utf8(b) {
        vstd::utf8::decode_utf8(b)
    } else {
        placeholder_text()
    }
}

/// Decode a foreign byte buffer as text, substituting the fixed placeholder
/// when the bytes are not valid UTF-8.
pub fn decode_text(b: &Vec<u8>) -> (s: String)
    ensures
        s@ == text_of(b@),
{
    match decode_strict(b) {
        Some(s) => s,
        None => String::from_str("<invalid utf8>"),
    }
}

} // verus!
