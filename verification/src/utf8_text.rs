//! Turning bytes into text.

use vstd::prelude::*;
use vstd::utf8::*;

verus! {

/// Decodes bytes as UTF-8, as `String::from_utf8` does.
///
/// Trusted: calls `String::from_utf8`, which the standard library documents
/// to succeed exactly when the bytes are valid UTF-8, giving the text they
/// encode. The text of the error message is left unsaid.
#[verifier::external_body]
pub(crate) fn string_from_utf8(bytes: Vec<u8>) -> (r: Result<String, String>)
    ensures
        r is Ok <==> valid_utf8(bytes@),
        r matches Ok(s) ==> s@ == decode_utf8(bytes@),
{
    match String::from_utf8(bytes) {
        Ok(s) => Ok(s),
        Err(e) => Err(e.to_string()),
    }
}

/// What `String::from_utf8_lossy` makes of a byte sequence: its UTF-8
/// decoding, with each invalid sequence replaced by U+FFFD.
pub uninterp spec fn utf8_lossy(bytes: Seq<u8>) -> Seq<char>;

/// Decodes bytes as UTF-8, replacing invalid sequences.
///
/// Trusted: calls `String::from_utf8_lossy`. The result is the name
/// [`utf8_lossy`] applied to the bytes; the standard library documents that
/// valid UTF-8 is decoded unchanged, which is the one fact stated of it.
#[verifier::external_body]
pub(crate) fn string_from_utf8_lossy(bytes: &[u8]) -> (r: String)
    ensures
        r@ == utf8_lossy(bytes@),
        valid_utf8(bytes@) ==> r@ == decode_utf8(bytes@),
{
    String::from_utf8_lossy(bytes).into_owned()
}

/// The ASCII text of a character sequence encodes and decodes back to itself.
pub proof fn lemma_ascii_round_trip(chars: Seq<char>)
    requires
        is_ascii_chars(chars),
    ensures
        valid_utf8(encode_utf8(chars)),
        decode_utf8(encode_utf8(chars)) == chars,
        encode_utf8(chars).len() == chars.len(),
        forall|i: int| 0 <= i < chars.len() ==> encode_utf8(chars)[i] == chars[i] as u8,
{
    encode_utf8_valid_utf8(chars);
    encode_utf8_decode_utf8(chars);
    is_ascii_chars_encode_utf8(chars);
}

} // verus!
