//! JSON encoding and decoding of plain values, through `serde_json`.

use vstd::prelude::*;
use vstd::utf8::*;

use crate::decimal::signed_decimal;
use crate::text::{joined, lemma_joined_push};

verus! {

/// The hexadecimal digit (lower case) of a value below 16.
pub open spec fn hex_digit(d: int) -> u8 {
    if d < 10 {
        (0x30 + d) as u8
    } else {
        (0x57 + d) as u8
    }
}

/// How `serde_json` writes one byte of a string's UTF-8 encoding inside a
/// JSON string literal: `"` and `\` behind a backslash, the control bytes
/// with a short escape (`\b \t \n \f \r`) or as `\u00` and two hex digits,
/// every other byte as itself.
pub open spec fn json_escaped_byte(b: u8) -> Seq<u8> {
    if b == 0x22 {
        seq![0x5cu8, 0x22u8]
    } else if b == 0x5c {
        seq![0x5cu8, 0x5cu8]
    } else if b == 0x08 {
        seq![0x5cu8, 0x62u8]
    } else if b == 0x09 {
        seq![0x5cu8, 0x74u8]
    } else if b == 0x0a {
        seq![0x5cu8, 0x6eu8]
    } else if b == 0x0c {
        seq![0x5cu8, 0x66u8]
    } else if b == 0x0d {
        seq![0x5cu8, 0x72u8]
    } else if b < 0x20 {
        seq![0x5cu8, 0x75u8, 0x30u8, 0x30u8, hex_digit(b as int / 16), hex_digit(b as int % 16)]
    } else {
        seq![b]
    }
}

/// The JSON string literal that `serde_json` writes for a text.
pub open spec fn json_string(text: Seq<char>) -> Seq<u8> {
    seq![0x22u8] + encode_utf8(text).map_values(|b: u8| json_escaped_byte(b)).flatten() + seq![0x22u8]
}

/// A JSON array of already written elements, as `serde_json` writes it:
/// brackets around the elements, separated by commas, without spaces.
pub open spec fn json_array(elements: Seq<Seq<u8>>) -> Seq<u8> {
    seq![0x5bu8] + joined(elements, seq![0x2cu8]) + seq![0x5du8]
}

/// The JSON text that `serde_json` writes for a list of strings: an array
/// of JSON string literals.
pub open spec fn json_string_array(items: Seq<Seq<char>>) -> Seq<u8> {
    json_array(items.map_values(|t: Seq<char>| json_string(t)))
}

/// The JSON text that `serde_json` writes for an optional string: its string
/// literal, or `null`.
pub open spec fn json_optional_string(item: Option<Seq<char>>) -> Seq<u8> {
    match item {
        Some(t) => json_string(t),
        None => seq![0x6eu8, 0x75u8, 0x6cu8, 0x6cu8],
    }
}

/// The JSON text that `serde_json` writes for a list of pairs of a string
/// and an optional string: an array of two-element arrays (tuples are
/// written as arrays), `null` standing for an absent second element.
pub open spec fn json_pair_array(items: Seq<(Seq<char>, Option<Seq<char>>)>) -> Seq<u8> {
    json_array(
        items.map_values(
            |p: (Seq<char>, Option<Seq<char>>)| json_array(seq![json_string(p.0), json_optional_string(p.1)]),
        ),
    )
}

/// The `i64` that `serde_json` reads from a JSON text, if it reads one.
pub uninterp spec fn json_i64(text: Seq<u8>) -> Option<i64>;

/// The texts of a list of strings.
pub open spec fn string_texts(items: Seq<String>) -> Seq<Seq<char>> {
    items.map_values(|s: String| s@)
}

/// The texts of a list of pairs of a string and an optional string.
pub open spec fn pair_texts(items: Seq<(String, Option<String>)>) -> Seq<(Seq<char>, Option<Seq<char>>)> {
    items.map_values(
        |p: (String, Option<String>)|
            (
                p.0@,
                match p.1 {
                    Some(v) => Some(v@),
                    None => None,
                },
            ),
    )
}

/// Encodes a list of strings as a JSON array.
///
/// Trusted: calls `serde_json::to_vec` on a `Vec<String>`. `serde_json`
/// documents that serialization fails only when a `Serialize` impl fails or
/// a map has non-string keys, neither of which a list of strings has, so
/// the call is stated to succeed, giving [`json_string_array`] of the
/// strings: the array and string layout of `serde_json`'s compact
/// formatter and its escape table.
#[verifier::external_body]
pub(crate) fn encode_string_array(items: &Vec<String>) -> (r: Result<Vec<u8>, String>)
    ensures
        r is Ok,
        r matches Ok(bytes) ==> bytes@ == json_string_array(string_texts(items@)),
{
    match serde_json::to_vec(items) {
        Ok(bytes) => Ok(bytes),
        Err(e) => Err(e.to_string()),
    }
}

/// Encodes a list of pairs as a JSON array of two-element arrays.
///
/// Trusted: calls `serde_json::to_vec` on a `Vec<(String, Option<String>)>`.
/// Serialization fails only when a `Serialize` impl fails or a map has
/// non-string keys (as `serde_json` documents), neither of which applies
/// here, so the call is stated to succeed, giving [`json_pair_array`] of
/// the pairs: the array, string and `null` layout of `serde_json`'s compact
/// formatter and its escape table.
#[verifier::external_body]
pub(crate) fn encode_pair_array(items: &Vec<(String, Option<String>)>) -> (r: Result<Vec<u8>, String>)
    ensures
        r is Ok,
        r matches Ok(bytes) ==> bytes@ == json_pair_array(pair_texts(items@)),
{
    match serde_json::to_vec(items) {
        Ok(bytes) => Ok(bytes),
        Err(e) => Err(e.to_string()),
    }
}

/// Encodes an `i64` as a JSON number.
///
/// Trusted: calls `serde_json::to_vec` on an `i64`, which writes the
/// number's decimal numeral (with `itoa`), a `-` in front when negative,
/// into a `Vec`; an integer has no way to fail serialization, so the call
/// is stated to succeed.
#[verifier::external_body]
pub(crate) fn encode_i64(n: i64) -> (r: Result<Vec<u8>, String>)
    ensures
        r is Ok,
        r matches Ok(bytes) ==> bytes@ == encode_utf8(signed_decimal(n as int)),
{
    match serde_json::to_vec(&n) {
        Ok(bytes) => Ok(bytes),
        Err(e) => Err(e.to_string()),
    }
}

/// Decodes a JSON text as an `i64`.
///
/// Trusted: calls `serde_json::from_slice::<i64>`. It succeeds exactly when
/// [`json_i64`] of the text is a number, and gives that number; the message
/// of a failure is left unsaid.
#[verifier::external_body]
pub(crate) fn decode_i64(text: &[u8]) -> (r: Result<i64, String>)
    ensures
        r is Ok <==> json_i64(text@) is Some,
        r matches Ok(n) ==> json_i64(text@) == Some(n),
{
    match serde_json::from_slice::<i64>(text) {
        Ok(n) => Ok(n),
        Err(e) => Err(e.to_string()),
    }
}

/// Adding an element to a non-empty JSON array puts a comma and the element
/// before the closing bracket, however many elements there are.
pub proof fn lemma_json_array_push(elements: Seq<Seq<u8>>, e: Seq<u8>)
    requires
        elements.len() > 0,
    ensures
        json_array(elements.push(e)) == json_array(elements).drop_last() + seq![0x2cu8] + e + seq![0x5du8],
{
    lemma_joined_push(elements, e, seq![0x2cu8]);
    assert(json_array(elements).drop_last() =~= seq![0x5bu8] + joined(elements, seq![0x2cu8]));
}

/// Listing one more string adds its literal as the last element of the
/// JSON array, however many strings there are.
pub proof fn lemma_json_string_array_push(items: Seq<Seq<char>>, t: Seq<char>)
    requires
        items.len() > 0,
    ensures
        json_string_array(items.push(t)) == json_string_array(items).drop_last() + seq![0x2cu8] + json_string(t)
            + seq![0x5du8],
{
    let f = |x: Seq<char>| json_string(x);
    assert(items.push(t).map_values(f) =~= items.map_values(f).push(json_string(t)));
    lemma_json_array_push(items.map_values(f), json_string(t));
}

/// Reporting one more pair adds the two-element array of its key and value
/// as the last element of the JSON array, however many pairs there are.
pub proof fn lemma_json_pair_array_push(items: Seq<(Seq<char>, Option<Seq<char>>)>, p: (Seq<char>, Option<Seq<char>>))
    requires
        items.len() > 0,
    ensures
        json_pair_array(items.push(p)) == json_pair_array(items).drop_last() + seq![0x2cu8]
            + json_array(seq![json_string(p.0), json_optional_string(p.1)]) + seq![0x5du8],
{
    let f = |q: (Seq<char>, Option<Seq<char>>)| json_array(seq![json_string(q.0), json_optional_string(q.1)]);
    assert(items.push(p).map_values(f) =~= items.map_values(f).push(f(p)));
    lemma_json_array_push(items.map_values(f), f(p));
}

/// Bytes that need no escape come out of the escaping unchanged.
proof fn lemma_unescaped(bytes: Seq<u8>)
    requires
        forall|i: int| 0 <= i < bytes.len() ==> #[trigger] json_escaped_byte(bytes[i]) == seq![bytes[i]],
    ensures
        bytes.map_values(|b: u8| json_escaped_byte(b)).flatten() == bytes,
    decreases bytes.len(),
{
    let f = |b: u8| json_escaped_byte(b);
    if bytes.len() > 0 {
        let rest = bytes.drop_first();
        assert forall|i: int| 0 <= i < rest.len() implies #[trigger] json_escaped_byte(rest[i]) == seq![rest[i]] by {
            assert(rest[i] == bytes[i + 1]);
            assert(json_escaped_byte(bytes[i + 1]) == seq![bytes[i + 1]]);
        }
        lemma_unescaped(rest);
        assert(bytes.map_values(f).drop_first() =~= rest.map_values(f));
        assert(json_escaped_byte(bytes[0]) == seq![bytes[0]]);
        assert(bytes.map_values(f).first() == seq![bytes[0]]);
        assert(bytes =~= seq![bytes[0]] + rest);
    } else {
        assert(bytes.map_values(f) =~= Seq::<Seq<u8>>::empty());
    }
}

/// An ASCII text without quotes, backslashes or control characters is
/// written as itself between two quotes.
pub proof fn lemma_plain_json_string(text: Seq<char>)
    requires
        forall|i: int| 0 <= i < text.len() ==> ' ' <= #[trigger] text[i] <= '~' && text[i] != '"' && text[i] != '\\',
    ensures
        json_string(text) == seq![0x22u8] + encode_utf8(text) + seq![0x22u8],
{
    assert(is_ascii_chars(text));
    is_ascii_chars_encode_utf8(text);
    let bytes = encode_utf8(text);
    assert forall|i: int| 0 <= i < bytes.len() implies #[trigger] json_escaped_byte(bytes[i]) == seq![bytes[i]] by {
        assert(text[i] as u8 == bytes[i]);
        assert(' ' <= text[i] <= '~');
    }
    lemma_unescaped(bytes);
}

/// The texts of a list of strings, and of a list of pairs, are their
/// elements' texts, one for one and in order.
pub proof fn lemma_texts_of_items(strings: Seq<String>, pairs: Seq<(String, Option<String>)>)
    ensures
        string_texts(strings).len() == strings.len(),
        forall|i: int| 0 <= i < strings.len() ==> #[trigger] string_texts(strings)[i] == strings[i]@,
        pair_texts(pairs).len() == pairs.len(),
        forall|i: int|
            0 <= i < pairs.len() ==> (#[trigger] pair_texts(pairs)[i]).0 == pairs[i].0@ && match pairs[i].1 {
                Some(v) => pair_texts(pairs)[i].1 == Some(v@),
                None => pair_texts(pairs)[i].1 is None,
            },
{
}

} // verus!
