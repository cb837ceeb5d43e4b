//! A/B testing between a single-screen and a split-screen layout.

use vstd::prelude::*;
use vstd::string::*;
use vstd::utf8::*;

use crate::response::{plain_text_ok, HttpResponse};
use crate::utf8_text::{lemma_ascii_round_trip, string_from_utf8};

verus! {

/// The layout shown for a variant: `"single"` for variant `"A"`, `"split"`
/// for every other variant.
pub open spec fn layout_for(variant: Seq<char>) -> Seq<char> {
    if variant == seq!['A'] {
        "single"@
    } else {
        "split"@
    }
}

/// Whether a string slice is exactly `"A"`.
fn is_variant_a(variant: &str) -> (b: bool)
    ensures
        b == (variant@ == seq!['A']),
{
    if variant.unicode_len() == 1 {
        let c = variant.get_char(0);
        if c == 'A' {
            assert(variant@ =~= seq!['A']);
            true
        } else {
            false
        }
    } else {
        false
    }
}

/// The layout selected by a variant.
pub fn get_result(variant: &str) -> (result: String)
    ensures
        result@ == layout_for(variant@),
{
    if is_variant_a(variant) {
        String::from_str("single")
    } else {
        String::from_str("split")
    }
}

/// The store key under which the variant is kept.
pub fn variant_key() -> (k: &'static str)
    ensures
        k@ == "variant"@,
{
    "variant"
}

/// The bytes of the variant that is stored when the store holds none.
pub open spec fn default_variant() -> Seq<u8> {
    seq![0x41u8]
}

/// The variant bytes a decision starts from.
pub open spec fn current_variant(stored: Option<Seq<u8>>) -> Seq<u8> {
    match stored {
        Some(b) => b,
        None => default_variant(),
    }
}

/// The bytes stored after a decision: `"B"` after `"A"`, `"A"` after anything
/// else.
pub open spec fn following_variant(variant: Seq<char>) -> Seq<u8> {
    if variant == seq!['A'] {
        seq![0x42u8]
    } else {
        seq![0x41u8]
    }
}

/// The outcome of one A/B decision: the layout to show and the variant to
/// store for the next request.
pub struct AbSwitch {
    pub layout: String,
    pub next_variant: Vec<u8>,
}

/// The one-byte variant `b`.
fn variant_bytes(b: u8) -> (v: Vec<u8>)
    ensures
        v@ == seq![b],
{
    let mut v = Vec::new();
    v.push(b);
    assert(v@ =~= seq![b]);
    v
}

/// The A/B decision from the variant held in the store (`None` when the key
/// is absent, which counts as `"A"`): variant `"A"` shows `"single"` and
/// stores `"B"`, any other variant shows `"split"` and stores `"A"`. Fails,
/// with the decoder's message, when the stored bytes are not UTF-8.
pub fn ab_test_with_kv(stored: Option<Vec<u8>>) -> (r: Result<AbSwitch, String>)
    ensures
        ({
            let stored_view = match stored {
                Some(b) => Some(b@),
                None => None,
            };
            let bytes = current_variant(stored_view);
            &&& r is Ok <==> valid_utf8(bytes)
            &&& r matches Ok(sw) ==> {
                &&& sw.layout@ == layout_for(decode_utf8(bytes))
                &&& sw.next_variant@ == following_variant(decode_utf8(bytes))
            }
        }),
{
    let bytes = match stored {
        Some(b) => b,
        None => variant_bytes(0x41),
    };
    let variant = match string_from_utf8(bytes) {
        Ok(v) => v,
        Err(e) => return Err(e),
    };
    if is_variant_a(variant.as_str()) {
        Ok(AbSwitch { layout: String::from_str("single"), next_variant: variant_bytes(0x42) })
    } else {
        Ok(AbSwitch { layout: String::from_str("split"), next_variant: variant_bytes(0x41) })
    }
}

/// The page of `handle_hello_spin`: the layout as a `text/plain` body.
pub fn layout_response(layout: String) -> (r: HttpResponse)
    ensures
        r@ == plain_text_ok(encode_utf8(layout@)),
{
    HttpResponse::text_ok(layout.as_str().as_bytes_vec())
}

/// Successive A/B decisions alternate: once a decision is made, the
/// decision made from the variant it stored succeeds and shows the other
/// layout.
pub proof fn lemma_ab_alternates(stored: Option<Seq<u8>>)
    requires
        valid_utf8(current_variant(stored)),
    ensures
        ({
            let first = decode_utf8(current_variant(stored));
            let next = current_variant(Some(following_variant(first)));
            &&& valid_utf8(next)
            &&& layout_for(decode_utf8(next)) != layout_for(first)
        }),
{
    lemma_ascii_round_trip(seq!['A']);
    lemma_ascii_round_trip(seq!['B']);
    assert(encode_utf8(seq!['A']) =~= seq![0x41u8]);
    assert(encode_utf8(seq!['B']) =~= seq![0x42u8]);
    assert(seq!['B'] != seq!['A']) by {
        assert(seq!['B'][0] != seq!['A'][0]);
    }
    reveal_strlit("single");
    reveal_strlit("split");
    assert("single"@ != "split"@) by {
        assert("single"@.len() != "split"@.len());
    }
}

/// A store without a variant counts as variant `"A"`: the first decision
/// shows `"single"` and stores `"B"`.
pub proof fn lemma_absent_variant_is_a()
    ensures
        valid_utf8(current_variant(None)),
        decode_utf8(current_variant(None)) == seq!['A'],
        layout_for(decode_utf8(current_variant(None))) == "single"@,
        following_variant(decode_utf8(current_variant(None))) == seq![0x42u8],
{
    lemma_ascii_round_trip(seq!['A']);
    assert(encode_utf8(seq!['A']) =~= seq![0x41u8]);
}

} // verus!
