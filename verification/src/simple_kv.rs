//! The smallest key-value round trip: write a value, read it back, show it.

use vstd::prelude::*;
use vstd::string::*;
use vstd::utf8::*;

use crate::response::{plain_text_ok, HttpResponse};

verus! {

/// The key that is written and read back.
pub fn entry_key() -> (k: &'static str)
    ensures
        k@ == "mykey"@,
{
    "mykey"
}

/// The value written under [`entry_key`].
pub fn entry_value() -> (v: Vec<u8>)
    ensures
        v@ == encode_utf8("myvalue"@),
{
    "myvalue".as_bytes_vec()
}

/// The page shown after the read: the value read as a `text/plain` body, or
/// `not found` when the key was absent.
pub fn handle_kv(read: Option<Vec<u8>>) -> (r: HttpResponse)
    ensures
        match read {
            Some(v) => r@ == plain_text_ok(v@),
            None => r@ == plain_text_ok(encode_utf8("not found"@)),
        },
{
    match read {
        Some(v) => HttpResponse::text_ok(v),
        None => HttpResponse::text_ok("not found".as_bytes_vec()),
    }
}

} // verus!
