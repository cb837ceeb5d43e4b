//! The WASI key-value showcase: plain reads and writes, key listing, batch
//! operations and atomic operations, each answered with an HTTP response.

use vstd::prelude::*;
use vstd::string::*;
use vstd::utf8::*;

use crate::json::{
    decode_i64, encode_i64, encode_pair_array, encode_string_array, json_i64, json_pair_array,
    json_string_array, pair_texts, string_texts,
};
use crate::decimal::signed_decimal;
use crate::response::{plain, HttpResponse, ResponseView};
use crate::utf8_text::{string_from_utf8_lossy, utf8_lossy};

verus! {

/// The response with the given status and an empty body.
pub open spec fn empty(status: u16) -> ResponseView {
    plain(status, Some(Seq::empty()))
}

/// The response carrying a text as its UTF-8 body.
pub open spec fn text_response(status: u16, text: Seq<char>) -> ResponseView {
    plain(status, Some(encode_utf8(text)))
}

/// The endpoint list that `help` answers with.
pub open spec fn help_text() -> Seq<char> {
    "Available endpoints:\n\
     GET / - displays this help message\n\
     GET /:key - retrieves a value for the key in the URL path\n\
     POST /:key - sets the value for the key to be the http body: curl localhost:3000/foo -d \"bar\"\n\
     DELETE /:key - deletes a key-value pair\n\
     GET /exists/:key - checks if a key exists in the store. Found: 200; Not Found: 404\n\
     GET /keys - returns all keys as JSON array\n\
     POST /batch/set - sets multiple key-value pairs: [{\"key\": \"k\", \"value\": \"v\"}, ...]\n\
     POST /batch/get - gets multiple values: {\"keys\": [\"k1\", \"k2\"]}\n\
     POST /batch/delete - deletes multiple keys: {\"keys\": [\"k1\", \"k2\"]}\n\
     POST /atomic/increment/:key - atomically increments a key by a delta: curl localhost:3000/atomic/increment/counter -d \"2\"\n\
     POST /atomic/cas/:key - compare-and-swap: {\"current_value\": \"val1\", \"new_value\": \"val2\"}"@
}

/// `GET /`: the list of endpoints.
pub fn help() -> (r: HttpResponse)
    ensures
        r@ == text_response(200, help_text()),
{
    let text = "Available endpoints:\n\
     GET / - displays this help message\n\
     GET /:key - retrieves a value for the key in the URL path\n\
     POST /:key - sets the value for the key to be the http body: curl localhost:3000/foo -d \"bar\"\n\
     DELETE /:key - deletes a key-value pair\n\
     GET /exists/:key - checks if a key exists in the store. Found: 200; Not Found: 404\n\
     GET /keys - returns all keys as JSON array\n\
     POST /batch/set - sets multiple key-value pairs: [{\"key\": \"k\", \"value\": \"v\"}, ...]\n\
     POST /batch/get - gets multiple values: {\"keys\": [\"k1\", \"k2\"]}\n\
     POST /batch/delete - deletes multiple keys: {\"keys\": [\"k1\", \"k2\"]}\n\
     POST /atomic/increment/:key - atomically increments a key by a delta: curl localhost:3000/atomic/increment/counter -d \"2\"\n\
     POST /atomic/cas/:key - compare-and-swap: {\"current_value\": \"val1\", \"new_value\": \"val2\"}";
    HttpResponse::new(200, Some(text.as_bytes_vec()))
}

/// A 400 response with an empty body.
pub fn bad_request() -> (r: HttpResponse)
    ensures
        r@ == empty(400),
{
    HttpResponse::new(400, Some(Vec::new()))
}

/// A 500 response with an empty body.
pub fn err() -> (r: HttpResponse)
    ensures
        r@ == empty(500),
{
    HttpResponse::new(500, Some(Vec::new()))
}

/// A 500 response whose body is the given message.
pub fn err_str(message: String) -> (r: HttpResponse)
    ensures
        r@ == text_response(500, message@),
{
    HttpResponse::new(500, Some(message.as_str().as_bytes_vec()))
}

/// A response with the given status whose body is the given text.
fn text_reply(status: u16, text: &str) -> (r: HttpResponse)
    ensures
        r@ == text_response(status, text@),
{
    HttpResponse::new(status, Some(text.as_bytes_vec()))
}

/// The route parameter, or the 400 response when the route gave none.
pub fn require_param(param: Option<String>) -> (r: Result<String, HttpResponse>)
    ensures
        match param {
            Some(p) => r == Ok::<String, HttpResponse>(p),
            None => r matches Err(resp) && resp@ == empty(400),
        },
{
    match param {
        Some(p) => Ok(p),
        None => Err(bad_request()),
    }
}

/// The answer to `GET /:key`: 200 with the stored value (no body when the
/// key is absent), or 500 with the store's message.
pub fn get_value(outcome: Result<Option<Vec<u8>>, String>) -> (r: HttpResponse)
    ensures
        match outcome {
            Ok(Some(v)) => r@ == plain(200, Some(v@)),
            Ok(None) => r@ == plain(200, None),
            Err(m) => r@ == text_response(500, m@),
        },
{
    match outcome {
        Ok(value) => HttpResponse::new(200, value),
        Err(m) => err_str(m),
    }
}

/// The answer to a write or a delete (`POST /:key`, `DELETE /:key`,
/// `POST /batch/set`, `POST /batch/delete`, the swap of
/// `POST /atomic/cas/:key`): 200 with an empty body, or 500 with the
/// store's message.
pub fn done(outcome: Result<(), String>) -> (r: HttpResponse)
    ensures
        match outcome {
            Ok(()) => r@ == empty(200),
            Err(m) => r@ == text_response(500, m@),
        },
{
    match outcome {
        Ok(()) => HttpResponse::new(200, Some(Vec::new())),
        Err(m) => err_str(m),
    }
}

/// The answer to `GET /exists/:key`: 200 `true` when the key is in the
/// store, 404 `false` when it is not, 500 with the store's message.
pub fn key_exists(outcome: Result<bool, String>) -> (r: HttpResponse)
    ensures
        match outcome {
            Ok(true) => r@ == text_response(200, "true"@),
            Ok(false) => r@ == text_response(404, "false"@),
            Err(m) => r@ == text_response(500, m@),
        },
{
    match outcome {
        Ok(true) => text_reply(200, "true"),
        Ok(false) => text_reply(404, "false"),
        Err(m) => err_str(m),
    }
}

/// A 200 answer carrying an encoded document, or, when the encoding failed,
/// the encoder's message.
pub fn encoded_reply(encoded: Result<Vec<u8>, String>) -> (r: HttpResponse)
    ensures
        match encoded {
            Ok(b) => r@ == plain(200, Some(b@)),
            Err(m) => r@ == text_response(200, m@),
        },
{
    match encoded {
        Ok(b) => HttpResponse::new(200, Some(b)),
        Err(m) => HttpResponse::new(200, Some(m.as_str().as_bytes_vec())),
    }
}

/// The answer to `GET /keys` once the listing is complete: 200 with the
/// keys as a JSON array, or 500 with the store's message.
pub fn get_keys(outcome: Result<Vec<String>, String>) -> (r: HttpResponse)
    ensures
        match outcome {
            Ok(keys) => r@ == plain(200, Some(json_string_array(string_texts(keys@)))),
            Err(m) => r@ == text_response(500, m@),
        },
{
    match outcome {
        Ok(keys) => encoded_reply(encode_string_array(&keys)),
        Err(m) => err_str(m),
    }
}

/// One entry of a `POST /batch/set` request.
pub struct KvPair {
    pub key: String,
    pub value: String,
}

/// The entries that `POST /batch/set` writes: each key with the UTF-8 bytes
/// of its value, in request order.
pub fn batch_entries(pairs: Vec<KvPair>) -> (entries: Vec<(String, Vec<u8>)>)
    ensures
        entries.len() == pairs.len(),
        forall|i: int|
            0 <= i < pairs.len() ==> (#[trigger] entries@[i]).0@ == pairs@[i].key@
                && entries@[i].1@ == encode_utf8(pairs@[i].value@),
{
    let mut entries: Vec<(String, Vec<u8>)> = Vec::new();
    let n = pairs.len();
    let mut i: usize = 0;
    while i < n
        invariant
            n == pairs.len(),
            i <= n,
            entries.len() == i,
            forall|j: int|
                0 <= j < i ==> (#[trigger] entries@[j]).0@ == pairs@[j].key@
                    && entries@[j].1@ == encode_utf8(pairs@[j].value@),
        decreases n - i,
    {
        let key = pairs[i].key.clone();
        let value = pairs[i].value.as_str().as_bytes_vec();
        entries.push((key, value));
        i = i + 1;
    }
    entries
}

/// The pairs that `POST /batch/get` reports: each key with its value read as
/// text (invalid UTF-8 replaced), or `None` when the key is absent.
pub fn batch_get_pairs(results: Vec<(String, Option<Vec<u8>>)>) -> (pairs: Vec<(String, Option<String>)>)
    ensures
        pairs.len() == results.len(),
        forall|i: int|
            0 <= i < results.len() ==> (#[trigger] pairs@[i]).0@ == results@[i].0@ && match results@[i].1 {
                Some(b) => pairs@[i].1 matches Some(s) && s@ == utf8_lossy(b@)
                    && (valid_utf8(b@) ==> s@ == decode_utf8(b@)),
                None => pairs@[i].1 is None,
            },
{
    let mut pairs: Vec<(String, Option<String>)> = Vec::new();
    let n = results.len();
    let mut i: usize = 0;
    while i < n
        invariant
            n == results.len(),
            i <= n,
            pairs.len() == i,
            forall|j: int|
                0 <= j < i ==> (#[trigger] pairs@[j]).0@ == results@[j].0@ && match results@[j].1 {
                    Some(b) => pairs@[j].1 matches Some(s) && s@ == utf8_lossy(b@)
                        && (valid_utf8(b@) ==> s@ == decode_utf8(b@)),
                    None => pairs@[j].1 is None,
                },
        decreases n - i,
    {
        let key = results[i].0.clone();
        let text = match &results[i].1 {
            Some(b) => Some(string_from_utf8_lossy(b.as_slice())),
            None => None,
        };
        pairs.push((key, text));
        i = i + 1;
    }
    pairs
}

/// The answer to `POST /batch/get`: 200 with the pairs as a JSON array, or
/// 500 with the store's message.
pub fn batch_get(outcome: Result<Vec<(String, Option<Vec<u8>>)>, String>) -> (r: HttpResponse)
    ensures
        match outcome {
            Ok(results) => exists|pairs: Seq<(String, Option<String>)>|
                {
                    &&& pairs.len() == results.len()
                    &&& forall|i: int|
                        0 <= i < results.len() ==> (#[trigger] pairs[i]).0@ == results@[i].0@
                            && match results@[i].1 {
                            Some(b) => pairs[i].1 matches Some(s) && s@ == utf8_lossy(b@)
                                && (valid_utf8(b@) ==> s@ == decode_utf8(b@)),
                            None => pairs[i].1 is None,
                        }
                    &&& r@ == plain(200, Some(json_pair_array(pair_texts(pairs))))
                },
            Err(m) => r@ == text_response(500, m@),
        },
{
    match outcome {
        Ok(results) => {
            let pairs = batch_get_pairs(results);
            let r = encoded_reply(encode_pair_array(&pairs));
            assert(r@ == plain(200, Some(json_pair_array(pair_texts(pairs@)))));
            r
        },
        Err(m) => err_str(m),
    }
}

/// The increment that `POST /atomic/increment/:key` asks for: the body read
/// as a JSON integer, or the reader's message when it is not one.
pub fn increment_delta(body: &[u8]) -> (r: Result<i64, String>)
    ensures
        r is Ok <==> json_i64(body@) is Some,
        r matches Ok(n) ==> json_i64(body@) == Some(n),
{
    decode_i64(body)
}

/// The answer to `POST /atomic/increment/:key`: 200 with the new value as a
/// JSON number, or 500 with the store's message.
pub fn increment(outcome: Result<i64, String>) -> (r: HttpResponse)
    ensures
        match outcome {
            Ok(n) => r@ == plain(200, Some(encode_utf8(signed_decimal(n as int)))),
            Err(m) => r@ == text_response(500, m@),
        },
{
    match outcome {
        Ok(n) => encoded_reply(encode_i64(n)),
        Err(m) => err_str(m),
    }
}

/// The body of a `POST /atomic/cas/:key` request.
pub struct CasRequest {
    pub current_value: String,
    pub new_value: String,
}

/// What to do after reading the current value in a compare-and-swap.
pub enum CasStep {
    /// Answer without swapping.
    Reply(HttpResponse),
    /// Swap in these bytes, then answer with [`done`].
    Swap(Vec<u8>),
}

/// Whether two byte slices hold the same bytes.
fn same_bytes(a: &[u8], b: &[u8]) -> (r: bool)
    ensures
        r == (a@ == b@),
{
    if a.len() != b.len() {
        return false;
    }
    let n = a.len();
    let mut i: usize = 0;
    while i < n
        invariant
            n == a@.len(),
            n == b@.len(),
            i <= n,
            forall|j: int| 0 <= j < i ==> a@[j] == b@[j],
        decreases n - i,
    {
        if a[i] != b[i] {
            return false;
        }
        i = i + 1;
    }
    assert(a@ =~= b@);
    true
}

/// `POST /atomic/cas/:key` after reading the current value: 404 `key not
/// found` when the key is absent, 409 `current value does not match` when
/// the stored bytes differ from the expected value's, and otherwise a swap
/// to the new value's bytes.
pub fn compare_and_swap(current: Option<Vec<u8>>, request: &CasRequest) -> (step: CasStep)
    ensures
        match current {
            None => step matches CasStep::Reply(r) && r@ == text_response(404, "key not found"@),
            Some(c) => if c@ == encode_utf8(request.current_value@) {
                step matches CasStep::Swap(v) && v@ == encode_utf8(request.new_value@)
            } else {
                step matches CasStep::Reply(r) && r@ == text_response(409, "current value does not match"@)
            },
        },
{
    match current {
        None => CasStep::Reply(text_reply(404, "key not found")),
        Some(c) => {
            let expected = request.current_value.as_str().as_bytes();
            if same_bytes(c.as_slice(), expected) {
                CasStep::Swap(request.new_value.as_str().as_bytes_vec())
            } else {
                CasStep::Reply(text_reply(409, "current value does not match"))
            }
        },
    }
}

/// A page of a key listing: the keys and where the next page starts.
pub struct KeyResponse {
    pub keys: Vec<String>,
    pub cursor: Option<String>,
}

/// The keys of a listing, or its error.
pub fn keys<E>(res: &Result<KeyResponse, E>) -> (r: Result<&[String], &E>)
    ensures
        match res {
            Ok(kr) => r matches Ok(ks) && ks@ == kr.keys@,
            Err(e) => r matches Err(e2) && e2 == e,
        },
{
    match res {
        Ok(kr) => Ok(kr.keys.as_slice()),
        Err(e) => Err(e),
    }
}

/// The text of an optional string.
pub open spec fn opt_text(s: Option<String>) -> Option<Seq<char>> {
    match s {
        Some(t) => Some(t@),
        None => None,
    }
}

/// `GET /keys` in progress: the store's listing is read page by page, each
/// page asked for with the cursor the previous one returned, until a page
/// comes back without a cursor.
pub struct KeyListing {
    keys: Vec<String>,
    cursor: Option<String>,
    finished: bool,
    pages: Ghost<Seq<Seq<Seq<char>>>>,
}

impl KeyListing {
    /// The keys gathered so far are those of the pages read, in order.
    #[verifier::type_invariant]
    spec fn consistent(self) -> bool {
        string_texts(self.keys@) == self.pages@.flatten()
    }

    /// The keys of each page read so far, in order.
    pub closed spec fn pages(self) -> Seq<Seq<Seq<char>>> {
        self.pages@
    }

    /// Whether the last page read came without a cursor.
    pub closed spec fn finished(self) -> bool {
        self.finished
    }

    /// The cursor the next page is to be asked for with.
    pub closed spec fn cursor(self) -> Option<Seq<char>> {
        opt_text(self.cursor)
    }

    /// The cursor to ask for the next page with (`Some(None)` for the first
    /// page), or `None` once the listing is complete.
    pub fn next_page(&self) -> (c: Option<Option<&str>>)
        ensures
            self.finished() ==> c is None,
            !self.finished() ==> (c matches Some(cur) && match cur {
                Some(t) => self.cursor() == Some(t@),
                None => self.cursor() is None,
            }),
    {
        if self.finished {
            None
        } else {
            match &self.cursor {
                Some(t) => Some(Some(t.as_str())),
                None => Some(None),
            }
        }
    }

    /// Takes in one page of the listing. Its keys are added after those
    /// already gathered; a page without a cursor completes the listing. A
    /// failed read ends the request with 500 and the store's message.
    pub fn record_page(&mut self, outcome: Result<KeyResponse, String>) -> (stop: Option<HttpResponse>)
        ensures
            match outcome {
                Ok(kr) => {
                    &&& stop is None
                    &&& final(self).pages() == old(self).pages().push(string_texts(kr.keys@))
                    &&& final(self).cursor() == opt_text(kr.cursor)
                    &&& final(self).finished() == (kr.cursor is None)
                },
                Err(m) => {
                    &&& stop matches Some(r) && r@ == text_response(500, m@)
                    &&& final(self).pages() == old(self).pages()
                    &&& final(self).finished() == old(self).finished()
                    &&& final(self).cursor() == old(self).cursor()
                },
            },
    {
        match outcome {
            Ok(kr) => {
                let KeyResponse { keys, cursor } = kr;
                let mut keys = keys;
                let mut current = start_key_listing();
                proof {
                    use_type_invariant(&*self);
                    use_type_invariant(&current);
                }
                std::mem::swap(self, &mut current);
                proof {
                    use_type_invariant(&current);
                }
                let KeyListing { keys: mut gathered, cursor: _, finished: _, pages } = current;
                let ghost page = string_texts(keys@);
                let ghost before = string_texts(gathered@);
                proof {
                    pages@.lemma_flatten_push(page);
                }
                gathered.append(&mut keys);
                assert(string_texts(gathered@) =~= before + page);
                let finished = cursor.is_none();
                *self = KeyListing { keys: gathered, cursor, finished, pages: Ghost(pages@.push(page)) };
                None
            },
            Err(m) => Some(err_str(m)),
        }
    }

    /// The answer once the listing is complete: 200 with every key read, in
    /// the order the pages gave them, as a JSON array.
    pub fn respond(self) -> (r: HttpResponse)
        requires
            self.finished(),
        ensures
            r@ == plain(200, Some(json_string_array(self.pages().flatten()))),
    {
        proof {
            use_type_invariant(&self);
        }
        get_keys(Ok(self.keys))
    }
}

/// `GET /keys`, first step: a listing that starts at the first page.
pub fn start_key_listing() -> (l: KeyListing)
    ensures
        l.pages() == Seq::<Seq<Seq<char>>>::empty(),
        !l.finished(),
        l.cursor() is None,
{
    let ghost empty = Seq::<Seq<Seq<char>>>::empty();
    let keys: Vec<String> = Vec::new();
    assert(string_texts(keys@) =~= empty.flatten());
    KeyListing { keys, cursor: None, finished: false, pages: Ghost(empty) }
}

} // verus!
