//! The key-value showcase: one handler per endpoint, each a function from
//! the request's parameters and the store's answers to an HTTP response.

use vstd::prelude::*;
use vstd::string::*;
use vstd::utf8::*;

use crate::decimal::{decimal, lemma_usize_round_trip, parsed_usize, parse_usize, usize_to_decimal};
use crate::response::{plain, HttpResponse, ResponseView};
use crate::text::{join, joined, repeated, texts};

verus! {

/// The endpoint list that `help` answers with.
pub open spec fn help_text() -> Seq<char> {
    "Available endpoints:\n\
     GET /hello - returns a hello world message\n\
     GET /all - returns all keys\n\
     POST /get - retrieves a value by key in JSON format '{\"key\": \"mykey\"}'\n\
     POST /set - sets a key-value pair in JSON format '{\"key\": \"mykey\", \"value\": \"myvalue\"}'\n\
     GET /exists/:key - checks if a key exists in the store. Found: 200; Not Found: 404 \n\
     POST /:key - sets the value for the key to be the http body: curl localhost:3000/foo -d \"bar\"\n\
     GET /:key - retrieves a value for the key in the URL path\n\
     GET /5/:key - retrieves a value by key (5 times)\n\
     POST /kbs/:size - sets a key-value pair with a specific size in KBs in the key 'kbs'\n\
     DELETE /:key - deletes a key-value pair\n\
     GET /help - displays this help message"@
}

/// The response carrying a text as its UTF-8 body.
pub open spec fn text_response(status: u16, text: Seq<char>) -> ResponseView {
    plain(status, Some(encode_utf8(text)))
}

/// `GET /help` and `GET /`: the list of endpoints.
pub fn help() -> (r: HttpResponse)
    ensures
        r@ == text_response(200, help_text()),
{
    let text = "Available endpoints:\n\
     GET /hello - returns a hello world message\n\
     GET /all - returns all keys\n\
     POST /get - retrieves a value by key in JSON format '{\"key\": \"mykey\"}'\n\
     POST /set - sets a key-value pair in JSON format '{\"key\": \"mykey\", \"value\": \"myvalue\"}'\n\
     GET /exists/:key - checks if a key exists in the store. Found: 200; Not Found: 404 \n\
     POST /:key - sets the value for the key to be the http body: curl localhost:3000/foo -d \"bar\"\n\
     GET /:key - retrieves a value for the key in the URL path\n\
     GET /5/:key - retrieves a value by key (5 times)\n\
     POST /kbs/:size - sets a key-value pair with a specific size in KBs in the key 'kbs'\n\
     DELETE /:key - deletes a key-value pair\n\
     GET /help - displays this help message";
    HttpResponse::new(200, Some(text.as_bytes_vec()))
}

/// `GET /hello`: a greeting.
pub fn hello_world() -> (r: HttpResponse)
    ensures
        r@ == text_response(200, "Hello, World!"@),
{
    HttpResponse::new(200, Some("Hello, World!".as_bytes_vec()))
}

/// A 400 response without a body.
pub fn bad_request() -> (r: HttpResponse)
    ensures
        r@ == plain(400, None),
{
    HttpResponse::new(400, None)
}

/// A 500 response without a body.
pub fn err() -> (r: HttpResponse)
    ensures
        r@ == plain(500, None),
{
    HttpResponse::new(500, None)
}

/// A 500 response whose body is the given message.
pub fn err_str(message: String) -> (r: HttpResponse)
    ensures
        r@ == text_response(500, message@),
{
    HttpResponse::new(500, Some(message.as_str().as_bytes_vec()))
}

/// The route parameter, or the 400 response when the route gave none.
pub fn require_param(param: Option<String>) -> (r: Result<String, HttpResponse>)
    ensures
        match param {
            Some(p) => r == Ok::<String, HttpResponse>(p),
            None => r matches Err(resp) && resp@ == plain(400, None),
        },
{
    match param {
        Some(p) => Ok(p),
        None => Err(bad_request()),
    }
}

/// The answer to a write or a delete (`POST /:key`, `POST /set`,
/// `DELETE /:key`): 200 without a body, or 500 with the store's message.
pub fn stored_response(outcome: Result<(), String>) -> (r: HttpResponse)
    ensures
        match outcome {
            Ok(()) => r@ == plain(200, None),
            Err(m) => r@ == text_response(500, m@),
        },
{
    match outcome {
        Ok(()) => HttpResponse::new(200, None),
        Err(m) => err_str(m),
    }
}

/// The answer to `GET /:key`: 200 with the stored
/// value, 404 when the key is not in the store, 500 with the store's message
/// when the read failed.
pub fn value_response(outcome: Result<Option<Vec<u8>>, String>) -> (r: HttpResponse)
    ensures
        match outcome {
            Ok(Some(v)) => r@ == plain(200, Some(v@)),
            Ok(None) => r@ == plain(404, None),
            Err(m) => r@ == text_response(500, m@),
        },
{
    match outcome {
        Ok(Some(v)) => HttpResponse::new(200, Some(v)),
        Ok(None) => HttpResponse::new(404, None),
        Err(m) => err_str(m),
    }
}

/// The answer to `POST /get`: 200 with the stored value, or 500 with the
/// store's message; a key not in the store is such a failure, reported as
/// `no such key`.
pub fn get_value_json_response(outcome: Result<Option<Vec<u8>>, String>) -> (r: HttpResponse)
    ensures
        match outcome {
            Ok(Some(v)) => r@ == plain(200, Some(v@)),
            Ok(None) => r@ == text_response(500, "no such key"@),
            Err(m) => r@ == text_response(500, m@),
        },
{
    match outcome {
        Ok(Some(v)) => HttpResponse::new(200, Some(v)),
        Ok(None) => err_str(String::from_str("no such key")),
        Err(m) => err_str(m),
    }
}

/// The answer to `GET /exists/:key`: 200 when the key is in the store, 404
/// when it is not, 500 with the store's message when the check failed.
pub fn exists_response(outcome: Result<bool, String>) -> (r: HttpResponse)
    ensures
        match outcome {
            Ok(true) => r@ == plain(200, None),
            Ok(false) => r@ == plain(404, None),
            Err(m) => r@ == text_response(500, m@),
        },
{
    match outcome {
        Ok(true) => HttpResponse::new(200, None),
        Ok(false) => HttpResponse::new(404, None),
        Err(m) => err_str(m),
    }
}

/// The answer to `GET /all`: 200 with the keys separated by commas, or 500
/// with the store's message.
pub fn get_all_response(outcome: Result<Vec<String>, String>) -> (r: HttpResponse)
    ensures
        match outcome {
            Ok(keys) => r@ == text_response(200, joined(texts(keys@), ","@)),
            Err(m) => r@ == text_response(500, m@),
        },
{
    match outcome {
        Ok(keys) => {
            let all = join(&keys, ",");
            HttpResponse::new(200, Some(all.as_str().as_bytes_vec()))
        },
        Err(m) => err_str(m),
    }
}

/// The text of `size_kbs` kibibytes: `1024 * size_kbs` copies of `'A'`.
pub fn kbs_string(size_kbs: usize) -> (s: String)
    requires
        size_kbs <= usize::MAX / 1024,
    ensures
        s@ == repeated('A', 1024 * size_kbs as nat),
{
    let size = 1024 * size_kbs;
    let mut s = String::new();
    let mut i: usize = 0;
    while i < size
        invariant
            i <= size,
            s@ == repeated('A', i as nat),
        decreases size - i,
    {
        s.append("A");
        proof {
            reveal_strlit("A");
        }
        assert(s@ =~= repeated('A', (i + 1) as nat));
        i = i + 1;
    }
    s
}

/// The value written by `POST /kbs/:size` is exactly `1024 * size` bytes
/// long.
pub proof fn lemma_kbs_value_size(size_kbs: nat)
    ensures
        encode_utf8(repeated('A', 1024 * size_kbs)).len() == 1024 * size_kbs,
{
    let chars = repeated('A', 1024 * size_kbs);
    assert(is_ascii_chars(chars));
    is_ascii_chars_encode_utf8(chars);
}

/// The size that `POST /kbs/:size` asks for: the parameter read as a
/// `usize`, or 0 when it is not one.
pub open spec fn requested_kbs(size: Seq<char>) -> nat {
    match parsed_usize(size) {
        Some(n) => n as nat,
        None => 0,
    }
}

/// A write of a value of a given size under the key `"kbs"`.
pub struct KbsWrite {
    pub key: String,
    pub value: String,
    pub size_kbs: usize,
}

/// `POST /kbs/:size`, first step: the write to make, or the 400 response
/// when the size is missing, unreadable or zero.
pub fn set_value_with_size_kbs(size: Option<&str>) -> (r: Result<KbsWrite, HttpResponse>)
    requires
        size matches Some(s) ==> requested_kbs(s@) <= usize::MAX / 1024,
    ensures
        match size {
            None => r matches Err(resp) && resp@ == plain(400, None),
            Some(s) => if requested_kbs(s@) == 0 {
                r matches Err(resp) && resp@ == plain(400, None)
            } else {
                r matches Ok(w) && w.key@ == "kbs"@ && w.size_kbs == requested_kbs(s@)
                    && w.value@ == repeated('A', 1024 * requested_kbs(s@))
            },
        },
{
    match size {
        None => Err(bad_request()),
        Some(s) => {
            let size_kbs = match parse_usize(s) {
                Some(n) => n,
                None => 0,
            };
            if size_kbs == 0 {
                Err(bad_request())
            } else {
                let value = kbs_string(size_kbs);
                Ok(KbsWrite { key: String::from_str("kbs"), value, size_kbs })
            }
        },
    }
}

/// The confirmation text of a write of `size_kbs` kibibytes.
pub open spec fn kbs_confirmation(size_kbs: nat) -> Seq<char> {
    "set key kbs with size "@ + decimal(size_kbs) + " KBs"@
}

/// `POST /kbs/:size`, second step: 200 with a confirmation naming the key
/// and the size, or 500 with the store's message.
pub fn set_value_with_size_kbs_done(size_kbs: usize, outcome: Result<(), String>) -> (r: HttpResponse)
    ensures
        match outcome {
            Ok(()) => r@ == text_response(200, kbs_confirmation(size_kbs as nat)),
            Err(m) => r@ == text_response(500, m@),
        },
{
    match outcome {
        Ok(()) => {
            let mut text = String::from_str("set key kbs with size ");
            let digits = usize_to_decimal(size_kbs);
            text.append(digits.as_str());
            text.append(" KBs");
            HttpResponse::new(200, Some(text.as_str().as_bytes_vec()))
        },
        Err(m) => err_str(m),
    }
}

/// How many reads `GET /repeat/:count` makes: the parameter read as a
/// `usize`, or 1 when it is not one.
pub open spec fn repeat_count(count: Seq<char>) -> nat {
    match parsed_usize(count) {
        Some(n) => n as nat,
        None => 1,
    }
}

/// A repeated read in progress: one key is read a number of times, and the
/// response carries the values read, one after the other. For
/// `GET /repeat/:count` the value `"value"` is first written under the key
/// `"key"`; `GET /5/:key` reads the key of the route five times.
pub struct RepeatedRead {
    key: String,
    seeded: bool,
    count: usize,
    done: usize,
    collected: Vec<u8>,
    reads: Ghost<Seq<Seq<u8>>>,
}

impl RepeatedRead {
    /// The body gathered so far is the values read, in order, and no more
    /// reads were made than asked for.
    #[verifier::type_invariant]
    spec fn consistent(self) -> bool {
        &&& self.done == self.reads@.len()
        &&& self.done <= self.count
        &&& self.collected@ == self.reads@.flatten()
    }

    /// How many reads the request asked for.
    pub closed spec fn count(self) -> nat {
        self.count as nat
    }

    /// The values read so far, in order.
    pub closed spec fn values_read(self) -> Seq<Seq<u8>> {
        self.reads@
    }

    /// The key that is read.
    pub closed spec fn read_key(self) -> Seq<char> {
        self.key@
    }

    /// Whether a value is written under the key before the reads.
    pub closed spec fn seeded(self) -> bool {
        self.seeded
    }

    /// The key that is read.
    pub fn key(&self) -> (k: &str)
        ensures
            k@ == self.read_key(),
    {
        self.key.as_str()
    }

    /// The value to write under [`RepeatedRead::key`] before the reads, if
    /// any.
    pub fn seed_value(&self) -> (v: Option<&'static str>)
        ensures
            self.seeded() ==> (v matches Some(t) && t@ == "value"@),
            !self.seeded() ==> v is None,
    {
        if self.seeded {
            Some("value")
        } else {
            None
        }
    }

    /// Whether another read is due.
    pub fn wants_read(&self) -> (b: bool)
        ensures
            b == (self.values_read().len() < self.count()),
    {
        proof {
            use_type_invariant(self);
        }
        self.done < self.count
    }

    /// Takes in the outcome of one read. A value is appended to the body;
    /// a failed read, or a key found missing, ends the request with a 500
    /// response without a body.
    pub fn record(&mut self, outcome: Result<Option<Vec<u8>>, String>) -> (stop: Option<HttpResponse>)
        requires
            old(self).values_read().len() < old(self).count(),
        ensures
            final(self).count() == old(self).count(),
            final(self).read_key() == old(self).read_key(),
            final(self).seeded() == old(self).seeded(),
            match outcome {
                Ok(Some(v)) => stop is None && final(self).values_read() == old(self).values_read().push(v@),
                _ => stop matches Some(resp) && resp@ == plain(500, None)
                    && final(self).values_read() == old(self).values_read(),
            },
    {
        match outcome {
            Ok(Some(v)) => {
                let mut v = v;
                let mut current = RepeatedRead::empty();
                proof {
                    use_type_invariant(&*self);
                    use_type_invariant(&current);
                }
                std::mem::swap(self, &mut current);
                proof {
                    use_type_invariant(&current);
                }
                let RepeatedRead { key, seeded, count, done, mut collected, reads } = current;
                let ghost value = v@;
                proof {
                    reads@.lemma_flatten_push(value);
                }
                collected.append(&mut v);
                *self = RepeatedRead {
                    key,
                    seeded,
                    count,
                    done: done + 1,
                    collected,
                    reads: Ghost(reads@.push(value)),
                };
                None
            },
            _ => Some(err()),
        }
    }

    /// A repeated read of nothing, with nothing read.
    fn empty() -> (r: RepeatedRead)
        ensures
            r.count() == 0,
            r.values_read() == Seq::<Seq<u8>>::empty(),
    {
        let ghost empty = Seq::<Seq<u8>>::empty();
        assert(empty.flatten() =~= Seq::<u8>::empty());
        RepeatedRead {
            key: String::new(),
            seeded: false,
            count: 0,
            done: 0,
            collected: Vec::new(),
            reads: Ghost(empty),
        }
    }

    /// The response once every read is done: 200 with the values read,
    /// concatenated in order.
    pub fn respond(self) -> (r: HttpResponse)
        ensures
            r@ == plain(200, Some(self.values_read().flatten())),
    {
        proof {
            use_type_invariant(&self);
        }
        HttpResponse::new(200, Some(self.collected))
    }
}

/// `GET /repeat/:count`, first step: the reads to make, or the 400 response
/// when the route gave no count.
pub fn get_value_times(count: Option<&str>) -> (r: Result<RepeatedRead, HttpResponse>)
    ensures
        match count {
            None => r matches Err(resp) && resp@ == plain(400, None),
            Some(c) => r matches Ok(rr) && rr.count() == repeat_count(c@)
                && rr.read_key() == "key"@ && rr.seeded()
                && rr.values_read() == Seq::<Seq<u8>>::empty(),
        },
{
    match count {
        None => Err(bad_request()),
        Some(c) => {
            let n = match parse_usize(c) {
                Some(n) => n,
                None => 1,
            };
            let ghost empty = Seq::<Seq<u8>>::empty();
            assert(empty.flatten() =~= Seq::<u8>::empty());
            Ok(
                RepeatedRead {
                    key: String::from_str("key"),
                    seeded: true,
                    count: n,
                    done: 0,
                    collected: Vec::new(),
                    reads: Ghost(empty),
                },
            )
        },
    }
}

/// `GET /5/:key`, first step: five reads of the route's key, or the 400
/// response when the route gave no key.
pub fn get_value_five_times(key: Option<String>) -> (r: Result<RepeatedRead, HttpResponse>)
    ensures
        match key {
            None => r matches Err(resp) && resp@ == plain(400, None),
            Some(k) => r matches Ok(rr) && rr.count() == 5 && rr.read_key() == k@
                && !rr.seeded() && rr.values_read() == Seq::<Seq<u8>>::empty(),
        },
{
    match key {
        None => Err(bad_request()),
        Some(k) => {
            let ghost empty = Seq::<Seq<u8>>::empty();
            assert(empty.flatten() =~= Seq::<u8>::empty());
            Ok(
                RepeatedRead {
                    key: k,
                    seeded: false,
                    count: 5,
                    done: 0,
                    collected: Vec::new(),
                    reads: Ghost(empty),
                },
            )
        },
    }
}

/// The size that `POST /kbs/:size` writes is the number the size text
/// reads as, whatever that number: a text that `usize::from_str` reads as
/// `n`, from 1 to the overflow bound, plans a value of exactly `1024 * n`
/// characters, all `'A'`, whose UTF-8 encoding is `1024 * n` bytes; any
/// other text asks for nothing.
pub proof fn lemma_requested_size(size: Seq<char>)
    ensures
        parsed_usize(size) matches Some(n) ==> {
            &&& requested_kbs(size) == n
            &&& repeated('A', 1024 * requested_kbs(size)).len() == 1024 * n
            &&& forall|i: int| 0 <= i < 1024 * n ==> #[trigger] repeated('A', 1024 * requested_kbs(size))[i] == 'A'
            &&& encode_utf8(repeated('A', 1024 * requested_kbs(size))).len() == 1024 * n
        },
        parsed_usize(size) is None ==> requested_kbs(size) == 0,
{
    if let Some(n) = parsed_usize(size) {
        lemma_kbs_value_size(n as nat);
    }
}

/// The confirmation of a sized write reports the size: it is `set key kbs
/// with size `, a numeral and ` KBs`, and `usize::from_str` reads that
/// numeral back as the size, whatever the size.
pub proof fn lemma_confirmation_reports_size(size_kbs: usize)
    ensures
        exists|numeral: Seq<char>|
            #![trigger parsed_usize(numeral)]
            kbs_confirmation(size_kbs as nat) == "set key kbs with size "@ + numeral + " KBs"@
                && parsed_usize(numeral) == Some(size_kbs),
{
    lemma_usize_round_trip(size_kbs);
    assert(parsed_usize(decimal(size_kbs as nat)) == Some(size_kbs));
}

/// `GET /repeat/:count` reads as many times as the count text reads as,
/// whatever that number, and once when the text is not a number.
pub proof fn lemma_repeat_count(count: Seq<char>)
    ensures
        parsed_usize(count) matches Some(n) ==> repeat_count(count) == n,
        parsed_usize(count) is None ==> repeat_count(count) == 1,
{
}

} // verus!
