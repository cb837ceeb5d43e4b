//! The application-variables echo.

use vstd::prelude::*;
use vstd::string::*;
use vstd::utf8::*;

use crate::response::{plain_text_ok, HttpResponse};

verus! {

/// The text that reports the two variables.
pub open spec fn vars_text(foo: Seq<char>, bar: Seq<char>) -> Seq<char> {
    "foo: "@ + foo + ", bar: "@ + bar
}

/// The report of the variables `foo` and `bar`.
pub fn vars_message(foo: &str, bar: &str) -> (s: String)
    ensures
        s@ == vars_text(foo@, bar@),
{
    let mut s = String::from_str("foo: ");
    s.append(foo);
    s.append(", bar: ");
    s.append(bar);
    s
}

/// The page of the application: the report as a `text/plain` body.
pub fn handle_application_vars(foo: &str, bar: &str) -> (r: HttpResponse)
    ensures
        r@ == plain_text_ok(encode_utf8(vars_text(foo@, bar@))),
{
    let text = vars_message(foo, bar);
    HttpResponse::text_ok(text.as_str().as_bytes_vec())
}

/// The report holds each value whole: `foo: `, then `foo` itself, then
/// `, bar: `, then `bar` itself, so its length is 12 plus the lengths of
/// the two values, whatever they are.
pub proof fn lemma_report_holds_values(foo: Seq<char>, bar: Seq<char>)
    ensures
        ({
            let t = vars_text(foo, bar);
            &&& t.len() == 12 + foo.len() as int + bar.len()
            &&& t.subrange(0, 5) == "foo: "@
            &&& t.subrange(5, 5 + foo.len() as int) == foo
            &&& t.subrange(5 + foo.len() as int, 12 + foo.len() as int) == ", bar: "@
            &&& t.subrange(12 + foo.len() as int, t.len() as int) == bar
        }),
{
    reveal_strlit("foo: ");
    reveal_strlit(", bar: ");
    let t = vars_text(foo, bar);
    assert(t.subrange(0, 5) =~= "foo: "@);
    assert(t.subrange(5, 5 + foo.len() as int) =~= foo);
    assert(t.subrange(5 + foo.len() as int, 12 + foo.len() as int) =~= ", bar: "@);
    assert(t.subrange(12 + foo.len() as int, t.len() as int) =~= bar);
}

} // verus!
