//! A plain model of an HTTP response.

use vstd::prelude::*;
use vstd::string::*;

verus! {

/// An HTTP response: a status code, an optional `content-type` header and an
/// optional body.
pub struct HttpResponse {
    pub status: u16,
    pub content_type: Option<String>,
    pub body: Option<Vec<u8>>,
}

/// The mathematical value of an [`HttpResponse`].
pub struct ResponseView {
    pub status: u16,
    pub content_type: Option<Seq<char>>,
    pub body: Option<Seq<u8>>,
}

impl View for HttpResponse {
    type V = ResponseView;

    open spec fn view(&self) -> ResponseView {
        ResponseView {
            status: self.status,
            content_type: match self.content_type {
                Some(t) => Some(t@),
                None => None,
            },
            body: match self.body {
                Some(b) => Some(b@),
                None => None,
            },
        }
    }
}

/// The response with the given status, no header and the given body.
pub open spec fn plain(status: u16, body: Option<Seq<u8>>) -> ResponseView {
    ResponseView { status, content_type: None, body }
}

/// The `text/plain` response with status 200 and the given body.
pub open spec fn plain_text_ok(body: Seq<u8>) -> ResponseView {
    ResponseView { status: 200, content_type: Some("text/plain"@), body: Some(body) }
}

impl HttpResponse {
    /// A response with the given status and body and no header.
    pub fn new(status: u16, body: Option<Vec<u8>>) -> (r: HttpResponse)
        ensures
            r.status == status,
            r.content_type is None,
            r.body == body,
    {
        HttpResponse { status, content_type: None, body }
    }

    /// A `text/plain` response with status 200 and the given body.
    pub fn text_ok(body: Vec<u8>) -> (r: HttpResponse)
        ensures
            r@ == plain_text_ok(body@),
    {
        let content_type = String::from_str("text/plain");
        HttpResponse { status: 200, content_type: Some(content_type), body: Some(body) }
    }
}

} // verus!
