//! The answer to one request: status code, content type and body.
use vstd::prelude::*;
use vstd::string::StringSliceAdditionalSpecFns;

verus! {

/// A response as plain values.
pub ghost struct ResponseView {
    pub status: u16,
    pub content_type: Seq<char>,
    pub body: Seq<u8>,
}

/// A response ready to be written back to the client.
pub struct Response {
    pub status: u16,
    pub content_type: String,
    pub body: Vec<u8>,
}

impl View for Response {
    type V = ResponseView;

    open spec fn view(&self) -> ResponseView {
        ResponseView { status: self.status, content_type: self.content_type@, body: self.body@ }
    }
}

/// The content type of a plain-text body.
pub open spec fn text_plain() -> Seq<char> {
    "text/plain; charset=utf-8"@
}

/// The content type of an HTML document.
pub open spec fn text_html() -> Seq<char> {
    "text/html; charset=utf-8"@
}

/// The content type of a JSON document.
pub open spec fn application_json() -> Seq<char> {
    "application/json"@
}

/// The answer for a path that names nothing that can be served.
pub open spec fn not_found_view() -> ResponseView {
    ResponseView { status: 404, content_type: text_plain(), body: "404".spec_bytes() }
}

/// The answer when the settings document cannot be produced.
pub open spec fn internal_error_view() -> ResponseView {
    ResponseView { status: 500, content_type: text_plain(), body: "500".spec_bytes() }
}

/// A response with status 200 and the given content.
pub open spec fn ok_view(content_type: Seq<char>, body: Seq<u8>) -> ResponseView {
    ResponseView { status: 200, content_type, body }
}

/// The 404 response with a plain-text body.
pub fn not_found() -> (r: Response)
    ensures
        r@ == not_found_view(),
{
    Response {
        status: 404,
        content_type: "text/plain; charset=utf-8".to_owned(),
        body: crate::assets::copy_bytes("404".as_bytes()),
    }
}

/// The 500 response with a plain-text body.
pub fn internal_error() -> (r: Response)
    ensures
        r@ == internal_error_view(),
{
    Response {
        status: 500,
        content_type: "text/plain; charset=utf-8".to_owned(),
        body: crate::assets::copy_bytes("500".as_bytes()),
    }
}

/// A 200 response that carries `body` as content of type `content_type`.
pub fn ok_response(content_type: String, body: Vec<u8>) -> (r: Response)
    ensures
        r@ == ok_view(content_type@, body@),
{
    Response { status: 200, content_type, body }
}

} // verus!
