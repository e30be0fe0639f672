use vstd::prelude::*;

verus! {

/// Status of a successful reply.
pub const STATUS_OK: u16 = 200;

/// Status of a request that matched no handler.
pub const STATUS_NOT_FOUND: u16 = 404;

/// Status of a listing that could not be encoded.
pub const STATUS_INTERNAL_ERROR: u16 = 500;

/// Kind of a reply's body, which fixes its content type header.
#[derive(Clone, Copy, Debug, PartialEq, Eq, Structural)]
pub enum ContentKind {
    Html,
    Json,
    Text,
}

/// The content type header that goes with a kind of body.
pub open spec fn header_of(kind: ContentKind) -> Seq<char> {
    match kind {
        ContentKind::Html => "text/html; charset=utf-8"@,
        ContentKind::Json => "application/json; charset=utf-8"@,
        ContentKind::Text => "text/plain; charset=utf-8"@,
    }
}

impl ContentKind {
    /// The value of the content type header for this kind of body.
    pub fn header(&self) -> (r: &'static str)
        ensures
            r@ == header_of(*self),
    {
        match self {
            ContentKind::Html => "text/html; charset=utf-8",
            ContentKind::Json => "application/json; charset=utf-8",
            ContentKind::Text => "text/plain; charset=utf-8",
        }
    }
}

/// A complete HTTP reply: status, content kind and body.
#[derive(Debug)]
pub struct Reply {
    pub status: u16,
    pub content: ContentKind,
    pub body: String,
}

/// What a reply says, with its body as text.
pub struct ReplyView {
    pub status: u16,
    pub content: ContentKind,
    pub body: Seq<char>,
}

impl View for Reply {
    type V = ReplyView;

    open spec fn view(&self) -> ReplyView {
        ReplyView { status: self.status, content: self.content, body: self.body@ }
    }
}

/// The landing page served at the root.
pub const INDEX_PAGE: &'static str = "<!DOCTYPE html>\n<html>\n<head>\n<meta charset=\"utf-8\">\n<title>Proxy status</title>\n</head>\n<body>\n<h1>Proxy status</h1>\n<ul>\n<li><a href=\"/servers\">targets and their current state</a> (JSON)</li>\n<li><a href=\"/version\">version</a></li>\n</ul>\n</body>\n</html>\n";

/// The body of the not-found reply.
pub const NOT_FOUND_BODY: &'static str = "page not found";

/// The reply for the landing page.
pub open spec fn index_view() -> ReplyView {
    ReplyView { status: 200, content: ContentKind::Html, body: INDEX_PAGE@ }
}

/// The reply for a request that matched no handler.
pub open spec fn not_found_view() -> ReplyView {
    ReplyView { status: 404, content: ContentKind::Text, body: "page not found"@ }
}

/// The reply that reports the build's version.
pub open spec fn version_view(version: Seq<char>) -> ReplyView {
    ReplyView { status: 200, content: ContentKind::Text, body: version }
}

/// Serves the fixed landing page.
pub fn index() -> (r: Reply)
    ensures
        r@ == index_view(),
{
    Reply { status: STATUS_OK, content: ContentKind::Html, body: INDEX_PAGE.to_owned() }
}

/// Answers a request that matched no handler: 404 with a fixed text.
pub fn not_found() -> (r: Reply)
    ensures
        r@ == not_found_view(),
{
    Reply { status: STATUS_NOT_FOUND, content: ContentKind::Text, body: NOT_FOUND_BODY.to_owned() }
}

/// Reports the build's version as plain text; the body is `version` itself,
/// so every call in one build gives the same reply.
pub fn version(build: &str) -> (r: Reply)
    ensures
        r@ == version_view(build@),
{
    Reply { status: STATUS_OK, content: ContentKind::Text, body: build.to_owned() }
}

} // verus!
