//! Responses: a status, a content type and a body whose length in bytes is
//! carried alongside it.
use vstd::prelude::*;
use vstd::utf8::encode_utf8;

use crate::models::{Message, MessageView};
use crate::text::{decimal_text, escape_html, html_escaped, html_int, json_int, json_quoted, json_text};

verus! {

pub const OK: u16 = 200;

pub const NOT_FOUND: u16 = 404;

pub const INTERNAL_SERVER_ERROR: u16 = 500;

#[derive(Clone, Copy, Debug, PartialEq, Eq, Structural)]
pub enum ContentKind {
    Json,
    Html,
}

/// A response to one request. `content_length` is always the number of
/// bytes of `body` in UTF-8.
pub struct Response {
    pub status: u16,
    pub content_type: Option<ContentKind>,
    pub body: String,
    pub content_length: usize,
}

pub struct ResponseView {
    pub status: u16,
    pub content_type: Option<ContentKind>,
    pub body: Seq<char>,
}

impl View for Response {
    type V = ResponseView;

    open spec fn view(&self) -> ResponseView {
        ResponseView { status: self.status, content_type: self.content_type, body: self.body@ }
    }
}

/// The response view with these parts.
pub open spec fn response_of(status: u16, content_type: Option<ContentKind>, body: Seq<char>) -> ResponseView {
    ResponseView { status, content_type, body }
}

/// The body that reports the timestamp given to a new message.
pub open spec fn timestamp_body(timestamp: int) -> Seq<char> {
    "{\"timestamp\":"@ + decimal_text(timestamp) + "}"@
}

/// The body that reports an error to the client.
pub open spec fn error_body(message: Seq<char>) -> Seq<char> {
    "{\"error\":"@ + json_quoted(message) + "}"@
}

pub open spec fn page_head() -> Seq<char> {
    "<head><title>microservice</title><style>body {font-family: monospace</style></head><body><ul>"@
}

pub open spec fn page_tail() -> Seq<char> {
    "</ul></body>"@
}

/// One record of the listing: `username (timestamp): message`.
pub open spec fn item_html(m: MessageView) -> Seq<char> {
    "<li>"@ + html_escaped(m.username) + " ("@ + decimal_text(m.timestamp) + "): "@
        + html_escaped(m.message) + "</li>"@
}

pub open spec fn items_html(s: Seq<MessageView>) -> Seq<char>
    decreases s.len(),
{
    if s.len() == 0 {
        seq![]
    } else {
        items_html(s.drop_last()) + item_html(s.last())
    }
}

/// The HTML page that lists the records in their order.
pub open spec fn page_html(s: Seq<MessageView>) -> Seq<char> {
    page_head() + items_html(s) + page_tail()
}

pub open spec fn messages_view(v: Seq<Message>) -> Seq<MessageView> {
    v.map_values(|m: Message| m@)
}

impl Response {
    pub open spec fn wf(&self) -> bool {
        self.content_length == encode_utf8(self.body@).len() as usize
    }

    /// A response with a body; its length is measured here.
    pub fn new(status: u16, content_type: Option<ContentKind>, body: String) -> (r: Response)
        ensures
            r@ == response_of(status, content_type, body@),
            r.wf(),
    {
        let content_length = body.as_str().len();
        Response { status, content_type, body, content_length }
    }

    /// A response with no body.
    pub fn empty(status: u16) -> (r: Response)
        ensures
            r@ == response_of(status, None, Seq::empty()),
            r.wf(),
    {
        Response::new(status, None, String::new())
    }
}

/// Renders the listing page of the records.
pub fn render_page(messages: Vec<Message>) -> (r: String)
    ensures
        r@ == page_html(messages_view(messages@)),
{
    let ghost all = messages_view(messages@);
    let mut page = String::from_str(
        "<head><title>microservice</title><style>body {font-family: monospace</style></head><body><ul>",
    );
    let mut i: usize = 0;
    while i < messages.len()
        invariant
            i <= messages@.len(),
            all == messages_view(messages@),
            page@ == page_head() + items_html(all.subrange(0, i as int)),
        decreases messages.len() - i,
    {
        let m = &messages[i];
        let ghost before = page@;
        page.append("<li>");
        let name = escape_html(m.username.as_str());
        page.append(name.as_str());
        page.append(" (");
        let stamp = html_int(m.timestamp);
        page.append(stamp.as_str());
        page.append("): ");
        let text = escape_html(m.message.as_str());
        page.append(text.as_str());
        page.append("</li>");
        proof {
            assert(all.subrange(0, i + 1).drop_last() =~= all.subrange(0, i as int));
            assert(all[i as int] == m@);
            assert(page@ =~= before + item_html(m@));
        }
        i = i + 1;
    }
    page.append("</ul></body>");
    assert(all.subrange(0, i as int) =~= all);
    page
}

/// The error response: status 500 and a JSON body `{"error": ...}`.
pub fn make_error_response(error_message: &str) -> (r: Response)
    ensures
        r@ == response_of(INTERNAL_SERVER_ERROR, Some(ContentKind::Json), error_body(error_message@)),
        r.wf(),
{
    let mut payload = String::from_str("{\"error\":");
    let quoted = json_text(error_message);
    payload.append(quoted.as_str());
    payload.append("}");
    Response::new(INTERNAL_SERVER_ERROR, Some(ContentKind::Json), payload)
}

/// Why the store could not do what was asked.
pub struct StoreError;

pub open spec fn store_error_text() -> Seq<char> {
    "service error"@
}

impl StoreError {
    pub fn describe(&self) -> (r: String)
        ensures
            r@ == store_error_text(),
    {
        String::from_str("service error")
    }
}

/// The response to a submission: the assigned timestamp as JSON, or the
/// store's failure as an error response.
pub fn make_post_response(result: Result<i64, StoreError>) -> (r: Response)
    ensures
        result matches Ok(t) ==> r@ == response_of(OK, Some(ContentKind::Json), timestamp_body(t as int)),
        result is Err ==> r@ == response_of(
            INTERNAL_SERVER_ERROR,
            Some(ContentKind::Json),
            error_body(store_error_text()),
        ),
        r.wf(),
{
    match result {
        Ok(timestamp) => {
            let mut payload = String::from_str("{\"timestamp\":");
            let digits = json_int(timestamp);
            payload.append(digits.as_str());
            payload.append("}");
            Response::new(OK, Some(ContentKind::Json), payload)
        },
        Err(error) => {
            let text = error.describe();
            make_error_response(text.as_str())
        },
    }
}

/// The response to a listing: the page of the records, or a bodyless 500
/// when the store could not be read.
pub fn make_get_response(messages: Option<Vec<Message>>) -> (r: Response)
    ensures
        messages matches Some(v) ==> r@ == response_of(OK, Some(ContentKind::Html), page_html(messages_view(v@))),
        messages is None ==> r@ == response_of(INTERNAL_SERVER_ERROR, None, Seq::empty()),
        r.wf(),
{
    match messages {
        Some(messages) => {
            let body = render_page(messages);
            Response::new(OK, Some(ContentKind::Html), body)
        },
        None => Response::empty(INTERNAL_SERVER_ERROR),
    }
}

} // verus!
