//! The request pipeline as a state machine: the caller performs each action
//! (connect, read the body, insert, scan) and hands back what came of it as an
//! event; the machine decides the next action, until it answers with a
//! response.
use vstd::prelude::*;
use vstd::utf8::encode_utf8;

use crate::functions::{
    error_text, parse_form, parse_query, query_outcome, submitted, ValidationErrorView,
};
use crate::models::{records_in_range, Message, MessageView, NewMessage, TimeRange};
use crate::response::{
    error_body, make_error_response, make_get_response, make_post_response, messages_view,
    page_html, response_of, store_error_text, timestamp_body, ContentKind, Response, ResponseView,
    StoreError, INTERNAL_SERVER_ERROR, NOT_FOUND, OK,
};
use crate::text::{form_pairs, same_text};

verus! {

#[derive(Clone, Copy, Debug, PartialEq, Eq, Structural)]
pub enum Method {
    Get,
    Post,
    Other,
}

/// What the pipeline needs of an incoming request.
pub struct Request {
    pub method: Method,
    pub path: String,
    pub query: Option<String>,
}

#[derive(Clone, Copy, Debug, PartialEq, Eq, Structural)]
pub enum Route {
    /// `POST /`: store a new message.
    Submit,
    /// `GET /`: list the messages.
    List,
    /// Anything else.
    Unknown,
}

/// Where a request is in its pipeline.
pub enum Stage {
    /// Waiting for a store connection.
    Connecting(Request),
    /// Waiting for the whole body of a submission.
    ReadingBody,
    /// Waiting for the store to insert the message.
    Inserting,
    /// Waiting for the stored records; the window is applied to them here.
    Scanning(TimeRange),
    /// The response has been given.
    Done,
}

/// What came of the last action.
pub enum Event {
    Connected,
    NoConnection,
    BodyRead(Vec<u8>),
    Inserted(Result<i64, StoreError>),
    /// The records read from the store, or `None` when it could not be read.
    Scanned(Option<Vec<Message>>),
}

/// What the caller is to do next.
pub enum Action {
    Connect,
    ReadBody,
    Insert(NewMessage),
    Scan(TimeRange),
    Respond(Response),
}

pub struct Microservice;

pub open spec fn route_of(method: Method, path: Seq<char>) -> Route {
    if path == "/"@ {
        match method {
            Method::Post => Route::Submit,
            Method::Get => Route::List,
            Method::Other => Route::Unknown,
        }
    } else {
        Route::Unknown
    }
}

/// The window that a listing asks for: none without a query string.
pub open spec fn listing_outcome(query: Option<Seq<char>>) -> Result<
    (Option<i64>, Option<i64>),
    ValidationErrorView,
> {
    match query {
        None => Ok((None, None)),
        Some(q) => query_outcome(form_pairs(encode_utf8(q))),
    }
}

pub open spec fn query_view(query: Option<String>) -> Option<Seq<char>> {
    match query {
        None => None,
        Some(q) => Some(q@),
    }
}

/// The response that a submission gets once the store has answered.
pub open spec fn submit_response(result: Result<i64, StoreError>) -> ResponseView {
    match result {
        Ok(t) => response_of(OK, Some(ContentKind::Json), timestamp_body(t as int)),
        Err(_) => response_of(
            INTERNAL_SERVER_ERROR,
            Some(ContentKind::Json),
            error_body(store_error_text()),
        ),
    }
}

/// The response to a client error.
pub open spec fn invalid_response(e: ValidationErrorView) -> ResponseView {
    response_of(INTERNAL_SERVER_ERROR, Some(ContentKind::Json), error_body(error_text(e)))
}

/// The bodyless response of a failure that is not the client's.
pub open spec fn failure_response() -> ResponseView {
    response_of(INTERNAL_SERVER_ERROR, None, Seq::empty())
}

/// The listing page of the records that lie in the window.
pub open spec fn listing_response(t: TimeRange, records: Seq<MessageView>) -> ResponseView {
    response_of(OK, Some(ContentKind::Html), page_html(records_in_range(t, records)))
}

pub open spec fn not_found_response() -> ResponseView {
    response_of(NOT_FOUND, None, Seq::empty())
}

/// The action answers with this response, which carries its exact length.
pub open spec fn responds(a: Action, v: ResponseView) -> bool {
    a matches Action::Respond(resp) && resp@ == v && resp.wf()
}

/// What one step does: each stage waits on the outcome of one action; any
/// other event ends the request with a bodyless 500.
pub open spec fn step_holds(stage: Stage, event: Event, next: Stage, action: Action) -> bool {
    match (stage, event) {
        (Stage::Connecting(_), Event::NoConnection) => next is Done && responds(
            action,
            failure_response(),
        ),
        (Stage::Connecting(req), Event::Connected) => match route_of(req.method, req.path@) {
            Route::Submit => next is ReadingBody && action is ReadBody,
            Route::List => match listing_outcome(query_view(req.query)) {
                Ok((b, a)) => (next matches Stage::Scanning(t) && t.before == b && t.after == a)
                    && (action matches Action::Scan(u) && u.before == b && u.after == a),
                Err(e) => next is Done && responds(action, invalid_response(e)),
            },
            Route::Unknown => next is Done && responds(action, not_found_response()),
        },
        (Stage::ReadingBody, Event::BodyRead(body)) => match submitted(form_pairs(body@)) {
            Some(m) => next is Inserting && (action matches Action::Insert(n) && n@ == m),
            None => next is Done && responds(
                action,
                invalid_response(ValidationErrorView::MissingField("message"@)),
            ),
        },
        (Stage::Inserting, Event::Inserted(result)) => next is Done && responds(
            action,
            submit_response(result),
        ),
        (Stage::Scanning(t), Event::Scanned(found)) => next is Done && match found {
            Some(v) => responds(action, listing_response(t, messages_view(v@))),
            None => responds(action, failure_response()),
        },
        _ => next is Done && responds(action, failure_response()),
    }
}

impl Microservice {
    /// Which pipeline a request takes.
    pub fn route(&self, method: Method, path: &str) -> (r: Route)
        ensures
            r == route_of(method, path@),
    {
        if same_text(path, "/") {
            match method {
                Method::Post => Route::Submit,
                Method::Get => Route::List,
                Method::Other => Route::Unknown,
            }
        } else {
            Route::Unknown
        }
    }

    /// Starts the pipeline of a request: every request first needs a store
    /// connection.
    pub fn call(&self, request: Request) -> (r: (Stage, Action))
        ensures
            r.0 == Stage::Connecting(request),
            r.1 is Connect,
    {
        (Stage::Connecting(request), Action::Connect)
    }

    /// Takes the pipeline one step on: from a stage and the outcome of its
    /// action to the next stage and action. A failing step answers at once
    /// and later steps never run.
    pub fn step(&self, stage: Stage, event: Event) -> (r: (Stage, Action))
        ensures
            step_holds(stage, event, r.0, r.1),
    {
        match (stage, event) {
            (Stage::Connecting(_), Event::NoConnection) => (
                Stage::Done,
                Action::Respond(Response::empty(INTERNAL_SERVER_ERROR)),
            ),
            (Stage::Connecting(request), Event::Connected) => {
                match self.route(request.method, request.path.as_str()) {
                    Route::Submit => (Stage::ReadingBody, Action::ReadBody),
                    Route::List => {
                        let parsed = match &request.query {
                            Some(q) => parse_query(q.as_str()),
                            None => Ok(TimeRange::unbounded()),
                        };
                        match parsed {
                            Ok(range) => {
                                let scan = TimeRange { before: range.before, after: range.after };
                                (Stage::Scanning(range), Action::Scan(scan))
                            },
                            Err(e) => {
                                let text = e.describe();
                                (Stage::Done, Action::Respond(make_error_response(text.as_str())))
                            },
                        }
                    },
                    Route::Unknown => (Stage::Done, Action::Respond(Response::empty(NOT_FOUND))),
                }
            },
            (Stage::ReadingBody, Event::BodyRead(body)) => match parse_form(body.as_slice()) {
                Ok(message) => (Stage::Inserting, Action::Insert(message)),
                Err(e) => {
                    let text = e.describe();
                    (Stage::Done, Action::Respond(make_error_response(text.as_str())))
                },
            },
            (Stage::Inserting, Event::Inserted(result)) => (
                Stage::Done,
                Action::Respond(make_post_response(result)),
            ),
            (Stage::Scanning(range), Event::Scanned(found)) => {
                let kept = match found {
                    Some(records) => Some(range.select(records)),
                    None => None,
                };
                (Stage::Done, Action::Respond(make_get_response(kept)))
            },
            _ => (Stage::Done, Action::Respond(Response::empty(INTERNAL_SERVER_ERROR))),
        }
    }
}

} // verus!
