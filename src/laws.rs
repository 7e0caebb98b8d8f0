//! Properties of the pipeline as a whole, proved from the contracts of its
//! steps.
use vstd::prelude::*;
use vstd::utf8::encode_utf8;

use crate::functions::{bound_outcome, last_value, ValidationErrorView};
use crate::microservice::{listing_outcome, route_of, step_holds, Action, Event, Request, Route, Stage};
use crate::models::{in_range, records_in_range, MessageView, TimeRange};
use crate::response::{
    error_body, item_html, items_html, page_head, page_html, timestamp_body, ContentKind,
    INTERNAL_SERVER_ERROR, NOT_FOUND, OK,
};
use crate::text::{decimal_value, form_pairs, html_escaped, int_error_text};

verus! {

/// A form whose `message` is present and not empty is handed to the store,
/// and the client is told, with a 200 JSON body, exactly the timestamp that
/// the store reports.
pub proof fn submission_reports_store_timestamp(
    body: Vec<u8>,
    mid: Stage,
    insert: Action,
    timestamp: i64,
    last: Stage,
    answer: Action,
)
    requires
        last_value(form_pairs(body@), "message"@) matches Some(m) && m.len() > 0,
        step_holds(Stage::ReadingBody, Event::BodyRead(body), mid, insert),
        step_holds(mid, Event::Inserted(Ok(timestamp)), last, answer),
    ensures
        insert is Insert,
        answer matches Action::Respond(resp) && resp.status == OK && resp.content_type == Some(
            ContentKind::Json,
        ) && resp.body@ == timestamp_body(timestamp as int) && resp.wf(),
{
}

/// A form without a `message` field, whatever else it holds, never reaches
/// the store: the answer is a 500 JSON error saying that `message` is missing.
pub proof fn missing_message_is_refused(body: Vec<u8>, next: Stage, action: Action)
    requires
        last_value(form_pairs(body@), "message"@) is None,
        step_holds(Stage::ReadingBody, Event::BodyRead(body), next, action),
    ensures
        next is Done,
        action matches Action::Respond(resp) && resp.status == INTERNAL_SERVER_ERROR
            && resp.content_type == Some(ContentKind::Json) && resp.body@ == error_body(
            "Missing field '"@ + "message"@ + "'"@,
        ) && resp.wf(),
{
}

/// A form without a `username` field stores the message under the default
/// name, with the message text as it was decoded.
pub proof fn missing_username_defaults(body: Vec<u8>, next: Stage, action: Action)
    requires
        last_value(form_pairs(body@), "message"@) matches Some(m) && m.len() > 0,
        last_value(form_pairs(body@), "username"@) is None,
        step_holds(Stage::ReadingBody, Event::BodyRead(body), next, action),
    ensures
        action matches Action::Insert(n) && n.username@ == "anonymous"@ && Some(n.message@)
            == last_value(form_pairs(body@), "message"@),
{
}

/// The listing of a record: every item of the listing stands in the
/// concatenation of the items.
proof fn item_in_items(s: Seq<MessageView>, i: int)
    requires
        0 <= i < s.len(),
    ensures
        exists|k: int|
            0 <= k && k + item_html(s[i]).len() <= items_html(s).len() && #[trigger] items_html(
                s,
            ).subrange(k, k + item_html(s[i]).len()) == item_html(s[i]),
    decreases s.len(),
{
    let whole = items_html(s);
    let front = items_html(s.drop_last());
    let item = item_html(s[i]);
    assert(whole == front + item_html(s.last()));
    if i == s.len() - 1 {
        let k = front.len() as int;
        assert(whole.subrange(k, k + item.len()) =~= item);
    } else {
        item_in_items(s.drop_last(), i);
        assert(s.drop_last()[i] == s[i]);
        let k = choose|k: int|
            0 <= k && k + item.len() <= front.len() && #[trigger] front.subrange(
                k,
                k + item.len(),
            ) == item;
        assert(whole.subrange(k, k + item.len()) =~= front.subrange(k, k + item.len()));
    }
}

/// Text without `&`, `<`, `>` or `"` is written in HTML as it is.
pub proof fn plain_text_is_unescaped(s: Seq<char>)
    requires
        forall|i: int|
            0 <= i < s.len() ==> #[trigger] s[i] != '&' && s[i] != '<' && s[i] != '>' && s[i]
                != '"',
    ensures
        html_escaped(s) == s,
    decreases s.len(),
{
    if s.len() > 0 {
        plain_text_is_unescaped(s.drop_last());
        assert(s.drop_last() + seq![s.last()] =~= s);
    }
}

/// A stored record whose timestamp lies in the window is listed on the page
/// as `username (timestamp): message`.
pub proof fn record_in_window_is_listed(t: TimeRange, records: Seq<MessageView>, i: int)
    requires
        0 <= i < records.len(),
        in_range(t.before, t.after, records[i].timestamp),
    ensures
        exists|k: int|
            0 <= k && k + item_html(records[i]).len() <= page_html(
                records_in_range(t, records),
            ).len() && #[trigger] page_html(records_in_range(t, records)).subrange(
                k,
                k + item_html(records[i]).len(),
            ) == item_html(records[i]),
{
    let pred = |m: MessageView| in_range(t.before, t.after, m.timestamp);
    let kept = records_in_range(t, records);
    records.lemma_filter_contains(pred, i);
    let j = choose|j: int| 0 <= j < kept.len() && kept[j] == records[i];
    item_in_items(kept, j);
    let item = item_html(records[i]);
    let k = choose|k: int|
        0 <= k && k + item.len() <= items_html(kept).len() && #[trigger] items_html(kept).subrange(
            k,
            k + item.len(),
        ) == item;
    let page = page_html(kept);
    let h = page_head().len() as int;
    assert(page.subrange(h + k, h + k + item.len()) =~= items_html(kept).subrange(
        k,
        k + item.len(),
    ));
}

/// With both bounds, the window keeps exactly the records strictly between
/// them: a record on either bound is left out.
pub proof fn window_bounds_are_exclusive(t: TimeRange, records: Seq<MessageView>)
    requires
        t.after matches Some(a) && t.before matches Some(b) && a < b,
    ensures
        forall|j: int|
            0 <= j < records_in_range(t, records).len() ==> t.after->Some_0 < (
            #[trigger] records_in_range(t, records)[j]).timestamp < t.before->Some_0,
        forall|m: MessageView|
            #[trigger] records_in_range(t, records).contains(m) ==> m.timestamp
                != t.after->Some_0 && m.timestamp != t.before->Some_0,
{
    let pred = |m: MessageView| in_range(t.before, t.after, m.timestamp);
    records.filter_lemma(pred);
}

/// Without a query string the window is empty of bounds and the listing
/// holds every stored record, in its order.
pub proof fn unfiltered_listing_keeps_all(records: Seq<MessageView>)
    ensures
        listing_outcome(None) == Ok::<(Option<i64>, Option<i64>), ValidationErrorView>(
            (None, None),
        ),
        records_in_range(TimeRange { before: None, after: None }, records) == records,
    decreases records.len(),
{
    let t = TimeRange { before: None, after: None };
    if records.len() > 0 {
        unfiltered_listing_keeps_all(records.drop_last());
        assert(records.drop_last().push(records.last()) =~= records);
        records.drop_last().lemma_filter_push(
            records.last(),
            |m: MessageView| in_range(t.before, t.after, m.timestamp),
        );
    } else {
        assert(records.filter(|m: MessageView| in_range(t.before, t.after, m.timestamp))
            =~= records);
    }
}

/// A listing whose `before` does not read as an integer is answered with a
/// 500 JSON error that names the field, and the store is never scanned.
pub proof fn bad_before_is_refused(request: Request, value: Seq<char>, next: Stage, action: Action)
    requires
        route_of(request.method, request.path@) == Route::List,
        request.query matches Some(q) && last_value(form_pairs(encode_utf8(q@)), "before"@)
            == Some(value),
        decimal_value(value) is None,
        step_holds(Stage::Connecting(request), Event::Connected, next, action),
    ensures
        next is Done,
        action matches Action::Respond(resp) && resp.status == INTERNAL_SERVER_ERROR
            && resp.content_type == Some(ContentKind::Json) && resp.body@ == error_body(
            "Error parsing '"@ + "before"@ + "': "@ + int_error_text(value),
        ),
{
}

/// A listing whose `before` is absent or good but whose `after` does not read
/// as an integer is answered with a 500 JSON error that names `after`, and the
/// store is never scanned.
pub proof fn bad_after_is_refused(request: Request, value: Seq<char>, next: Stage, action: Action)
    requires
        route_of(request.method, request.path@) == Route::List,
        request.query matches Some(q) && bound_outcome(form_pairs(encode_utf8(q@)), "before"@) is Ok
            && last_value(form_pairs(encode_utf8(q@)), "after"@) == Some(value),
        decimal_value(value) is None,
        step_holds(Stage::Connecting(request), Event::Connected, next, action),
    ensures
        next is Done,
        action matches Action::Respond(resp) && resp.status == INTERNAL_SERVER_ERROR
            && resp.content_type == Some(ContentKind::Json) && resp.body@ == error_body(
            "Error parsing '"@ + "after"@ + "': "@ + int_error_text(value),
        ),
{
}

/// A request to another path, or with another method than GET or POST on
/// `/`, is answered 404 with no body, and the store is neither written nor
/// read.
pub proof fn unknown_route_is_not_found(request: Request, next: Stage, action: Action)
    requires
        route_of(request.method, request.path@) == Route::Unknown,
        step_holds(Stage::Connecting(request), Event::Connected, next, action),
    ensures
        next is Done,
        action matches Action::Respond(resp) && resp.status == NOT_FOUND && resp.body@.len() == 0
            && resp.wf(),
{
}

} // verus!
