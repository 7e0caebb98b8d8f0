use microservice::database::resolve_database_url;
use microservice::text::same_text;
use microservice::functions::{parse_form, parse_query, ValidationError};
use microservice::microservice::{Action, Event, Method, Microservice, Request, Route, Stage};
use microservice::models::{Message, NewMessage, TimeRange};
use microservice::response::{
    make_error_response, make_get_response, make_post_response, render_page, ContentKind,
    Response, StoreError,
};

fn record(id: i32, username: &str, message: &str, timestamp: i64) -> Message {
    Message {
        id,
        username: username.to_string(),
        message: message.to_string(),
        timestamp,
    }
}

fn request(method: Method, path: &str, query: Option<&str>) -> Request {
    Request {
        method,
        path: path.to_string(),
        query: query.map(|q| q.to_string()),
    }
}

fn expect_insert(action: Action) -> NewMessage {
    match action {
        Action::Insert(m) => m,
        _ => panic!("expected an insert"),
    }
}

fn expect_response(action: Action) -> Response {
    match action {
        Action::Respond(r) => r,
        _ => panic!("expected a response"),
    }
}

fn expect_scan(action: Action) -> TimeRange {
    match action {
        Action::Scan(t) => t,
        _ => panic!("expected a scan"),
    }
}

const PAGE_HEAD: &str =
    "<head><title>microservice</title><style>body {font-family: monospace</style></head><body><ul>";

#[test]
fn form_with_username_and_message() {
    let m = parse_form(b"username=bob&message=hello").ok().unwrap();
    assert_eq!(m.username, "bob");
    assert_eq!(m.message, "hello");
}

#[test]
fn form_is_percent_decoded() {
    let m = parse_form(b"message=a+b%21&username=J%C3%BCrgen").ok().unwrap();
    assert_eq!(m.message, "a b!");
    assert_eq!(m.username, "Jürgen");
}

#[test]
fn form_without_username_defaults() {
    let m = parse_form(b"message=hi").ok().unwrap();
    assert_eq!(m.username, "anonymous");
    assert_eq!(m.message, "hi");
}

#[test]
fn form_keeps_last_of_repeated_fields_and_ignores_others() {
    let m = parse_form(b"message=one&color=red&message=two").ok().unwrap();
    assert_eq!(m.message, "two");
}

#[test]
fn form_without_message_is_refused() {
    match parse_form(b"username=bob&other=1") {
        Err(e) => {
            assert!(matches!(&e, ValidationError::MissingField(f) if f == "message"));
            assert_eq!(e.describe(), "Missing field 'message'");
        }
        Ok(_) => panic!("a form without a message was accepted"),
    }
}

#[test]
fn form_with_empty_message_is_refused() {
    assert!(parse_form(b"message=&username=bob").is_err());
    assert!(parse_form(b"").is_err());
}

#[test]
fn query_with_both_bounds() {
    let t = parse_query("before=10&after=5").ok().unwrap();
    assert_eq!(t.before, Some(10));
    assert_eq!(t.after, Some(5));
}

#[test]
fn query_with_one_bound_and_signs() {
    let t = parse_query("after=-3").ok().unwrap();
    assert_eq!(t.before, None);
    assert_eq!(t.after, Some(-3));
    let t = parse_query("before=%2B8").ok().unwrap();
    assert_eq!(t.before, Some(8));
}

#[test]
fn empty_query_has_no_bounds() {
    let t = parse_query("").ok().unwrap();
    assert_eq!(t.before, None);
    assert_eq!(t.after, None);
}

#[test]
fn unparsable_before_names_the_field() {
    match parse_query("before=abc&after=1") {
        Err(e) => {
            assert!(matches!(&e, ValidationError::Unparsable { field, .. } if field == "before"));
            assert_eq!(
                e.describe(),
                "Error parsing 'before': invalid digit found in string"
            );
        }
        Ok(_) => panic!("an unparsable bound was accepted"),
    }
}

#[test]
fn unparsable_after_names_the_field() {
    match parse_query("before=4&after=") {
        Err(e) => {
            assert!(matches!(&e, ValidationError::Unparsable { field, .. } if field == "after"));
            assert_eq!(
                e.describe(),
                "Error parsing 'after': cannot parse integer from empty string"
            );
        }
        Ok(_) => panic!("an empty bound was accepted"),
    }
}

#[test]
fn too_large_bound_is_refused() {
    assert!(parse_query("before=9223372036854775808").is_err());
    let t = parse_query("before=9223372036854775807").ok().unwrap();
    assert_eq!(t.before, Some(i64::MAX));
}

#[test]
fn post_response_reports_timestamp() {
    let r = make_post_response(Ok(1234));
    assert_eq!(r.status, 200);
    assert_eq!(r.content_type, Some(ContentKind::Json));
    assert_eq!(r.body, "{\"timestamp\":1234}");
    assert_eq!(r.content_length, 18);
}

#[test]
fn post_response_with_negative_timestamp() {
    let r = make_post_response(Ok(-5));
    assert_eq!(r.body, "{\"timestamp\":-5}");
    assert_eq!(r.content_length, r.body.len());
}

#[test]
fn post_response_of_store_failure() {
    let r = make_post_response(Err(StoreError));
    assert_eq!(r.status, 500);
    assert_eq!(r.body, "{\"error\":\"service error\"}");
    assert_eq!(r.content_length, r.body.len());
}

#[test]
fn error_response_escapes_json() {
    let r = make_error_response("say \"hi\"\\");
    assert_eq!(r.status, 500);
    assert_eq!(r.content_type, Some(ContentKind::Json));
    assert_eq!(r.body, "{\"error\":\"say \\\"hi\\\"\\\\\"}");
}

#[test]
fn content_length_counts_bytes() {
    let r = make_error_response("é");
    assert_eq!(r.body, "{\"error\":\"é\"}");
    assert_eq!(r.content_length, 14);
}

#[test]
fn page_lists_records_escaped() {
    let page = render_page(vec![
        record(1, "a<b", "fish & chips", 7),
        record(2, "carol", "\"quoted\"", -1),
    ]);
    let expected = format!(
        "{}<li>a&lt;b (7): fish &amp; chips</li><li>carol (-1): &quot;quoted&quot;</li></ul></body>",
        PAGE_HEAD
    );
    assert_eq!(page, expected);
}

#[test]
fn empty_page() {
    assert_eq!(render_page(vec![]), format!("{}</ul></body>", PAGE_HEAD));
}

#[test]
fn get_response_of_records_and_of_failure() {
    let r = make_get_response(Some(vec![record(1, "x", "y", 3)]));
    assert_eq!(r.status, 200);
    assert_eq!(r.content_type, Some(ContentKind::Html));
    assert_eq!(r.content_length, r.body.len());
    assert!(r.body.contains("<li>x (3): y</li>"));
    let r = make_get_response(None);
    assert_eq!(r.status, 500);
    assert_eq!(r.body, "");
    assert_eq!(r.content_length, 0);
}

#[test]
fn window_bounds_are_exclusive_on_values() {
    let t = TimeRange {
        before: Some(10),
        after: Some(5),
    };
    assert!(!t.admits(5));
    assert!(t.admits(6));
    assert!(t.admits(9));
    assert!(!t.admits(10));
    let kept = t.select(vec![
        record(1, "a", "at lower", 5),
        record(2, "b", "inside", 7),
        record(3, "c", "at upper", 10),
        record(4, "d", "also inside", 9),
    ]);
    let ids: Vec<i32> = kept.iter().map(|m| m.id).collect();
    assert_eq!(ids, vec![2, 4]);
}

#[test]
fn unbounded_window_keeps_everything() {
    let t = TimeRange::unbounded();
    let kept = t.select(vec![
        record(1, "a", "x", i64::MIN),
        record(2, "b", "y", 0),
        record(3, "c", "z", i64::MAX),
    ]);
    assert_eq!(kept.len(), 3);
}

#[test]
fn routes() {
    let s = Microservice;
    assert_eq!(s.route(Method::Post, "/"), Route::Submit);
    assert_eq!(s.route(Method::Get, "/"), Route::List);
    assert_eq!(s.route(Method::Other, "/"), Route::Unknown);
    assert_eq!(s.route(Method::Get, "/messages"), Route::Unknown);
    assert_eq!(s.route(Method::Post, ""), Route::Unknown);
}

#[test]
fn submission_round_trip() {
    let s = Microservice;
    let (stage, action) = s.call(request(Method::Post, "/", None));
    assert!(matches!(action, Action::Connect));
    let (stage, action) = s.step(stage, Event::Connected);
    assert!(matches!(stage, Stage::ReadingBody));
    assert!(matches!(action, Action::ReadBody));
    let (stage, action) = s.step(stage, Event::BodyRead(b"message=hello".to_vec()));
    assert!(matches!(stage, Stage::Inserting));
    let m = expect_insert(action);
    assert_eq!(m.username, "anonymous");
    assert_eq!(m.message, "hello");
    let (stage, action) = s.step(stage, Event::Inserted(Ok(1700000000)));
    assert!(matches!(stage, Stage::Done));
    let r = expect_response(action);
    assert_eq!(r.status, 200);
    assert_eq!(r.body, "{\"timestamp\":1700000000}");
}

#[test]
fn submission_without_message_never_inserts() {
    let s = Microservice;
    let (stage, _) = s.call(request(Method::Post, "/", None));
    let (stage, _) = s.step(stage, Event::Connected);
    let (stage, action) = s.step(stage, Event::BodyRead(b"username=bob".to_vec()));
    assert!(matches!(stage, Stage::Done));
    let r = expect_response(action);
    assert_eq!(r.status, 500);
    assert_eq!(r.body, "{\"error\":\"Missing field 'message'\"}");
}

#[test]
fn submission_with_store_failure() {
    let s = Microservice;
    let (_, action) = s.step(Stage::Inserting, Event::Inserted(Err(StoreError)));
    let r = expect_response(action);
    assert_eq!(r.status, 500);
    assert_eq!(r.body, "{\"error\":\"service error\"}");
}

#[test]
fn listing_without_query_lists_everything() {
    let s = Microservice;
    let (stage, _) = s.call(request(Method::Get, "/", None));
    let (stage, action) = s.step(stage, Event::Connected);
    let t = expect_scan(action);
    assert_eq!(t.before, None);
    assert_eq!(t.after, None);
    let records = vec![
        record(1, "anonymous", "first", 1),
        record(2, "bob", "second", 2),
        record(3, "eve", "third", 3),
    ];
    let (_, action) = s.step(stage, Event::Scanned(Some(records)));
    let r = expect_response(action);
    assert_eq!(r.status, 200);
    assert!(r.body.contains("<li>anonymous (1): first</li>"));
    assert!(r.body.contains("<li>bob (2): second</li>"));
    assert!(r.body.contains("<li>eve (3): third</li>"));
}

#[test]
fn listing_with_window_leaves_out_the_bounds() {
    let s = Microservice;
    let (stage, _) = s.call(request(Method::Get, "/", Some("after=1&before=3")));
    let (stage, action) = s.step(stage, Event::Connected);
    let t = expect_scan(action);
    assert_eq!(t.after, Some(1));
    assert_eq!(t.before, Some(3));
    let records = vec![
        record(1, "a", "low", 1),
        record(2, "b", "mid", 2),
        record(3, "c", "high", 3),
    ];
    let (_, action) = s.step(stage, Event::Scanned(Some(records)));
    let r = expect_response(action);
    assert_eq!(
        r.body,
        format!("{}<li>b (2): mid</li></ul></body>", PAGE_HEAD)
    );
}

#[test]
fn listing_with_bad_bound_never_scans() {
    let s = Microservice;
    let (stage, _) = s.call(request(Method::Get, "/", Some("before=abc")));
    let (stage, action) = s.step(stage, Event::Connected);
    assert!(matches!(stage, Stage::Done));
    let r = expect_response(action);
    assert_eq!(r.status, 500);
    assert_eq!(
        r.body,
        "{\"error\":\"Error parsing 'before': invalid digit found in string\"}"
    );
}

#[test]
fn listing_with_store_failure_has_no_body() {
    let s = Microservice;
    let (_, action) = s.step(Stage::Scanning(TimeRange::unbounded()), Event::Scanned(None));
    let r = expect_response(action);
    assert_eq!(r.status, 500);
    assert_eq!(r.body, "");
}

#[test]
fn unknown_routes_are_not_found() {
    let s = Microservice;
    for (method, path) in [
        (Method::Get, "/other"),
        (Method::Post, "/x"),
        (Method::Other, "/"),
    ] {
        let (stage, _) = s.call(request(method, path, None));
        let (stage, action) = s.step(stage, Event::Connected);
        assert!(matches!(stage, Stage::Done));
        let r = expect_response(action);
        assert_eq!(r.status, 404);
        assert_eq!(r.body, "");
        assert_eq!(r.content_length, 0);
    }
}

#[test]
fn no_connection_is_internal_error() {
    let s = Microservice;
    let (stage, _) = s.call(request(Method::Post, "/", None));
    let (stage, action) = s.step(stage, Event::NoConnection);
    assert!(matches!(stage, Stage::Done));
    let r = expect_response(action);
    assert_eq!(r.status, 500);
    assert_eq!(r.body, "");
}

#[test]
fn event_out_of_turn_is_internal_error() {
    let s = Microservice;
    let (_, action) = s.step(Stage::ReadingBody, Event::Connected);
    let r = expect_response(action);
    assert_eq!(r.status, 500);
}

#[test]
fn database_url_defaults_when_unset() {
    assert_eq!(
        resolve_database_url(None),
        "postgresql://postgres@localhost:5432"
    );
    assert_eq!(
        resolve_database_url(Some("postgresql://db:5432/board".to_string())),
        "postgresql://db:5432/board"
    );
}

#[test]
fn texts_compare_by_characters() {
    assert!(same_text("/", "/"));
    assert!(!same_text("/", "/a"));
    assert!(!same_text("ab", "ac"));
    assert!(same_text("", ""));
}
