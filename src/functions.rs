//! Decoding of submitted forms and of listing queries.
use vstd::prelude::*;
use vstd::string::StringSliceAdditionalSpecFns;

use crate::models::{NewMessage, NewMessageView, TimeRange};
use crate::text::{decimal_value, decode_pairs, form_pairs, int_error_text, parse_int, same_text};

verus! {

/// Why a client's input was refused.
pub enum ValidationError {
    /// A required field is absent (or empty).
    MissingField(String),
    /// A field is present but does not read as an integer.
    Unparsable { field: String, reason: String },
}

pub enum ValidationErrorView {
    MissingField(Seq<char>),
    Unparsable { field: Seq<char>, reason: Seq<char> },
}

impl View for ValidationError {
    type V = ValidationErrorView;

    open spec fn view(&self) -> ValidationErrorView {
        match self {
            ValidationError::MissingField(f) => ValidationErrorView::MissingField(f@),
            ValidationError::Unparsable { field, reason } => ValidationErrorView::Unparsable {
                field: field@,
                reason: reason@,
            },
        }
    }
}

/// The text that tells a client what was wrong.
pub open spec fn error_text(e: ValidationErrorView) -> Seq<char> {
    match e {
        ValidationErrorView::MissingField(f) => "Missing field '"@ + f + "'"@,
        ValidationErrorView::Unparsable { field, reason } => "Error parsing '"@ + field + "': "@
            + reason,
    }
}

impl ValidationError {
    /// The text that tells a client what was wrong.
    pub fn describe(&self) -> (r: String)
        ensures
            r@ == error_text(self@),
    {
        match self {
            ValidationError::MissingField(f) => {
                let mut s = String::from_str("Missing field '");
                s.append(f.as_str());
                s.append("'");
                s
            },
            ValidationError::Unparsable { field, reason } => {
                let mut s = String::from_str("Error parsing '");
                s.append(field.as_str());
                s.append("': ");
                s.append(reason.as_str());
                s
            },
        }
    }
}

/// The value of the last pair with this name: decoding into a map keeps the
/// last of equal names.
pub open spec fn last_value(pairs: Seq<(Seq<char>, Seq<char>)>, key: Seq<char>) -> Option<
    Seq<char>,
>
    decreases pairs.len(),
{
    if pairs.len() == 0 {
        None
    } else if pairs.last().0 == key {
        Some(pairs.last().1)
    } else {
        last_value(pairs.drop_last(), key)
    }
}

pub open spec fn pairs_view(v: Seq<(String, String)>) -> Seq<(Seq<char>, Seq<char>)> {
    v.map_values(|p: (String, String)| (p.0@, p.1@))
}

/// The name given to messages submitted without one.
pub open spec fn default_username() -> Seq<char> {
    "anonymous"@
}

/// The message that decoded pairs submit, if they hold a non-empty `message`.
pub open spec fn submitted(pairs: Seq<(Seq<char>, Seq<char>)>) -> Option<NewMessageView> {
    match last_value(pairs, "message"@) {
        Some(m) => if m.len() > 0 {
            Some(
                NewMessageView {
                    username: match last_value(pairs, "username"@) {
                        Some(u) => u,
                        None => default_username(),
                    },
                    message: m,
                },
            )
        } else {
            None
        },
        None => None,
    }
}

/// What one bound of a listing query reads as, or why it reads as nothing.
pub open spec fn bound_outcome(pairs: Seq<(Seq<char>, Seq<char>)>, key: Seq<char>) -> Result<
    Option<i64>,
    Seq<char>,
> {
    match last_value(pairs, key) {
        None => Ok(None),
        Some(v) => match decimal_value(v) {
            Some(x) => Ok(Some(x as i64)),
            None => Err(int_error_text(v)),
        },
    }
}

/// The window `(before, after)` that decoded query pairs ask for; `before` is
/// read first.
pub open spec fn query_outcome(pairs: Seq<(Seq<char>, Seq<char>)>) -> Result<
    (Option<i64>, Option<i64>),
    ValidationErrorView,
> {
    match bound_outcome(pairs, "before"@) {
        Err(reason) => Err(ValidationErrorView::Unparsable { field: "before"@, reason }),
        Ok(b) => match bound_outcome(pairs, "after"@) {
            Err(reason) => Err(ValidationErrorView::Unparsable { field: "after"@, reason }),
            Ok(a) => Ok((b, a)),
        },
    }
}

/// The value of the last pair named `key`.
pub fn lookup(pairs: &Vec<(String, String)>, key: &str) -> (r: Option<String>)
    ensures
        r matches Some(v) ==> last_value(pairs_view(pairs@), key@) == Some(v@),
        r is None ==> last_value(pairs_view(pairs@), key@) is None,
{
    let ghost all = pairs_view(pairs@);
    let mut i: usize = pairs.len();
    assert(all.subrange(0, i as int) =~= all);
    while i > 0
        invariant
            i <= pairs@.len(),
            all == pairs_view(pairs@),
            last_value(all, key@) == last_value(all.subrange(0, i as int), key@),
        decreases i,
    {
        let p = &pairs[i - 1];
        assert(all.subrange(0, i as int).drop_last() =~= all.subrange(0, i - 1));
        if same_text(p.0.as_str(), key) {
            return Some(p.1.clone());
        }
        i = i - 1;
    }
    None
}

/// Decodes a URL-encoded form into a new message. The `message` field is
/// required and must not be empty; `username` defaults when absent; other
/// fields are ignored.
pub fn parse_form(form: &[u8]) -> (r: Result<NewMessage, ValidationError>)
    ensures
        r is Ok <==> submitted(form_pairs(form@)) is Some,
        r matches Ok(m) ==> submitted(form_pairs(form@)) == Some(m@),
        r matches Err(e) ==> e@ == ValidationErrorView::MissingField("message"@),
{
    let pairs = decode_pairs(form);
    proof {
        assert(pairs_view(pairs@) == form_pairs(form@));
    }
    match lookup(&pairs, "message") {
        Some(message) => {
            if message.as_str().is_empty() {
                return Err(ValidationError::MissingField(String::from_str("message")));
            }
            let username = match lookup(&pairs, "username") {
                Some(u) => u,
                None => String::from_str("anonymous"),
            };
            Ok(NewMessage { username, message })
        },
        None => Err(ValidationError::MissingField(String::from_str("message"))),
    }
}

/// Reads one optional integer bound of a listing query.
fn parse_bound(pairs: &Vec<(String, String)>, key: &str) -> (r: Result<Option<i64>, String>)
    ensures
        r matches Ok(b) ==> bound_outcome(pairs_view(pairs@), key@) == Ok::<Option<i64>, Seq<char>>(b),
        r matches Err(e) ==> bound_outcome(pairs_view(pairs@), key@) == Err::<Option<i64>, Seq<char>>(e@),
{
    match lookup(pairs, key) {
        None => Ok(None),
        Some(v) => match parse_int(v.as_str()) {
            Ok(x) => Ok(Some(x)),
            Err(e) => Err(e),
        },
    }
}

/// Decodes a listing query into a time window. Absent bounds stay absent; a
/// bound that is no integer is refused, naming the field.
pub fn parse_query(query: &str) -> (r: Result<TimeRange, ValidationError>)
    ensures
        r matches Ok(t) ==> query_outcome(form_pairs(query.spec_bytes())) == Ok::<
            (Option<i64>, Option<i64>),
            ValidationErrorView,
        >((t.before, t.after)),
        r matches Err(e) ==> query_outcome(form_pairs(query.spec_bytes())) == Err::<
            (Option<i64>, Option<i64>),
            ValidationErrorView,
        >(e@),
{
    let pairs = decode_pairs(query.as_bytes());
    let before = match parse_bound(&pairs, "before") {
        Ok(b) => b,
        Err(reason) => {
            return Err(
                ValidationError::Unparsable { field: String::from_str("before"), reason },
            );
        },
    };
    let after = match parse_bound(&pairs, "after") {
        Ok(a) => a,
        Err(reason) => {
            return Err(ValidationError::Unparsable { field: String::from_str("after"), reason });
        },
    };
    Ok(TimeRange { before, after })
}

} // verus!
