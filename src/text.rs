//! Text building blocks: decimal integers, HTML escaping, JSON scalars and
//! URL-encoded pairs, each either stated as a spec function or named after
//! the outside function that computes it.
use vstd::prelude::*;

verus! {

/// The character of a decimal digit `d < 10`.
pub open spec fn digit_char(d: nat) -> char {
    seq!['0', '1', '2', '3', '4', '5', '6', '7', '8', '9'][d as int]
}

pub open spec fn is_digit(c: char) -> bool {
    '0' <= c && c <= '9'
}

/// The digits of a natural number, most significant first, without leading zeros.
pub open spec fn digits_text(n: nat) -> Seq<char>
    decreases n,
{
    if n < 10 {
        seq![digit_char(n)]
    } else {
        digits_text(n / 10).push(digit_char(n % 10))
    }
}

/// An integer written in decimal, with a leading `-` when negative.
pub open spec fn decimal_text(v: int) -> Seq<char> {
    if v < 0 {
        seq!['-'] + digits_text((-v) as nat)
    } else {
        digits_text(v as nat)
    }
}

/// The value of a run of decimal digits.
pub open spec fn digits_value(s: Seq<char>) -> int
    decreases s.len(),
{
    if s.len() == 0 {
        0
    } else {
        digits_value(s.drop_last()) * 10 + ((s.last() as u32) as int - ('0' as u32) as int)
    }
}

/// What a signed 64-bit integer reads from `s`: an optional `+` or `-`, then
/// one or more decimal digits and nothing else, of a value that fits.
pub open spec fn decimal_value(s: Seq<char>) -> Option<int> {
    let signed = s.len() > 0 && (s[0] == '+' || s[0] == '-');
    let ds = if signed { s.drop_first() } else { s };
    let v = if signed && s[0] == '-' { -digits_value(ds) } else { digits_value(ds) };
    if ds.len() > 0 && (forall|i: int| 0 <= i < ds.len() ==> is_digit(#[trigger] ds[i])) && i64::MIN
        <= v <= i64::MAX {
        Some(v)
    } else {
        None
    }
}

/// How one character is written in HTML text.
pub open spec fn escaped_char(c: char) -> Seq<char> {
    if c == '&' {
        seq!['&', 'a', 'm', 'p', ';']
    } else if c == '<' {
        seq!['&', 'l', 't', ';']
    } else if c == '>' {
        seq!['&', 'g', 't', ';']
    } else if c == '"' {
        seq!['&', 'q', 'u', 'o', 't', ';']
    } else {
        seq![c]
    }
}

/// Text with `&`, `<`, `>` and `"` replaced by their HTML entities.
pub open spec fn html_escaped(s: Seq<char>) -> Seq<char>
    decreases s.len(),
{
    if s.len() == 0 {
        seq![]
    } else {
        html_escaped(s.drop_last()) + escaped_char(s.last())
    }
}

/// A character that a JSON string holds as it is.
pub open spec fn json_plain_char(c: char) -> bool {
    c != '"' && c != '\\' && (c as u32) >= 0x20
}

/// The JSON string literal that serde_json writes for a text.
pub uninterp spec fn json_quoted(s: Seq<char>) -> Seq<char>;

/// The name/value pairs that the `application/x-www-form-urlencoded` parser
/// of the `form_urlencoded` crate decodes from some bytes, in order.
pub uninterp spec fn form_pairs(b: Seq<u8>) -> Seq<(Seq<char>, Seq<char>)>;

/// The text of the error that std gives for a string that is no `i64`.
pub uninterp spec fn int_error_text(s: Seq<char>) -> Seq<char>;

/// Relies on maud's `Render for str`: it escapes `&`, `<`, `>` and `"` and
/// copies everything else.
#[verifier::external_body]
pub(crate) fn escape_html(s: &str) -> (r: String)
    ensures
        r@ == html_escaped(s@),
{
    maud::Render::render(s).into_string()
}

/// Relies on maud's `Render for i64`, which writes the number with itoa.
#[verifier::external_body]
pub(crate) fn html_int(v: i64) -> (r: String)
    ensures
        r@ == decimal_text(v as int),
{
    maud::Render::render(&v).into_string()
}

/// Relies on serde_json's compact `Display` of a `Value::Number` made from an
/// `i64`, which writes the number with itoa.
#[verifier::external_body]
pub(crate) fn json_int(v: i64) -> (r: String)
    ensures
        r@ == decimal_text(v as int),
{
    serde_json::Value::from(v).to_string()
}

/// Relies on serde_json's compact `Display` of a `Value::String`: a quoted
/// literal in which only `"`, `\` and control characters are escaped.
#[verifier::external_body]
pub(crate) fn json_text(s: &str) -> (r: String)
    ensures
        r@ == json_quoted(s@),
        (forall|i: int| 0 <= i < s@.len() ==> json_plain_char(#[trigger] s@[i])) ==> r@ == seq![
            '"',
        ] + s@ + seq!['"'],
{
    serde_json::Value::from(s).to_string()
}

/// Relies on `form_urlencoded::parse` (re-exported by url): it splits the
/// bytes at `&` and `=` and percent-decodes each part; no bytes give no pairs.
#[verifier::external_body]
pub(crate) fn decode_pairs(b: &[u8]) -> (r: Vec<(String, String)>)
    ensures
        r@.map_values(|p: (String, String)| (p.0@, p.1@)) == form_pairs(b@),
        b@.len() == 0 ==> r@.len() == 0,
{
    url::form_urlencoded::parse(b).into_owned().collect()
}

/// Relies on `str::parse::<i64>`: it accepts exactly an optional sign and
/// decimal digits whose value fits; its error is given as its text.
#[verifier::external_body]
pub(crate) fn parse_int(s: &str) -> (r: Result<i64, String>)
    ensures
        decimal_value(s@) is Some <==> r is Ok,
        r matches Ok(v) ==> decimal_value(s@) == Some(v as int),
        r matches Err(e) ==> e@ == int_error_text(s@),
{
    match s.parse::<i64>() {
        Ok(v) => Ok(v),
        Err(e) => Err(e.to_string()),
    }
}

/// Whether two texts hold the same characters.
pub fn same_text(a: &str, b: &str) -> (r: bool)
    ensures
        r == (a@ == b@),
{
    let n = a.unicode_len();
    if n != b.unicode_len() {
        return false;
    }
    let mut i: usize = 0;
    while i < n
        invariant
            n == a@.len(),
            n == b@.len(),
            i <= n,
            forall|j: int| 0 <= j < i ==> a@[j] == b@[j],
        decreases n - i,
    {
        if a.get_char(i) != b.get_char(i) {
            return false;
        }
        i = i + 1;
    }
    assert(a@ =~= b@);
    true
}

} // verus!
