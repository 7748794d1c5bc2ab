//! JSON values as the decoder reads them, and the calls into `serde_json`
//! that parse a record and quote a text.

use vstd::prelude::*;
use crate::text::no_control;

verus! {

/// A JSON value, holding what the decoder reads of it.
#[derive(Debug, PartialEq, Eq)]
pub enum Json {
    Null,
    Bool(bool),
    /// A number; `Some` where it is a non-negative integer below 2^64, written
    /// without fraction or exponent.
    Number(Option<u64>),
    Text(String),
    Array(Vec<Json>),
    /// The members of an object, as they stand. A key may stand twice in a
    /// value that is built by hand, and no shape fits an object that repeats
    /// one of the shape's keys. A value that was parsed from text never
    /// repeats a key: the parser keeps the later of two members with the
    /// same key and forgets the earlier.
    Object(Vec<(String, Json)>),
}

#[verifier::external_type_specification]
#[verifier::external_body]
pub struct ExValue(serde_json::Value);

/// What `serde_json` makes of a text: the value it reads where the text is
/// one JSON value, else the words of its complaint. Of two members with the
/// same key the value holds the later.
pub uninterp spec fn json_of_text(text: Seq<char>) -> Result<Json, Seq<char>>;

/// The digit for a number below sixteen: `0` to `9`, then `a` to `f`.
pub open spec fn hex_digit(n: int) -> char {
    seq!['0', '1', '2', '3', '4', '5', '6', '7', '8', '9', 'a', 'b', 'c', 'd', 'e', 'f'][n]
}

/// A character as it stands inside a JSON string literal: the double quote
/// and the backslash behind a backslash; backspace, tab, line feed, form
/// feed and carriage return as `\b`, `\t`, `\n`, `\f`, `\r`; any other
/// character below U+0020 as `\u00` and two hex digits; every other
/// character as it is.
pub open spec fn escaped(c: char) -> Seq<char> {
    if c == '"' {
        seq!['\\', '"']
    } else if c == '\\' {
        seq!['\\', '\\']
    } else if c == '\u{8}' {
        seq!['\\', 'b']
    } else if c == '\t' {
        seq!['\\', 't']
    } else if c == '\n' {
        seq!['\\', 'n']
    } else if c == '\u{c}' {
        seq!['\\', 'f']
    } else if c == '\r' {
        seq!['\\', 'r']
    } else if (c as u32) < 0x20 {
        seq!['\\', 'u', '0', '0', hex_digit((c as u32 / 16) as int), hex_digit((c as u32 % 16) as int)]
    } else {
        seq![c]
    }
}

/// The characters of a text, each as it stands inside a JSON string literal.
pub open spec fn escaped_text(text: Seq<char>) -> Seq<char>
    decreases text.len(),
{
    if text.len() == 0 {
        Seq::empty()
    } else {
        escaped_text(text.drop_last()) + escaped(text.last())
    }
}

/// The JSON string literal for a text: its characters, escaped, between two
/// double quotes.
pub open spec fn json_quoted(text: Seq<char>) -> Seq<char> {
    seq!['"'] + escaped_text(text) + seq!['"']
}

/// No character inside a JSON string literal is a control character.
pub proof fn escaped_text_has_no_control(text: Seq<char>)
    ensures
        no_control(escaped_text(text)),
    decreases text.len(),
{
    if text.len() > 0 {
        escaped_text_has_no_control(text.drop_last());
        let c = text.last();
        assert(no_control(escaped(c))) by {
            if (c as u32) < 0x20 {
                assert(0 <= c as u32 / 16 < 2);
                assert(0 <= c as u32 % 16 < 16);
            }
        }
    }
}

/// A JSON string literal begins and ends with a double quote and holds no
/// control character: a line feed or a carriage return of the text stands in
/// it as two plain characters.
pub proof fn quoted_has_no_control(text: Seq<char>)
    ensures
        no_control(json_quoted(text)),
        json_quoted(text).len() >= 2,
        json_quoted(text).first() == '"',
        json_quoted(text).last() == '"',
{
    escaped_text_has_no_control(text);
}

/// Turns a `serde_json::Value` into a `Json`, variant by variant; a number
/// becomes what `serde_json::Number::as_u64` gives for it. Nothing is claimed
/// of the result here.
#[verifier::external_body]
fn json_from_value(value: serde_json::Value) -> Json {
    match value {
        serde_json::Value::Null => Json::Null,
        serde_json::Value::Bool(b) => Json::Bool(b),
        serde_json::Value::Number(n) => Json::Number(n.as_u64()),
        serde_json::Value::String(s) => Json::Text(s),
        serde_json::Value::Array(items) => Json::Array(
            items.into_iter().map(json_from_value).collect(),
        ),
        serde_json::Value::Object(members) => Json::Object(
            members.into_iter().map(|(k, v)| (k, json_from_value(v))).collect(),
        ),
    }
}

/// `serde_json::from_str`, read as a `serde_json::Value`. The contract names
/// the outcome: the value read where the text is one JSON value; where it is
/// not, the `Display` text of the error.
///
/// Where a key stands twice in an object of the text, `serde_json` keeps the
/// later member alone, so the value holds the key once and the repeat is not
/// seen by what reads the value: `{"p":1,"p":2}` comes out as the object
/// with `p` = 2.
#[verifier::external_body]
pub(crate) fn parse_json(text: &str) -> (r: Result<Json, String>)
    ensures
        match r {
            Ok(j) => json_of_text(text@) == Ok::<Json, Seq<char>>(j),
            Err(words) => json_of_text(text@) == Err::<Json, Seq<char>>(words@),
        },
{
    match serde_json::from_str::<serde_json::Value>(text) {
        Ok(value) => Ok(json_from_value(value)),
        Err(e) => Err(e.to_string()),
    }
}

/// The `Display` text of `serde_json::Value::String`: the JSON string
/// literal for a text, as `serde_json` escapes it.
#[verifier::external_body]
pub(crate) fn quote(text: &str) -> (r: String)
    ensures
        r@ == json_quoted(text@),
{
    serde_json::Value::String(text.to_owned()).to_string()
}

} // verus!
