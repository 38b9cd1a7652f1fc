//! The calls into serde_json that the protocol relies on, with what they
//! are trusted to return.
use vstd::prelude::*;

verus! {

/// serde_json's document type, carried through to the progress sink.
#[verifier::external_type_specification]
#[verifier::external_body]
pub struct ExValue(serde_json::Value);

/// The mathematical value of a JSON document; a number is kept as the text
/// that serde_json writes for it.
pub enum JsonModel {
    Null,
    Bool(bool),
    Number(Seq<char>),
    Str(Seq<char>),
    Array(Seq<JsonModel>),
    Object(Map<Seq<char>, JsonModel>),
}

/// What a `serde_json::Value` holds.
pub uninterp spec fn json_view(v: serde_json::Value) -> JsonModel;

/// The document that serde_json reads from a text, if the text holds exactly
/// one JSON document.
pub uninterp spec fn json_parse(s: Seq<char>) -> Option<JsonModel>;

/// The lower-case hexadecimal digit of a number below 16.
pub open spec fn hex_digit(n: u32) -> char {
    seq!['0', '1', '2', '3', '4', '5', '6', '7', '8', '9', 'a', 'b', 'c', 'd', 'e', 'f'][n as int]
}

/// How one character stands inside a JSON string literal: quote and
/// backslash are escaped, the control characters take their short escape or
/// `\u00XX`, every other character stands for itself.
pub open spec fn escaped_char(c: char) -> Seq<char> {
    let n = c as u32;
    if c == '"' {
        seq!['\\', '"']
    } else if c == '\\' {
        seq!['\\', '\\']
    } else if n == 8 {
        seq!['\\', 'b']
    } else if n == 9 {
        seq!['\\', 't']
    } else if n == 10 {
        seq!['\\', 'n']
    } else if n == 12 {
        seq!['\\', 'f']
    } else if n == 13 {
        seq!['\\', 'r']
    } else if n < 32 {
        seq!['\\', 'u', '0', '0', hex_digit(n / 16), hex_digit(n % 16)]
    } else {
        seq![c]
    }
}

/// The characters of a text, each as it stands inside a JSON string literal.
pub open spec fn escaped(s: Seq<char>) -> Seq<char>
    decreases s.len(),
{
    if s.len() == 0 {
        Seq::empty()
    } else {
        escaped(s.drop_last()) + escaped_char(s.last())
    }
}

/// The JSON string literal of a text: the escaped text between quotes.
pub open spec fn json_quoted(s: Seq<char>) -> Seq<char> {
    seq!['"'] + escaped(s) + seq!['"']
}

/// The views of an optional value.
pub open spec fn opt_json(o: Option<serde_json::Value>) -> Option<JsonModel> {
    match o {
        Some(v) => Some(json_view(v)),
        None => None,
    }
}

/// The member of an object under a key; none for a missing key or a value
/// that is not an object.
pub open spec fn model_member(m: JsonModel, key: Seq<char>) -> Option<JsonModel> {
    match m {
        JsonModel::Object(o) => if o.contains_key(key) {
            Some(o[key])
        } else {
            None
        },
        _ => None,
    }
}

/// The text of a string; none for any other kind of value.
pub open spec fn model_text(m: JsonModel) -> Option<Seq<char>> {
    match m {
        JsonModel::Str(s) => Some(s),
        _ => None,
    }
}

/// The texts of an array whose items are all strings; none otherwise.
pub open spec fn model_strings(m: JsonModel) -> Option<Seq<Seq<char>>> {
    match m {
        JsonModel::Array(xs) => if forall|i: int| 0 <= i < xs.len() ==> (#[trigger] xs[i]) is Str {
            Some(xs.map_values(|x: JsonModel| x->Str_0))
        } else {
            None
        },
        _ => None,
    }
}

/// The view of an optional string.
pub open spec fn opt_text(o: Option<String>) -> Option<Seq<char>> {
    match o {
        Some(s) => Some(s@),
        None => None,
    }
}

/// Relies on serde_json::from_str::<Value>: parses one JSON document from the
/// whole text, failing on anything else.
#[verifier::external_body]
pub(crate) fn parse_document(text: &str) -> (r: Option<serde_json::Value>)
    ensures
        opt_json(r) == json_parse(text@),
{
    serde_json::from_str::<serde_json::Value>(text).ok()
}

/// Relies on serde_json::Value::get with a string key: looks a key up in an
/// object.
#[verifier::external_body]
pub(crate) fn member(v: &serde_json::Value, key: &str) -> (r: Option<serde_json::Value>)
    ensures
        opt_json(r) == model_member(json_view(*v), key@),
{
    v.get(key).cloned()
}

/// Relies on serde_json::Value::as_str: the text of a string value.
#[verifier::external_body]
pub(crate) fn as_text(v: &serde_json::Value) -> (r: Option<String>)
    ensures
        opt_text(r) == model_text(json_view(*v)),
{
    v.as_str().map(|s| s.to_string())
}

/// Relies on serde_json::from_value::<Vec<String>>: reads an array of strings.
#[verifier::external_body]
pub(crate) fn as_strings(v: serde_json::Value) -> (r: Option<Vec<String>>)
    ensures
        match r {
            Some(items) => model_strings(json_view(v)) == Some(items.deep_view()),
            None => model_strings(json_view(v)).is_none(),
        },
{
    serde_json::from_value::<Vec<String>>(v).ok()
}

/// Relies on serde_json::to_string on a `str`: writes the string literal,
/// escaping by its table of escapes; writing into memory cannot fail.
#[verifier::external_body]
pub(crate) fn quote(s: &str) -> (r: String)
    ensures
        r@ == json_quoted(s@),
{
    serde_json::to_string(s).unwrap_or_default()
}

} // verus!
