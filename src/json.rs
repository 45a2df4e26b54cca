//! The calls into `serde_json` that the wire protocol makes, and the model of
//! a parsed JSON document that their contracts speak of.
use vstd::prelude::*;

verus! {

#[verifier::external_type_specification]
#[verifier::external_body]
pub struct ExJsonValue(serde_json::Value);

#[verifier::external_type_specification]
#[verifier::external_body]
pub struct ExJsonError(serde_json::Error);

/// A JSON document as plain values. Booleans and numbers are not read by this
/// library and are told apart from the rest only.
pub enum JsonDoc {
    Null,
    Scalar,
    Str(Seq<char>),
    Arr(Seq<JsonDoc>),
    Obj(Map<Seq<char>, JsonDoc>),
}

/// The document `serde_json` reads from the text, or `None` where it rejects it.
pub uninterp spec fn json_doc(s: Seq<char>) -> Option<JsonDoc>;

/// Whether a value may start with this character once whitespace is skipped.
pub open spec fn json_value_start(c: char) -> bool {
    c == 'n' || c == 't' || c == 'f' || c == '-' || ('0' <= c && c <= '9') || c == '"' || c
        == '[' || c == '{' || c == ' ' || c == '\n' || c == '\t' || c == '\r'
}

pub open spec fn hex_digit(n: int) -> char {
    seq!['0', '1', '2', '3', '4', '5', '6', '7', '8', '9', 'a', 'b', 'c', 'd', 'e', 'f'][n]
}

/// How one character is written inside a JSON string literal.
pub open spec fn escape_char(c: char) -> Seq<char> {
    if c == '"' {
        seq!['\\', '"']
    } else if c == '\\' {
        seq!['\\', '\\']
    } else if c == '\u{8}' {
        seq!['\\', 'b']
    } else if c == '\t' {
        seq!['\\', 't']
    } else if c == '\n' {
        seq!['\\', 'n']
    } else if c == '\u{c}' {
        seq!['\\', 'f']
    } else if c == '\r' {
        seq!['\\', 'r']
    } else if (c as u32) < 0x20 {
        seq!['\\', 'u', '0', '0', hex_digit((c as u32) as int / 16), hex_digit((c as u32) as int % 16)]
    } else {
        seq![c]
    }
}

pub open spec fn escaped(s: Seq<char>) -> Seq<char>
    decreases s.len(),
{
    if s.len() == 0 {
        Seq::empty()
    } else {
        escaped(s.drop_last()) + escape_char(s.last())
    }
}

/// The JSON string literal of a text.
pub open spec fn json_quoted(s: Seq<char>) -> Seq<char> {
    seq!['"'] + escaped(s) + seq!['"']
}

/// A parsed JSON value, with the document it holds. The fields are private:
/// only the functions of this module make one, and their contracts state the
/// document.
pub struct Json {
    value: serde_json::Value,
    model: Ghost<JsonDoc>,
}

impl View for Json {
    type V = JsonDoc;

    closed spec fn view(&self) -> JsonDoc {
        self.model@
    }
}

/// Relies on `serde_json::from_str::<serde_json::Value>`: the document read
/// depends on the text alone; an empty text, or one whose first character
/// cannot start a value (whitespace aside), is an error.
#[verifier::external_body]
pub(crate) fn parse_json(s: &str) -> (r: Result<Json, serde_json::Error>)
    ensures
        match json_doc(s@) {
            Some(d) => r matches Ok(j) && j@ == d,
            None => r is Err,
        },
        s@.len() == 0 || !json_value_start(s@[0]) ==> r is Err,
{
    serde_json::from_str::<serde_json::Value>(s).map(|v| Json { value: v, model: Ghost(JsonDoc::Null) })
}

/// Relies on `serde_json::to_string` on a `str`: the text as a JSON string
/// literal, escaped as the `ESCAPE` table of its serializer says; writing into
/// memory cannot fail.
#[verifier::external_body]
pub(crate) fn quote(s: &str) -> (r: String)
    ensures
        r@ == json_quoted(s@),
{
    match serde_json::to_string(s) {
        Ok(t) => t,
        Err(_) => String::new(),
    }
}

/// Relies on `serde_json::Value::get` with a `str` key: the member of an
/// object under the key; nothing for any other value.
#[verifier::external_body]
pub(crate) fn member(v: &Json, key: &str) -> (r: Option<Json>)
    ensures
        match v@ {
            JsonDoc::Obj(m) => if m.contains_key(key@) {
                r matches Some(x) && x@ == m[key@]
            } else {
                r is None
            },
            _ => r is None,
        },
{
    v.value.get(key).map(|x| Json { value: x.clone(), model: Ghost(JsonDoc::Null) })
}

/// Relies on `serde_json::Value::as_str`: the text of a JSON string.
#[verifier::external_body]
pub(crate) fn as_text(v: &Json) -> (r: Option<String>)
    ensures
        match v@ {
            JsonDoc::Str(t) => r matches Some(x) && x@ == t,
            _ => r is None,
        },
{
    v.value.as_str().map(|t| t.to_string())
}

/// Relies on `serde_json::Value::as_array`: the items of a JSON array, in order.
#[verifier::external_body]
pub(crate) fn as_list(v: &Json) -> (r: Option<Vec<Json>>)
    ensures
        match v@ {
            JsonDoc::Arr(items) => r matches Some(xs) && xs@.len() == items.len() && forall|i: int|
                0 <= i < items.len() ==> (#[trigger] xs@[i])@ == items[i],
            _ => r is None,
        },
{
    v.value.as_array().map(|a| a.iter().map(|x| Json { value: x.clone(), model: Ghost(JsonDoc::Null) }).collect())
}

/// Relies on `serde_json::Value::is_null`.
#[verifier::external_body]
pub(crate) fn is_null(v: &Json) -> (r: bool)
    ensures
        r == (v@ is Null),
{
    v.value.is_null()
}

} // verus!
