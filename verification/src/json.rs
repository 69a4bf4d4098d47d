//! JSON values as the endpoints build them, and JSON string literals as
//! serde_json writes them.

use vstd::prelude::*;

verus! {

/// A JSON member value. The endpoints answer with one object whose values
/// are scalars, arrays of strings, or objects of string members.
pub enum JsonValue {
    Null,
    Bool(bool),
    Int(i64),
    Str(String),
    StrArray(Vec<String>),
    StrObject(Vec<(String, String)>),
}

/// A JSON member value as plain data.
pub enum JsonView {
    Null,
    Bool(bool),
    Int(int),
    Str(Seq<char>),
    StrArray(Seq<Seq<char>>),
    StrObject(Seq<(Seq<char>, Seq<char>)>),
}

impl JsonValue {
    /// The value as plain data.
    pub open spec fn view(&self) -> JsonView {
        match self {
            JsonValue::Null => JsonView::Null,
            JsonValue::Bool(b) => JsonView::Bool(*b),
            JsonValue::Int(i) => JsonView::Int(*i as int),
            JsonValue::Str(s) => JsonView::Str(s@),
            JsonValue::StrArray(v) => JsonView::StrArray(v@.map_values(|x: String| x@)),
            JsonValue::StrObject(v) => JsonView::StrObject(v@.map_values(|m: (String, String)| (m.0@, m.1@))),
        }
    }
}

/// A JSON object: its members in the order they were added. A renderer
/// writes them ordered by key, as serde_json's default map does.
pub struct JsonObject {
    pub members: Vec<(String, JsonValue)>,
}

impl JsonObject {
    /// The members as plain data.
    pub open spec fn view(&self) -> Seq<(Seq<char>, JsonView)> {
        self.members@.map_values(|m: (String, JsonValue)| (m.0@, m.1.view()))
    }

    /// An empty object.
    pub fn new() -> (r: JsonObject)
        ensures
            r.view() == Seq::<(Seq<char>, JsonView)>::empty(),
    {
        let r = JsonObject { members: Vec::new() };
        proof {
            assert(r.view() =~= Seq::<(Seq<char>, JsonView)>::empty());
        }
        r
    }

    /// Adds the member `key: value`.
    pub fn put(&mut self, key: &str, value: JsonValue)
        ensures
            final(self).view() == old(self).view().push((key@, value.view())),
    {
        self.members.push((key.to_owned(), value));
        proof {
            assert(self.view() =~= old(self).view().push((key@, value.view())));
        }
    }
}

/// A string member value.
pub fn json_str(s: &str) -> (r: JsonValue)
    ensures
        r.view() == JsonView::Str(s@),
{
    JsonValue::Str(s.to_owned())
}

/// Lower-case hexadecimal digit for `d < 16`.
pub open spec fn hex_lower(d: int) -> char {
    if d < 10 {
        ((d + 48) as u32) as char
    } else {
        ((d + 87) as u32) as char
    }
}

/// How serde_json writes one character inside a string literal: quote and
/// backslash get a backslash, the control characters with a short form
/// use it, the other control characters below U+0020 become `\u00XX`, and
/// everything else is written as is.
pub open spec fn json_escape_char(c: char) -> Seq<char> {
    if c == '"' {
        seq!['\\', '"']
    } else if c == '\\' {
        seq!['\\', '\\']
    } else if c == '\u{8}' {
        seq!['\\', 'b']
    } else if c == '\t' {
        seq!['\\', 't']
    } else if c == '\n' {
        seq!['\\', 'n']
    } else if c == '\u{c}' {
        seq!['\\', 'f']
    } else if c == '\r' {
        seq!['\\', 'r']
    } else if (c as u32) < 0x20 {
        seq!['\\', 'u', '0', '0', hex_lower((c as u32) as int / 16), hex_lower((c as u32) as int % 16)]
    } else {
        seq![c]
    }
}

/// The escaped contents of a JSON string literal.
pub open spec fn json_escape(s: Seq<char>) -> Seq<char>
    decreases s.len(),
{
    if s.len() == 0 {
        Seq::empty()
    } else {
        json_escape(s.drop_last()) + json_escape_char(s.last())
    }
}

/// The JSON string literal for `s`, quotes included.
pub open spec fn json_string_literal(s: Seq<char>) -> Seq<char> {
    seq!['"'] + json_escape(s) + seq!['"']
}

/// `serde_json::to_string` on a string slice: the quoted, escaped literal.
/// Writing into an in-memory buffer cannot fail, so the error arm is never
/// taken.
#[verifier::external_body]
pub(crate) fn json_quote(s: &str) -> (r: String)
    ensures
        r@ == json_string_literal(s@),
{
    match serde_json::to_string(s) {
        Ok(v) => v,
        Err(_) => String::new(),
    }
}

} // verus!
