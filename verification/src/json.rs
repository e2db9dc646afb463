//! The JSON boundary. Reading a text as a JSON object and writing a string
//! as a JSON literal are left to `serde_json`; what comes back is held in
//! plain values that the codec works on.

use vstd::prelude::*;
use crate::ident::spec_hex_digit;

verus! {

/// What a JSON object holds under one of its keys, as far as the protocol
/// looks: scalars with their content, arrays and objects by their kind only.
/// A number is kept as its decimal text.
#[derive(Clone, Debug, PartialEq, Eq)]
pub enum JsonValue {
    Null,
    Bool(bool),
    Number(String),
    Text(String),
    Array,
    Object,
}

/// One member of a JSON object.
#[derive(Clone, Debug, PartialEq, Eq)]
pub struct JsonField {
    pub name: String,
    pub value: JsonValue,
}

/// A value as contracts see it.
pub ghost enum JsonValueView {
    Null,
    Bool(bool),
    Number(Seq<char>),
    Text(Seq<char>),
    Array,
    Object,
}

/// A member as contracts see it.
pub ghost struct JsonFieldView {
    pub name: Seq<char>,
    pub value: JsonValueView,
}

impl View for JsonValue {
    type V = JsonValueView;

    open spec fn view(&self) -> JsonValueView {
        match *self {
            JsonValue::Null => JsonValueView::Null,
            JsonValue::Bool(b) => JsonValueView::Bool(b),
            JsonValue::Number(n) => JsonValueView::Number(n@),
            JsonValue::Text(t) => JsonValueView::Text(t@),
            JsonValue::Array => JsonValueView::Array,
            JsonValue::Object => JsonValueView::Object,
        }
    }
}

impl View for JsonField {
    type V = JsonFieldView;

    open spec fn view(&self) -> JsonFieldView {
        JsonFieldView { name: self.name@, value: self.value@ }
    }
}

/// The members of a list of fields, each by its view.
pub open spec fn fields_view(fields: Seq<JsonField>) -> Seq<JsonFieldView> {
    fields.map_values(|f: JsonField| f@)
}

/// The members of an optional list of fields.
pub open spec fn parsed_view(fields: Option<Vec<JsonField>>) -> Option<Seq<JsonFieldView>> {
    match fields {
        Some(list) => Some(fields_view(list@)),
        None => None,
    }
}

/// The members that `serde_json` finds when it reads `text` as one JSON
/// object, in the order in which its map hands them out; `None` where the
/// text is not a JSON object.
pub uninterp spec fn json_object_fields(text: Seq<char>) -> Option<Seq<JsonFieldView>>;

/// How one character stands in a JSON string literal: the double quote and
/// the backslash behind a backslash; backspace, tab, line feed, form feed
/// and carriage return by their letters; any other control character below
/// U+0020 as `\u00` and two hexadecimal digits; every other character as
/// itself.
pub open spec fn spec_escaped(c: char) -> Seq<char> {
    let code = c as u32;
    if code == 0x22 {
        seq!['\\', '"']
    } else if code == 0x5c {
        seq!['\\', '\\']
    } else if code == 0x08 {
        seq!['\\', 'b']
    } else if code == 0x09 {
        seq!['\\', 't']
    } else if code == 0x0a {
        seq!['\\', 'n']
    } else if code == 0x0c {
        seq!['\\', 'f']
    } else if code == 0x0d {
        seq!['\\', 'r']
    } else if code < 0x20 {
        seq!['\\', 'u', '0', '0', spec_hex_digit(code as int / 16), spec_hex_digit(code as int % 16)]
    } else {
        seq![c]
    }
}

/// A text with each character as it stands in a JSON string literal.
pub open spec fn spec_escaped_text(text: Seq<char>) -> Seq<char>
    decreases text.len(),
{
    if text.len() == 0 {
        Seq::<char>::empty()
    } else {
        spec_escaped_text(text.drop_last()) + spec_escaped(text.last())
    }
}

/// The JSON string literal of a text: the escaped text between double
/// quotes.
pub open spec fn spec_json_string_literal(text: Seq<char>) -> Seq<char> {
    seq!['"'] + spec_escaped_text(text) + seq!['"']
}

/// `serde_json::from_str`, reading a `serde_json::Map`. Each member is
/// handed out as a plain value: a number through its `Display`, an array or
/// an object by its kind. The claim is only that the result is a function of
/// the text, which `json_object_fields` names.
#[verifier::external_body]
pub(crate) fn parse_object(text: &str) -> (fields: Option<Vec<JsonField>>)
    ensures
        parsed_view(fields) == json_object_fields(text@),
{
    let object = serde_json::from_str::<serde_json::Map<String, serde_json::Value>>(text).ok()?;
    let mut fields = Vec::new();
    for (name, value) in object {
        let value = match value {
            serde_json::Value::Null => JsonValue::Null,
            serde_json::Value::Bool(b) => JsonValue::Bool(b),
            serde_json::Value::Number(n) => JsonValue::Number(n.to_string()),
            serde_json::Value::String(s) => JsonValue::Text(s),
            serde_json::Value::Array(_) => JsonValue::Array,
            serde_json::Value::Object(_) => JsonValue::Object,
        };
        fields.push(JsonField { name, value });
    }
    Some(fields)
}

/// `serde_json::to_string` of a string slice. Writing a string into a byte
/// vector cannot fail in `serde_json`, so the literal always comes back. It
/// is the text between double quotes, with the characters that
/// `serde_json` escapes escaped as it escapes them.
#[verifier::external_body]
pub(crate) fn quote(text: &str) -> (literal: String)
    ensures
        literal@ == spec_json_string_literal(text@),
{
    serde_json::to_string(text).unwrap_or_default()
}

} // verus!
