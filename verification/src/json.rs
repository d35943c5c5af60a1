//! The top level of a JSON object, as far as the connector reads JSON: each
//! member's name with its value when that value is a string, an unsigned
//! integer or a boolean.
use vstd::prelude::*;

verus! {

#[derive(Debug, Clone, PartialEq, Eq)]
pub enum JsonScalar {
    Text(String),
    Unsigned(u64),
    Flag(bool),
    Other,
}

#[derive(Debug, Clone, PartialEq, Eq)]
pub struct JsonField {
    pub name: String,
    pub value: JsonScalar,
}

pub enum ScalarView {
    Text(Seq<char>),
    Unsigned(u64),
    Flag(bool),
    Other,
}

pub struct FieldView {
    pub name: Seq<char>,
    pub value: ScalarView,
}

impl View for JsonScalar {
    type V = ScalarView;

    open spec fn view(&self) -> ScalarView {
        match self {
            JsonScalar::Text(s) => ScalarView::Text(s@),
            JsonScalar::Unsigned(n) => ScalarView::Unsigned(*n),
            JsonScalar::Flag(b) => ScalarView::Flag(*b),
            JsonScalar::Other => ScalarView::Other,
        }
    }
}

impl View for JsonField {
    type V = FieldView;

    open spec fn view(&self) -> FieldView {
        FieldView { name: self.name@, value: self.value@ }
    }
}

pub open spec fn fields_view(v: Seq<JsonField>) -> Seq<FieldView> {
    v.map_values(|f: JsonField| f@)
}

pub open spec fn fields_result(r: Result<Vec<JsonField>, String>) -> Result<Seq<FieldView>, Seq<char>> {
    match r {
        Ok(v) => Ok(fields_view(v@)),
        Err(e) => Err(e@),
    }
}

/// What `serde_json` makes of `text` when asked for a `Value`: the members of
/// the top-level object (none when the document is not an object), or the
/// parser's error message when `text` is not JSON.
pub uninterp spec fn json_object_fields(text: Seq<char>) -> Result<Seq<FieldView>, Seq<char>>;

#[verifier::external_type_specification]
#[verifier::external_body]
pub struct ExJsonValue(serde_json::Value);

/// Converts one member of a `serde_json::Map` (moving its contents): strings,
/// booleans, and numbers that `Number::as_u64` accepts keep their value;
/// anything else becomes `Other`.
#[verifier::external_body]
fn field_of(member: (String, serde_json::Value)) -> JsonField {
    let (name, value) = member;
    let value = match value {
        serde_json::Value::String(s) => JsonScalar::Text(s),
        serde_json::Value::Bool(b) => JsonScalar::Flag(b),
        serde_json::Value::Number(n) => n.as_u64().map_or(JsonScalar::Other, JsonScalar::Unsigned),
        _ => JsonScalar::Other,
    };
    JsonField { name, value }
}

/// Calls `serde_json::from_str::<serde_json::Value>` on `text` and lists the
/// members of the top-level object. Claimed: the result is the named
/// `json_object_fields(text)`, a function of the text alone; nothing more is
/// claimed of it.
#[verifier::external_body]
pub(crate) fn parse_json_object_fields(text: &str) -> (r: Result<Vec<JsonField>, String>)
    ensures
        fields_result(r) == json_object_fields(text@),
{
    let value: serde_json::Value = serde_json::from_str(text).map_err(|err| err.to_string())?;
    let serde_json::Value::Object(map) = value else {
        return Ok(Vec::new());
    };
    Ok(map.into_iter().map(field_of).collect())
}

} // verus!
