//! JSON text.
use vstd::prelude::*;

verus! {

/// `serde_json::Value`: any JSON value. Nothing is known of what is inside.
#[verifier::external_type_specification]
#[verifier::external_body]
pub struct ExJsonValue(serde_json::Value);

/// `serde_json::Error`: why a value could not be written. Nothing is known of what is inside.
#[verifier::external_type_specification]
#[verifier::external_body]
pub struct ExJsonError(serde_json::Error);

/// The compact text that `serde_json` writes for a JSON value.
pub uninterp spec fn json_value_text(value: serde_json::Value) -> Seq<char>;

/// Calls `to_string` on a `serde_json::Value`, whose `Display` writes the value as compact JSON.
/// The text depends on the value alone.
#[verifier::external_body]
pub(crate) fn write_json_value(value: &serde_json::Value) -> (text: String)
    ensures
        text@ == json_value_text(*value),
{
    value.to_string()
}

/// A field of a flat JSON object.
#[derive(Debug, PartialEq, Eq)]
pub enum JsonField {
    Null,
    Number(u64),
    Text(String),
}

/// What a field of a flat JSON object holds.
pub enum JsonFieldView {
    Null,
    Number(u64),
    Text(Seq<char>),
}

impl View for JsonField {
    type V = JsonFieldView;

    open spec fn view(&self) -> JsonFieldView {
        match self {
            JsonField::Null => JsonFieldView::Null,
            JsonField::Number(number) => JsonFieldView::Number(*number),
            JsonField::Text(text) => JsonFieldView::Text(text@),
        }
    }
}

/// The field of a text that may be absent.
pub open spec fn optional_text(text: Option<String>) -> JsonFieldView {
    match text {
        Some(text) => JsonFieldView::Text(text@),
        None => JsonFieldView::Null,
    }
}

/// The field of a number that may be absent.
pub open spec fn optional_number(number: Option<u64>) -> JsonFieldView {
    match number {
        Some(number) => JsonFieldView::Number(number),
        None => JsonFieldView::Null,
    }
}

pub fn text_field(text: &Option<String>) -> (field: JsonField)
    ensures
        field@ == optional_text(*text),
{
    match text {
        Some(text) => JsonField::Text(text.clone()),
        None => JsonField::Null,
    }
}

pub fn number_field(number: Option<u64>) -> (field: JsonField)
    ensures
        field@ == optional_number(number),
{
    match number {
        Some(number) => JsonField::Number(number),
        None => JsonField::Null,
    }
}

/// The names and the contents of an object's fields, in order.
pub open spec fn fields_of(fields: Seq<(&'static str, JsonField)>) -> Seq<
    (Seq<char>, JsonFieldView),
> {
    fields.map_values(|field: (&'static str, JsonField)| (field.0@, field.1@))
}

/// The compact text that `serde_json` writes for an object with these fields, or its error where it
/// cannot write one.
pub uninterp spec fn json_object_text(fields: Seq<(Seq<char>, JsonFieldView)>) -> Result<
    Seq<char>,
    serde_json::Error,
>;

/// Calls `serde_json::to_string` on an object with these fields, in their order. The text depends
/// on the names and the contents of the fields alone.
#[verifier::external_body]
pub(crate) fn write_json_object(fields: &Vec<(&'static str, JsonField)>) -> (text: Result<
    String,
    serde_json::Error,
>)
    ensures
        (match text {
            Ok(text) => Ok(text@),
            Err(error) => Err(error),
        }) == json_object_text(fields_of(fields@)),
{
    let mut object = serde_json::Map::new();
    for (name, field) in fields {
        let value = match field {
            JsonField::Null => serde_json::Value::Null,
            JsonField::Number(number) => serde_json::Value::from(*number),
            JsonField::Text(text) => serde_json::Value::from(text.as_str()),
        };
        object.insert((*name).to_owned(), value);
    }
    serde_json::to_string(&object)
}

/// A `serde_json::Error` said this of itself when it was asked. One that came of input and output
/// says what the machine told, so of two askings it may hold with two texts.
pub uninterp spec fn described_json_error(error: serde_json::Error, text: String) -> bool;

/// Calls `to_string` on a `serde_json::Error`. Of the text it is only claimed that the error gave
/// it.
#[verifier::external_body]
pub(crate) fn describe_json_error(error: &serde_json::Error) -> (text: String)
    ensures
        described_json_error(*error, text),
{
    error.to_string()
}

} // verus!
