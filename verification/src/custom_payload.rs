//! Facts of user code, read from their normalized payloads.
use crate::event::{
    CustomNumber, CustomSeverity, DiagnosticAttributeValue, DiagnosticAttributes,
    DiagnosticDimension, DiagnosticDimensions, DiagnosticScalar, SpanOutcome,
};
use crate::ordered_names::put_in_order;
use crate::identifier::same_text;
use vstd::prelude::*;
use vstd::string::StringExecFns;

verus! {

/// An item of a payload, as far as it is there and of the expected type.
#[derive(Debug, PartialEq, Eq)]
pub enum Item<T> {
    Missing,
    WrongType,
    Present(T),
}

/// The value of a tagged item. A text is read as a number by its grammar, which gives the canonical
/// text or says what is wrong.
#[derive(Debug, PartialEq, Eq)]
pub enum WireValue {
    Boolean(bool),
    Text { text: String, integer: Result<String, String>, decimal: Result<String, String> },
    List(Vec<WireNode>),
    Other,
}

/// A tagged item of a payload.
#[derive(Debug, PartialEq, Eq)]
pub enum WireNode {
    NotAMapping,
    Tagged { tag: Item<String>, value: Item<WireValue> },
}

/// A named item of a payload. The name is absent where it is no text.
#[derive(Debug, PartialEq, Eq)]
pub struct WireEntry {
    pub name: Option<String>,
    pub node: WireNode,
}

/// A fact of user code as it comes in.
#[derive(Debug, PartialEq, Eq)]
pub enum NormalizedCandidate {
    Instant { name: Item<String>, severity: Item<String>, attributes: Item<Vec<WireEntry>> },
    Counter {
        counter: Item<String>,
        value: Item<WireNode>,
        unit: Item<Item<String>>,
        dimensions: Item<Vec<WireEntry>>,
    },
    SpanStart { span: Item<String>, span_attributes: Item<Vec<WireEntry>> },
    SpanFinish { outcome: Item<String> },
    Other,
}

/// A fact of user code.
#[derive(Debug, PartialEq, Eq)]
pub enum CustomCandidate {
    Instant { name: String, severity: CustomSeverity, attributes: DiagnosticAttributes },
    Counter {
        counter: String,
        value: CustomNumber,
        unit: Option<String>,
        dimensions: DiagnosticDimensions,
    },
    SpanStart { span: String, span_attributes: DiagnosticAttributes },
    SpanFinish { outcome: SpanOutcome },
}

/// What is wrong with a payload.
#[derive(Debug, PartialEq, Eq)]
pub enum CustomPayloadError {
    Missing { key: &'static str },
    WrongType,
    InvalidNumber { field: &'static str, reason: String },
    UnknownScalar,
    UnknownAttribute,
    UnknownDimension,
    UnknownNumber,
    InvalidSeverity,
    InvalidOutcome,
    NotACandidate,
}

impl CustomPayloadError {
    /// What the error says. A type error speaks for itself.
    pub open spec fn text(self) -> Option<Seq<char>> {
        match self {
            CustomPayloadError::Missing { key } => Some(
                "normalized custom payload is missing "@ + key@,
            ),
            CustomPayloadError::WrongType => None,
            CustomPayloadError::InvalidNumber { field, reason } => Some(
                "normalized custom "@ + field@ + " is invalid: "@ + reason@,
            ),
            CustomPayloadError::UnknownScalar => Some(
                "normalized custom scalar has an unknown type"@,
            ),
            CustomPayloadError::UnknownAttribute => Some(
                "normalized custom attribute has an unknown type"@,
            ),
            CustomPayloadError::UnknownDimension => Some(
                "normalized custom dimension has an unknown type"@,
            ),
            CustomPayloadError::UnknownNumber => Some(
                "normalized custom counter has an unknown number type"@,
            ),
            CustomPayloadError::InvalidSeverity => Some("normalized custom severity is invalid"@),
            CustomPayloadError::InvalidOutcome => Some("normalized custom span outcome is invalid"@),
            CustomPayloadError::NotACandidate => Some(
                "custom admission requires an exact normalized candidate"@,
            ),
        }
    }

    /// Describes the error to a reader.
    pub fn describe(&self) -> (text: Option<String>)
        ensures
            match text {
                Some(text) => self.text() == Some(text@),
                None => self.text() is None,
            },
    {
        match self {
            CustomPayloadError::Missing { key } => Some(
                "normalized custom payload is missing ".to_owned().concat(*key),
            ),
            CustomPayloadError::WrongType => None,
            CustomPayloadError::InvalidNumber { field, reason } => Some(
                "normalized custom ".to_owned().concat(*field).concat(" is invalid: ").concat(
                    reason.as_str(),
                ),
            ),
            CustomPayloadError::UnknownScalar => Some(
                "normalized custom scalar has an unknown type".to_owned(),
            ),
            CustomPayloadError::UnknownAttribute => Some(
                "normalized custom attribute has an unknown type".to_owned(),
            ),
            CustomPayloadError::UnknownDimension => Some(
                "normalized custom dimension has an unknown type".to_owned(),
            ),
            CustomPayloadError::UnknownNumber => Some(
                "normalized custom counter has an unknown number type".to_owned(),
            ),
            CustomPayloadError::InvalidSeverity => Some(
                "normalized custom severity is invalid".to_owned(),
            ),
            CustomPayloadError::InvalidOutcome => Some(
                "normalized custom span outcome is invalid".to_owned(),
            ),
            CustomPayloadError::NotACandidate => Some(
                "custom admission requires an exact normalized candidate".to_owned(),
            ),
        }
    }
}

/// The item, or what is wrong with it.
pub open spec fn spec_required<T>(item: Item<T>, key: &'static str) -> Result<
    T,
    CustomPayloadError,
> {
    match item {
        Item::Missing => Err(CustomPayloadError::Missing { key }),
        Item::WrongType => Err(CustomPayloadError::WrongType),
        Item::Present(value) => Ok(value),
    }
}

pub fn required_item<'a, T>(item: &'a Item<T>, key: &'static str) -> (value: Result<
    &'a T,
    CustomPayloadError,
>)
    ensures
        match *item {
            Item::Missing => value is Err && value->Err_0 == (CustomPayloadError::Missing { key }),
            Item::WrongType => value is Err && value->Err_0 == CustomPayloadError::WrongType,
            Item::Present(present) => value is Ok && *value->Ok_0 == present,
        },
{
    match item {
        Item::Missing => Err(CustomPayloadError::Missing { key }),
        Item::WrongType => Err(CustomPayloadError::WrongType),
        Item::Present(value) => Ok(value),
    }
}

/// The boolean, the number or the text that a tagged item holds.
pub open spec fn spec_boolean(value: Item<WireValue>) -> Result<bool, CustomPayloadError> {
    match spec_required(value, "value") {
        Ok(WireValue::Boolean(value)) => Ok(value),
        Ok(_) => Err(CustomPayloadError::WrongType),
        Err(error) => Err(error),
    }
}

pub open spec fn spec_reading(
    reading: Result<String, String>,
    field: &'static str,
) -> Result<String, CustomPayloadError> {
    match reading {
        Ok(text) => Ok(text),
        Err(reason) => Err(CustomPayloadError::InvalidNumber { field, reason }),
    }
}

pub open spec fn spec_integer(value: Item<WireValue>, field: &'static str) -> Result<
    String,
    CustomPayloadError,
> {
    match spec_required(value, "value") {
        Ok(WireValue::Text { integer, .. }) => spec_reading(integer, field),
        Ok(_) => Err(CustomPayloadError::WrongType),
        Err(error) => Err(error),
    }
}

pub open spec fn spec_decimal(value: Item<WireValue>, field: &'static str) -> Result<
    String,
    CustomPayloadError,
> {
    match spec_required(value, "value") {
        Ok(WireValue::Text { decimal, .. }) => spec_reading(decimal, field),
        Ok(_) => Err(CustomPayloadError::WrongType),
        Err(error) => Err(error),
    }
}

pub open spec fn spec_text(value: Item<WireValue>) -> Result<String, CustomPayloadError> {
    match spec_required(value, "value") {
        Ok(WireValue::Text { text, .. }) => Ok(text),
        Ok(_) => Err(CustomPayloadError::WrongType),
        Err(error) => Err(error),
    }
}

pub fn parse_boolean(value: &Item<WireValue>) -> (parsed: Result<bool, CustomPayloadError>)
    ensures
        parsed == spec_boolean(*value),
{
    match required_item(value, "value") {
        Ok(WireValue::Boolean(value)) => Ok(*value),
        Ok(_) => Err(CustomPayloadError::WrongType),
        Err(error) => Err(error),
    }
}

fn read_number(reading: &Result<String, String>, field: &'static str) -> (parsed: Result<
    String,
    CustomPayloadError,
>)
    ensures
        parsed == spec_reading(*reading, field),
{
    match reading {
        Ok(text) => Ok(text.clone()),
        Err(reason) => Err(CustomPayloadError::InvalidNumber { field, reason: reason.clone() }),
    }
}

pub fn parse_integer(value: &Item<WireValue>, field: &'static str) -> (parsed: Result<
    String,
    CustomPayloadError,
>)
    ensures
        parsed == spec_integer(*value, field),
{
    match required_item(value, "value") {
        Ok(WireValue::Text { integer, .. }) => read_number(integer, field),
        Ok(_) => Err(CustomPayloadError::WrongType),
        Err(error) => Err(error),
    }
}

pub fn parse_decimal(value: &Item<WireValue>, field: &'static str) -> (parsed: Result<
    String,
    CustomPayloadError,
>)
    ensures
        parsed == spec_decimal(*value, field),
{
    match required_item(value, "value") {
        Ok(WireValue::Text { decimal, .. }) => read_number(decimal, field),
        Ok(_) => Err(CustomPayloadError::WrongType),
        Err(error) => Err(error),
    }
}

pub fn parse_text(value: &Item<WireValue>) -> (parsed: Result<String, CustomPayloadError>)
    ensures
        parsed == spec_text(*value),
{
    match required_item(value, "value") {
        Ok(WireValue::Text { text, .. }) => Ok(text.clone()),
        Ok(_) => Err(CustomPayloadError::WrongType),
        Err(error) => Err(error),
    }
}

/// The tag of an item and its value.
pub open spec fn spec_tagged(node: WireNode) -> Result<
    (Seq<char>, Item<WireValue>),
    CustomPayloadError,
> {
    match node {
        WireNode::NotAMapping => Err(CustomPayloadError::WrongType),
        WireNode::Tagged { tag, value } => match spec_required(tag, "type") {
            Ok(tag) => Ok((tag@, value)),
            Err(error) => Err(error),
        },
    }
}

pub fn tagged<'a>(node: &'a WireNode) -> (parts: Result<
    (&'a String, &'a Item<WireValue>),
    CustomPayloadError,
>)
    ensures
        match parts {
            Ok(parts) => spec_tagged(*node) == Ok::<
                (Seq<char>, Item<WireValue>),
                CustomPayloadError,
            >((parts.0@, *parts.1)),
            Err(error) => spec_tagged(*node) == Err::<
                (Seq<char>, Item<WireValue>),
                CustomPayloadError,
            >(error),
        },
{
    match node {
        WireNode::NotAMapping => Err(CustomPayloadError::WrongType),
        WireNode::Tagged { tag, value } => match required_item(tag, "type") {
            Ok(tag) => Ok((tag, value)),
            Err(error) => Err(error),
        },
    }
}

/// The value that a tagged item stands for.
pub open spec fn spec_scalar(node: WireNode) -> Result<DiagnosticScalar, CustomPayloadError> {
    match spec_tagged(node) {
        Err(error) => Err(error),
        Ok((tag, value)) => if tag == "null"@ {
            Ok(DiagnosticScalar::Null)
        } else if tag == "boolean"@ {
            match spec_boolean(value) {
                Ok(value) => Ok(DiagnosticScalar::Boolean(value)),
                Err(error) => Err(error),
            }
        } else if tag == "integer"@ {
            match spec_integer(value, "integer") {
                Ok(value) => Ok(DiagnosticScalar::Integer(value)),
                Err(error) => Err(error),
            }
        } else if tag == "decimal"@ {
            match spec_decimal(value, "decimal") {
                Ok(value) => Ok(DiagnosticScalar::Decimal(value)),
                Err(error) => Err(error),
            }
        } else if tag == "string"@ {
            match spec_text(value) {
                Ok(value) => Ok(DiagnosticScalar::Text(value)),
                Err(error) => Err(error),
            }
        } else {
            Err(CustomPayloadError::UnknownScalar)
        },
    }
}

fn is(text: &String, literal: &'static str) -> (same: bool)
    ensures
        same == (text@ == literal@),
{
    same_text(text.as_str(), literal)
}

pub fn parse_scalar(node: &WireNode) -> (parsed: Result<DiagnosticScalar, CustomPayloadError>)
    ensures
        parsed == spec_scalar(*node),
{
    let (tag, value) = match tagged(node) {
        Ok(parts) => parts,
        Err(error) => return Err(error),
    };
    if is(tag, "null") {
        Ok(DiagnosticScalar::Null)
    } else if is(tag, "boolean") {
        match parse_boolean(value) {
            Ok(value) => Ok(DiagnosticScalar::Boolean(value)),
            Err(error) => Err(error),
        }
    } else if is(tag, "integer") {
        match parse_integer(value, "integer") {
            Ok(value) => Ok(DiagnosticScalar::Integer(value)),
            Err(error) => Err(error),
        }
    } else if is(tag, "decimal") {
        match parse_decimal(value, "decimal") {
            Ok(value) => Ok(DiagnosticScalar::Decimal(value)),
            Err(error) => Err(error),
        }
    } else if is(tag, "string") {
        match parse_text(value) {
            Ok(value) => Ok(DiagnosticScalar::Text(value)),
            Err(error) => Err(error),
        }
    } else {
        Err(CustomPayloadError::UnknownScalar)
    }
}

/// The first item that cannot be read, and why. All before it can.
pub open spec fn list_fails_at(nodes: Seq<WireNode>, place: int, error: CustomPayloadError) -> bool {
    &&& 0 <= place < nodes.len()
    &&& spec_scalar(nodes[place]) == Err::<DiagnosticScalar, CustomPayloadError>(error)
    &&& forall|i: int| 0 <= i < place ==> (#[trigger] spec_scalar(nodes[i])) is Ok
}

/// Each value stands for the item at its place.
pub open spec fn list_reads(nodes: Seq<WireNode>, values: Seq<DiagnosticScalar>) -> bool {
    &&& values.len() == nodes.len()
    &&& forall|i: int|
        0 <= i < nodes.len() ==> (#[trigger] spec_scalar(nodes[i])) == Ok::<
            DiagnosticScalar,
            CustomPayloadError,
        >(values[i])
}

pub fn parse_list(nodes: &Vec<WireNode>) -> (parsed: Result<
    Vec<DiagnosticScalar>,
    CustomPayloadError,
>)
    ensures
        match parsed {
            Ok(values) => list_reads(nodes@, values@),
            Err(error) => exists|place: int| list_fails_at(nodes@, place, error),
        },
{
    let mut values: Vec<DiagnosticScalar> = Vec::new();
    for i in 0..nodes.len()
        invariant
            values@.len() == i,
            forall|k: int|
                0 <= k < i ==> (#[trigger] spec_scalar(nodes@[k])) == Ok::<
                    DiagnosticScalar,
                    CustomPayloadError,
                >(values@[k]),
    {
        match parse_scalar(&nodes[i]) {
            Ok(value) => values.push(value),
            Err(error) => {
                assert(list_fails_at(nodes@, i as int, error));
                return Err(error);
            },
        }
    }
    Ok(values)
}

/// A plain attribute stands for a scalar, read under the names of attributes.
pub open spec fn spec_plain_attribute(tag: Seq<char>, value: Item<WireValue>) -> Result<
    DiagnosticScalar,
    CustomPayloadError,
> {
    if tag == "null"@ {
        Ok(DiagnosticScalar::Null)
    } else if tag == "boolean"@ {
        match spec_boolean(value) {
            Ok(value) => Ok(DiagnosticScalar::Boolean(value)),
            Err(error) => Err(error),
        }
    } else if tag == "integer"@ {
        match spec_integer(value, "attribute integer") {
            Ok(value) => Ok(DiagnosticScalar::Integer(value)),
            Err(error) => Err(error),
        }
    } else if tag == "decimal"@ {
        match spec_decimal(value, "attribute decimal") {
            Ok(value) => Ok(DiagnosticScalar::Decimal(value)),
            Err(error) => Err(error),
        }
    } else if tag == "string"@ {
        match spec_text(value) {
            Ok(value) => Ok(DiagnosticScalar::Text(value)),
            Err(error) => Err(error),
        }
    } else {
        Err(CustomPayloadError::UnknownAttribute)
    }
}

/// An item is read as this attribute.
pub open spec fn attribute_reads(node: WireNode, attribute: DiagnosticAttributeValue) -> bool {
    match spec_tagged(node) {
        Err(_) => false,
        Ok((tag, value)) => match attribute {
            DiagnosticAttributeValue::List(values) => {
                &&& tag == "list"@
                &&& spec_required(value, "value") matches Ok(WireValue::List(nodes))
                &&& list_reads(nodes@, values@)
            },
            DiagnosticAttributeValue::Scalar(scalar) => {
                &&& tag != "list"@
                &&& spec_plain_attribute(tag, value) == Ok::<DiagnosticScalar, CustomPayloadError>(
                    scalar,
                )
            },
        },
    }
}

/// An item cannot be read as an attribute, for this reason.
pub open spec fn attribute_fails(node: WireNode, error: CustomPayloadError) -> bool {
    match spec_tagged(node) {
        Err(tag_error) => error == tag_error,
        Ok((tag, value)) => if tag == "list"@ {
            match spec_required(value, "value") {
                Err(value_error) => error == value_error,
                Ok(WireValue::List(nodes)) => exists|place: int|
                    list_fails_at(nodes@, place, error),
                Ok(_) => error == CustomPayloadError::WrongType,
            }
        } else {
            spec_plain_attribute(tag, value) == Err::<DiagnosticScalar, CustomPayloadError>(error)
        },
    }
}

fn parse_plain_attribute(tag: &String, value: &Item<WireValue>) -> (parsed: Result<
    DiagnosticScalar,
    CustomPayloadError,
>)
    ensures
        parsed == spec_plain_attribute(tag@, *value),
{
    if is(tag, "null") {
        Ok(DiagnosticScalar::Null)
    } else if is(tag, "boolean") {
        match parse_boolean(value) {
            Ok(value) => Ok(DiagnosticScalar::Boolean(value)),
            Err(error) => Err(error),
        }
    } else if is(tag, "integer") {
        match parse_integer(value, "attribute integer") {
            Ok(value) => Ok(DiagnosticScalar::Integer(value)),
            Err(error) => Err(error),
        }
    } else if is(tag, "decimal") {
        match parse_decimal(value, "attribute decimal") {
            Ok(value) => Ok(DiagnosticScalar::Decimal(value)),
            Err(error) => Err(error),
        }
    } else if is(tag, "string") {
        match parse_text(value) {
            Ok(value) => Ok(DiagnosticScalar::Text(value)),
            Err(error) => Err(error),
        }
    } else {
        Err(CustomPayloadError::UnknownAttribute)
    }
}

pub fn parse_attribute(node: &WireNode) -> (parsed: Result<
    DiagnosticAttributeValue,
    CustomPayloadError,
>)
    ensures
        match parsed {
            Ok(attribute) => attribute_reads(*node, attribute),
            Err(error) => attribute_fails(*node, error),
        },
{
    let (tag, value) = match tagged(node) {
        Ok(parts) => parts,
        Err(error) => return Err(error),
    };
    if is(tag, "list") {
        let nodes = match required_item(value, "value") {
            Ok(WireValue::List(nodes)) => nodes,
            Ok(_) => return Err(CustomPayloadError::WrongType),
            Err(error) => return Err(error),
        };
        return match parse_list(nodes) {
            Ok(values) => Ok(DiagnosticAttributeValue::List(values)),
            Err(error) => Err(error),
        };
    }
    match parse_plain_attribute(tag, value) {
        Ok(scalar) => Ok(DiagnosticAttributeValue::Scalar(scalar)),
        Err(error) => Err(error),
    }
}

/// The dimension that a tagged item stands for.
pub open spec fn spec_dimension(node: WireNode) -> Result<DiagnosticDimension, CustomPayloadError> {
    match spec_tagged(node) {
        Err(error) => Err(error),
        Ok((tag, value)) => if tag == "boolean"@ {
            match spec_boolean(value) {
                Ok(value) => Ok(DiagnosticDimension::Boolean(value)),
                Err(error) => Err(error),
            }
        } else if tag == "integer"@ {
            match spec_integer(value, "dimension integer") {
                Ok(value) => Ok(DiagnosticDimension::Integer(value)),
                Err(error) => Err(error),
            }
        } else if tag == "decimal"@ {
            match spec_decimal(value, "dimension decimal") {
                Ok(value) => Ok(DiagnosticDimension::Decimal(value)),
                Err(error) => Err(error),
            }
        } else if tag == "string"@ {
            match spec_text(value) {
                Ok(value) => Ok(DiagnosticDimension::Text(value)),
                Err(error) => Err(error),
            }
        } else {
            Err(CustomPayloadError::UnknownDimension)
        },
    }
}

pub fn parse_dimension(node: &WireNode) -> (parsed: Result<DiagnosticDimension, CustomPayloadError>)
    ensures
        parsed == spec_dimension(*node),
{
    let (tag, value) = match tagged(node) {
        Ok(parts) => parts,
        Err(error) => return Err(error),
    };
    if is(tag, "boolean") {
        match parse_boolean(value) {
            Ok(value) => Ok(DiagnosticDimension::Boolean(value)),
            Err(error) => Err(error),
        }
    } else if is(tag, "integer") {
        match parse_integer(value, "dimension integer") {
            Ok(value) => Ok(DiagnosticDimension::Integer(value)),
            Err(error) => Err(error),
        }
    } else if is(tag, "decimal") {
        match parse_decimal(value, "dimension decimal") {
            Ok(value) => Ok(DiagnosticDimension::Decimal(value)),
            Err(error) => Err(error),
        }
    } else if is(tag, "string") {
        match parse_text(value) {
            Ok(value) => Ok(DiagnosticDimension::Text(value)),
            Err(error) => Err(error),
        }
    } else {
        Err(CustomPayloadError::UnknownDimension)
    }
}

/// The attributes are those of the entries, in the order of their names. Of entries with the same
/// name, the last one stays.
pub open spec fn attributes_read(entries: Seq<WireEntry>, attributes: DiagnosticAttributes) -> bool {
    exists|given: Seq<(String, DiagnosticAttributeValue)>|
        {
            &&& given.len() == entries.len()
            &&& forall|i: int|
                0 <= i < entries.len() ==> entry_is_attribute(#[trigger] entries[i], given[i])
            &&& #[trigger] crate::ordered_names::collected(given, attributes.entries@)
        }
}

/// An entry is read as this named attribute.
pub open spec fn entry_is_attribute(
    entry: WireEntry,
    named: (String, DiagnosticAttributeValue),
) -> bool {
    entry.name == Some(named.0) && attribute_reads(entry.node, named.1)
}

/// An entry cannot be read as an attribute, for this reason.
pub open spec fn entry_fails(entry: WireEntry, error: CustomPayloadError) -> bool {
    if entry.name is None {
        error == CustomPayloadError::WrongType
    } else {
        attribute_fails(entry.node, error)
    }
}

/// The entry at `place` cannot be read as an attribute, and all before it can.
pub open spec fn attributes_fail_at(
    entries: Seq<WireEntry>,
    place: int,
    error: CustomPayloadError,
) -> bool {
    &&& 0 <= place < entries.len()
    &&& entry_fails(entries[place], error)
    &&& forall|i: int| 0 <= i < place ==> entry_is_sound(#[trigger] entries[i])
}

/// An entry can be read as an attribute.
pub open spec fn entry_is_sound(entry: WireEntry) -> bool {
    exists|named: (String, DiagnosticAttributeValue)| entry_is_attribute(entry, named)
}

pub fn parse_attributes(entries: &Vec<WireEntry>) -> (parsed: Result<
    DiagnosticAttributes,
    CustomPayloadError,
>)
    ensures
        match parsed {
            Ok(attributes) => attributes_read(entries@, attributes),
            Err(error) => exists|place: int| attributes_fail_at(entries@, place, error),
        },
{
    let mut attributes: Vec<(String, DiagnosticAttributeValue)> = Vec::new();
    let ghost mut given: Seq<(String, DiagnosticAttributeValue)> = Seq::empty();
    for i in 0..entries.len()
        invariant
            given.len() == i,
            attributes@.len() <= i,
            crate::ordered_names::collected(given, attributes@),
            forall|k: int|
                0 <= k < i ==> entry_is_attribute(#[trigger] entries@[k], given[k]),
            forall|k: int| 0 <= k < i ==> entry_is_sound(#[trigger] entries@[k]),
    {
        let name = match &entries[i].name {
            Some(name) => name.clone(),
            None => {
                assert(attributes_fail_at(entries@, i as int, CustomPayloadError::WrongType));
                return Err(CustomPayloadError::WrongType);
            },
        };
        match parse_attribute(&entries[i].node) {
            Ok(attribute) => {
                assert(entry_is_attribute(entries@[i as int], (name, attribute)));
                let ghost named = (name, attribute);
                put_in_order(&mut attributes, name, attribute, Ghost(given));
                proof {
                    given = given.push(named);
                }
            },
            Err(error) => {
                assert(attributes_fail_at(entries@, i as int, error));
                return Err(error);
            },
        }
    }
    let read = DiagnosticAttributes { entries: attributes };
    assert(crate::ordered_names::collected(given, read.entries@));
    Ok(read)
}

/// The dimension that a named item stands for.
pub open spec fn spec_named_dimension(entry: WireEntry) -> Result<
    (String, DiagnosticDimension),
    CustomPayloadError,
> {
    match entry.name {
        None => Err(CustomPayloadError::WrongType),
        Some(name) => match spec_dimension(entry.node) {
            Ok(dimension) => Ok((name, dimension)),
            Err(error) => Err(error),
        },
    }
}

/// The dimensions are those of the entries, in the order of their names. Of entries with the same
/// name, the last one stays.
pub open spec fn dimensions_read(entries: Seq<WireEntry>, dimensions: DiagnosticDimensions) -> bool {
    exists|given: Seq<(String, DiagnosticDimension)>|
        {
            &&& given.len() == entries.len()
            &&& forall|i: int|
                0 <= i < entries.len() ==> (#[trigger] spec_named_dimension(entries[i])) == Ok::<
                    (String, DiagnosticDimension),
                    CustomPayloadError,
                >(given[i])
            &&& #[trigger] crate::ordered_names::collected(given, dimensions.entries@)
        }
}

/// The entry at `place` cannot be read as a dimension, and all before it can.
pub open spec fn dimensions_fail_at(
    entries: Seq<WireEntry>,
    place: int,
    error: CustomPayloadError,
) -> bool {
    &&& 0 <= place < entries.len()
    &&& spec_named_dimension(entries[place]) == Err::<
        (String, DiagnosticDimension),
        CustomPayloadError,
    >(error)
    &&& forall|i: int| 0 <= i < place ==> (#[trigger] spec_named_dimension(entries[i])) is Ok
}

pub fn parse_dimensions(entries: &Vec<WireEntry>) -> (parsed: Result<
    DiagnosticDimensions,
    CustomPayloadError,
>)
    ensures
        match parsed {
            Ok(dimensions) => dimensions_read(entries@, dimensions),
            Err(error) => exists|place: int| dimensions_fail_at(entries@, place, error),
        },
{
    let mut dimensions: Vec<(String, DiagnosticDimension)> = Vec::new();
    let ghost mut given: Seq<(String, DiagnosticDimension)> = Seq::empty();
    for i in 0..entries.len()
        invariant
            given.len() == i,
            dimensions@.len() <= i,
            crate::ordered_names::collected(given, dimensions@),
            forall|k: int|
                0 <= k < i ==> (#[trigger] spec_named_dimension(entries@[k])) == Ok::<
                    (String, DiagnosticDimension),
                    CustomPayloadError,
                >(given[k]),
    {
        let name = match &entries[i].name {
            Some(name) => name.clone(),
            None => {
                assert(dimensions_fail_at(entries@, i as int, CustomPayloadError::WrongType));
                return Err(CustomPayloadError::WrongType);
            },
        };
        match parse_dimension(&entries[i].node) {
            Ok(dimension) => {
                let ghost named = (name, dimension);
                put_in_order(&mut dimensions, name, dimension, Ghost(given));
                proof {
                    given = given.push(named);
                }
            },
            Err(error) => {
                assert(dimensions_fail_at(entries@, i as int, error));
                return Err(error);
            },
        }
    }
    let read = DiagnosticDimensions { entries: dimensions };
    assert(crate::ordered_names::collected(given, read.entries@));
    Ok(read)
}

/// The number that a tagged item stands for.
pub open spec fn spec_number(node: WireNode) -> Result<CustomNumber, CustomPayloadError> {
    match spec_tagged(node) {
        Err(error) => Err(error),
        Ok((tag, value)) => if tag == "integer"@ {
            match spec_integer(value, "counter integer") {
                Ok(value) => Ok(CustomNumber::Integer(value)),
                Err(error) => Err(error),
            }
        } else if tag == "decimal"@ {
            match spec_decimal(value, "counter decimal") {
                Ok(value) => Ok(CustomNumber::Decimal(value)),
                Err(error) => Err(error),
            }
        } else {
            Err(CustomPayloadError::UnknownNumber)
        },
    }
}

pub fn parse_number(node: &WireNode) -> (parsed: Result<CustomNumber, CustomPayloadError>)
    ensures
        parsed == spec_number(*node),
{
    let (tag, value) = match tagged(node) {
        Ok(parts) => parts,
        Err(error) => return Err(error),
    };
    if is(tag, "integer") {
        match parse_integer(value, "counter integer") {
            Ok(value) => Ok(CustomNumber::Integer(value)),
            Err(error) => Err(error),
        }
    } else if is(tag, "decimal") {
        match parse_decimal(value, "counter decimal") {
            Ok(value) => Ok(CustomNumber::Decimal(value)),
            Err(error) => Err(error),
        }
    } else {
        Err(CustomPayloadError::UnknownNumber)
    }
}

/// The severity that a text stands for.
pub open spec fn spec_severity(text: Seq<char>) -> Result<CustomSeverity, CustomPayloadError> {
    if text == "debug"@ {
        Ok(CustomSeverity::Debug)
    } else if text == "info"@ {
        Ok(CustomSeverity::Info)
    } else if text == "warning"@ {
        Ok(CustomSeverity::Warning)
    } else if text == "error"@ {
        Ok(CustomSeverity::Error)
    } else {
        Err(CustomPayloadError::InvalidSeverity)
    }
}

pub fn parse_severity(text: &String) -> (severity: Result<CustomSeverity, CustomPayloadError>)
    ensures
        severity == spec_severity(text@),
{
    if is(text, "debug") {
        Ok(CustomSeverity::Debug)
    } else if is(text, "info") {
        Ok(CustomSeverity::Info)
    } else if is(text, "warning") {
        Ok(CustomSeverity::Warning)
    } else if is(text, "error") {
        Ok(CustomSeverity::Error)
    } else {
        Err(CustomPayloadError::InvalidSeverity)
    }
}

/// The outcome that a text stands for.
pub open spec fn spec_outcome(text: Seq<char>) -> Result<SpanOutcome, CustomPayloadError> {
    if text == "completed"@ {
        Ok(SpanOutcome::Completed)
    } else if text == "cancelled"@ {
        Ok(SpanOutcome::Cancelled)
    } else if text == "failed"@ {
        Ok(SpanOutcome::Failed)
    } else {
        Err(CustomPayloadError::InvalidOutcome)
    }
}

pub fn parse_outcome(text: &String) -> (outcome: Result<SpanOutcome, CustomPayloadError>)
    ensures
        outcome == spec_outcome(text@),
{
    if is(text, "completed") {
        Ok(SpanOutcome::Completed)
    } else if is(text, "cancelled") {
        Ok(SpanOutcome::Cancelled)
    } else if is(text, "failed") {
        Ok(SpanOutcome::Failed)
    } else {
        Err(CustomPayloadError::InvalidOutcome)
    }
}

/// The severity of a payload's item.
pub open spec fn spec_severity_item(item: Item<String>) -> Result<
    CustomSeverity,
    CustomPayloadError,
> {
    match spec_required(item, "severity") {
        Ok(text) => spec_severity(text@),
        Err(error) => Err(error),
    }
}

/// The outcome of a payload's item.
pub open spec fn spec_outcome_item(item: Item<String>) -> Result<SpanOutcome, CustomPayloadError> {
    match spec_required(item, "outcome") {
        Ok(text) => spec_outcome(text@),
        Err(error) => Err(error),
    }
}

/// The number of a payload's item.
pub open spec fn spec_number_item(item: Item<WireNode>) -> Result<CustomNumber, CustomPayloadError> {
    match spec_required(item, "value") {
        Ok(node) => spec_number(node),
        Err(error) => Err(error),
    }
}

/// The unit of a counter: none, or a text.
pub open spec fn spec_unit(item: Item<String>) -> Result<Option<String>, CustomPayloadError> {
    match item {
        Item::Missing => Ok(None),
        Item::WrongType => Err(CustomPayloadError::WrongType),
        Item::Present(unit) => Ok(Some(unit)),
    }
}

/// The attributes of a payload are read as these.
pub open spec fn attributes_item_reads(
    item: Item<Vec<WireEntry>>,
    attributes: DiagnosticAttributes,
) -> bool {
    match item {
        Item::Present(entries) => attributes_read(entries@, attributes),
        _ => false,
    }
}

/// The dimensions of a payload are read as these.
pub open spec fn dimensions_item_reads(
    item: Item<Vec<WireEntry>>,
    dimensions: DiagnosticDimensions,
) -> bool {
    match item {
        Item::Present(entries) => dimensions_read(entries@, dimensions),
        _ => false,
    }
}

/// A payload is read as this fact.
pub open spec fn candidate_reads(normalized: NormalizedCandidate, candidate: CustomCandidate) -> bool {
    match (normalized, candidate) {
        (
            NormalizedCandidate::Instant { name, severity, attributes },
            CustomCandidate::Instant {
                name: read_name,
                severity: read_severity,
                attributes: read_attributes,
            },
        ) => {
            &&& name == Item::Present(read_name)
            &&& spec_severity_item(severity) == Ok::<CustomSeverity, CustomPayloadError>(
                read_severity,
            )
            &&& attributes_item_reads(attributes, read_attributes)
        },
        (
            NormalizedCandidate::Counter { counter, value, unit, dimensions },
            CustomCandidate::Counter {
                counter: read_counter,
                value: read_value,
                unit: read_unit,
                dimensions: read_dimensions,
            },
        ) => {
            &&& counter == Item::Present(read_counter)
            &&& spec_number_item(value) == Ok::<CustomNumber, CustomPayloadError>(read_value)
            &&& unit is Present
            &&& spec_unit(unit->Present_0) == Ok::<Option<String>, CustomPayloadError>(read_unit)
            &&& dimensions_item_reads(dimensions, read_dimensions)
        },
        (
            NormalizedCandidate::SpanStart { span, span_attributes },
            CustomCandidate::SpanStart { span: read_span, span_attributes: read_attributes },
        ) => {
            &&& span == Item::Present(read_span)
            &&& attributes_item_reads(span_attributes, read_attributes)
        },
        (
            NormalizedCandidate::SpanFinish { outcome },
            CustomCandidate::SpanFinish { outcome: read_outcome },
        ) => spec_outcome_item(outcome) == Ok::<SpanOutcome, CustomPayloadError>(read_outcome),
        _ => false,
    }
}

/// The attributes of a payload cannot be read, for this reason.
pub open spec fn attributes_item_fails(
    item: Item<Vec<WireEntry>>,
    error: CustomPayloadError,
) -> bool {
    match item {
        Item::Missing => error == (CustomPayloadError::Missing { key: "attributes" }),
        Item::WrongType => error == CustomPayloadError::WrongType,
        Item::Present(entries) => exists|place: int| attributes_fail_at(entries@, place, error),
    }
}

/// The dimensions of a payload cannot be read, for this reason.
pub open spec fn dimensions_item_fails(
    item: Item<Vec<WireEntry>>,
    error: CustomPayloadError,
) -> bool {
    match item {
        Item::Missing => error == (CustomPayloadError::Missing { key: "dimensions" }),
        Item::WrongType => error == CustomPayloadError::WrongType,
        Item::Present(entries) => exists|place: int| dimensions_fail_at(entries@, place, error),
    }
}

/// A payload cannot be read, for this reason: the first of its items that is wrong.
pub open spec fn candidate_fails(normalized: NormalizedCandidate, error: CustomPayloadError) -> bool {
    match normalized {
        NormalizedCandidate::Instant { name, severity, attributes } => {
            match spec_required(name, "name") {
                Err(name_error) => error == name_error,
                Ok(_) => match spec_severity_item(severity) {
                    Err(severity_error) => error == severity_error,
                    Ok(_) => attributes_item_fails(attributes, error),
                },
            }
        },
        NormalizedCandidate::Counter { counter, value, unit, dimensions } => {
            match spec_required(unit, "unit") {
                Err(unit_error) => error == unit_error,
                Ok(unit) => match spec_required(counter, "name") {
                    Err(name_error) => error == name_error,
                    Ok(_) => match spec_number_item(value) {
                        Err(value_error) => error == value_error,
                        Ok(_) => match spec_unit(unit) {
                            Err(unit_error) => error == unit_error,
                            Ok(_) => dimensions_item_fails(dimensions, error),
                        },
                    },
                },
            }
        },
        NormalizedCandidate::SpanStart { span, span_attributes } => {
            match spec_required(span, "name") {
                Err(name_error) => error == name_error,
                Ok(_) => attributes_item_fails(span_attributes, error),
            }
        },
        NormalizedCandidate::SpanFinish { outcome } => spec_outcome_item(outcome) == Err::<
            SpanOutcome,
            CustomPayloadError,
        >(error),
        NormalizedCandidate::Other => error == CustomPayloadError::NotACandidate,
    }
}

fn parse_attributes_item(item: &Item<Vec<WireEntry>>) -> (parsed: Result<
    DiagnosticAttributes,
    CustomPayloadError,
>)
    ensures
        match parsed {
            Ok(attributes) => attributes_item_reads(*item, attributes),
            Err(error) => attributes_item_fails(*item, error),
        },
{
    match required_item(item, "attributes") {
        Ok(entries) => parse_attributes(entries),
        Err(error) => Err(error),
    }
}

fn parse_name_item(item: &Item<String>) -> (parsed: Result<String, CustomPayloadError>)
    ensures
        parsed == spec_required(*item, "name"),
{
    match required_item(item, "name") {
        Ok(name) => Ok(name.clone()),
        Err(error) => Err(error),
    }
}

/// Reads a fact of user code. Items are read in order, and the first that is wrong is told.
pub fn parse_candidate(normalized: &NormalizedCandidate) -> (parsed: Result<
    CustomCandidate,
    CustomPayloadError,
>)
    ensures
        match parsed {
            Ok(candidate) => candidate_reads(*normalized, candidate),
            Err(error) => candidate_fails(*normalized, error),
        },
{
    match normalized {
        NormalizedCandidate::Instant { name, severity, attributes } => {
            let name = match parse_name_item(name) {
                Ok(name) => name,
                Err(error) => return Err(error),
            };
            let severity = match required_item(severity, "severity") {
                Ok(text) => match parse_severity(text) {
                    Ok(severity) => severity,
                    Err(error) => return Err(error),
                },
                Err(error) => return Err(error),
            };
            match parse_attributes_item(attributes) {
                Ok(attributes) => Ok(CustomCandidate::Instant { name, severity, attributes }),
                Err(error) => Err(error),
            }
        },
        NormalizedCandidate::Counter { counter, value, unit, dimensions } => {
            let unit = match required_item(unit, "unit") {
                Ok(unit) => unit,
                Err(error) => return Err(error),
            };
            let counter = match parse_name_item(counter) {
                Ok(counter) => counter,
                Err(error) => return Err(error),
            };
            let value = match required_item(value, "value") {
                Ok(node) => match parse_number(node) {
                    Ok(value) => value,
                    Err(error) => return Err(error),
                },
                Err(error) => return Err(error),
            };
            let unit = match unit {
                Item::Missing => None,
                Item::WrongType => return Err(CustomPayloadError::WrongType),
                Item::Present(unit) => Some(unit.clone()),
            };
            let entries = match required_item(dimensions, "dimensions") {
                Ok(entries) => entries,
                Err(error) => return Err(error),
            };
            match parse_dimensions(entries) {
                Ok(dimensions) => Ok(CustomCandidate::Counter { counter, value, unit, dimensions }),
                Err(error) => Err(error),
            }
        },
        NormalizedCandidate::SpanStart { span, span_attributes } => {
            let span = match parse_name_item(span) {
                Ok(span) => span,
                Err(error) => return Err(error),
            };
            match parse_attributes_item(span_attributes) {
                Ok(span_attributes) => Ok(CustomCandidate::SpanStart { span, span_attributes }),
                Err(error) => Err(error),
            }
        },
        NormalizedCandidate::SpanFinish { outcome } => {
            match required_item(outcome, "outcome") {
                Ok(text) => match parse_outcome(text) {
                    Ok(outcome) => Ok(CustomCandidate::SpanFinish { outcome }),
                    Err(error) => Err(error),
                },
                Err(error) => Err(error),
            }
        },
        NormalizedCandidate::Other => Err(CustomPayloadError::NotACandidate),
    }
}

/// The text that names an outcome of a span.
pub open spec fn outcome_name(outcome: SpanOutcome) -> Seq<char> {
    match outcome {
        SpanOutcome::Completed => "completed"@,
        SpanOutcome::Cancelled => "cancelled"@,
        SpanOutcome::Failed => "failed"@,
    }
}

/// The text that names a severity.
pub open spec fn severity_name(severity: CustomSeverity) -> Seq<char> {
    match severity {
        CustomSeverity::Debug => "debug"@,
        CustomSeverity::Info => "info"@,
        CustomSeverity::Warning => "warning"@,
        CustomSeverity::Error => "error"@,
    }
}

/// Reading an outcome undoes writing it: the text that names an outcome is read as that outcome,
/// what is read as an outcome is the text that names it, and so two texts that are read differ
/// exactly where their outcomes do. Any other text is refused.
pub proof fn reading_an_outcome_undoes_writing_it(
    outcome: SpanOutcome,
    text: Seq<char>,
    other: Seq<char>,
)
    ensures
        spec_outcome(outcome_name(outcome)) == Ok::<SpanOutcome, CustomPayloadError>(outcome),
        spec_outcome(text) matches Ok(read) ==> text == outcome_name(read),
        spec_outcome(text) is Ok && spec_outcome(other) is Ok ==> (text == other
            <==> spec_outcome(text) == spec_outcome(other)),
        spec_outcome(text) is Err <==> (forall|any: SpanOutcome| text != #[trigger] outcome_name(
            any,
        )),
        spec_outcome(text) matches Err(error) ==> error is InvalidOutcome,
{
    outcome_names_differ();
    if spec_outcome(text) is Ok {
        assert(text == outcome_name(spec_outcome(text)->Ok_0));
    }
    assert(spec_outcome(outcome_name(SpanOutcome::Completed)) is Ok);
    assert(spec_outcome(outcome_name(SpanOutcome::Cancelled)) is Ok);
    assert(spec_outcome(outcome_name(SpanOutcome::Failed)) is Ok);
}

proof fn outcome_names_differ()
    ensures
        "completed"@ != "cancelled"@,
        "completed"@ != "failed"@,
        "cancelled"@ != "failed"@,
{
    reveal_strlit("completed");
    reveal_strlit("cancelled");
    reveal_strlit("failed");
    assert("completed"@[1] != "cancelled"@[1]);
    assert("completed"@.len() != "failed"@.len());
    assert("cancelled"@.len() != "failed"@.len());
}

/// Reading a severity undoes writing it, as with an outcome.
pub proof fn reading_a_severity_undoes_writing_it(
    severity: CustomSeverity,
    text: Seq<char>,
    other: Seq<char>,
)
    ensures
        spec_severity(severity_name(severity)) == Ok::<CustomSeverity, CustomPayloadError>(
            severity,
        ),
        spec_severity(text) matches Ok(read) ==> text == severity_name(read),
        spec_severity(text) is Ok && spec_severity(other) is Ok ==> (text == other
            <==> spec_severity(text) == spec_severity(other)),
        spec_severity(text) is Err <==> (forall|any: CustomSeverity| text
            != #[trigger] severity_name(any)),
        spec_severity(text) matches Err(error) ==> error is InvalidSeverity,
{
    severity_names_differ();
    if spec_severity(text) is Ok {
        assert(text == severity_name(spec_severity(text)->Ok_0));
    }
    assert(spec_severity(severity_name(CustomSeverity::Debug)) is Ok);
    assert(spec_severity(severity_name(CustomSeverity::Info)) is Ok);
    assert(spec_severity(severity_name(CustomSeverity::Warning)) is Ok);
    assert(spec_severity(severity_name(CustomSeverity::Error)) is Ok);
}

proof fn severity_names_differ()
    ensures
        "debug"@ != "info"@,
        "debug"@ != "warning"@,
        "debug"@ != "error"@,
        "info"@ != "warning"@,
        "info"@ != "error"@,
        "warning"@ != "error"@,
{
    reveal_strlit("debug");
    reveal_strlit("info");
    reveal_strlit("warning");
    reveal_strlit("error");
    assert("debug"@.len() != "info"@.len());
    assert("debug"@.len() != "warning"@.len());
    assert("debug"@[0] != "error"@[0]);
    assert("info"@.len() != "warning"@.len());
    assert("info"@.len() != "error"@.len());
    assert("warning"@.len() != "error"@.len());
}

/// The end of a custom span is read as user code said it: its outcome is the one that the text
/// names. The severity of a custom moment is the one that its text names, and names are kept as
/// they are.
pub proof fn candidates_are_read_as_they_were_said(
    normalized: NormalizedCandidate,
    candidate: CustomCandidate,
)
    requires
        candidate_reads(normalized, candidate),
    ensures
        normalized is SpanFinish <==> candidate is SpanFinish,
        normalized is SpanStart <==> candidate is SpanStart,
        normalized is Instant <==> candidate is Instant,
        normalized is Counter <==> candidate is Counter,
        normalized !is Other,
        candidate matches CustomCandidate::SpanFinish { outcome } ==> (normalized matches
            NormalizedCandidate::SpanFinish { outcome: Item::Present(text) } && text@
            == outcome_name(outcome)),
        candidate matches CustomCandidate::Instant { name, severity, .. } ==> (normalized matches
            NormalizedCandidate::Instant {
            name: Item::Present(said),
            severity: Item::Present(text),
            ..
        } && said == name && text@ == severity_name(severity)),
        candidate matches CustomCandidate::SpanStart { span, .. } ==> (normalized matches
            NormalizedCandidate::SpanStart { span: Item::Present(said), .. } && said == span),
        candidate matches CustomCandidate::Counter { counter, value, unit, .. } ==> (normalized
            matches NormalizedCandidate::Counter {
            counter: Item::Present(said),
            value: Item::Present(node),
            unit: Item::Present(said_unit),
            ..
        } && {
            &&& said == counter
            &&& unit matches Some(kept) ==> said_unit == Item::Present(kept)
            &&& unit is None ==> said_unit is Missing
            &&& node matches WireNode::Tagged { tag: Item::Present(tag), value: Item::Present(read) }
            &&& value is Integer <==> tag@ == "integer"@
            &&& value is Decimal <==> tag@ == "decimal"@
            &&& read matches WireValue::Text { integer, decimal, .. }
            &&& value matches CustomNumber::Integer(number) ==> integer == Ok::<String, String>(
                number,
            )
            &&& value matches CustomNumber::Decimal(number) ==> decimal == Ok::<String, String>(
                number,
            )
        }),
{
    number_tags_differ();
    if let NormalizedCandidate::SpanFinish { outcome: Item::Present(text) } = normalized {
        reading_an_outcome_undoes_writing_it(SpanOutcome::Completed, text@, text@);
    }
    if let NormalizedCandidate::Instant { severity: Item::Present(text), .. } = normalized {
        reading_a_severity_undoes_writing_it(CustomSeverity::Debug, text@, text@);
    }
}

proof fn number_tags_differ()
    ensures
        "integer"@ != "decimal"@,
        "integer"@ != "string"@,
        "integer"@ != "boolean"@,
        "integer"@ != "null"@,
        "integer"@ != "list"@,
        "decimal"@ != "string"@,
        "decimal"@ != "boolean"@,
        "decimal"@ != "null"@,
        "decimal"@ != "list"@,
        "string"@ != "boolean"@,
        "string"@ != "null"@,
        "string"@ != "list"@,
        "boolean"@ != "null"@,
        "boolean"@ != "list"@,
        "null"@ != "list"@,
{
    reveal_strlit("integer");
    reveal_strlit("decimal");
    reveal_strlit("string");
    reveal_strlit("boolean");
    reveal_strlit("null");
    reveal_strlit("list");
    assert("integer"@[0] != "decimal"@[0]);
    assert("integer"@[0] != "boolean"@[0]);
    assert("decimal"@[0] != "boolean"@[0]);
    assert("null"@[0] != "list"@[0]);
    assert("integer"@.len() == 7 && "decimal"@.len() == 7 && "boolean"@.len() == 7);
    assert("string"@.len() == 6 && "null"@.len() == 4 && "list"@.len() == 4);
}

/// The value that a tagged item of user code holds is what its tag says: the variant is that of the
/// tag, and it holds what came. An item that holds what its tag says is always read.
pub proof fn scalars_are_what_their_tags_say(node: WireNode)
    ensures
        spec_scalar(node) matches Ok(scalar) ==> (node matches WireNode::Tagged {
            tag: Item::Present(tag),
            value,
        } && {
            &&& scalar is Null <==> tag@ == "null"@
            &&& scalar is Boolean <==> tag@ == "boolean"@
            &&& scalar is Integer <==> tag@ == "integer"@
            &&& scalar is Decimal <==> tag@ == "decimal"@
            &&& scalar is Text <==> tag@ == "string"@
            &&& scalar matches DiagnosticScalar::Boolean(flag) ==> value == Item::Present(
                WireValue::Boolean(flag),
            )
            &&& scalar matches DiagnosticScalar::Integer(number) ==> (value matches Item::Present(
                WireValue::Text { integer, .. },
            ) && integer == Ok::<String, String>(number))
            &&& scalar matches DiagnosticScalar::Decimal(number) ==> (value matches Item::Present(
                WireValue::Text { decimal, .. },
            ) && decimal == Ok::<String, String>(number))
            &&& scalar matches DiagnosticScalar::Text(said) ==> (value matches Item::Present(
                WireValue::Text { text, .. },
            ) && text == said)
        }),
        (node matches WireNode::Tagged { tag: Item::Present(tag), value: Item::Present(value) } && {
            ||| tag@ == "null"@
            ||| tag@ == "boolean"@ && value is Boolean
            ||| tag@ == "string"@ && value is Text
            ||| tag@ == "integer"@ && value is Text && value->integer is Ok
            ||| tag@ == "decimal"@ && value is Text && value->decimal is Ok
        }) ==> spec_scalar(node) is Ok,
        (node matches WireNode::Tagged { tag: Item::Present(tag), .. } && tag@ == "null"@)
            ==> spec_scalar(node) is Ok,
{
    number_tags_differ();
}

/// Attributes are read as values are, and a list exactly where the tag says so: each of its items
/// is what its own tag says, in the same order.
pub proof fn attributes_are_what_their_tags_say(node: WireNode, attribute: DiagnosticAttributeValue)
    requires
        attribute_reads(node, attribute),
    ensures
        node matches WireNode::Tagged { tag: Item::Present(tag), value } && {
            &&& attribute is List <==> tag@ == "list"@
            &&& attribute matches DiagnosticAttributeValue::List(values) ==> (value matches
                Item::Present(WireValue::List(nodes)) && {
                &&& nodes@.len() == values@.len()
                &&& forall|i: int|
                    0 <= i < nodes@.len() ==> spec_scalar(#[trigger] nodes@[i]) == Ok::<
                        DiagnosticScalar,
                        CustomPayloadError,
                    >(values@[i])
            })
            &&& attribute matches DiagnosticAttributeValue::Scalar(scalar) ==> {
                &&& scalar is Null <==> tag@ == "null"@
                &&& scalar is Boolean <==> tag@ == "boolean"@
                &&& scalar is Integer <==> tag@ == "integer"@
                &&& scalar is Decimal <==> tag@ == "decimal"@
                &&& scalar is Text <==> tag@ == "string"@
                &&& spec_scalar(node) == Ok::<DiagnosticScalar, CustomPayloadError>(scalar)
            }
        },
        forall|error: CustomPayloadError| !#[trigger] attribute_fails(node, error),
{
    number_tags_differ();
    if let DiagnosticAttributeValue::List(values) = attribute {
        let nodes = node->value->Present_0->List_0;
        assert forall|i: int| 0 <= i < nodes@.len() implies spec_scalar(#[trigger] nodes@[i])
            == Ok::<DiagnosticScalar, CustomPayloadError>(values@[i]) by {
            assert(spec_scalar(nodes@[i]) is Ok);
        }
        assert forall|error: CustomPayloadError| !#[trigger] attribute_fails(node, error) by {
            assert forall|place: int| !list_fails_at(nodes@, place, error) by {
                if 0 <= place < nodes@.len() {
                    assert(spec_scalar(nodes@[place]) is Ok);
                }
            }
        }
    }
}

/// Dimensions are read as values are, but for those that are nothing.
pub proof fn dimensions_are_what_their_tags_say(node: WireNode)
    ensures
        spec_dimension(node) is Ok <==> spec_scalar(node) is Ok && spec_scalar(node)->Ok_0 !is Null,
        spec_dimension(node) matches Ok(dimension) ==> match spec_scalar(node)->Ok_0 {
            DiagnosticScalar::Null => false,
            DiagnosticScalar::Boolean(flag) => dimension == DiagnosticDimension::Boolean(flag),
            DiagnosticScalar::Integer(number) => dimension == DiagnosticDimension::Integer(number),
            DiagnosticScalar::Decimal(number) => dimension == DiagnosticDimension::Decimal(number),
            DiagnosticScalar::Text(said) => dimension == DiagnosticDimension::Text(said),
        },
{
    number_tags_differ();
}

/// What is read of several attributes is what was given last under each name: every name that was
/// given is there, once, with the value that came last, and nothing else is.
pub proof fn attributes_keep_the_last_of_each_name(
    entries: Seq<WireEntry>,
    attributes: DiagnosticAttributes,
    i: int,
)
    requires
        attributes_read(entries, attributes),
        0 <= i < entries.len(),
    ensures
        entries[i].name is Some,
        exists|k: int|
            0 <= k < attributes.entries@.len() && (#[trigger] attributes.entries@[k]).0@
                == entries[i].name->0@,
        (forall|later: int|
            i < later < entries.len() ==> (#[trigger] entries[later]).name->0@
                != entries[i].name->0@) ==> exists|k: int|
            0 <= k < attributes.entries@.len() && (#[trigger] attributes.entries@[k]).0
                == entries[i].name->0 && attribute_reads(entries[i].node, attributes.entries@[k].1),
        forall|k: int|
            0 <= k < attributes.entries@.len() ==> exists|from: int|
                0 <= from < entries.len() && (#[trigger] entries[from]).name == Some(
                    (#[trigger] attributes.entries@[k]).0,
                ) && attribute_reads(entries[from].node, attributes.entries@[k].1),
{
    let given = choose|given: Seq<(String, DiagnosticAttributeValue)>|
        {
            &&& given.len() == entries.len()
            &&& forall|i: int|
                0 <= i < entries.len() ==> entry_is_attribute(#[trigger] entries[i], given[i])
            &&& #[trigger] crate::ordered_names::collected(given, attributes.entries@)
        };
    assert(entry_is_attribute(entries[i], given[i]));
    assert(crate::ordered_names::has_name(attributes.entries@, given[i].0@));
    let k = choose|k: int|
        0 <= k < attributes.entries@.len() && (#[trigger] attributes.entries@[k]).0@ == given[i].0@;
    assert forall|k: int| 0 <= k < attributes.entries@.len() implies exists|from: int|
        0 <= from < entries.len() && (#[trigger] entries[from]).name == Some(
            (#[trigger] attributes.entries@[k]).0,
        ) && attribute_reads(entries[from].node, attributes.entries@[k].1) by {
        assert(crate::ordered_names::stays(given, attributes.entries@[k]));
        let from = choose|from: int|
            crate::ordered_names::is_last(given, from, attributes.entries@[k]);
        assert(entry_is_attribute(entries[from], given[from]));
        assert(entries[from].name == Some(attributes.entries@[k].0));
    }
    if forall|later: int|
        i < later < entries.len() ==> (#[trigger] entries[later]).name->0@ != entries[i].name->0@ {
        assert(crate::ordered_names::stays(given, attributes.entries@[k]));
        let from = choose|from: int|
            crate::ordered_names::is_last(given, from, attributes.entries@[k]);
        assert(entry_is_attribute(entries[from], given[from]));
        if from < i {
            assert(given[i].0@ != attributes.entries@[k].0@);
        }
        assert(from == i);
    }
}

/// A payload is read or refused, never both: one that can be read is refused for no reason.
pub proof fn payloads_are_read_or_refused(
    normalized: NormalizedCandidate,
    candidate: CustomCandidate,
    error: CustomPayloadError,
)
    requires
        candidate_reads(normalized, candidate),
    ensures
        !candidate_fails(normalized, error),
{
    match normalized {
        NormalizedCandidate::Instant { attributes: Item::Present(entries), .. } => {
            read_attributes_do_not_fail(entries@, candidate->attributes, error);
        },
        NormalizedCandidate::SpanStart { span_attributes: Item::Present(entries), .. } => {
            read_attributes_do_not_fail(entries@, candidate->span_attributes, error);
        },
        NormalizedCandidate::Counter { dimensions: Item::Present(entries), .. } => {
            assert forall|place: int| !dimensions_fail_at(entries@, place, error) by {
                if 0 <= place < entries@.len() {
                    assert(spec_named_dimension(entries@[place]) is Ok);
                }
            }
        },
        _ => {},
    }
}

proof fn read_attributes_do_not_fail(
    entries: Seq<WireEntry>,
    attributes: DiagnosticAttributes,
    error: CustomPayloadError,
)
    requires
        attributes_read(entries, attributes),
    ensures
        forall|place: int| !attributes_fail_at(entries, place, error),
{
    let given = choose|given: Seq<(String, DiagnosticAttributeValue)>|
        {
            &&& given.len() == entries.len()
            &&& forall|i: int|
                0 <= i < entries.len() ==> entry_is_attribute(#[trigger] entries[i], given[i])
            &&& #[trigger] crate::ordered_names::collected(given, attributes.entries@)
        };
    assert forall|place: int| !attributes_fail_at(entries, place, error) by {
        if 0 <= place < entries.len() {
            assert(entry_is_attribute(entries[place], given[place]));
            attributes_are_what_their_tags_say(entries[place].node, given[place].1);
        }
    }
}

/// The end of a span is read wherever it names an outcome, as that outcome and as nothing else.
pub proof fn named_ends_are_read(text: String, outcome: SpanOutcome, read: SpanOutcome)
    requires
        text@ == outcome_name(outcome),
    ensures
        candidate_reads(
            (NormalizedCandidate::SpanFinish { outcome: Item::Present(text) }),
            (CustomCandidate::SpanFinish { outcome: read }),
        ) <==> read == outcome,
{
    reading_an_outcome_undoes_writing_it(outcome, text@, text@);
}

/// What a counter counts is read wherever it is a number that its tag says, as that number, and its
/// unit is there exactly where it was given.
pub proof fn numbers_are_what_their_tags_say(node: WireNode)
    ensures
        spec_number(node) is Ok <==> (node matches WireNode::Tagged {
            tag: Item::Present(tag),
            value: Item::Present(value),
        } && value is Text && ((tag@ == "integer"@ && value->integer is Ok) || (tag@ == "decimal"@
            && value->decimal is Ok))),
        spec_number(node) matches Ok(number) ==> (node matches WireNode::Tagged {
            tag: Item::Present(tag),
            value: Item::Present(value),
        } && {
            &&& number is Integer <==> tag@ == "integer"@
            &&& number is Decimal <==> tag@ == "decimal"@
            &&& number matches CustomNumber::Integer(text) ==> value->integer == Ok::<
                String,
                String,
            >(text)
            &&& number matches CustomNumber::Decimal(text) ==> value->decimal == Ok::<
                String,
                String,
            >(text)
        }),
{
    number_tags_differ();
}

/// An item that has to be there is read exactly where it is there, and where it is not, it is named.
pub proof fn missing_items_are_named<T>(item: Item<T>, key: &'static str)
    ensures
        spec_required(item, key) is Ok <==> item is Present,
        spec_required(item, key) matches Ok(value) ==> item == Item::Present(value),
        item is Missing ==> (spec_required(item, key) matches Err(error) && error == (
        CustomPayloadError::Missing { key })),
        item is WrongType ==> (spec_required(item, key) matches Err(error) && error is WrongType),
{
}

} // verus!
