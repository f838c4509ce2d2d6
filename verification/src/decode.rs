//! The response decoder: the envelope, its status, and the rules by which a
//! field of a payload is read.

use vstd::prelude::*;
use crate::json::{find_member, member, Json};
use crate::numbers::{integer_within, is_decimal, is_decimal_text, parse_i32, parse_i64};
use crate::types::{OrderType, TradeDirection};

verus! {

/// Why a field does not fit the shape that a record asks of it.
#[derive(Clone, Copy, Debug, PartialEq, Eq)]
pub enum Mismatch {
    /// The value that should hold the record is no JSON object.
    NotAnObject,
    /// The record has no member of that name.
    Missing,
    /// The member is no JSON string.
    NotText,
    /// The member is neither `true` nor `false`.
    NotFlag,
    /// The member is no integer literal, or one outside the field's range.
    NotInteger,
    /// The member is no JSON array.
    NotList,
}

/// What can go wrong when a response is decoded.
#[derive(Debug, PartialEq, Eq)]
pub enum DecodeError {
    /// The body is no JSON document of the envelope's shape.
    InvalidEnvelope,
    /// The exchange understood the request and rejected it.
    ExchangeError { code: i64, message: String },
    /// A field of the payload is absent or of the wrong shape.
    SchemaMismatch { field: &'static str, reason: Mismatch },
    /// The payload has no `list` array.
    MissingListField,
    /// The payload's `list` array is empty.
    EmptyList,
    /// A numeric field holds a string that is no decimal number.
    InvalidNumericString { field: &'static str },
    /// A numeric field holds neither a string, a number nor null.
    InvalidFieldType { field: &'static str },
    /// A field of a closed set of words holds a word outside the set.
    UnknownEnumVariant { field: &'static str, value: String },
}

/// A numeric field as it arrived. The exchange writes such a field as a
/// string or as a number, or leaves it null; a null counts as zero.
#[derive(Clone, Debug, PartialEq, Eq)]
pub enum Decimal {
    /// The field was null.
    Absent,
    /// The field was a string that holds a decimal number.
    Quoted(String),
    /// The field was a JSON number, kept as its literal.
    Literal(String),
}

impl Decimal {
    /// Whether the text that is held is a decimal number.
    pub open spec fn well_formed(self) -> bool {
        match self {
            Decimal::Absent => true,
            Decimal::Quoted(text) => is_decimal_text(text@),
            Decimal::Literal(text) => is_decimal_text(text@),
        }
    }
}

/// The error of a result, if it is one.
pub open spec fn fault_of<T>(r: Result<T, DecodeError>) -> Option<DecodeError> {
    match r {
        Ok(_) => None,
        Err(e) => Some(e),
    }
}

/// The first of two faults: the earlier one where there is one.
pub open spec fn before(first: Option<DecodeError>, rest: Option<DecodeError>) -> Option<
    DecodeError,
> {
    match first {
        Some(e) => Some(e),
        None => rest,
    }
}

/// The tolerant numeric rule: a string must hold a decimal number, a number
/// is taken as it is, null counts as zero, anything else is the wrong type.
pub open spec fn decimal_of(value: Json, field: &'static str) -> Result<Decimal, DecodeError> {
    match value {
        Json::Text(text) => if is_decimal_text(text@) {
            Ok(Decimal::Quoted(text))
        } else {
            Err(DecodeError::InvalidNumericString { field })
        },
        Json::Number(literal) => if is_decimal_text(literal@) {
            Ok(Decimal::Literal(literal))
        } else {
            Err(DecodeError::InvalidNumericString { field })
        },
        Json::Null => Ok(Decimal::Absent),
        _ => Err(DecodeError::InvalidFieldType { field }),
    }
}

/// Applies the tolerant numeric rule to one value.
pub fn coerce_decimal(value: &Json, field: &'static str) -> (r: Result<Decimal, DecodeError>)
    ensures
        r == decimal_of(*value, field),
        r matches Ok(d) ==> d.well_formed(),
{
    match value {
        Json::Text(text) => if is_decimal(text.as_str()) {
            Ok(Decimal::Quoted(text.clone()))
        } else {
            Err(DecodeError::InvalidNumericString { field })
        },
        Json::Number(literal) => if is_decimal(literal.as_str()) {
            Ok(Decimal::Literal(literal.clone()))
        } else {
            Err(DecodeError::InvalidNumericString { field })
        },
        Json::Null => Ok(Decimal::Absent),
        _ => Err(DecodeError::InvalidFieldType { field }),
    }
}

/// Whatever the tolerant numeric rule accepts holds a decimal number: no
/// numeric field of a decoded record holds a text that is none.
pub proof fn accepted_decimal_is_well_formed(value: Json, field: &'static str)
    ensures
        decimal_of(value, field) matches Ok(d) ==> d.well_formed(),
{
}

/// The members of the object that holds a record; a value that is no object
/// holds none.
pub open spec fn members_of(value: Json, record: &'static str) -> Result<
    Seq<(String, Json)>,
    DecodeError,
> {
    match value {
        Json::Object(members) => Ok(members@),
        _ => Err(DecodeError::SchemaMismatch { field: record, reason: Mismatch::NotAnObject }),
    }
}

/// Takes the members out of the object that holds a record.
pub fn read_members<'a>(value: &'a Json, record: &'static str) -> (r: Result<
    &'a Vec<(String, Json)>,
    DecodeError,
>)
    ensures
        match r {
            Ok(members) => members_of(*value, record) == Ok::<Seq<(String, Json)>, DecodeError>(
                members@,
            ),
            Err(e) => members_of(*value, record) == Err::<Seq<(String, Json)>, DecodeError>(e),
        },
{
    match value {
        Json::Object(members) => Ok(members),
        _ => Err(DecodeError::SchemaMismatch { field: record, reason: Mismatch::NotAnObject }),
    }
}

/// The error for a member that a record lacks.
pub open spec fn missing(field: &'static str) -> DecodeError {
    DecodeError::SchemaMismatch { field, reason: Mismatch::Missing }
}

/// A numeric member of a record.
pub open spec fn decimal_field(members: Seq<(String, Json)>, field: &'static str) -> Result<
    Decimal,
    DecodeError,
> {
    match find_member(members, field@) {
        Some(value) => decimal_of(value, field),
        None => Err(missing(field)),
    }
}

/// A string member of a record.
pub open spec fn text_field(members: Seq<(String, Json)>, field: &'static str) -> Result<
    String,
    DecodeError,
> {
    match find_member(members, field@) {
        Some(Json::Text(text)) => Ok(text),
        Some(_) => Err(DecodeError::SchemaMismatch { field, reason: Mismatch::NotText }),
        None => Err(missing(field)),
    }
}

/// A boolean member of a record.
pub open spec fn flag_field(members: Seq<(String, Json)>, field: &'static str) -> Result<
    bool,
    DecodeError,
> {
    match find_member(members, field@) {
        Some(Json::Bool(b)) => Ok(b),
        Some(_) => Err(DecodeError::SchemaMismatch { field, reason: Mismatch::NotFlag }),
        None => Err(missing(field)),
    }
}

/// An integer member of a record, which must lie between two bounds.
pub open spec fn integer_field(
    members: Seq<(String, Json)>,
    field: &'static str,
    low: int,
    high: int,
) -> Result<int, DecodeError> {
    match find_member(members, field@) {
        Some(Json::Number(literal)) => match integer_within(literal@, low, high) {
            Some(v) => Ok(v),
            None => Err(DecodeError::SchemaMismatch { field, reason: Mismatch::NotInteger }),
        },
        Some(_) => Err(DecodeError::SchemaMismatch { field, reason: Mismatch::NotInteger }),
        None => Err(missing(field)),
    }
}

/// A 32-bit integer member of a record.
pub open spec fn i32_field(members: Seq<(String, Json)>, field: &'static str) -> Result<
    i32,
    DecodeError,
> {
    match integer_field(members, field, i32::MIN as int, i32::MAX as int) {
        Ok(v) => Ok(v as i32),
        Err(e) => Err(e),
    }
}

/// A 64-bit integer member of a record.
pub open spec fn i64_field(members: Seq<(String, Json)>, field: &'static str) -> Result<
    i64,
    DecodeError,
> {
    match integer_field(members, field, i64::MIN as int, i64::MAX as int) {
        Ok(v) => Ok(v as i64),
        Err(e) => Err(e),
    }
}

/// The side member of a record: a string out of the closed set of sides.
pub open spec fn side_field(members: Seq<(String, Json)>, field: &'static str) -> Result<
    TradeDirection,
    DecodeError,
> {
    match text_field(members, field) {
        Ok(text) => match TradeDirection::of_wire(text@) {
            Some(side) => Ok(side),
            None => Err(DecodeError::UnknownEnumVariant { field, value: text }),
        },
        Err(e) => Err(e),
    }
}

/// The order type member of a record: a string out of the closed set of
/// order types.
pub open spec fn order_type_field(members: Seq<(String, Json)>, field: &'static str) -> Result<
    OrderType,
    DecodeError,
> {
    match text_field(members, field) {
        Ok(text) => match OrderType::of_wire(text@) {
            Some(order_type) => Ok(order_type),
            None => Err(DecodeError::UnknownEnumVariant { field, value: text }),
        },
        Err(e) => Err(e),
    }
}

/// Reads a numeric member of a record.
pub fn read_decimal(members: &Vec<(String, Json)>, field: &'static str) -> (r: Result<
    Decimal,
    DecodeError,
>)
    ensures
        r == decimal_field(members@, field),
        r matches Ok(d) ==> d.well_formed(),
{
    match member(members, field) {
        Some(value) => coerce_decimal(value, field),
        None => Err(DecodeError::SchemaMismatch { field, reason: Mismatch::Missing }),
    }
}

/// Reads a string member of a record.
pub fn read_text(members: &Vec<(String, Json)>, field: &'static str) -> (r: Result<
    String,
    DecodeError,
>)
    ensures
        r == text_field(members@, field),
{
    match member(members, field) {
        Some(Json::Text(text)) => Ok(text.clone()),
        Some(_) => Err(DecodeError::SchemaMismatch { field, reason: Mismatch::NotText }),
        None => Err(DecodeError::SchemaMismatch { field, reason: Mismatch::Missing }),
    }
}

/// Reads a boolean member of a record.
pub fn read_flag(members: &Vec<(String, Json)>, field: &'static str) -> (r: Result<
    bool,
    DecodeError,
>)
    ensures
        r == flag_field(members@, field),
{
    match member(members, field) {
        Some(Json::Bool(b)) => Ok(*b),
        Some(_) => Err(DecodeError::SchemaMismatch { field, reason: Mismatch::NotFlag }),
        None => Err(DecodeError::SchemaMismatch { field, reason: Mismatch::Missing }),
    }
}

/// Reads a 32-bit integer member of a record.
pub fn read_i32(members: &Vec<(String, Json)>, field: &'static str) -> (r: Result<
    i32,
    DecodeError,
>)
    ensures
        r == i32_field(members@, field),
{
    match member(members, field) {
        Some(Json::Number(literal)) => match parse_i32(literal.as_str()) {
            Some(v) => Ok(v),
            None => Err(DecodeError::SchemaMismatch { field, reason: Mismatch::NotInteger }),
        },
        Some(_) => Err(DecodeError::SchemaMismatch { field, reason: Mismatch::NotInteger }),
        None => Err(DecodeError::SchemaMismatch { field, reason: Mismatch::Missing }),
    }
}

/// Reads a 64-bit integer member of a record.
pub fn read_i64(members: &Vec<(String, Json)>, field: &'static str) -> (r: Result<
    i64,
    DecodeError,
>)
    ensures
        r == i64_field(members@, field),
{
    match member(members, field) {
        Some(Json::Number(literal)) => match parse_i64(literal.as_str()) {
            Some(v) => Ok(v),
            None => Err(DecodeError::SchemaMismatch { field, reason: Mismatch::NotInteger }),
        },
        Some(_) => Err(DecodeError::SchemaMismatch { field, reason: Mismatch::NotInteger }),
        None => Err(DecodeError::SchemaMismatch { field, reason: Mismatch::Missing }),
    }
}

/// Reads the side member of a record.
pub fn read_side(members: &Vec<(String, Json)>, field: &'static str) -> (r: Result<
    TradeDirection,
    DecodeError,
>)
    ensures
        r == side_field(members@, field),
{
    match read_text(members, field) {
        Ok(text) => match TradeDirection::from_wire(text.as_str()) {
            Some(side) => Ok(side),
            None => Err(DecodeError::UnknownEnumVariant { field, value: text }),
        },
        Err(e) => Err(e),
    }
}

/// Reads the order type member of a record.
pub fn read_order_type(members: &Vec<(String, Json)>, field: &'static str) -> (r: Result<
    OrderType,
    DecodeError,
>)
    ensures
        r == order_type_field(members@, field),
{
    match read_text(members, field) {
        Ok(text) => match OrderType::from_wire(text.as_str()) {
            Some(order_type) => Ok(order_type),
            None => Err(DecodeError::UnknownEnumVariant { field, value: text }),
        },
        Err(e) => Err(e),
    }
}

} // verus!
