//! The integer types as value types.

use crate::error::{ParseError, ParseErrorView, ParseResult};
use crate::json::{JsonNumber, JsonValue, JsonView};
use crate::registry::{
    lemma_register_nothing, MetaSchema, MetaSchemaRef, MetaSchemaRefView, MetaSchemaView, Registry,
};
use crate::text::{decimal_value, scan_decimal, Scanned};
use crate::types::{
    primitive_name, ParseFromJSON, ParseFromMultipartField, ParseFromParameter, ToJSON, Type,
};
use std::borrow::Cow;
use vstd::prelude::*;
use vstd::string::*;

verus! {

/// What reading an integer came to, with the error taken by its content.
pub open spec fn integer_outcome(r: Result<i128, ParseError>) -> Result<int, ParseErrorView> {
    match r {
        Ok(v) => Ok(v as int),
        Err(e) => Err(e.deep_view()),
    }
}

/// The result of a range check: the integer where it lies within the bounds.
pub open spec fn in_range(v: int, min: int, max: int) -> Result<int, ParseErrorView> {
    if min <= v <= max {
        Ok(v)
    } else {
        Err(ParseErrorView::OutOfRange { min, max })
    }
}

/// What reading an integer of the given bounds from JSON comes to. A value
/// that is no number is of the wrong type; a number that is no integer is
/// invalid; an integer is held to the bounds.
pub open spec fn integer_from_json(value: JsonView, min: int, max: int) -> Result<
    int,
    ParseErrorView,
> {
    match value {
        JsonView::Number(n) => match n.int_value() {
            Some(v) => in_range(v, min, max),
            None => Err(ParseErrorView::Custom("invalid integer"@)),
        },
        _ => Err(ParseErrorView::ExpectedType { actual: value }),
    }
}

/// Reads an integer of the given bounds from JSON.
pub fn parse_integer_from_json(value: JsonValue, min: i64, max: u64) -> (r: Result<
    i128,
    ParseError,
>)
    ensures
        integer_outcome(r) == integer_from_json(value.deep_view(), min as int, max as int),
{
    match value {
        JsonValue::Number(n) => match n.as_i128() {
            Some(v) => {
                if v < min as i128 || v > max as i128 {
                    Err(ParseError::OutOfRange { min: min as i128, max: max as i128 })
                } else {
                    Ok(v)
                }
            },
            None => Err(ParseError::Custom(String::from_str("invalid integer"))),
        },
        other => Err(ParseError::ExpectedType { actual: other }),
    }
}

/// What reading an integer of the given bounds from text comes to. The text
/// is digits after an optional sign, the sign `-` only where the bounds reach
/// below zero; an integer so written is held to the bounds.
pub open spec fn integer_from_text(text: Seq<char>, min: int, max: int) -> Result<
    int,
    ParseErrorView,
> {
    if text.len() == 0 {
        Err(ParseErrorView::Custom("cannot parse integer from empty string"@))
    } else {
        match decimal_value(text, min < 0) {
            Some(v) => in_range(v, min, max),
            None => Err(ParseErrorView::Custom("invalid digit found in string"@)),
        }
    }
}

/// Reads an integer of the given bounds from text.
pub fn parse_integer_from_text(text: &str, min: i64, max: u64) -> (r: Result<i128, ParseError>)
    ensures
        integer_outcome(r) == integer_from_text(text@, min as int, max as int),
{
    if text.unicode_len() == 0 {
        return Err(ParseError::Custom(String::from_str("cannot parse integer from empty string")));
    }
    match scan_decimal(text, min < 0) {
        Scanned::Malformed => Err(
            ParseError::Custom(String::from_str("invalid digit found in string")),
        ),
        Scanned::Value(v) => {
            if v < min as i128 || v > max as i128 {
                Err(ParseError::OutOfRange { min: min as i128, max: max as i128 })
            } else {
                Ok(v)
            }
        },
        Scanned::Above => Err(ParseError::OutOfRange { min: min as i128, max: max as i128 }),
        Scanned::Below => Err(ParseError::OutOfRange { min: min as i128, max: max as i128 }),
    }
}

/// Reads an integer of the given bounds from what reading a multipart field
/// came to.
pub fn parse_integer_from_field(field: Option<Result<String, String>>, min: i64, max: u64) -> (r:
    Result<i128, ParseError>)
    ensures
        field is None ==> r matches Err(ParseError::ExpectedInput),
        field matches Some(Err(reason)) ==> integer_outcome(r) == Err::<int, ParseErrorView>(
            ParseErrorView::Custom(reason@),
        ),
        field matches Some(Ok(text)) ==> integer_outcome(r) == integer_from_text(
            text@,
            min as int,
            max as int,
        ),
{
    match field {
        None => Err(ParseError::ExpectedInput),
        Some(Err(reason)) => Err(ParseError::Custom(reason)),
        Some(Ok(text)) => parse_integer_from_text(text.as_str(), min, max),
    }
}

/// The name of the integer type of the given format.
pub fn integer_name(format: &str) -> (r: Cow<'static, str>)
    ensures
        r@ == primitive_name("integer"@, format@),
{
    let mut name = String::from_str("integer");
    name.append("(");
    name.append(format);
    name.append(")");
    Cow::Owned(name)
}

/// The content of the schema of the integer type of the given format.
pub open spec fn integer_schema(format: Seq<char>) -> MetaSchemaRefView {
    MetaSchemaRefView::Inline(MetaSchemaView { ty: "integer"@, format: Some(format) })
}

/// The schema of the integer type of the given format.
pub fn integer_schema_ref(format: &'static str) -> (r: MetaSchemaRef)
    ensures
        r.deep_view() == integer_schema(format@),
{
    MetaSchemaRef::Inline(Box::new(MetaSchema::new_with_format("integer", format)))
}

impl Type for i8 {
    open spec fn spec_name() -> Seq<char> {
        primitive_name("integer"@, "int8"@)
    }

    open spec fn spec_schema_ref() -> MetaSchemaRefView {
        integer_schema("int8"@)
    }

    open spec fn named_schemas() -> Map<Seq<char>, MetaSchemaView> {
        Map::empty()
    }

    fn name() -> (r: Cow<'static, str>) {
        integer_name("int8")
    }

    fn schema_ref() -> (r: MetaSchemaRef) {
        integer_schema_ref("int8")
    }

    fn register(registry: &mut Registry) {
        proof {
            lemma_register_nothing(registry.schemas());
        }
    }
}

impl ParseFromJSON for i8 {
    open spec fn spec_parse_from_json(value: JsonView) -> Result<i8, ParseErrorView> {
        match integer_from_json(value, i8::MIN as int, i8::MAX as int) {
            Ok(v) => Ok(v as i8),
            Err(e) => Err(e),
        }
    }

    fn parse_from_json(value: JsonValue) -> (r: ParseResult<i8>) {
        match parse_integer_from_json(value, i8::MIN as i64, i8::MAX as u64) {
            Ok(v) => Ok(v as i8),
            Err(e) => Err(e),
        }
    }
}

impl ParseFromParameter for i8 {
    open spec fn spec_parse_from_parameter(text: Seq<char>) -> Result<i8, ParseErrorView> {
        match integer_from_text(text, i8::MIN as int, i8::MAX as int) {
            Ok(v) => Ok(v as i8),
            Err(e) => Err(e),
        }
    }

    fn parse_from_parameter(value: Option<&str>) -> (r: ParseResult<i8>) {
        match value {
            Some(text) => match parse_integer_from_text(text, i8::MIN as i64, i8::MAX as u64) {
                Ok(v) => Ok(v as i8),
                Err(e) => Err(e),
            },
            None => Err(ParseError::ExpectedInput),
        }
    }
}

impl ParseFromMultipartField for i8 {
    open spec fn spec_parse_from_multipart(text: Seq<char>) -> Result<i8, ParseErrorView> {
        Self::spec_parse_from_parameter(text)
    }

    fn parse_from_multipart(field: Option<Result<String, String>>) -> (r: ParseResult<i8>) {
        match parse_integer_from_field(field, i8::MIN as i64, i8::MAX as u64) {
            Ok(v) => Ok(v as i8),
            Err(e) => Err(e),
        }
    }
}

impl ToJSON for i8 {
    open spec fn spec_to_json(&self) -> JsonView {
        JsonView::Number(
            if *self < 0 {
                JsonNumber::NegInt(*self as i64)
            } else {
                JsonNumber::PosInt(*self as u64)
            },
        )
    }

    fn to_json(&self) -> (r: JsonValue) {
        JsonValue::Number(JsonNumber::from_i64(*self as i64))
    }
}

/// `i8` takes from JSON the integers from -128 to 127 and no others: an
/// integer beyond them is out of range, and a value that is no number is of
/// the wrong type.
pub proof fn lemma_i8_from_json(value: JsonView)
    ensures
        <i8 as ParseFromJSON>::spec_parse_from_json(value) is Ok <==> (value matches JsonView::Number(n)
            && n.int_value() matches Some(v) && i8::MIN <= v <= i8::MAX),
        <i8 as ParseFromJSON>::spec_parse_from_json(value) matches Ok(x) ==> value matches JsonView::Number(n)
            && n.int_value() == Some(x as int),
        value matches JsonView::Number(n) && n.int_value() matches Some(v) && !(i8::MIN <= v <= i8::MAX)
            ==> <i8 as ParseFromJSON>::spec_parse_from_json(value) == Err::<i8, ParseErrorView>(
            ParseErrorView::OutOfRange { min: i8::MIN as int, max: i8::MAX as int },
        ),
        !(value is Number) ==> <i8 as ParseFromJSON>::spec_parse_from_json(value) == Err::<
            i8,
            ParseErrorView,
        >(ParseErrorView::ExpectedType { actual: value }),
{
}

/// Every `i8` comes back from the JSON it is written as.
pub proof fn lemma_i8_json_round_trip(v: i8)
    ensures
        <i8 as ParseFromJSON>::spec_parse_from_json(v.spec_to_json()) == Ok::<i8, ParseErrorView>(v),
{
}

impl Type for i16 {
    open spec fn spec_name() -> Seq<char> {
        primitive_name("integer"@, "int16"@)
    }

    open spec fn spec_schema_ref() -> MetaSchemaRefView {
        integer_schema("int16"@)
    }

    open spec fn named_schemas() -> Map<Seq<char>, MetaSchemaView> {
        Map::empty()
    }

    fn name() -> (r: Cow<'static, str>) {
        integer_name("int16")
    }

    fn schema_ref() -> (r: MetaSchemaRef) {
        integer_schema_ref("int16")
    }

    fn register(registry: &mut Registry) {
        proof {
            lemma_register_nothing(registry.schemas());
        }
    }
}

impl ParseFromJSON for i16 {
    open spec fn spec_parse_from_json(value: JsonView) -> Result<i16, ParseErrorView> {
        match integer_from_json(value, i16::MIN as int, i16::MAX as int) {
            Ok(v) => Ok(v as i16),
            Err(e) => Err(e),
        }
    }

    fn parse_from_json(value: JsonValue) -> (r: ParseResult<i16>) {
        match parse_integer_from_json(value, i16::MIN as i64, i16::MAX as u64) {
            Ok(v) => Ok(v as i16),
            Err(e) => Err(e),
        }
    }
}

impl ParseFromParameter for i16 {
    open spec fn spec_parse_from_parameter(text: Seq<char>) -> Result<i16, ParseErrorView> {
        match integer_from_text(text, i16::MIN as int, i16::MAX as int) {
            Ok(v) => Ok(v as i16),
            Err(e) => Err(e),
        }
    }

    fn parse_from_parameter(value: Option<&str>) -> (r: ParseResult<i16>) {
        match value {
            Some(text) => match parse_integer_from_text(text, i16::MIN as i64, i16::MAX as u64) {
                Ok(v) => Ok(v as i16),
                Err(e) => Err(e),
            },
            None => Err(ParseError::ExpectedInput),
        }
    }
}

impl ParseFromMultipartField for i16 {
    open spec fn spec_parse_from_multipart(text: Seq<char>) -> Result<i16, ParseErrorView> {
        Self::spec_parse_from_parameter(text)
    }

    fn parse_from_multipart(field: Option<Result<String, String>>) -> (r: ParseResult<i16>) {
        match parse_integer_from_field(field, i16::MIN as i64, i16::MAX as u64) {
            Ok(v) => Ok(v as i16),
            Err(e) => Err(e),
        }
    }
}

impl ToJSON for i16 {
    open spec fn spec_to_json(&self) -> JsonView {
        JsonView::Number(
            if *self < 0 {
                JsonNumber::NegInt(*self as i64)
            } else {
                JsonNumber::PosInt(*self as u64)
            },
        )
    }

    fn to_json(&self) -> (r: JsonValue) {
        JsonValue::Number(JsonNumber::from_i64(*self as i64))
    }
}

/// `i16` takes from JSON the integers from -32768 to 32767 and no others: an
/// integer beyond them is out of range, and a value that is no number is of
/// the wrong type.
pub proof fn lemma_i16_from_json(value: JsonView)
    ensures
        <i16 as ParseFromJSON>::spec_parse_from_json(value) is Ok <==> (value matches JsonView::Number(n)
            && n.int_value() matches Some(v) && i16::MIN <= v <= i16::MAX),
        <i16 as ParseFromJSON>::spec_parse_from_json(value) matches Ok(x) ==> value matches JsonView::Number(n)
            && n.int_value() == Some(x as int),
        value matches JsonView::Number(n) && n.int_value() matches Some(v) && !(i16::MIN <= v <= i16::MAX)
            ==> <i16 as ParseFromJSON>::spec_parse_from_json(value) == Err::<i16, ParseErrorView>(
            ParseErrorView::OutOfRange { min: i16::MIN as int, max: i16::MAX as int },
        ),
        !(value is Number) ==> <i16 as ParseFromJSON>::spec_parse_from_json(value) == Err::<
            i16,
            ParseErrorView,
        >(ParseErrorView::ExpectedType { actual: value }),
{
}

/// Every `i16` comes back from the JSON it is written as.
pub proof fn lemma_i16_json_round_trip(v: i16)
    ensures
        <i16 as ParseFromJSON>::spec_parse_from_json(v.spec_to_json()) == Ok::<i16, ParseErrorView>(v),
{
}

impl Type for i32 {
    open spec fn spec_name() -> Seq<char> {
        primitive_name("integer"@, "int32"@)
    }

    open spec fn spec_schema_ref() -> MetaSchemaRefView {
        integer_schema("int32"@)
    }

    open spec fn named_schemas() -> Map<Seq<char>, MetaSchemaView> {
        Map::empty()
    }

    fn name() -> (r: Cow<'static, str>) {
        integer_name("int32")
    }

    fn schema_ref() -> (r: MetaSchemaRef) {
        integer_schema_ref("int32")
    }

    fn register(registry: &mut Registry) {
        proof {
            lemma_register_nothing(registry.schemas());
        }
    }
}

impl ParseFromJSON for i32 {
    open spec fn spec_parse_from_json(value: JsonView) -> Result<i32, ParseErrorView> {
        match integer_from_json(value, i32::MIN as int, i32::MAX as int) {
            Ok(v) => Ok(v as i32),
            Err(e) => Err(e),
        }
    }

    fn parse_from_json(value: JsonValue) -> (r: ParseResult<i32>) {
        match parse_integer_from_json(value, i32::MIN as i64, i32::MAX as u64) {
            Ok(v) => Ok(v as i32),
            Err(e) => Err(e),
        }
    }
}

impl ParseFromParameter for i32 {
    open spec fn spec_parse_from_parameter(text: Seq<char>) -> Result<i32, ParseErrorView> {
        match integer_from_text(text, i32::MIN as int, i32::MAX as int) {
            Ok(v) => Ok(v as i32),
            Err(e) => Err(e),
        }
    }

    fn parse_from_parameter(value: Option<&str>) -> (r: ParseResult<i32>) {
        match value {
            Some(text) => match parse_integer_from_text(text, i32::MIN as i64, i32::MAX as u64) {
                Ok(v) => Ok(v as i32),
                Err(e) => Err(e),
            },
            None => Err(ParseError::ExpectedInput),
        }
    }
}

impl ParseFromMultipartField for i32 {
    open spec fn spec_parse_from_multipart(text: Seq<char>) -> Result<i32, ParseErrorView> {
        Self::spec_parse_from_parameter(text)
    }

    fn parse_from_multipart(field: Option<Result<String, String>>) -> (r: ParseResult<i32>) {
        match parse_integer_from_field(field, i32::MIN as i64, i32::MAX as u64) {
            Ok(v) => Ok(v as i32),
            Err(e) => Err(e),
        }
    }
}

impl ToJSON for i32 {
    open spec fn spec_to_json(&self) -> JsonView {
        JsonView::Number(
            if *self < 0 {
                JsonNumber::NegInt(*self as i64)
            } else {
                JsonNumber::PosInt(*self as u64)
            },
        )
    }

    fn to_json(&self) -> (r: JsonValue) {
        JsonValue::Number(JsonNumber::from_i64(*self as i64))
    }
}

/// `i32` takes from JSON the integers from -2147483648 to 2147483647 and no others: an
/// integer beyond them is out of range, and a value that is no number is of
/// the wrong type.
pub proof fn lemma_i32_from_json(value: JsonView)
    ensures
        <i32 as ParseFromJSON>::spec_parse_from_json(value) is Ok <==> (value matches JsonView::Number(n)
            && n.int_value() matches Some(v) && i32::MIN <= v <= i32::MAX),
        <i32 as ParseFromJSON>::spec_parse_from_json(value) matches Ok(x) ==> value matches JsonView::Number(n)
            && n.int_value() == Some(x as int),
        value matches JsonView::Number(n) && n.int_value() matches Some(v) && !(i32::MIN <= v <= i32::MAX)
            ==> <i32 as ParseFromJSON>::spec_parse_from_json(value) == Err::<i32, ParseErrorView>(
            ParseErrorView::OutOfRange { min: i32::MIN as int, max: i32::MAX as int },
        ),
        !(value is Number) ==> <i32 as ParseFromJSON>::spec_parse_from_json(value) == Err::<
            i32,
            ParseErrorView,
        >(ParseErrorView::ExpectedType { actual: value }),
{
}

/// Every `i32` comes back from the JSON it is written as.
pub proof fn lemma_i32_json_round_trip(v: i32)
    ensures
        <i32 as ParseFromJSON>::spec_parse_from_json(v.spec_to_json()) == Ok::<i32, ParseErrorView>(v),
{
}

impl Type for i64 {
    open spec fn spec_name() -> Seq<char> {
        primitive_name("integer"@, "int64"@)
    }

    open spec fn spec_schema_ref() -> MetaSchemaRefView {
        integer_schema("int64"@)
    }

    open spec fn named_schemas() -> Map<Seq<char>, MetaSchemaView> {
        Map::empty()
    }

    fn name() -> (r: Cow<'static, str>) {
        integer_name("int64")
    }

    fn schema_ref() -> (r: MetaSchemaRef) {
        integer_schema_ref("int64")
    }

    fn register(registry: &mut Registry) {
        proof {
            lemma_register_nothing(registry.schemas());
        }
    }
}

impl ParseFromJSON for i64 {
    open spec fn spec_parse_from_json(value: JsonView) -> Result<i64, ParseErrorView> {
        match integer_from_json(value, i64::MIN as int, i64::MAX as int) {
            Ok(v) => Ok(v as i64),
            Err(e) => Err(e),
        }
    }

    fn parse_from_json(value: JsonValue) -> (r: ParseResult<i64>) {
        match parse_integer_from_json(value, i64::MIN as i64, i64::MAX as u64) {
            Ok(v) => Ok(v as i64),
            Err(e) => Err(e),
        }
    }
}

impl ParseFromParameter for i64 {
    open spec fn spec_parse_from_parameter(text: Seq<char>) -> Result<i64, ParseErrorView> {
        match integer_from_text(text, i64::MIN as int, i64::MAX as int) {
            Ok(v) => Ok(v as i64),
            Err(e) => Err(e),
        }
    }

    fn parse_from_parameter(value: Option<&str>) -> (r: ParseResult<i64>) {
        match value {
            Some(text) => match parse_integer_from_text(text, i64::MIN as i64, i64::MAX as u64) {
                Ok(v) => Ok(v as i64),
                Err(e) => Err(e),
            },
            None => Err(ParseError::ExpectedInput),
        }
    }
}

impl ParseFromMultipartField for i64 {
    open spec fn spec_parse_from_multipart(text: Seq<char>) -> Result<i64, ParseErrorView> {
        Self::spec_parse_from_parameter(text)
    }

    fn parse_from_multipart(field: Option<Result<String, String>>) -> (r: ParseResult<i64>) {
        match parse_integer_from_field(field, i64::MIN as i64, i64::MAX as u64) {
            Ok(v) => Ok(v as i64),
            Err(e) => Err(e),
        }
    }
}

impl ToJSON for i64 {
    open spec fn spec_to_json(&self) -> JsonView {
        JsonView::Number(
            if *self < 0 {
                JsonNumber::NegInt(*self as i64)
            } else {
                JsonNumber::PosInt(*self as u64)
            },
        )
    }

    fn to_json(&self) -> (r: JsonValue) {
        JsonValue::Number(JsonNumber::from_i64(*self as i64))
    }
}

/// `i64` takes from JSON the integers from -9223372036854775808 to 9223372036854775807 and no others: an
/// integer beyond them is out of range, and a value that is no number is of
/// the wrong type.
pub proof fn lemma_i64_from_json(value: JsonView)
    ensures
        <i64 as ParseFromJSON>::spec_parse_from_json(value) is Ok <==> (value matches JsonView::Number(n)
            && n.int_value() matches Some(v) && i64::MIN <= v <= i64::MAX),
        <i64 as ParseFromJSON>::spec_parse_from_json(value) matches Ok(x) ==> value matches JsonView::Number(n)
            && n.int_value() == Some(x as int),
        value matches JsonView::Number(n) && n.int_value() matches Some(v) && !(i64::MIN <= v <= i64::MAX)
            ==> <i64 as ParseFromJSON>::spec_parse_from_json(value) == Err::<i64, ParseErrorView>(
            ParseErrorView::OutOfRange { min: i64::MIN as int, max: i64::MAX as int },
        ),
        !(value is Number) ==> <i64 as ParseFromJSON>::spec_parse_from_json(value) == Err::<
            i64,
            ParseErrorView,
        >(ParseErrorView::ExpectedType { actual: value }),
{
}

/// Every `i64` comes back from the JSON it is written as.
pub proof fn lemma_i64_json_round_trip(v: i64)
    ensures
        <i64 as ParseFromJSON>::spec_parse_from_json(v.spec_to_json()) == Ok::<i64, ParseErrorView>(v),
{
}

impl Type for u8 {
    open spec fn spec_name() -> Seq<char> {
        primitive_name("integer"@, "uint8"@)
    }

    open spec fn spec_schema_ref() -> MetaSchemaRefView {
        integer_schema("uint8"@)
    }

    open spec fn named_schemas() -> Map<Seq<char>, MetaSchemaView> {
        Map::empty()
    }

    fn name() -> (r: Cow<'static, str>) {
        integer_name("uint8")
    }

    fn schema_ref() -> (r: MetaSchemaRef) {
        integer_schema_ref("uint8")
    }

    fn register(registry: &mut Registry) {
        proof {
            lemma_register_nothing(registry.schemas());
        }
    }
}

impl ParseFromJSON for u8 {
    open spec fn spec_parse_from_json(value: JsonView) -> Result<u8, ParseErrorView> {
        match integer_from_json(value, u8::MIN as int, u8::MAX as int) {
            Ok(v) => Ok(v as u8),
            Err(e) => Err(e),
        }
    }

    fn parse_from_json(value: JsonValue) -> (r: ParseResult<u8>) {
        match parse_integer_from_json(value, u8::MIN as i64, u8::MAX as u64) {
            Ok(v) => Ok(v as u8),
            Err(e) => Err(e),
        }
    }
}

impl ParseFromParameter for u8 {
    open spec fn spec_parse_from_parameter(text: Seq<char>) -> Result<u8, ParseErrorView> {
        match integer_from_text(text, u8::MIN as int, u8::MAX as int) {
            Ok(v) => Ok(v as u8),
            Err(e) => Err(e),
        }
    }

    fn parse_from_parameter(value: Option<&str>) -> (r: ParseResult<u8>) {
        match value {
            Some(text) => match parse_integer_from_text(text, u8::MIN as i64, u8::MAX as u64) {
                Ok(v) => Ok(v as u8),
                Err(e) => Err(e),
            },
            None => Err(ParseError::ExpectedInput),
        }
    }
}

impl ParseFromMultipartField for u8 {
    open spec fn spec_parse_from_multipart(text: Seq<char>) -> Result<u8, ParseErrorView> {
        Self::spec_parse_from_parameter(text)
    }

    fn parse_from_multipart(field: Option<Result<String, String>>) -> (r: ParseResult<u8>) {
        match parse_integer_from_field(field, u8::MIN as i64, u8::MAX as u64) {
            Ok(v) => Ok(v as u8),
            Err(e) => Err(e),
        }
    }
}

impl ToJSON for u8 {
    open spec fn spec_to_json(&self) -> JsonView {
        JsonView::Number(JsonNumber::PosInt(*self as u64))
    }

    fn to_json(&self) -> (r: JsonValue) {
        JsonValue::Number(JsonNumber::from_u64(*self as u64))
    }
}

/// `u8` takes from JSON the integers from 0 to 255 and no others: an
/// integer beyond them is out of range, and a value that is no number is of
/// the wrong type.
pub proof fn lemma_u8_from_json(value: JsonView)
    ensures
        <u8 as ParseFromJSON>::spec_parse_from_json(value) is Ok <==> (value matches JsonView::Number(n)
            && n.int_value() matches Some(v) && u8::MIN <= v <= u8::MAX),
        <u8 as ParseFromJSON>::spec_parse_from_json(value) matches Ok(x) ==> value matches JsonView::Number(n)
            && n.int_value() == Some(x as int),
        value matches JsonView::Number(n) && n.int_value() matches Some(v) && !(u8::MIN <= v <= u8::MAX)
            ==> <u8 as ParseFromJSON>::spec_parse_from_json(value) == Err::<u8, ParseErrorView>(
            ParseErrorView::OutOfRange { min: u8::MIN as int, max: u8::MAX as int },
        ),
        !(value is Number) ==> <u8 as ParseFromJSON>::spec_parse_from_json(value) == Err::<
            u8,
            ParseErrorView,
        >(ParseErrorView::ExpectedType { actual: value }),
{
}

/// Every `u8` comes back from the JSON it is written as.
pub proof fn lemma_u8_json_round_trip(v: u8)
    ensures
        <u8 as ParseFromJSON>::spec_parse_from_json(v.spec_to_json()) == Ok::<u8, ParseErrorView>(v),
{
}

impl Type for u16 {
    open spec fn spec_name() -> Seq<char> {
        primitive_name("integer"@, "uint16"@)
    }

    open spec fn spec_schema_ref() -> MetaSchemaRefView {
        integer_schema("uint16"@)
    }

    open spec fn named_schemas() -> Map<Seq<char>, MetaSchemaView> {
        Map::empty()
    }

    fn name() -> (r: Cow<'static, str>) {
        integer_name("uint16")
    }

    fn schema_ref() -> (r: MetaSchemaRef) {
        integer_schema_ref("uint16")
    }

    fn register(registry: &mut Registry) {
        proof {
            lemma_register_nothing(registry.schemas());
        }
    }
}

impl ParseFromJSON for u16 {
    open spec fn spec_parse_from_json(value: JsonView) -> Result<u16, ParseErrorView> {
        match integer_from_json(value, u16::MIN as int, u16::MAX as int) {
            Ok(v) => Ok(v as u16),
            Err(e) => Err(e),
        }
    }

    fn parse_from_json(value: JsonValue) -> (r: ParseResult<u16>) {
        match parse_integer_from_json(value, u16::MIN as i64, u16::MAX as u64) {
            Ok(v) => Ok(v as u16),
            Err(e) => Err(e),
        }
    }
}

impl ParseFromParameter for u16 {
    open spec fn spec_parse_from_parameter(text: Seq<char>) -> Result<u16, ParseErrorView> {
        match integer_from_text(text, u16::MIN as int, u16::MAX as int) {
            Ok(v) => Ok(v as u16),
            Err(e) => Err(e),
        }
    }

    fn parse_from_parameter(value: Option<&str>) -> (r: ParseResult<u16>) {
        match value {
            Some(text) => match parse_integer_from_text(text, u16::MIN as i64, u16::MAX as u64) {
                Ok(v) => Ok(v as u16),
                Err(e) => Err(e),
            },
            None => Err(ParseError::ExpectedInput),
        }
    }
}

impl ParseFromMultipartField for u16 {
    open spec fn spec_parse_from_multipart(text: Seq<char>) -> Result<u16, ParseErrorView> {
        Self::spec_parse_from_parameter(text)
    }

    fn parse_from_multipart(field: Option<Result<String, String>>) -> (r: ParseResult<u16>) {
        match parse_integer_from_field(field, u16::MIN as i64, u16::MAX as u64) {
            Ok(v) => Ok(v as u16),
            Err(e) => Err(e),
        }
    }
}

impl ToJSON for u16 {
    open spec fn spec_to_json(&self) -> JsonView {
        JsonView::Number(JsonNumber::PosInt(*self as u64))
    }

    fn to_json(&self) -> (r: JsonValue) {
        JsonValue::Number(JsonNumber::from_u64(*self as u64))
    }
}

/// `u16` takes from JSON the integers from 0 to 65535 and no others: an
/// integer beyond them is out of range, and a value that is no number is of
/// the wrong type.
pub proof fn lemma_u16_from_json(value: JsonView)
    ensures
        <u16 as ParseFromJSON>::spec_parse_from_json(value) is Ok <==> (value matches JsonView::Number(n)
            && n.int_value() matches Some(v) && u16::MIN <= v <= u16::MAX),
        <u16 as ParseFromJSON>::spec_parse_from_json(value) matches Ok(x) ==> value matches JsonView::Number(n)
            && n.int_value() == Some(x as int),
        value matches JsonView::Number(n) && n.int_value() matches Some(v) && !(u16::MIN <= v <= u16::MAX)
            ==> <u16 as ParseFromJSON>::spec_parse_from_json(value) == Err::<u16, ParseErrorView>(
            ParseErrorView::OutOfRange { min: u16::MIN as int, max: u16::MAX as int },
        ),
        !(value is Number) ==> <u16 as ParseFromJSON>::spec_parse_from_json(value) == Err::<
            u16,
            ParseErrorView,
        >(ParseErrorView::ExpectedType { actual: value }),
{
}

/// Every `u16` comes back from the JSON it is written as.
pub proof fn lemma_u16_json_round_trip(v: u16)
    ensures
        <u16 as ParseFromJSON>::spec_parse_from_json(v.spec_to_json()) == Ok::<u16, ParseErrorView>(v),
{
}

impl Type for u32 {
    open spec fn spec_name() -> Seq<char> {
        primitive_name("integer"@, "uint32"@)
    }

    open spec fn spec_schema_ref() -> MetaSchemaRefView {
        integer_schema("uint32"@)
    }

    open spec fn named_schemas() -> Map<Seq<char>, MetaSchemaView> {
        Map::empty()
    }

    fn name() -> (r: Cow<'static, str>) {
        integer_name("uint32")
    }

    fn schema_ref() -> (r: MetaSchemaRef) {
        integer_schema_ref("uint32")
    }

    fn register(registry: &mut Registry) {
        proof {
            lemma_register_nothing(registry.schemas());
        }
    }
}

impl ParseFromJSON for u32 {
    open spec fn spec_parse_from_json(value: JsonView) -> Result<u32, ParseErrorView> {
        match integer_from_json(value, u32::MIN as int, u32::MAX as int) {
            Ok(v) => Ok(v as u32),
            Err(e) => Err(e),
        }
    }

    fn parse_from_json(value: JsonValue) -> (r: ParseResult<u32>) {
        match parse_integer_from_json(value, u32::MIN as i64, u32::MAX as u64) {
            Ok(v) => Ok(v as u32),
            Err(e) => Err(e),
        }
    }
}

impl ParseFromParameter for u32 {
    open spec fn spec_parse_from_parameter(text: Seq<char>) -> Result<u32, ParseErrorView> {
        match integer_from_text(text, u32::MIN as int, u32::MAX as int) {
            Ok(v) => Ok(v as u32),
            Err(e) => Err(e),
        }
    }

    fn parse_from_parameter(value: Option<&str>) -> (r: ParseResult<u32>) {
        match value {
            Some(text) => match parse_integer_from_text(text, u32::MIN as i64, u32::MAX as u64) {
                Ok(v) => Ok(v as u32),
                Err(e) => Err(e),
            },
            None => Err(ParseError::ExpectedInput),
        }
    }
}

impl ParseFromMultipartField for u32 {
    open spec fn spec_parse_from_multipart(text: Seq<char>) -> Result<u32, ParseErrorView> {
        Self::spec_parse_from_parameter(text)
    }

    fn parse_from_multipart(field: Option<Result<String, String>>) -> (r: ParseResult<u32>) {
        match parse_integer_from_field(field, u32::MIN as i64, u32::MAX as u64) {
            Ok(v) => Ok(v as u32),
            Err(e) => Err(e),
        }
    }
}

impl ToJSON for u32 {
    open spec fn spec_to_json(&self) -> JsonView {
        JsonView::Number(JsonNumber::PosInt(*self as u64))
    }

    fn to_json(&self) -> (r: JsonValue) {
        JsonValue::Number(JsonNumber::from_u64(*self as u64))
    }
}

/// `u32` takes from JSON the integers from 0 to 4294967295 and no others: an
/// integer beyond them is out of range, and a value that is no number is of
/// the wrong type.
pub proof fn lemma_u32_from_json(value: JsonView)
    ensures
        <u32 as ParseFromJSON>::spec_parse_from_json(value) is Ok <==> (value matches JsonView::Number(n)
            && n.int_value() matches Some(v) && u32::MIN <= v <= u32::MAX),
        <u32 as ParseFromJSON>::spec_parse_from_json(value) matches Ok(x) ==> value matches JsonView::Number(n)
            && n.int_value() == Some(x as int),
        value matches JsonView::Number(n) && n.int_value() matches Some(v) && !(u32::MIN <= v <= u32::MAX)
            ==> <u32 as ParseFromJSON>::spec_parse_from_json(value) == Err::<u32, ParseErrorView>(
            ParseErrorView::OutOfRange { min: u32::MIN as int, max: u32::MAX as int },
        ),
        !(value is Number) ==> <u32 as ParseFromJSON>::spec_parse_from_json(value) == Err::<
            u32,
            ParseErrorView,
        >(ParseErrorView::ExpectedType { actual: value }),
{
}

/// Every `u32` comes back from the JSON it is written as.
pub proof fn lemma_u32_json_round_trip(v: u32)
    ensures
        <u32 as ParseFromJSON>::spec_parse_from_json(v.spec_to_json()) == Ok::<u32, ParseErrorView>(v),
{
}

impl Type for u64 {
    open spec fn spec_name() -> Seq<char> {
        primitive_name("integer"@, "uint64"@)
    }

    open spec fn spec_schema_ref() -> MetaSchemaRefView {
        integer_schema("uint64"@)
    }

    open spec fn named_schemas() -> Map<Seq<char>, MetaSchemaView> {
        Map::empty()
    }

    fn name() -> (r: Cow<'static, str>) {
        integer_name("uint64")
    }

    fn schema_ref() -> (r: MetaSchemaRef) {
        integer_schema_ref("uint64")
    }

    fn register(registry: &mut Registry) {
        proof {
            lemma_register_nothing(registry.schemas());
        }
    }
}

impl ParseFromJSON for u64 {
    open spec fn spec_parse_from_json(value: JsonView) -> Result<u64, ParseErrorView> {
        match integer_from_json(value, u64::MIN as int, u64::MAX as int) {
            Ok(v) => Ok(v as u64),
            Err(e) => Err(e),
        }
    }

    fn parse_from_json(value: JsonValue) -> (r: ParseResult<u64>) {
        match parse_integer_from_json(value, u64::MIN as i64, u64::MAX as u64) {
            Ok(v) => Ok(v as u64),
            Err(e) => Err(e),
        }
    }
}

impl ParseFromParameter for u64 {
    open spec fn spec_parse_from_parameter(text: Seq<char>) -> Result<u64, ParseErrorView> {
        match integer_from_text(text, u64::MIN as int, u64::MAX as int) {
            Ok(v) => Ok(v as u64),
            Err(e) => Err(e),
        }
    }

    fn parse_from_parameter(value: Option<&str>) -> (r: ParseResult<u64>) {
        match value {
            Some(text) => match parse_integer_from_text(text, u64::MIN as i64, u64::MAX as u64) {
                Ok(v) => Ok(v as u64),
                Err(e) => Err(e),
            },
            None => Err(ParseError::ExpectedInput),
        }
    }
}

impl ParseFromMultipartField for u64 {
    open spec fn spec_parse_from_multipart(text: Seq<char>) -> Result<u64, ParseErrorView> {
        Self::spec_parse_from_parameter(text)
    }

    fn parse_from_multipart(field: Option<Result<String, String>>) -> (r: ParseResult<u64>) {
        match parse_integer_from_field(field, u64::MIN as i64, u64::MAX as u64) {
            Ok(v) => Ok(v as u64),
            Err(e) => Err(e),
        }
    }
}

impl ToJSON for u64 {
    open spec fn spec_to_json(&self) -> JsonView {
        JsonView::Number(JsonNumber::PosInt(*self as u64))
    }

    fn to_json(&self) -> (r: JsonValue) {
        JsonValue::Number(JsonNumber::from_u64(*self as u64))
    }
}

/// `u64` takes from JSON the integers from 0 to 18446744073709551615 and no others: an
/// integer beyond them is out of range, and a value that is no number is of
/// the wrong type.
pub proof fn lemma_u64_from_json(value: JsonView)
    ensures
        <u64 as ParseFromJSON>::spec_parse_from_json(value) is Ok <==> (value matches JsonView::Number(n)
            && n.int_value() matches Some(v) && u64::MIN <= v <= u64::MAX),
        <u64 as ParseFromJSON>::spec_parse_from_json(value) matches Ok(x) ==> value matches JsonView::Number(n)
            && n.int_value() == Some(x as int),
        value matches JsonView::Number(n) && n.int_value() matches Some(v) && !(u64::MIN <= v <= u64::MAX)
            ==> <u64 as ParseFromJSON>::spec_parse_from_json(value) == Err::<u64, ParseErrorView>(
            ParseErrorView::OutOfRange { min: u64::MIN as int, max: u64::MAX as int },
        ),
        !(value is Number) ==> <u64 as ParseFromJSON>::spec_parse_from_json(value) == Err::<
            u64,
            ParseErrorView,
        >(ParseErrorView::ExpectedType { actual: value }),
{
}

/// Every `u64` comes back from the JSON it is written as.
pub proof fn lemma_u64_json_round_trip(v: u64)
    ensures
        <u64 as ParseFromJSON>::spec_parse_from_json(v.spec_to_json()) == Ok::<u64, ParseErrorView>(v),
{
}

} // verus!
