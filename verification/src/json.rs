//! A JSON value as plain data.

use vstd::prelude::*;

verus! {

/// A JSON number: a non-negative integer, a negative integer, or a finite
/// double held by its IEEE 754 bit pattern.
#[derive(Clone, Copy, Debug, PartialEq)]
pub enum JsonNumber {
    PosInt(u64),
    NegInt(i64),
    Float(u64),
}

/// The exponent field of a double's bit pattern.
pub open spec fn exponent_bits(bits: u64) -> u64 {
    (bits >> 52) & 0x7ff
}

impl JsonNumber {
    /// A negative integer is below zero, and a double is neither infinite nor NaN.
    pub open spec fn wf(&self) -> bool {
        match *self {
            JsonNumber::PosInt(_) => true,
            JsonNumber::NegInt(n) => n < 0,
            JsonNumber::Float(bits) => exponent_bits(bits) != 0x7ff,
        }
    }

    /// The integer that the number holds, if it holds one.
    pub open spec fn int_value(&self) -> Option<int> {
        match *self {
            JsonNumber::PosInt(n) => Some(n as int),
            JsonNumber::NegInt(n) => Some(n as int),
            JsonNumber::Float(_) => None,
        }
    }

    pub fn from_i64(n: i64) -> (r: JsonNumber)
        ensures
            r.wf(),
            r.int_value() == Some(n as int),
            n >= 0 ==> r == JsonNumber::PosInt(n as u64),
            n < 0 ==> r == JsonNumber::NegInt(n),
    {
        if n < 0 {
            JsonNumber::NegInt(n)
        } else {
            JsonNumber::PosInt(n as u64)
        }
    }

    pub fn from_u64(n: u64) -> (r: JsonNumber)
        ensures
            r == JsonNumber::PosInt(n),
    {
        JsonNumber::PosInt(n)
    }

    /// The number as an `i64`, where it is an integer that fits.
    pub fn as_i64(&self) -> (r: Option<i64>)
        ensures
            r is Some <==> (self.int_value() matches Some(v) && i64::MIN <= v <= i64::MAX),
            r matches Some(n) ==> self.int_value() == Some(n as int),
    {
        match *self {
            JsonNumber::PosInt(n) => {
                if n <= 0x7fff_ffff_ffff_ffff {
                    Some(n as i64)
                } else {
                    None
                }
            },
            JsonNumber::NegInt(n) => Some(n),
            JsonNumber::Float(_) => None,
        }
    }

    /// The number as a `u64`, where it is a non-negative integer.
    pub fn as_u64(&self) -> (r: Option<u64>)
        ensures
            r is Some <==> (self.int_value() matches Some(v) && 0 <= v <= u64::MAX),
            r matches Some(n) ==> self.int_value() == Some(n as int),
    {
        match *self {
            JsonNumber::PosInt(n) => Some(n),
            JsonNumber::NegInt(n) => {
                if n >= 0 {
                    Some(n as u64)
                } else {
                    None
                }
            },
            JsonNumber::Float(_) => None,
        }
    }

    /// The number as an `i128`, where it is an integer.
    pub fn as_i128(&self) -> (r: Option<i128>)
        ensures
            r is Some <==> self.int_value() is Some,
            r matches Some(n) ==> self.int_value() == Some(n as int),
    {
        match *self {
            JsonNumber::PosInt(n) => Some(n as i128),
            JsonNumber::NegInt(n) => Some(n as i128),
            JsonNumber::Float(_) => None,
        }
    }
}

/// A JSON value. An object keeps its members in the order they were given.
#[derive(Debug, PartialEq)]
pub enum JsonValue {
    Null,
    Bool(bool),
    Number(JsonNumber),
    String(String),
    Array(Vec<JsonValue>),
    Object(Vec<(String, JsonValue)>),
}

/// The mathematical content of a [`JsonValue`].
pub enum JsonView {
    Null,
    Bool(bool),
    Number(JsonNumber),
    String(Seq<char>),
    Array(Seq<JsonView>),
    Object(Seq<(Seq<char>, JsonView)>),
}

impl DeepView for JsonValue {
    type V = JsonView;

    open spec fn deep_view(&self) -> JsonView
        decreases self,
    {
        match self {
            JsonValue::Null => JsonView::Null,
            JsonValue::Bool(b) => JsonView::Bool(*b),
            JsonValue::Number(n) => JsonView::Number(*n),
            JsonValue::String(s) => JsonView::String(s@),
            JsonValue::Array(items) => JsonView::Array(
                Seq::new(
                    items@.len(),
                    |i: int|
                        if 0 <= i < items@.len() {
                            items@[i].deep_view()
                        } else {
                            JsonView::Null
                        },
                ),
            ),
            JsonValue::Object(members) => JsonView::Object(
                Seq::new(
                    members@.len(),
                    |i: int|
                        if 0 <= i < members@.len() {
                            (members@[i].0@, members@[i].1.deep_view())
                        } else {
                            (Seq::empty(), JsonView::Null)
                        },
                ),
            ),
        }
    }
}

} // verus!
