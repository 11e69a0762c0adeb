//! Why a value or a request could not be parsed.

use crate::json::{JsonValue, JsonView};
use crate::text::{decimal_text, integer_text};
use vstd::prelude::*;
use vstd::string::*;

verus! {

/// Why a value could not be parsed from JSON, from a parameter or from a
/// multipart field.
#[derive(Debug, PartialEq)]
pub enum ParseError {
    /// The input is missing.
    ExpectedInput,
    /// The JSON value is of another kind than the type takes.
    ExpectedType { actual: JsonValue },
    /// The number is an integer outside the bounds of the type.
    OutOfRange { min: i128, max: i128 },
    /// The input is malformed; the message says how.
    Custom(String),
}

/// The mathematical content of a [`ParseError`].
pub enum ParseErrorView {
    ExpectedInput,
    ExpectedType { actual: JsonView },
    OutOfRange { min: int, max: int },
    Custom(Seq<char>),
}

impl DeepView for ParseError {
    type V = ParseErrorView;

    open spec fn deep_view(&self) -> ParseErrorView {
        match self {
            ParseError::ExpectedInput => ParseErrorView::ExpectedInput,
            ParseError::ExpectedType { actual } => ParseErrorView::ExpectedType {
                actual: actual.deep_view(),
            },
            ParseError::OutOfRange { min, max } => ParseErrorView::OutOfRange {
                min: *min as int,
                max: *max as int,
            },
            ParseError::Custom(message) => ParseErrorView::Custom(message@),
        }
    }
}

/// How a message names the kind of a JSON value.
pub open spec fn kind_text(value: JsonView) -> Seq<char> {
    match value {
        JsonView::Null => "null"@,
        JsonView::Bool(_) => "a boolean"@,
        JsonView::Number(_) => "a number"@,
        JsonView::String(_) => "a string"@,
        JsonView::Array(_) => "an array"@,
        JsonView::Object(_) => "an object"@,
    }
}

/// The sentence for an integer outside the bounds of its type.
pub open spec fn out_of_range_text(min: int, max: int) -> Seq<char> {
    "Only integers from "@ + decimal_text(min) + " to "@ + decimal_text(max) + " are accepted."@
}

/// The message of an error.
pub open spec fn message_text(error: ParseErrorView) -> Seq<char> {
    match error {
        ParseErrorView::ExpectedInput => "Expected an input value."@,
        ParseErrorView::ExpectedType { actual } => "Expected another input type, found "@
            + kind_text(actual) + "."@,
        ParseErrorView::OutOfRange { min, max } => out_of_range_text(min, max),
        ParseErrorView::Custom(message) => message,
    }
}

/// How a message names the kind of the JSON value.
fn kind_str(value: &JsonValue) -> (r: &'static str)
    ensures
        r@ == kind_text(value.deep_view()),
{
    match value {
        JsonValue::Null => "null",
        JsonValue::Bool(_) => "a boolean",
        JsonValue::Number(_) => "a number",
        JsonValue::String(_) => "a string",
        JsonValue::Array(_) => "an array",
        JsonValue::Object(_) => "an object",
    }
}

impl ParseError {
    /// The message of the error.
    pub fn message(&self) -> (r: String)
        ensures
            r@ == message_text(self.deep_view()),
    {
        match self {
            ParseError::ExpectedInput => String::from_str("Expected an input value."),
            ParseError::ExpectedType { actual } => {
                let mut text = String::from_str("Expected another input type, found ");
                text.append(kind_str(actual));
                text.append(".");
                text
            },
            ParseError::OutOfRange { min, max } => {
                let mut text = String::from_str("Only integers from ");
                text.append(integer_text(*min).as_str());
                text.append(" to ");
                text.append(integer_text(*max).as_str());
                text.append(" are accepted.");
                text
            },
            ParseError::Custom(message) => message.clone(),
        }
    }
}

pub type ParseResult<T> = Result<T, ParseError>;

/// What a parse came to, with the error taken by its content.
pub open spec fn parse_outcome<T: DeepView>(r: ParseResult<T>) -> Result<T::V, ParseErrorView> {
    match r {
        Ok(v) => Ok(v.deep_view()),
        Err(e) => Err(e.deep_view()),
    }
}

/// Why a request could not be turned into the typed input of an operation.
#[derive(Debug, PartialEq)]
pub enum ParseRequestError {
    /// The parameter of that name could not be parsed.
    ParseParam { name: String, error: ParseError },
    /// The request body could not be read or parsed.
    ParseRequestBody { reason: String },
    /// The request declares a content type that the operation does not take.
    ContentTypeNotSupported { content_type: String },
    /// The request declares no content type.
    ExpectContentType,
    /// The credentials of a required security scheme are absent or malformed.
    Authorization,
}

/// The mathematical content of a [`ParseRequestError`].
pub enum ParseRequestErrorView {
    ParseParam { name: Seq<char>, error: ParseErrorView },
    ParseRequestBody { reason: Seq<char> },
    ContentTypeNotSupported { content_type: Seq<char> },
    ExpectContentType,
    Authorization,
}

impl DeepView for ParseRequestError {
    type V = ParseRequestErrorView;

    open spec fn deep_view(&self) -> ParseRequestErrorView {
        match self {
            ParseRequestError::ParseParam { name, error } => ParseRequestErrorView::ParseParam {
                name: name@,
                error: error.deep_view(),
            },
            ParseRequestError::ParseRequestBody { reason } => {
                ParseRequestErrorView::ParseRequestBody { reason: reason@ }
            },
            ParseRequestError::ContentTypeNotSupported { content_type } => {
                ParseRequestErrorView::ContentTypeNotSupported { content_type: content_type@ }
            },
            ParseRequestError::ExpectContentType => ParseRequestErrorView::ExpectContentType,
            ParseRequestError::Authorization => ParseRequestErrorView::Authorization,
        }
    }
}

/// What parsing a request came to, with the error taken by its content.
pub open spec fn request_outcome<T: DeepView>(r: Result<T, ParseRequestError>) -> Result<
    T::V,
    ParseRequestErrorView,
> {
    match r {
        Ok(v) => Ok(v.deep_view()),
        Err(e) => Err(e.deep_view()),
    }
}

} // verus!
