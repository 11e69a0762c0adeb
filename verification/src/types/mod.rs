//! What a value type can do: describe itself as a schema, and convert from and
//! to JSON, a parameter's text and a multipart field.

pub mod external;

use crate::error::{
    parse_outcome, request_outcome, ParseError, ParseErrorView, ParseRequestError,
    ParseRequestErrorView, ParseResult,
};
use crate::json::{JsonValue, JsonView};
use crate::registry::{
    lemma_registers_twice, registers, MetaSchemaRef, MetaSchemaRefView, MetaSchemaView,
    Registry,
};
use std::borrow::Cow;
use vstd::prelude::*;
use vstd::string::*;

verus! {

/// A type of values that an API takes or gives.
///
/// The functions in `spec` mode say what the others return.
pub trait Type: Sized + DeepView {
    /// The name of the type, as documentation shows it.
    spec fn spec_name() -> Seq<char>;

    /// The schema of the type: given in place, or the name of one in the registry.
    spec fn spec_schema_ref() -> MetaSchemaRefView;

    /// The named schemas that the type and its members bring to a registry.
    spec fn named_schemas() -> Map<Seq<char>, MetaSchemaView>;

    /// The name of the type.
    fn name() -> (r: Cow<'static, str>)
        ensures
            r@ == Self::spec_name(),
    ;

    /// The schema of the type. It is the same at every call.
    fn schema_ref() -> (r: MetaSchemaRef)
        ensures
            r.deep_view() == Self::spec_schema_ref(),
    ;

    /// Registers the named schemas of the type and of its members.
    fn register(registry: &mut Registry)
        requires
            old(registry).wf(),
        ensures
            registers(Self::named_schemas(), *old(registry), *final(registry)),
    ;
}

/// A type whose values can be read from JSON.
pub trait ParseFromJSON: Type {
    /// What reading the JSON value comes to.
    spec fn spec_parse_from_json(value: JsonView) -> Result<Self::V, ParseErrorView>;

    /// Reads a value from JSON.
    fn parse_from_json(value: JsonValue) -> (r: ParseResult<Self>)
        ensures
            parse_outcome(r) == Self::spec_parse_from_json(value.deep_view()),
    ;
}

/// A type whose values can be read from the text of a path, query or header
/// parameter.
pub trait ParseFromParameter: Type {
    /// What reading the text of a parameter that is present comes to.
    spec fn spec_parse_from_parameter(text: Seq<char>) -> Result<Self::V, ParseErrorView>;

    /// Reads a value from a parameter. A parameter that is missing is an error,
    /// never a default value.
    fn parse_from_parameter(value: Option<&str>) -> (r: ParseResult<Self>)
        ensures
            value is None ==> r matches Err(ParseError::ExpectedInput),
            value matches Some(text) ==> parse_outcome(r) == Self::spec_parse_from_parameter(text@),
    ;
}

/// A type whose values can be read from a field of a multipart form.
pub trait ParseFromMultipartField: Type {
    /// What reading the text of a field that is present comes to.
    spec fn spec_parse_from_multipart(text: Seq<char>) -> Result<Self::V, ParseErrorView>;

    /// Reads a value from a field, given what reading the field's text came to:
    /// the text, or the reason why it could not be read. A field that is missing
    /// is an error, and so is one that could not be read.
    fn parse_from_multipart(field: Option<Result<String, String>>) -> (r: ParseResult<Self>)
        ensures
            field is None ==> r matches Err(ParseError::ExpectedInput),
            field matches Some(Err(reason)) ==> parse_outcome(r) == Err::<Self::V, ParseErrorView>(
                ParseErrorView::Custom(reason@),
            ),
            field matches Some(Ok(text)) ==> parse_outcome(r) == Self::spec_parse_from_multipart(
                text@,
            ),
    ;
}

/// A type whose values can be written as JSON.
pub trait ToJSON: Type {
    /// The JSON that the value is written as.
    spec fn spec_to_json(&self) -> JsonView;

    /// Writes the value as JSON.
    fn to_json(&self) -> (r: JsonValue)
        ensures
            r.deep_view() == self.spec_to_json(),
    ;
}

/// What reading the parameter of that name comes to for the request: the
/// value, or the error of the parameter under its name.
pub open spec fn parameter_of_request<T: ParseFromParameter>(
    name: Seq<char>,
    value: Option<Seq<char>>,
) -> Result<T::V, ParseRequestErrorView> {
    let outcome = match value {
        Some(text) => T::spec_parse_from_parameter(text),
        None => Err(ParseErrorView::ExpectedInput),
    };
    match outcome {
        Ok(v) => Ok(v),
        Err(error) => Err(ParseRequestErrorView::ParseParam { name, error }),
    }
}

/// Reads the parameter of that name for a request.
pub fn parse_parameter<T: ParseFromParameter>(name: &str, value: Option<&str>) -> (r: Result<
    T,
    ParseRequestError,
>)
    ensures
        request_outcome(r) == parameter_of_request::<T>(name@, value.deep_view()),
{
    match T::parse_from_parameter(value) {
        Ok(v) => Ok(v),
        Err(error) => Err(ParseRequestError::ParseParam { name: String::from_str(name), error }),
    }
}

/// The name of a primitive type: its kind, and its format in brackets.
pub open spec fn primitive_name(kind: Seq<char>, format: Seq<char>) -> Seq<char> {
    kind + "("@ + format + ")"@
}

/// Registering a type a second time leaves the registry as the first time
/// left it.
pub proof fn lemma_register_twice<T: Type>(before: Registry, once: Registry, twice: Registry)
    requires
        registers(T::named_schemas(), before, once),
        registers(T::named_schemas(), once, twice),
    ensures
        twice.schemas() == once.schemas(),
        twice.pending() == once.pending(),
        twice.security_schemes() == once.security_schemes(),
        twice.tags() == once.tags(),
{
    lemma_registers_twice(T::named_schemas(), before, once, twice);
}

} // verus!
