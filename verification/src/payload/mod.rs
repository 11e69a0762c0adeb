//! A value together with the content type it travels under.

pub mod plain_text;

use crate::error::{request_outcome, ParseRequestError, ParseRequestErrorView};
use crate::registry::{registers, MetaSchemaRef, MetaSchemaRefView, MetaSchemaView, Registry};
use vstd::prelude::*;

verus! {

/// What reading the body of a request as text came to: the text, or the
/// reason why it could not be read, if a reason was given.
#[derive(Debug, PartialEq, Eq)]
pub enum BodyText {
    Text(String),
    Unreadable { reason: Option<String> },
}

/// The mathematical content of a [`BodyText`].
pub enum BodyTextView {
    Text(Seq<char>),
    Unreadable { reason: Option<Seq<char>> },
}

impl DeepView for BodyText {
    type V = BodyTextView;

    open spec fn deep_view(&self) -> BodyTextView {
        match self {
            BodyText::Text(text) => BodyTextView::Text(text@),
            BodyText::Unreadable { reason } => BodyTextView::Unreadable {
                reason: reason.deep_view(),
            },
        }
    }
}

/// A value that travels under one content type.
///
/// The functions in `spec` mode say what the others return. An implementor
/// that is verified defines them; where one is left as it is, nothing is
/// known of it.
pub trait Payload: Sized {
    /// The content type.
    const CONTENT_TYPE: &'static str;

    /// The schema of what the payload carries.
    open spec fn spec_schema_ref() -> MetaSchemaRefView {
        arbitrary()
    }

    /// The named schemas that the payload brings to a registry.
    open spec fn named_schemas() -> Map<Seq<char>, MetaSchemaView> {
        arbitrary()
    }

    /// The schema of what the payload carries. It is the same at every call.
    fn schema_ref() -> (r: MetaSchemaRef)
        ensures
            r.deep_view() == Self::spec_schema_ref(),
    ;

    /// Registers the named schemas of what the payload carries.
    fn register(registry: &mut Registry)
        requires
            old(registry).wf(),
        ensures
            registers(Self::named_schemas(), *old(registry), *final(registry)),
    ;
}

/// A payload that can be read from the body of a request.
pub trait ParsePayload: Sized + DeepView {
    /// What reading the payload from the body comes to.
    spec fn spec_parse_body(body: BodyTextView) -> Result<Self::V, ParseRequestErrorView>;

    /// Reads the payload from what reading the body came to.
    fn from_request(body: BodyText) -> (r: Result<Self, ParseRequestError>)
        ensures
            request_outcome(r) == Self::spec_parse_body(body.deep_view()),
    ;
}

} // verus!
