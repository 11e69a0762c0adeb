//! Text in UTF-8 as a payload.

use crate::base::ApiResponse;
use crate::error::{ParseRequestError, ParseRequestErrorView};
use crate::http::{text_response, IntoResponse, Response, ResponseView};
use crate::payload::{BodyText, BodyTextView, ParsePayload, Payload};
use crate::registry::{
    lemma_register_nothing, MetaMediaType, MetaMediaTypeView, MetaResponse, MetaResponseView,
    MetaResponses, MetaResponsesView, MetaSchemaRef, MetaSchemaRefView, MetaSchemaView, Registry,
};
use crate::types::Type;
use vstd::prelude::*;

verus! {

/// A text payload, sent and taken as `text/plain`.
#[derive(Debug, Clone, Eq, PartialEq)]
pub struct PlainText<T>(pub T);

impl<T: DeepView> DeepView for PlainText<T> {
    type V = T::V;

    open spec fn deep_view(&self) -> T::V {
        self.0.deep_view()
    }
}

impl<T> Payload for PlainText<T> {
    const CONTENT_TYPE: &'static str = "text/plain";

    open spec fn spec_schema_ref() -> MetaSchemaRefView {
        <String as Type>::spec_schema_ref()
    }

    open spec fn named_schemas() -> Map<Seq<char>, MetaSchemaView> {
        Map::empty()
    }

    fn schema_ref() -> (r: MetaSchemaRef) {
        <String as Type>::schema_ref()
    }

    fn register(registry: &mut Registry) {
        proof {
            lemma_register_nothing(registry.schemas());
        }
    }
}

/// Plain text travels as `text/plain`, whatever holds the text.
pub proof fn lemma_plain_text_content_type<T>()
    ensures
        <PlainText<T> as Payload>::CONTENT_TYPE@ == "text/plain"@,
{
}

/// Plain text has no response of its own for a request that could not be
/// parsed.
pub proof fn lemma_plain_text_no_bad_request_handler()
    ensures
        !<PlainText<String> as ApiResponse>::BAD_REQUEST_HANDLER,
        !<PlainText<&'static str> as ApiResponse>::BAD_REQUEST_HANDLER,
{
}

/// The reason that a body which could not be read is reported with: the one
/// that was given, or none.
pub open spec fn reason_or_empty(reason: Option<Seq<char>>) -> Seq<char> {
    match reason {
        Some(text) => text,
        None => Seq::empty(),
    }
}

impl ParsePayload for PlainText<String> {
    open spec fn spec_parse_body(body: BodyTextView) -> Result<Seq<char>, ParseRequestErrorView> {
        match body {
            BodyTextView::Text(text) => Ok(text),
            BodyTextView::Unreadable { reason } => Err(
                ParseRequestErrorView::ParseRequestBody { reason: reason_or_empty(reason) },
            ),
        }
    }

    fn from_request(body: BodyText) -> (r: Result<Self, ParseRequestError>) {
        match body {
            BodyText::Text(text) => Ok(PlainText(text)),
            BodyText::Unreadable { reason } => {
                let reason = match reason {
                    Some(text) => text,
                    None => String::new(),
                };
                Err(ParseRequestError::ParseRequestBody { reason })
            },
        }
    }
}

impl IntoResponse for PlainText<String> {
    open spec fn spec_into_response(self) -> ResponseView {
        text_response("text/plain"@, self.0@)
    }

    fn into_response(self) -> (r: Response) {
        Response::text(Self::CONTENT_TYPE, self.0.as_str())
    }
}

impl IntoResponse for PlainText<&'static str> {
    open spec fn spec_into_response(self) -> ResponseView {
        text_response("text/plain"@, self.0@)
    }

    fn into_response(self) -> (r: Response) {
        Response::text(Self::CONTENT_TYPE, self.0)
    }
}

/// The responses of an operation that answers with plain text: one, of status
/// 200, that carries `text/plain` with the schema of a string.
pub open spec fn plain_text_responses() -> MetaResponsesView {
    MetaResponsesView {
        responses: seq![
            MetaResponseView {
                description: None,
                status: Some(200u16),
                content: seq![
                    MetaMediaTypeView {
                        content_type: "text/plain"@,
                        schema: <String as Type>::spec_schema_ref(),
                    },
                ],
                headers: Seq::empty(),
            },
        ],
    }
}

/// The metadata of the responses of an operation that answers with plain text.
pub fn plain_text_meta() -> (r: MetaResponses)
    ensures
        r.deep_view() == plain_text_responses(),
{
    let media = MetaMediaType {
        content_type: PlainText::<String>::CONTENT_TYPE,
        schema: PlainText::<String>::schema_ref(),
    };
    let content = vec![media];
    let response = MetaResponse {
        description: None,
        status: Some(200),
        content,
        headers: Vec::new(),
    };
    let responses = vec![response];
    let r = MetaResponses { responses };
    assert(r.responses[0].content.deep_view() =~= plain_text_responses().responses[0].content);
    assert(r.responses[0].headers.deep_view() =~= Seq::empty());
    assert(r.responses.deep_view() =~= plain_text_responses().responses);
    r
}

impl ApiResponse for PlainText<String> {
    const BAD_REQUEST_HANDLER: bool = false;

    open spec fn spec_meta() -> MetaResponsesView {
        plain_text_responses()
    }

    open spec fn named_schemas() -> Map<Seq<char>, MetaSchemaView> {
        Map::empty()
    }

    fn meta() -> (r: MetaResponses) {
        plain_text_meta()
    }

    fn register(registry: &mut Registry) {
        proof {
            lemma_register_nothing(registry.schemas());
        }
    }

    fn from_parse_request_error(err: ParseRequestError) -> (r: Self) {
        vstd::pervasive::unreached()
    }
}

impl ApiResponse for PlainText<&'static str> {
    const BAD_REQUEST_HANDLER: bool = false;

    open spec fn spec_meta() -> MetaResponsesView {
        plain_text_responses()
    }

    open spec fn named_schemas() -> Map<Seq<char>, MetaSchemaView> {
        Map::empty()
    }

    fn meta() -> (r: MetaResponses) {
        plain_text_meta()
    }

    fn register(registry: &mut Registry) {
        proof {
            lemma_register_nothing(registry.schemas());
        }
    }

    fn from_parse_request_error(err: ParseRequestError) -> (r: Self) {
        vstd::pervasive::unreached()
    }
}

} // verus!
