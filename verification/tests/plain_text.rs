use poem_openapi::http::{IntoResponse, Response};
use poem_openapi::payload::{BodyText, ParsePayload, Payload};
use poem_openapi::registry::{
    MetaMediaType, MetaResponse, MetaResponses, MetaSchema, MetaSchemaRef, Registry,
};
use poem_openapi::{ApiResponse, ParseRequestError, PlainText};

#[test]
fn plain_text_response() {
    let response = PlainText("hello: test".to_string()).into_response();
    assert_eq!(response.status, 200);
    assert_eq!(response.content_type.as_deref(), Some("text/plain"));
    assert_eq!(response.body, b"hello: test".to_vec());
}

#[test]
fn plain_text_response_of_a_literal() {
    let response = PlainText("gr\u{fc}\u{df}e").into_response();
    assert_eq!(
        response,
        Response {
            status: 200,
            content_type: Some("text/plain".to_string()),
            body: vec![0x67, 0x72, 0xc3, 0xbc, 0xc3, 0x9f, 0x65],
        }
    );
}

#[test]
fn empty_response() {
    assert_eq!(().into_response(), Response { status: 200, content_type: None, body: vec![] });
    assert_eq!(Response::empty(), Response { status: 200, content_type: None, body: vec![] });
}

#[test]
fn result_response_is_that_of_its_arm() {
    let ok: Result<PlainText<&'static str>, ()> = Ok(PlainText("fine"));
    assert_eq!(ok.into_response().body, b"fine".to_vec());
    let err: Result<PlainText<&'static str>, ()> = Err(());
    assert_eq!(err.into_response(), Response::empty());
}

#[test]
fn plain_text_payload() {
    assert_eq!(<PlainText<String> as Payload>::CONTENT_TYPE, "text/plain");
    assert_eq!(<PlainText<u8> as Payload>::CONTENT_TYPE, "text/plain");
    assert_eq!(
        <PlainText<String> as Payload>::schema_ref(),
        MetaSchemaRef::Inline(Box::new(MetaSchema { ty: "string", format: None }))
    );
}

#[test]
fn plain_text_from_body() {
    assert_eq!(
        <PlainText<String> as ParsePayload>::from_request(BodyText::Text("a b".to_string())),
        Ok(PlainText("a b".to_string()))
    );
    assert_eq!(
        <PlainText<String> as ParsePayload>::from_request(BodyText::Unreadable {
            reason: Some("too large".to_string())
        }),
        Err(ParseRequestError::ParseRequestBody { reason: "too large".to_string() })
    );
    assert_eq!(
        <PlainText<String> as ParsePayload>::from_request(BodyText::Unreadable { reason: None }),
        Err(ParseRequestError::ParseRequestBody { reason: "".to_string() })
    );
}

fn plain_text_responses() -> MetaResponses {
    MetaResponses {
        responses: vec![MetaResponse {
            description: None,
            status: Some(200),
            content: vec![MetaMediaType {
                content_type: "text/plain",
                schema: MetaSchemaRef::Inline(Box::new(MetaSchema::new("string"))),
            }],
            headers: vec![],
        }],
    }
}

#[test]
fn plain_text_response_meta() {
    assert_eq!(<PlainText<String> as ApiResponse>::meta(), plain_text_responses());
    assert_eq!(<PlainText<&'static str> as ApiResponse>::meta(), plain_text_responses());
}

#[test]
fn unit_response_meta_is_an_empty_200() {
    assert_eq!(
        <() as ApiResponse>::meta(),
        MetaResponses {
            responses: vec![MetaResponse {
                description: None,
                status: Some(200),
                content: vec![],
                headers: vec![],
            }],
        }
    );
}

#[test]
fn result_response_meta_is_that_of_the_ok_arm() {
    assert_eq!(<Result<PlainText<String>, ()> as ApiResponse>::meta(), plain_text_responses());
    assert_eq!(<Result<(), PlainText<String>> as ApiResponse>::meta(), <() as ApiResponse>::meta());
}

#[test]
fn responses_register_nothing() {
    let mut registry = Registry::new();
    <PlainText<String> as ApiResponse>::register(&mut registry);
    <() as ApiResponse>::register(&mut registry);
    <Result<PlainText<String>, ()> as ApiResponse>::register(&mut registry);
    assert_eq!(registry.len(), 0);
}

#[test]
fn no_bad_request_handler_unless_the_type_has_one() {
    assert!(!<() as ApiResponse>::BAD_REQUEST_HANDLER);
    assert!(!<PlainText<String> as ApiResponse>::BAD_REQUEST_HANDLER);
    assert!(!<Result<PlainText<String>, ()> as ApiResponse>::BAD_REQUEST_HANDLER);
}
