use poem_openapi::examples::auth_basic::auth_basic;
use poem_openapi::http::{IntoResponse, Response};
use poem_openapi::PlainText;

#[test]
fn the_known_user_is_greeted() {
    assert_eq!(auth_basic("test", "123456"), Ok(PlainText("hello: test".to_string())));
}

#[test]
fn the_greeting_is_sent_as_plain_text() {
    let response = auth_basic("test", "123456").unwrap().into_response();
    assert_eq!(
        response,
        Response {
            status: 200,
            content_type: Some("text/plain".to_string()),
            body: b"hello: test".to_vec(),
        }
    );
}

#[test]
fn other_credentials_are_unauthorized() {
    assert_eq!(auth_basic("test", "12345"), Err(401));
    assert_eq!(auth_basic("test", ""), Err(401));
    assert_eq!(auth_basic("Test", "123456"), Err(401));
    assert_eq!(auth_basic("admin", "123456"), Err(401));
    assert_eq!(auth_basic("", ""), Err(401));
    assert_eq!(auth_basic("123456", "test"), Err(401));
    assert_eq!(auth_basic("test ", "123456"), Err(401));
}
