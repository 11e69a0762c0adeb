use poem_openapi::base::optional_scheme;
use poem_openapi::http::Request;
use poem_openapi::registry::{MetaSecurityScheme, Registry};
use poem_openapi::{ParseRequestError, SecurityScheme};
use std::collections::HashMap;

/// A key in the header `x-api-key`, or in the parameter `key` of the query:
/// letters and digits.
#[derive(Debug, PartialEq)]
struct ApiKey(String);

fn well_formed(key: &str) -> bool {
    !key.is_empty() && key.chars().all(|c| c.is_ascii_alphanumeric())
}

impl SecurityScheme for ApiKey {
    const NAME: &'static str = "ApiKey";

    fn register(registry: &mut Registry) {
        registry.create_security_scheme(
            Self::NAME,
            MetaSecurityScheme {
                ty: "apiKey",
                description: None,
                name: Some("x-api-key"),
                key_in: Some("header"),
                scheme: None,
                bearer_format: None,
            },
        );
    }

    fn from_request(
        req: &Request,
        query: &HashMap<String, String>,
    ) -> Result<Self, ParseRequestError> {
        let key = req.header("x-api-key").or(query.get("key").map(|v| v.as_str()));
        match key {
            Some(key) if well_formed(key) => Ok(ApiKey(key.to_string())),
            _ => Err(ParseRequestError::Authorization),
        }
    }
}

fn request(key: Option<&str>) -> Request {
    let mut headers = vec![("host".to_string(), "example.org".to_string())];
    if let Some(key) = key {
        headers.push(("x-api-key".to_string(), key.to_string()));
    }
    Request::new(headers)
}

#[test]
fn optional_scheme_with_credentials() {
    let query = HashMap::new();
    assert_eq!(ApiKey::from_request(&request(Some("abc123")), &query), Ok(ApiKey("abc123".to_string())));
    assert_eq!(
        <Option<ApiKey>>::from_request(&request(Some("abc123")), &query),
        Ok(Some(ApiKey("abc123".to_string())))
    );
}

#[test]
fn optional_scheme_with_malformed_credentials_is_none() {
    let query = HashMap::new();
    assert_eq!(
        ApiKey::from_request(&request(Some("not a key!")), &query),
        Err(ParseRequestError::Authorization)
    );
    assert_eq!(<Option<ApiKey>>::from_request(&request(Some("not a key!")), &query), Ok(None));
}

#[test]
fn optional_scheme_without_credentials_is_none() {
    let mut query = HashMap::new();
    assert_eq!(ApiKey::from_request(&request(None), &query), Err(ParseRequestError::Authorization));
    assert_eq!(<Option<ApiKey>>::from_request(&request(None), &query), Ok(None));
    query.insert("key".to_string(), "fromquery".to_string());
    assert_eq!(
        <Option<ApiKey>>::from_request(&request(None), &query),
        Ok(Some(ApiKey("fromquery".to_string())))
    );
}

#[test]
fn optional_scheme_has_the_name_and_the_registration_of_the_scheme() {
    assert_eq!(<Option<ApiKey> as SecurityScheme>::NAME, "ApiKey");
    let mut registry = Registry::new();
    <Option<ApiKey> as SecurityScheme>::register(&mut registry);
    assert_eq!(registry.security_scheme("ApiKey").map(|scheme| scheme.ty), Some("apiKey"));
    <ApiKey as SecurityScheme>::register(&mut registry);
    assert_eq!(registry.security_scheme("ApiKey").map(|scheme| scheme.key_in), Some(Some("header")));
}

#[test]
fn optional_scheme_of_each_outcome() {
    assert_eq!(optional_scheme(Ok::<u8, ParseRequestError>(7)), Ok(Some(7)));
    assert_eq!(optional_scheme(Err::<u8, ParseRequestError>(ParseRequestError::Authorization)), Ok(None));
    assert_eq!(
        optional_scheme(Err::<u8, ParseRequestError>(ParseRequestError::ExpectContentType)),
        Ok(None)
    );
}
