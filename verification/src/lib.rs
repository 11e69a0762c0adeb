//! The metadata and payload-conversion core of an OpenAPI framework: value
//! types that describe themselves as schemas and convert from and to wire
//! data, a registry of named schemas, request and response contracts with
//! content negotiation, security schemes, and the composition of API objects.
//!
//! Everything here works on plain values. Reading a request from the network
//! and writing a response to it is left to the caller.

pub mod base;
pub mod error;
pub mod examples;
pub mod http;
pub mod json;
pub mod payload;
pub mod registry;
pub mod text;
pub mod types;

pub use base::{
    ApiRequest, ApiResponse, CombinedAPI, OAuthScopes, OpenApi, SecurityScheme, Tags,
};
pub use error::{ParseError, ParseRequestError, ParseResult};
pub use payload::plain_text::PlainText;
