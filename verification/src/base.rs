//! The contracts of an API: its requests, its responses, its security
//! schemes, and the API objects themselves and their composition.

use crate::error::{request_outcome, ParseRequestError, ParseRequestErrorView};
use crate::http::{IntoResponse, Request, RequestView, Route};
use crate::payload::{BodyText, BodyTextView, ParsePayload, Payload};
use crate::registry::{
    lemma_register_in_turn, lemma_register_nothing, registers, registers_all, registers_security,
    registers_tags, MetaApi, MetaApiView, MetaMediaType, MetaMediaTypeView, MetaOAuthScope,
    MetaOAuthScopeView, MetaRequest, MetaRequestView, MetaResponse, MetaResponseView,
    MetaResponses, MetaResponsesView, MetaSchemaView, MetaSecuritySchemeView, MetaTagView,
    Registry,
};
use crate::text::str_eq;
use std::collections::HashMap;
use vstd::prelude::*;
use vstd::string::*;

verus! {

/// The essence of a content type: its type and subtype in lower case,
/// without its parameters. Nothing where the text is no media type.
pub uninterp spec fn mime_essence(content_type: Seq<char>) -> Option<Seq<char>>;

/// Parses the text as a media type with `mime`'s `Mime::from_str` and takes
/// the essence with `Mime::essence_str`. The essence depends on the text
/// alone; the contract gives it the name [`mime_essence`] and says nothing
/// more of it.
#[verifier::external_body]
fn parse_essence(content_type: &str) -> (r: Option<String>)
    ensures
        r.deep_view() == mime_essence(content_type@),
{
    match content_type.parse::<mime::Mime>() {
        Ok(parsed) => Some(parsed.essence_str().to_string()),
        Err(_) => None,
    }
}

/// Whether a request of that content type is taken, given the essence of the
/// content type: it is where the essence is the expected content type, to the
/// letter.
pub open spec fn essence_matched(
    expected: Seq<char>,
    content_type: Seq<char>,
    essence: Option<Seq<char>>,
) -> Result<(), ParseRequestErrorView> {
    if essence == Some(expected) {
        Ok(())
    } else {
        Err(ParseRequestErrorView::ContentTypeNotSupported { content_type })
    }
}

/// Whether a request that declares that content type is taken where the
/// expected one is `expected`.
pub open spec fn negotiated(expected: Seq<char>, content_type: Option<Seq<char>>) -> Result<
    (),
    ParseRequestErrorView,
> {
    match content_type {
        None => Err(ParseRequestErrorView::ExpectContentType),
        Some(declared) => essence_matched(expected, declared, mime_essence(declared)),
    }
}

/// Holds the essence of a request's content type against the expected
/// content type.
pub fn match_essence(expected: &str, content_type: &str, essence: Option<String>) -> (r: Result<
    (),
    ParseRequestError,
>)
    ensures
        request_outcome(r) == essence_matched(expected@, content_type@, essence.deep_view()),
{
    let matched = match essence {
        Some(found) => str_eq(found.as_str(), expected),
        None => false,
    };
    if matched {
        Ok(())
    } else {
        Err(
            ParseRequestError::ContentTypeNotSupported {
                content_type: String::from_str(content_type),
            },
        )
    }
}

/// Content negotiation: holds the content type that a request declares
/// against the expected one. A request that declares none is refused, and so
/// is one whose content type is no media type or has another essence.
pub fn check_content_type(expected: &str, content_type: Option<&str>) -> (r: Result<
    (),
    ParseRequestError,
>)
    ensures
        request_outcome(r) == negotiated(expected@, content_type.deep_view()),
{
    match content_type {
        Some(declared) => {
            let essence = parse_essence(declared);
            match_essence(expected, declared, essence)
        },
        None => Err(ParseRequestError::ExpectContentType),
    }
}

/// The body of a request, as an operation takes it.
pub trait ApiRequest: Sized + DeepView {
    /// The content of [`meta`](ApiRequest::meta).
    spec fn spec_meta() -> MetaRequestView;

    /// The named schemas that the request brings to a registry.
    spec fn request_schemas() -> Map<Seq<char>, MetaSchemaView>;

    /// What reading the request comes to.
    spec fn spec_from_request(request: RequestView, body: BodyTextView) -> Result<
        Self::V,
        ParseRequestErrorView,
    >;

    /// The metadata of the request.
    fn meta() -> (r: MetaRequest)
        ensures
            r.deep_view() == Self::spec_meta(),
    ;

    /// Registers the schemas that the request uses.
    fn register(registry: &mut Registry)
        requires
            old(registry).wf(),
        ensures
            registers(Self::request_schemas(), *old(registry), *final(registry)),
    ;

    /// Reads the request from its headers and from what reading its body came
    /// to.
    fn from_request(request: &Request, body: BodyText) -> (r: Result<Self, ParseRequestError>)
        ensures
            request_outcome(r) == Self::spec_from_request(request.deep_view(), body.deep_view()),
    ;
}

/// The metadata of a request that carries one payload: the payload's content
/// type with its schema, and the body is required.
pub open spec fn payload_request<T: Payload>() -> MetaRequestView {
    MetaRequestView {
        description: None,
        content: seq![
            MetaMediaTypeView { content_type: T::CONTENT_TYPE@, schema: T::spec_schema_ref() },
        ],
        required: true,
    }
}

impl<T: Payload + ParsePayload> ApiRequest for T {
    open spec fn spec_meta() -> MetaRequestView {
        payload_request::<T>()
    }

    open spec fn request_schemas() -> Map<Seq<char>, MetaSchemaView> {
        T::named_schemas()
    }

    open spec fn spec_from_request(request: RequestView, body: BodyTextView) -> Result<
        Self::V,
        ParseRequestErrorView,
    > {
        match negotiated(T::CONTENT_TYPE@, request.content_type()) {
            Ok(_) => T::spec_parse_body(body),
            Err(error) => Err(error),
        }
    }

    fn meta() -> (r: MetaRequest) {
        let media = MetaMediaType { content_type: T::CONTENT_TYPE, schema: T::schema_ref() };
        let content = vec![media];
        let r = MetaRequest { description: None, content, required: true };
        assert(r.content.deep_view() =~= payload_request::<T>().content);
        r
    }

    fn register(registry: &mut Registry) {
        <T as Payload>::register(registry);
    }

    fn from_request(request: &Request, body: BodyText) -> (r: Result<Self, ParseRequestError>) {
        match check_content_type(T::CONTENT_TYPE, request.content_type()) {
            Ok(_) => <T as ParsePayload>::from_request(body),
            Err(error) => Err(error),
        }
    }
}

/// Content negotiation decides before the payload is read, and by the
/// essence alone: where the request declares no content type, that is the
/// error; where the essence of what it declares is not the payload's content
/// type, that is the error, with the declared text; and where it is, the
/// request comes to what reading the payload from the body comes to.
pub proof fn lemma_negotiation<T: Payload + ParsePayload>(request: RequestView, body: BodyTextView)
    ensures
        request.content_type() is None ==> <T as ApiRequest>::spec_from_request(request, body)
            == Err::<T::V, ParseRequestErrorView>(ParseRequestErrorView::ExpectContentType),
        request.content_type() matches Some(declared) ==> {
            if mime_essence(declared) == Some(T::CONTENT_TYPE@) {
                <T as ApiRequest>::spec_from_request(request, body) == T::spec_parse_body(body)
            } else {
                <T as ApiRequest>::spec_from_request(request, body) == Err::<
                    T::V,
                    ParseRequestErrorView,
                >(ParseRequestErrorView::ContentTypeNotSupported { content_type: declared })
            }
        },
{
}

/// What an operation answers with.
///
/// The functions in `spec` mode say what the others return. An implementor
/// that is verified defines them; where one is left as it is, nothing is
/// known of it.
pub trait ApiResponse: IntoResponse + Sized {
    /// Whether the type has a response of its own for a request that could not
    /// be parsed.
    const BAD_REQUEST_HANDLER: bool = false;

    /// The content of [`meta`](ApiResponse::meta).
    open spec fn spec_meta() -> MetaResponsesView {
        arbitrary()
    }

    /// The named schemas that the responses bring to a registry.
    open spec fn named_schemas() -> Map<Seq<char>, MetaSchemaView> {
        arbitrary()
    }

    /// The metadata of the responses.
    fn meta() -> (r: MetaResponses)
        ensures
            r.deep_view() == Self::spec_meta(),
    ;

    /// Registers the schemas that the responses use.
    fn register(registry: &mut Registry)
        requires
            old(registry).wf(),
        ensures
            registers(Self::named_schemas(), *old(registry), *final(registry)),
    ;

    /// The response for a request that could not be parsed. Only a type that
    /// has one may be asked for it.
    fn from_parse_request_error(err: ParseRequestError) -> (r: Self)
        requires
            Self::BAD_REQUEST_HANDLER,
    ;
}

/// Hands a request that could not be parsed to the response type of its
/// operation: the type's own response for it, where the type has one, and
/// the error back where it has none.
pub fn handle_parse_request_error<T: ApiResponse>(err: ParseRequestError) -> (r: Result<
    T,
    ParseRequestError,
>)
    ensures
        r is Ok <==> T::BAD_REQUEST_HANDLER,
        r matches Err(error) ==> error == err,
{
    if T::BAD_REQUEST_HANDLER {
        Ok(T::from_parse_request_error(err))
    } else {
        Err(err)
    }
}

/// The responses of an operation that answers with nothing: one, of status
/// 200, without content.
pub open spec fn empty_responses() -> MetaResponsesView {
    MetaResponsesView {
        responses: seq![
            MetaResponseView {
                description: None,
                status: Some(200u16),
                content: Seq::empty(),
                headers: Seq::empty(),
            },
        ],
    }
}

impl ApiResponse for () {
    open spec fn spec_meta() -> MetaResponsesView {
        empty_responses()
    }

    open spec fn named_schemas() -> Map<Seq<char>, MetaSchemaView> {
        Map::empty()
    }

    fn meta() -> (r: MetaResponses) {
        let response = MetaResponse {
            description: None,
            status: Some(200),
            content: Vec::new(),
            headers: Vec::new(),
        };
        let responses = vec![response];
        let r = MetaResponses { responses };
        assert(r.responses[0].content.deep_view() =~= Seq::empty());
        assert(r.responses[0].headers.deep_view() =~= Seq::empty());
        assert(r.responses.deep_view() =~= empty_responses().responses);
        r
    }

    fn register(registry: &mut Registry) {
        proof {
            lemma_register_nothing(registry.schemas());
        }
    }

    fn from_parse_request_error(err: ParseRequestError) -> (r: Self) {
        vstd::pervasive::unreached()
    }
}

impl<T: ApiResponse, E: IntoResponse> ApiResponse for Result<T, E> {
    open spec fn spec_meta() -> MetaResponsesView {
        T::spec_meta()
    }

    open spec fn named_schemas() -> Map<Seq<char>, MetaSchemaView> {
        T::named_schemas()
    }

    fn meta() -> (r: MetaResponses) {
        T::meta()
    }

    fn register(registry: &mut Registry) {
        T::register(registry);
    }

    fn from_parse_request_error(err: ParseRequestError) -> (r: Self) {
        vstd::pervasive::unreached()
    }
}

/// Neither `()` nor a `Result` has a response of its own for a request that
/// could not be parsed, whatever the arms of the `Result` have.
pub proof fn lemma_no_bad_request_handler<T: ApiResponse, E: IntoResponse>()
    ensures
        !<() as ApiResponse>::BAD_REQUEST_HANDLER,
        !<Result<T, E> as ApiResponse>::BAD_REQUEST_HANDLER,
{
}

/// A tag that groups operations.
///
/// The functions in `spec` mode say what the others return. An implementor
/// that is verified defines them; where one is left as it is, nothing is
/// known of it.
pub trait Tags {
    /// The tags that [`register`](Tags::register) brings to a registry.
    open spec fn spec_tags(&self) -> Map<Seq<char>, MetaTagView> {
        arbitrary()
    }

    /// The content of [`name`](Tags::name).
    open spec fn spec_name(&self) -> Seq<char> {
        arbitrary()
    }

    /// Registers the tag.
    fn register(&self, registry: &mut Registry)
        requires
            old(registry).wf(),
        ensures
            registers_tags(self.spec_tags(), *old(registry), *final(registry)),
    ;

    /// The name of the tag.
    fn name(&self) -> (r: &'static str)
        ensures
            r@ == self.spec_name(),
    ;
}

/// A way to take the credentials of a caller from a request.
///
/// The functions in `spec` mode say what the others return. An implementor
/// that is verified defines them; where one is left as it is, nothing is
/// known of it.
pub trait SecurityScheme: Sized {
    /// The name of the security scheme.
    const NAME: &'static str;

    /// The security schemes that [`register`](SecurityScheme::register) brings
    /// to a registry.
    open spec fn spec_security_schemes() -> Map<Seq<char>, MetaSecuritySchemeView> {
        arbitrary()
    }

    /// Whether the request holds credentials that the scheme can read.
    open spec fn accepts(request: RequestView, query: Map<Seq<char>, Seq<char>>) -> bool {
        arbitrary()
    }

    /// The credentials that the request holds, where the scheme can read them.
    open spec fn credentials(request: RequestView, query: Map<Seq<char>, Seq<char>>) -> Option<
        Self,
    > {
        arbitrary()
    }

    /// Registers the security scheme.
    fn register(registry: &mut Registry)
        requires
            old(registry).wf(),
        ensures
            registers_security(Self::spec_security_schemes(), *old(registry), *final(registry)),
    ;

    /// Takes the credentials from the headers of a request and from the
    /// parameters of its query.
    fn from_request(req: &Request, query: &HashMap<String, String>) -> (r: Result<
        Self,
        ParseRequestError,
    >)
        ensures
            r is Ok <==> Self::accepts(req.deep_view(), query.deep_view()),
            r matches Ok(found) ==> Self::credentials(req.deep_view(), query.deep_view()) == Some(
                found,
            ),
    ;
}

/// The scopes of an OAuth flow.
///
/// The functions in `spec` mode say what the others return. An implementor
/// that is verified defines them; where one is left as it is, nothing is
/// known of it.
pub trait OAuthScopes {
    /// The content of [`meta`](OAuthScopes::meta).
    open spec fn spec_meta() -> Seq<MetaOAuthScopeView> {
        arbitrary()
    }

    /// The content of [`name`](OAuthScopes::name).
    open spec fn spec_name(&self) -> Seq<char> {
        arbitrary()
    }

    /// The metadata of the scopes.
    fn meta() -> (r: Vec<MetaOAuthScope>)
        ensures
            r.deep_view() == Self::spec_meta(),
    ;

    /// The name of the scope.
    fn name(&self) -> (r: &'static str)
        ensures
            r@ == self.spec_name(),
    ;
}

/// What an optional security scheme gives for what the scheme itself gave:
/// the credentials where there were some, and nothing, without an error,
/// where they were absent or malformed.
pub fn optional_scheme<T>(outcome: Result<T, ParseRequestError>) -> (r: Result<
    Option<T>,
    ParseRequestError,
>)
    ensures
        r == Ok::<Option<T>, ParseRequestError>(
            match outcome {
                Ok(credentials) => Some(credentials),
                Err(_) => None,
            },
        ),
{
    match outcome {
        Ok(credentials) => Ok(Some(credentials)),
        Err(_) => Ok(None),
    }
}

impl<T: SecurityScheme> SecurityScheme for Option<T> {
    const NAME: &'static str = T::NAME;

    open spec fn spec_security_schemes() -> Map<Seq<char>, MetaSecuritySchemeView> {
        T::spec_security_schemes()
    }

    open spec fn accepts(request: RequestView, query: Map<Seq<char>, Seq<char>>) -> bool {
        true
    }

    open spec fn credentials(request: RequestView, query: Map<Seq<char>, Seq<char>>) -> Option<
        Self,
    > {
        Some(optional_credentials::<T>(request, query))
    }

    fn register(registry: &mut Registry) {
        T::register(registry);
    }

    /// Never fails: the credentials of this request where the scheme can read
    /// them, and nothing where it cannot.
    fn from_request(req: &Request, query: &HashMap<String, String>) -> (r: Result<
        Self,
        ParseRequestError,
    >)
        ensures
            r == Ok::<Option<T>, ParseRequestError>(
                optional_credentials::<T>(req.deep_view(), query.deep_view()),
            ),
    {
        optional_scheme(T::from_request(req, query))
    }
}

/// What an optional security scheme gives for a request: the credentials
/// that the scheme reads from it, and nothing where the scheme refuses it.
pub open spec fn optional_credentials<T: SecurityScheme>(
    request: RequestView,
    query: Map<Seq<char>, Seq<char>>,
) -> Option<T> {
    if T::accepts(request, query) {
        T::credentials(request, query)
    } else {
        None
    }
}

/// An optional security scheme goes by the name of the scheme.
pub proof fn lemma_optional_scheme_name<T: SecurityScheme>()
    ensures
        <Option<T> as SecurityScheme>::NAME@ == T::NAME@,
{
}

/// An API object: a set of operations.
///
/// The functions in `spec` mode say what the others return. An implementor
/// that is verified defines them; where one is left as it is, nothing is
/// known of it.
pub trait OpenApi: Sized {
    /// The content of [`meta`](OpenApi::meta).
    open spec fn spec_meta() -> Seq<MetaApiView> {
        arbitrary()
    }

    /// The named schemas that the operations bring to a registry.
    open spec fn named_schemas() -> Map<Seq<char>, MetaSchemaView> {
        arbitrary()
    }

    /// The security schemes that the operations bring to a registry.
    open spec fn security_schemes() -> Map<Seq<char>, MetaSecuritySchemeView> {
        arbitrary()
    }

    /// The tags that the operations bring to a registry.
    open spec fn tags() -> Map<Seq<char>, MetaTagView> {
        arbitrary()
    }

    /// The routes of the operations, in the order they are added.
    open spec fn routes(&self) -> Seq<(Seq<char>, u64)> {
        arbitrary()
    }

    /// The metadata of the operations.
    fn meta() -> (r: Vec<MetaApi>)
        ensures
            r.deep_view() == Self::spec_meta(),
    ;

    /// Registers what the operations use.
    fn register(registry: &mut Registry)
        requires
            old(registry).wf(),
        ensures
            registers_all(
                Self::named_schemas(),
                Self::security_schemes(),
                Self::tags(),
                *old(registry),
                *final(registry),
            ),
    ;

    /// Adds the routes of the operations to the table, after those it holds.
    fn add_routes(self, route: Route) -> (r: Route)
        ensures
            r.deep_view() == route.deep_view() + self.routes(),
    ;

    /// This API object and another as one.
    fn combine<T>(self, other: T) -> (r: CombinedAPI<Self, T>)
        ensures
            r.0 == self,
            r.1 == other,
    {
        CombinedAPI(self, other)
    }
}

/// Two API objects as one: the operations of the first, then those of the
/// second.
pub struct CombinedAPI<A, B>(pub A, pub B);

impl<A: OpenApi, B: OpenApi> OpenApi for CombinedAPI<A, B> {
    open spec fn spec_meta() -> Seq<MetaApiView> {
        A::spec_meta() + B::spec_meta()
    }

    open spec fn named_schemas() -> Map<Seq<char>, MetaSchemaView> {
        B::named_schemas().union_prefer_right(A::named_schemas())
    }

    open spec fn security_schemes() -> Map<Seq<char>, MetaSecuritySchemeView> {
        B::security_schemes().union_prefer_right(A::security_schemes())
    }

    open spec fn tags() -> Map<Seq<char>, MetaTagView> {
        B::tags().union_prefer_right(A::tags())
    }

    open spec fn routes(&self) -> Seq<(Seq<char>, u64)> {
        self.0.routes() + self.1.routes()
    }

    fn meta() -> (r: Vec<MetaApi>) {
        let mut metadata = A::meta();
        let mut rest = B::meta();
        metadata.append(&mut rest);
        assert(metadata.deep_view() =~= A::spec_meta() + B::spec_meta());
        metadata
    }

    fn register(registry: &mut Registry) {
        A::register(registry);
        B::register(registry);
        proof {
            lemma_register_in_turn(
                A::named_schemas(),
                B::named_schemas(),
                old(registry).schemas(),
            );
            lemma_register_in_turn(
                A::security_schemes(),
                B::security_schemes(),
                old(registry).security_schemes(),
            );
            lemma_register_in_turn(A::tags(), B::tags(), old(registry).tags());
        }
    }

    fn add_routes(self, route: Route) -> (r: Route) {
        let ghost base = route.deep_view();
        let r = self.1.add_routes(self.0.add_routes(route));
        assert(r.deep_view() =~= base + (self.0.routes() + self.1.routes()));
        r
    }
}

/// A combination has the operations of its first API object, then those of
/// its second.
pub proof fn lemma_combine_two<A: OpenApi, B: OpenApi>()
    ensures
        <CombinedAPI<A, B> as OpenApi>::spec_meta() == A::spec_meta() + B::spec_meta(),
{
}

/// Combining keeps the order of declaration, however the API objects are
/// grouped: of three, both groupings give the operations of the first, then
/// those of the second, then those of the third.
pub proof fn lemma_combine_three<A: OpenApi, B: OpenApi, C: OpenApi>()
    ensures
        <CombinedAPI<CombinedAPI<A, B>, C> as OpenApi>::spec_meta() == A::spec_meta()
            + B::spec_meta() + C::spec_meta(),
        <CombinedAPI<A, CombinedAPI<B, C>> as OpenApi>::spec_meta() == A::spec_meta()
            + B::spec_meta() + C::spec_meta(),
{
    assert(A::spec_meta() + (B::spec_meta() + C::spec_meta()) =~= A::spec_meta() + B::spec_meta()
        + C::spec_meta());
}

/// Of four API objects, combined three times, every grouping gives the
/// operations in the order of declaration.
pub proof fn lemma_combine_four<A: OpenApi, B: OpenApi, C: OpenApi, D: OpenApi>()
    ensures
        <CombinedAPI<CombinedAPI<CombinedAPI<A, B>, C>, D> as OpenApi>::spec_meta() == flat_meta::<
            A,
            B,
            C,
            D,
        >(),
        <CombinedAPI<CombinedAPI<A, CombinedAPI<B, C>>, D> as OpenApi>::spec_meta() == flat_meta::<
            A,
            B,
            C,
            D,
        >(),
        <CombinedAPI<CombinedAPI<A, B>, CombinedAPI<C, D>> as OpenApi>::spec_meta() == flat_meta::<
            A,
            B,
            C,
            D,
        >(),
        <CombinedAPI<A, CombinedAPI<CombinedAPI<B, C>, D>> as OpenApi>::spec_meta() == flat_meta::<
            A,
            B,
            C,
            D,
        >(),
        <CombinedAPI<A, CombinedAPI<B, CombinedAPI<C, D>>> as OpenApi>::spec_meta() == flat_meta::<
            A,
            B,
            C,
            D,
        >(),
{
    let a = A::spec_meta();
    let b = B::spec_meta();
    let c = C::spec_meta();
    let d = D::spec_meta();
    let flat = a + b + c + d;
    assert((a + (b + c)) + d =~= flat);
    assert((a + b) + (c + d) =~= flat);
    assert(a + ((b + c) + d) =~= flat);
    assert(a + (b + (c + d)) =~= flat);
}

/// The operations of four API objects in the order of declaration.
pub open spec fn flat_meta<A: OpenApi, B: OpenApi, C: OpenApi, D: OpenApi>() -> Seq<MetaApiView> {
    A::spec_meta() + B::spec_meta() + C::spec_meta() + D::spec_meta()
}

/// Where both API objects of a combination have a route for a path, the
/// second one's serves it; the first one's does where the second has none,
/// and the table's own where neither has one.
pub proof fn lemma_combined_routes<A: OpenApi, B: OpenApi>(
    api: CombinedAPI<A, B>,
    base: Seq<(Seq<char>, u64)>,
    path: Seq<char>,
)
    ensures
        crate::http::route_target(base + api.routes(), path) == match crate::http::route_target(
            api.1.routes(),
            path,
        ) {
            Some(endpoint) => Some(endpoint),
            None => match crate::http::route_target(api.0.routes(), path) {
                Some(endpoint) => Some(endpoint),
                None => crate::http::route_target(base, path),
            },
        },
{
    crate::http::lemma_later_route_wins(base, api.routes(), path);
    crate::http::lemma_later_route_wins(api.0.routes(), api.1.routes(), path);
}

/// An optional security scheme takes every request: where the scheme itself
/// would refuse, the optional one gives no credentials and no error.
pub proof fn lemma_optional_scheme_accepts<S: SecurityScheme>(
    request: RequestView,
    query: Map<Seq<char>, Seq<char>>,
)
    ensures
        <Option<S> as SecurityScheme>::accepts(request, query),
        !S::accepts(request, query) ==> <Option<S> as SecurityScheme>::credentials(request, query)
            == Some(None::<S>),
{
}

} // verus!
