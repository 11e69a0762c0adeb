//! A request and a response as plain values, and a table of routes.

use crate::text::str_eq;
use vstd::prelude::*;
use vstd::string::*;

verus! {

/// The headers of a request, in the order they came. The names are in lower
/// case.
#[derive(Debug, PartialEq, Eq)]
pub struct Request {
    pub headers: Vec<(String, String)>,
}

/// The mathematical content of a [`Request`].
pub struct RequestView {
    pub headers: Seq<(Seq<char>, Seq<char>)>,
}

impl DeepView for Request {
    type V = RequestView;

    open spec fn deep_view(&self) -> RequestView {
        RequestView { headers: self.headers.deep_view() }
    }
}

/// The value of the first header of that name.
pub open spec fn header_value(headers: Seq<(Seq<char>, Seq<char>)>, name: Seq<char>) -> Option<
    Seq<char>,
>
    decreases headers.len(),
{
    if headers.len() == 0 {
        None
    } else if headers[0].0 == name {
        Some(headers[0].1)
    } else {
        header_value(headers.skip(1), name)
    }
}

impl RequestView {
    /// The content type that the request declares.
    pub open spec fn content_type(self) -> Option<Seq<char>> {
        header_value(self.headers, "content-type"@)
    }
}

impl Request {
    /// A request with these headers.
    pub fn new(headers: Vec<(String, String)>) -> (r: Request)
        ensures
            r.headers == headers,
    {
        Request { headers }
    }

    /// The value of the first header of that name, the name given in lower
    /// case.
    pub fn header(&self, name: &str) -> (r: Option<&str>)
        ensures
            r.deep_view() == header_value(self.deep_view().headers, name@),
    {
        let ghost all = self.headers.deep_view();
        let mut i: usize = 0;
        assert(all.skip(0) =~= all);
        while i < self.headers.len()
            invariant
                i <= self.headers.len(),
                all == self.headers.deep_view(),
                header_value(all, name@) == header_value(all.skip(i as int), name@),
            decreases self.headers.len() - i,
        {
            proof {
                assert(all.skip(i as int)[0] == all[i as int]);
                assert(all.skip(i as int).skip(1) =~= all.skip(i + 1));
            }
            if str_eq(self.headers[i].0.as_str(), name) {
                return Some(self.headers[i].1.as_str());
            }
            i += 1;
        }
        None
    }

    /// The content type that the request declares.
    pub fn content_type(&self) -> (r: Option<&str>)
        ensures
            r.deep_view() == self.deep_view().content_type(),
    {
        self.header("content-type")
    }
}

/// What a response carries: its status, its content type and the bytes of its
/// body.
#[derive(Debug, PartialEq, Eq)]
pub struct Response {
    pub status: u16,
    pub content_type: Option<String>,
    pub body: Vec<u8>,
}

/// The mathematical content of a [`Response`].
pub struct ResponseView {
    pub status: u16,
    pub content_type: Option<Seq<char>>,
    pub body: Seq<u8>,
}

impl DeepView for Response {
    type V = ResponseView;

    open spec fn deep_view(&self) -> ResponseView {
        ResponseView {
            status: self.status,
            content_type: self.content_type.deep_view(),
            body: self.body@,
        }
    }
}

/// The status of a response that succeeded.
pub const STATUS_OK: u16 = 200;

/// The status of a response to a caller whose credentials are not accepted.
pub const STATUS_UNAUTHORIZED: u16 = 401;

/// The response that carries a text: status 200, the given content type, and
/// the text in UTF-8.
pub open spec fn text_response(content_type: Seq<char>, text: Seq<char>) -> ResponseView {
    ResponseView {
        status: STATUS_OK,
        content_type: Some(content_type),
        body: vstd::utf8::encode_utf8(text),
    }
}

impl Response {
    /// The response that carries the text under the content type.
    pub fn text(content_type: &str, text: &str) -> (r: Response)
        ensures
            r.deep_view() == text_response(content_type@, text@),
    {
        Response {
            status: STATUS_OK,
            content_type: Some(String::from_str(content_type)),
            body: text.as_bytes_vec(),
        }
    }

    /// The response without a body: status 200 and no content type.
    pub fn empty() -> (r: Response)
        ensures
            r.deep_view() == empty_response(),
    {
        Response { status: STATUS_OK, content_type: None, body: Vec::new() }
    }
}

/// The response without a body.
pub open spec fn empty_response() -> ResponseView {
    ResponseView { status: STATUS_OK, content_type: None, body: Seq::empty() }
}

/// A value that can be sent as a response.
///
/// The function in `spec` mode says what the other returns. An implementor
/// that is verified defines it; where it is left as it is, nothing is known
/// of it.
pub trait IntoResponse: Sized {
    /// The response that the value is sent as.
    open spec fn spec_into_response(self) -> ResponseView {
        arbitrary()
    }

    /// Turns the value into the response that it is sent as.
    fn into_response(self) -> (r: Response)
        ensures
            r.deep_view() == self.spec_into_response(),
    ;
}

impl IntoResponse for () {
    open spec fn spec_into_response(self) -> ResponseView {
        empty_response()
    }

    fn into_response(self) -> (r: Response) {
        Response::empty()
    }
}

impl<T: IntoResponse, E: IntoResponse> IntoResponse for Result<T, E> {
    open spec fn spec_into_response(self) -> ResponseView {
        match self {
            Ok(value) => value.spec_into_response(),
            Err(error) => error.spec_into_response(),
        }
    }

    fn into_response(self) -> (r: Response) {
        match self {
            Ok(value) => value.into_response(),
            Err(error) => error.into_response(),
        }
    }
}

/// The routes of a service, in the order they were added: each a path and the
/// number of the endpoint that serves it. A path that was added more than
/// once is served by the endpoint that was added last.
#[derive(Debug, PartialEq, Eq)]
pub struct Route {
    entries: Vec<(String, u64)>,
}

/// The endpoint that serves the path: that of the last route with that path.
pub open spec fn route_target(routes: Seq<(Seq<char>, u64)>, path: Seq<char>) -> Option<u64>
    decreases routes.len(),
{
    if routes.len() == 0 {
        None
    } else if routes.last().0 == path {
        Some(routes.last().1)
    } else {
        route_target(routes.drop_last(), path)
    }
}

/// Of routes added in turn, the later ones have the say: a path is served as
/// the later routes serve it, and as the earlier ones do only where no later
/// route has that path.
pub proof fn lemma_later_route_wins(
    earlier: Seq<(Seq<char>, u64)>,
    later: Seq<(Seq<char>, u64)>,
    path: Seq<char>,
)
    ensures
        route_target(earlier + later, path) == match route_target(later, path) {
            Some(endpoint) => Some(endpoint),
            None => route_target(earlier, path),
        },
    decreases later.len(),
{
    if later.len() == 0 {
        assert(earlier + later =~= earlier);
    } else {
        assert((earlier + later).last() == later.last());
        assert((earlier + later).drop_last() =~= earlier + later.drop_last());
        lemma_later_route_wins(earlier, later.drop_last(), path);
    }
}

/// Whether no later route has the path of the route at that place.
pub open spec fn last_of_its_path(routes: Seq<(Seq<char>, u64)>, i: int) -> bool {
    forall|k: int| i < k < routes.len() ==> (#[trigger] routes[k]).0 != routes[i].0
}

/// The last route of a path serves the path.
pub proof fn lemma_last_route_serves(routes: Seq<(Seq<char>, u64)>, i: int)
    requires
        0 <= i < routes.len(),
        last_of_its_path(routes, i),
    ensures
        route_target(routes, routes[i].0) == Some(routes[i].1),
    decreases routes.len(),
{
    if i < routes.len() - 1 {
        let front = routes.drop_last();
        assert(routes[routes.len() - 1].0 != routes[i].0);
        assert forall|k: int| i < k < front.len() implies (#[trigger] front[k]).0 != front[i].0 by {
            assert(routes[k].0 != routes[i].0);
        }
        lemma_last_route_serves(front, i);
    }
}

impl DeepView for Route {
    type V = Seq<(Seq<char>, u64)>;

    closed spec fn deep_view(&self) -> Seq<(Seq<char>, u64)> {
        self.entries.deep_view()
    }
}

impl Route {
    /// The table without a route.
    pub fn new() -> (r: Route)
        ensures
            r.deep_view() == Seq::<(Seq<char>, u64)>::empty(),
    {
        let r = Route { entries: Vec::new() };
        assert(r.deep_view() =~= Seq::<(Seq<char>, u64)>::empty());
        r
    }

    /// Adds a route: the path is served by the endpoint from now on.
    pub fn at(self, path: &str, endpoint: u64) -> (r: Route)
        ensures
            r.deep_view() == self.deep_view().push((path@, endpoint)),
    {
        let mut entries = self.entries;
        entries.push((String::from_str(path), endpoint));
        let r = Route { entries };
        assert(r.deep_view() =~= self.deep_view().push((path@, endpoint)));
        r
    }

    /// The number of routes that were added.
    pub fn len(&self) -> (r: usize)
        ensures
            r == self.deep_view().len(),
    {
        self.entries.len()
    }

    /// The path of the route that was added at that place.
    pub fn path(&self, i: usize) -> (r: &str)
        requires
            i < self.deep_view().len(),
        ensures
            r@ == self.deep_view()[i as int].0,
    {
        self.entries[i].0.as_str()
    }

    /// The endpoint of the route that was added at that place.
    pub fn endpoint(&self, i: usize) -> (r: u64)
        requires
            i < self.deep_view().len(),
        ensures
            r == self.deep_view()[i as int].1,
    {
        self.entries[i].1
    }

    /// Whether the route at that place is the last of its path, which is the
    /// one that serves the path.
    pub fn is_last(&self, i: usize) -> (r: bool)
        requires
            i < self.deep_view().len(),
        ensures
            r == last_of_its_path(self.deep_view(), i as int),
            r ==> route_target(self.deep_view(), self.deep_view()[i as int].0) == Some(
                self.deep_view()[i as int].1,
            ),
    {
        let ghost all = self.entries.deep_view();
        assert(i < self.entries.len());
        let mut j: usize = i + 1;
        while j < self.entries.len()
            invariant
                i < j <= self.entries.len(),
                all == self.entries.deep_view(),
                forall|k: int| i < k < j ==> (#[trigger] all[k]).0 != all[i as int].0,
            decreases self.entries.len() - j,
        {
            if str_eq(self.entries[j].0.as_str(), self.entries[i].0.as_str()) {
                assert(all[j as int].0 == all[i as int].0);
                return false;
            }
            j += 1;
        }
        proof {
            lemma_last_route_serves(all, i as int);
        }
        true
    }

    /// The endpoint that serves the path, if one does.
    pub fn find(&self, path: &str) -> (r: Option<u64>)
        ensures
            r == route_target(self.deep_view(), path@),
    {
        let ghost all = self.entries.deep_view();
        let mut i: usize = self.entries.len();
        assert(all.take(i as int) =~= all);
        while i > 0
            invariant
                i <= self.entries.len(),
                all == self.entries.deep_view(),
                route_target(all, path@) == route_target(all.take(i as int), path@),
            decreases i,
        {
            proof {
                assert(all.take(i as int).last() == all[i - 1]);
                assert(all.take(i as int).drop_last() =~= all.take(i - 1));
            }
            i -= 1;
            if str_eq(self.entries[i].0.as_str(), path) {
                return Some(self.entries[i].1);
            }
        }
        None
    }
}

} // verus!
