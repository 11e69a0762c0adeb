//! The metadata of an API and the registry of its named schemas.

use crate::text::str_eq;
use vstd::prelude::*;

verus! {

/// The inline description of a type: its kind and, where it has one, its format.
#[derive(Debug, PartialEq, Eq)]
pub struct MetaSchema {
    pub ty: &'static str,
    pub format: Option<&'static str>,
}

/// The mathematical content of a [`MetaSchema`].
pub struct MetaSchemaView {
    pub ty: Seq<char>,
    pub format: Option<Seq<char>>,
}

impl DeepView for MetaSchema {
    type V = MetaSchemaView;

    open spec fn deep_view(&self) -> MetaSchemaView {
        MetaSchemaView { ty: self.ty@, format: self.format.deep_view() }
    }
}

impl MetaSchema {
    /// A schema of the given kind, without a format.
    pub fn new(ty: &'static str) -> (r: MetaSchema)
        ensures
            r.deep_view() == (MetaSchemaView { ty: ty@, format: None }),
    {
        MetaSchema { ty, format: None }
    }

    /// A schema of the given kind and format.
    pub fn new_with_format(ty: &'static str, format: &'static str) -> (r: MetaSchema)
        ensures
            r.deep_view() == (MetaSchemaView { ty: ty@, format: Some(format@) }),
    {
        MetaSchema { ty, format: Some(format) }
    }

    /// The schema that stands for a type while the type is being registered.
    pub fn placeholder() -> (r: MetaSchema)
        ensures
            r.deep_view() == placeholder_schema(),
    {
        MetaSchema { ty: "pending", format: None }
    }
}

/// The content of [`MetaSchema::placeholder`].
pub open spec fn placeholder_schema() -> MetaSchemaView {
    MetaSchemaView { ty: "pending"@, format: None }
}

/// A schema given in place, or the name of one in the registry.
#[derive(Debug, PartialEq, Eq)]
pub enum MetaSchemaRef {
    Inline(Box<MetaSchema>),
    Reference(&'static str),
}

/// The mathematical content of a [`MetaSchemaRef`].
pub enum MetaSchemaRefView {
    Inline(MetaSchemaView),
    Reference(Seq<char>),
}

impl DeepView for MetaSchemaRef {
    type V = MetaSchemaRefView;

    open spec fn deep_view(&self) -> MetaSchemaRefView {
        match self {
            MetaSchemaRef::Inline(schema) => MetaSchemaRefView::Inline(schema.deep_view()),
            MetaSchemaRef::Reference(name) => MetaSchemaRefView::Reference(name@),
        }
    }
}

/// A content type together with the schema of what it carries.
#[derive(Debug, PartialEq, Eq)]
pub struct MetaMediaType {
    pub content_type: &'static str,
    pub schema: MetaSchemaRef,
}

/// The mathematical content of a [`MetaMediaType`].
pub struct MetaMediaTypeView {
    pub content_type: Seq<char>,
    pub schema: MetaSchemaRefView,
}

impl DeepView for MetaMediaType {
    type V = MetaMediaTypeView;

    open spec fn deep_view(&self) -> MetaMediaTypeView {
        MetaMediaTypeView { content_type: self.content_type@, schema: self.schema.deep_view() }
    }
}

/// The body of a request.
#[derive(Debug, PartialEq, Eq)]
pub struct MetaRequest {
    pub description: Option<&'static str>,
    pub content: Vec<MetaMediaType>,
    pub required: bool,
}

/// The mathematical content of a [`MetaRequest`].
pub struct MetaRequestView {
    pub description: Option<Seq<char>>,
    pub content: Seq<MetaMediaTypeView>,
    pub required: bool,
}

impl DeepView for MetaRequest {
    type V = MetaRequestView;

    open spec fn deep_view(&self) -> MetaRequestView {
        MetaRequestView {
            description: self.description.deep_view(),
            content: self.content.deep_view(),
            required: self.required,
        }
    }
}

/// A header of a response.
#[derive(Debug, PartialEq, Eq)]
pub struct MetaHeader {
    pub name: &'static str,
    pub description: Option<&'static str>,
    pub required: bool,
    pub schema: MetaSchemaRef,
}

/// The mathematical content of a [`MetaHeader`].
pub struct MetaHeaderView {
    pub name: Seq<char>,
    pub description: Option<Seq<char>>,
    pub required: bool,
    pub schema: MetaSchemaRefView,
}

impl DeepView for MetaHeader {
    type V = MetaHeaderView;

    open spec fn deep_view(&self) -> MetaHeaderView {
        MetaHeaderView {
            name: self.name@,
            description: self.description.deep_view(),
            required: self.required,
            schema: self.schema.deep_view(),
        }
    }
}

/// One response that an operation may give.
#[derive(Debug, PartialEq, Eq)]
pub struct MetaResponse {
    pub description: Option<&'static str>,
    pub status: Option<u16>,
    pub content: Vec<MetaMediaType>,
    pub headers: Vec<MetaHeader>,
}

/// The mathematical content of a [`MetaResponse`].
pub struct MetaResponseView {
    pub description: Option<Seq<char>>,
    pub status: Option<u16>,
    pub content: Seq<MetaMediaTypeView>,
    pub headers: Seq<MetaHeaderView>,
}

impl DeepView for MetaResponse {
    type V = MetaResponseView;

    open spec fn deep_view(&self) -> MetaResponseView {
        MetaResponseView {
            description: self.description.deep_view(),
            status: self.status,
            content: self.content.deep_view(),
            headers: self.headers.deep_view(),
        }
    }
}

/// The responses that an operation may give, in the order they are declared.
#[derive(Debug, PartialEq, Eq)]
pub struct MetaResponses {
    pub responses: Vec<MetaResponse>,
}

/// The mathematical content of a [`MetaResponses`].
pub struct MetaResponsesView {
    pub responses: Seq<MetaResponseView>,
}

impl DeepView for MetaResponses {
    type V = MetaResponsesView;

    open spec fn deep_view(&self) -> MetaResponsesView {
        MetaResponsesView { responses: self.responses.deep_view() }
    }
}

/// One operation of an API.
#[derive(Debug, PartialEq, Eq)]
pub struct MetaOperation {
    pub path: &'static str,
    pub method: &'static str,
    pub request: Option<MetaRequest>,
    pub responses: MetaResponses,
    pub security: Vec<&'static str>,
}

/// The mathematical content of a [`MetaOperation`].
pub struct MetaOperationView {
    pub path: Seq<char>,
    pub method: Seq<char>,
    pub request: Option<MetaRequestView>,
    pub responses: MetaResponsesView,
    pub security: Seq<Seq<char>>,
}

impl DeepView for MetaOperation {
    type V = MetaOperationView;

    open spec fn deep_view(&self) -> MetaOperationView {
        MetaOperationView {
            path: self.path@,
            method: self.method@,
            request: self.request.deep_view(),
            responses: self.responses.deep_view(),
            security: self.security.deep_view(),
        }
    }
}

/// The operations that one API object declares, in the order it declares them.
#[derive(Debug, PartialEq, Eq)]
pub struct MetaApi {
    pub operations: Vec<MetaOperation>,
}

/// The mathematical content of a [`MetaApi`].
pub struct MetaApiView {
    pub operations: Seq<MetaOperationView>,
}

impl DeepView for MetaApi {
    type V = MetaApiView;

    open spec fn deep_view(&self) -> MetaApiView {
        MetaApiView { operations: self.operations.deep_view() }
    }
}

/// A scope of an OAuth flow.
#[derive(Debug, PartialEq, Eq)]
pub struct MetaOAuthScope {
    pub name: &'static str,
    pub description: Option<&'static str>,
}

/// The mathematical content of a [`MetaOAuthScope`].
pub struct MetaOAuthScopeView {
    pub name: Seq<char>,
    pub description: Option<Seq<char>>,
}

impl DeepView for MetaOAuthScope {
    type V = MetaOAuthScopeView;

    open spec fn deep_view(&self) -> MetaOAuthScopeView {
        MetaOAuthScopeView { name: self.name@, description: self.description.deep_view() }
    }
}

/// A security scheme of an API, as the description of the API lists it.
#[derive(Debug, PartialEq, Eq)]
pub struct MetaSecurityScheme {
    pub ty: &'static str,
    pub description: Option<&'static str>,
    pub name: Option<&'static str>,
    pub key_in: Option<&'static str>,
    pub scheme: Option<&'static str>,
    pub bearer_format: Option<&'static str>,
}

/// The mathematical content of a [`MetaSecurityScheme`].
pub struct MetaSecuritySchemeView {
    pub ty: Seq<char>,
    pub description: Option<Seq<char>>,
    pub name: Option<Seq<char>>,
    pub key_in: Option<Seq<char>>,
    pub scheme: Option<Seq<char>>,
    pub bearer_format: Option<Seq<char>>,
}

impl DeepView for MetaSecurityScheme {
    type V = MetaSecuritySchemeView;

    open spec fn deep_view(&self) -> MetaSecuritySchemeView {
        MetaSecuritySchemeView {
            ty: self.ty@,
            description: self.description.deep_view(),
            name: self.name.deep_view(),
            key_in: self.key_in.deep_view(),
            scheme: self.scheme.deep_view(),
            bearer_format: self.bearer_format.deep_view(),
        }
    }
}

/// A tag that groups operations.
#[derive(Debug, PartialEq, Eq)]
pub struct MetaTag {
    pub name: &'static str,
    pub description: Option<&'static str>,
}

/// The mathematical content of a [`MetaTag`].
pub struct MetaTagView {
    pub name: Seq<char>,
    pub description: Option<Seq<char>>,
}

impl DeepView for MetaTag {
    type V = MetaTagView;

    open spec fn deep_view(&self) -> MetaTagView {
        MetaTagView { name: self.name@, description: self.description.deep_view() }
    }
}

/// One named item of the registry.
struct Entry<T> {
    name: &'static str,
    value: T,
    pending: bool,
}

/// Whether one of the entries has the name.
spec fn has_name<T>(entries: Seq<Entry<T>>, name: Seq<char>) -> bool {
    exists|i: int| 0 <= i < entries.len() && (#[trigger] entries[i]).name@ == name
}

/// The place of an entry that has the name.
spec fn place_of<T>(entries: Seq<Entry<T>>, name: Seq<char>) -> int {
    choose|i: int| 0 <= i < entries.len() && (#[trigger] entries[i]).name@ == name
}

/// No two entries share a name.
spec fn distinct_names<T>(entries: Seq<Entry<T>>) -> bool {
    forall|i: int, j: int|
        0 <= i < j < entries.len() ==> (#[trigger] entries[i]).name@ != (#[trigger] entries[j]).name@
}

/// What the entries hold, by name.
spec fn values_of<T: DeepView>(entries: Seq<Entry<T>>) -> Map<Seq<char>, T::V> {
    Map::new(
        |name: Seq<char>| has_name(entries, name),
        |name: Seq<char>| entries[place_of(entries, name)].value.deep_view(),
    )
}

/// The names of the entries that are marked as pending.
spec fn pending_of<T>(entries: Seq<Entry<T>>) -> Set<Seq<char>> {
    Set::new(|name: Seq<char>| has_name(entries, name) && entries[place_of(entries, name)].pending)
}

/// With distinct names, the entry at a place is the one found by its name.
proof fn lemma_place_of<T>(entries: Seq<Entry<T>>, i: int)
    requires
        distinct_names(entries),
        0 <= i < entries.len(),
    ensures
        has_name(entries, entries[i].name@),
        place_of(entries, entries[i].name@) == i,
{
    let name = entries[i].name@;
    assert(has_name(entries, name));
    let j = place_of(entries, name);
    assert(0 <= j < entries.len() && entries[j].name@ == name);
    if j < i {
        assert(entries[j].name@ != entries[i].name@);
    } else if i < j {
        assert(entries[i].name@ != entries[j].name@);
    }
}

/// Adding an entry under a new name adds what it holds and nothing else.
proof fn lemma_push_entry<T: DeepView>(entries: Seq<Entry<T>>, entry: Entry<T>)
    requires
        distinct_names(entries),
        !has_name(entries, entry.name@),
    ensures
        distinct_names(entries.push(entry)),
        values_of(entries.push(entry)) == values_of(entries).insert(
            entry.name@,
            entry.value.deep_view(),
        ),
        pending_of(entries.push(entry)) == if entry.pending {
            pending_of(entries).insert(entry.name@)
        } else {
            pending_of(entries)
        },
{
    let after = entries.push(entry);
    assert forall|i: int, j: int| 0 <= i < j < after.len() implies (#[trigger] after[i]).name@ != (
    #[trigger] after[j]).name@ by {
        if j < entries.len() {
            assert(entries[i].name@ != entries[j].name@);
        } else {
            assert(entries[i].name@ != entry.name@);
        }
    }
    assert forall|name: Seq<char>| has_name(after, name) <==> (has_name(entries, name) || name
        == entry.name@) by {
        if has_name(entries, name) {
            let i = place_of(entries, name);
            assert(after[i].name@ == name);
        }
        if name == entry.name@ {
            assert(after[entries.len() as int].name@ == name);
        }
        if has_name(after, name) {
            let i = place_of(after, name);
            if i < entries.len() {
                assert(entries[i].name@ == name);
            }
        }
    }
    assert forall|name: Seq<char>| has_name(after, name) implies after[place_of(
        after,
        name,
    )] == if name == entry.name@ {
        entry
    } else {
        entries[place_of(entries, name)]
    } by {
        if name == entry.name@ {
            lemma_place_of(after, entries.len() as int);
        } else {
            let k = place_of(entries, name);
            assert(after[k].name@ == name);
            lemma_place_of(after, k);
        }
    }
    assert(values_of(after) =~= values_of(entries).insert(entry.name@, entry.value.deep_view()));
    if entry.pending {
        assert(pending_of(after) =~= pending_of(entries).insert(entry.name@));
    } else {
        assert(pending_of(after) =~= pending_of(entries));
    }
}

/// Replacing an entry by one of the same name replaces what it holds and
/// nothing else.
proof fn lemma_update_entry<T: DeepView>(entries: Seq<Entry<T>>, i: int, entry: Entry<T>)
    requires
        distinct_names(entries),
        0 <= i < entries.len(),
        entry.name@ == entries[i].name@,
    ensures
        distinct_names(entries.update(i, entry)),
        values_of(entries.update(i, entry)) == values_of(entries).insert(
            entry.name@,
            entry.value.deep_view(),
        ),
        pending_of(entries.update(i, entry)) == if entry.pending {
            pending_of(entries).insert(entry.name@)
        } else {
            pending_of(entries).remove(entry.name@)
        },
{
    let after = entries.update(i, entry);
    assert forall|a: int, b: int| 0 <= a < b < after.len() implies (#[trigger] after[a]).name@ != (
    #[trigger] after[b]).name@ by {
        assert(entries[a].name@ != entries[b].name@);
    }
    assert forall|name: Seq<char>| has_name(after, name) <==> has_name(entries, name) by {
        if has_name(entries, name) {
            let k = place_of(entries, name);
            assert(after[k].name@ == name);
        }
        if has_name(after, name) {
            let k = place_of(after, name);
            assert(entries[k].name@ == name);
        }
    }
    assert forall|name: Seq<char>| has_name(after, name) implies after[place_of(
        after,
        name,
    )] == if name == entry.name@ {
        entry
    } else {
        entries[place_of(entries, name)]
    } by {
        let k = place_of(entries, name);
        assert(after[k].name@ == name);
        lemma_place_of(after, k);
        if name == entry.name@ {
            lemma_place_of(entries, i);
        }
    }
    lemma_place_of(entries, i);
    assert(values_of(after) =~= values_of(entries).insert(entry.name@, entry.value.deep_view()));
    if entry.pending {
        assert(pending_of(after) =~= pending_of(entries).insert(entry.name@));
    } else {
        assert(pending_of(after) =~= pending_of(entries).remove(entry.name@));
    }
}

/// With distinct names there are as many names as entries.
proof fn lemma_values_len<T: DeepView>(entries: Seq<Entry<T>>)
    requires
        distinct_names(entries),
    ensures
        values_of(entries).dom().finite(),
        values_of(entries).len() == entries.len(),
    decreases entries.len(),
{
    if entries.len() == 0 {
        assert(values_of(entries) =~= Map::<Seq<char>, T::V>::empty());
    } else {
        let front = entries.drop_last();
        let last = entries.last();
        assert forall|i: int, j: int| 0 <= i < j < front.len() implies (#[trigger] front[i]).name@
            != (#[trigger] front[j]).name@ by {
            assert(entries[i].name@ != entries[j].name@);
        }
        lemma_values_len(front);
        if has_name(front, last.name@) {
            let k = place_of(front, last.name@);
            assert(entries[k].name@ != entries[entries.len() - 1].name@);
        }
        lemma_push_entry(front, last);
        assert(front.push(last) =~= entries);
    }
}

/// The place of the entry with the name, if there is one.
fn find<T>(entries: &Vec<Entry<T>>, name: &str) -> (r: Option<usize>)
    ensures
        r is Some <==> has_name(entries@, name@),
        r matches Some(i) ==> i < entries.len() && entries[i as int].name@ == name@,
{
    let mut i: usize = 0;
    while i < entries.len()
        invariant
            i <= entries.len(),
            forall|j: int| 0 <= j < i ==> (#[trigger] entries[j]).name@ != name@,
        decreases entries.len() - i,
    {
        if str_eq(entries[i].name, name) {
            return Some(i);
        }
        i += 1;
    }
    None
}

/// The named schemas, the security schemes and the tags of one service. A
/// name is registered once: what is registered under it first stays.
pub struct Registry {
    schemas: Vec<Entry<MetaSchema>>,
    security_schemes: Vec<Entry<MetaSecurityScheme>>,
    tags: Vec<Entry<MetaTag>>,
}

impl Registry {
    /// No name occurs twice among the schemas, none among the security
    /// schemes and none among the tags.
    pub closed spec fn wf(&self) -> bool {
        &&& distinct_names(self.schemas@)
        &&& distinct_names(self.security_schemes@)
        &&& distinct_names(self.tags@)
    }

    /// The registered schemas, by name. A type that is still being registered
    /// stands in it with the placeholder schema.
    pub closed spec fn schemas(&self) -> Map<Seq<char>, MetaSchemaView> {
        values_of(self.schemas@)
    }

    /// The names of the types that are still being registered.
    pub closed spec fn pending(&self) -> Set<Seq<char>> {
        pending_of(self.schemas@)
    }

    /// The registered security schemes, by name.
    pub closed spec fn security_schemes(&self) -> Map<Seq<char>, MetaSecuritySchemeView> {
        values_of(self.security_schemes@)
    }

    /// The registered tags, by name.
    pub closed spec fn tags(&self) -> Map<Seq<char>, MetaTagView> {
        values_of(self.tags@)
    }

    /// Every pending name is a registered name.
    pub proof fn lemma_pending_registered(&self)
        ensures
            forall|name: Seq<char>| self.pending().contains(name) ==> self.schemas().contains_key(name),
    {
    }

    /// The empty registry.
    pub fn new() -> (r: Registry)
        ensures
            r.wf(),
            r.schemas() == Map::<Seq<char>, MetaSchemaView>::empty(),
            r.pending() == Set::<Seq<char>>::empty(),
            r.security_schemes() == Map::<Seq<char>, MetaSecuritySchemeView>::empty(),
            r.tags() == Map::<Seq<char>, MetaTagView>::empty(),
    {
        let r = Registry { schemas: Vec::new(), security_schemes: Vec::new(), tags: Vec::new() };
        assert(r.tags() =~= Map::<Seq<char>, MetaTagView>::empty());
        assert(r.schemas() =~= Map::<Seq<char>, MetaSchemaView>::empty());
        assert(r.pending() =~= Set::<Seq<char>>::empty());
        assert(r.security_schemes() =~= Map::<Seq<char>, MetaSecuritySchemeView>::empty());
        r
    }

    /// Whether a schema is registered under the name.
    pub fn contains(&self, name: &str) -> (r: bool)
        ensures
            r == self.schemas().contains_key(name@),
    {
        find(&self.schemas, name).is_some()
    }

    /// Whether the type of that name is still being registered.
    pub fn is_pending(&self, name: &str) -> (r: bool)
        requires
            self.wf(),
        ensures
            r == self.pending().contains(name@),
    {
        match find(&self.schemas, name) {
            Some(i) => {
                proof {
                    lemma_place_of(self.schemas@, i as int);
                }
                self.schemas[i].pending
            },
            None => false,
        }
    }

    /// The number of registered schemas.
    pub fn len(&self) -> (r: usize)
        requires
            self.wf(),
        ensures
            self.schemas().dom().finite(),
            r == self.schemas().len(),
    {
        proof {
            lemma_values_len(self.schemas@);
        }
        self.schemas.len()
    }

    /// Registers the schema under the name, unless the name is registered already.
    pub fn create_schema(&mut self, name: &'static str, schema: MetaSchema)
        requires
            old(self).wf(),
        ensures
            registers(map![name@ => schema.deep_view()], *old(self), *final(self)),
    {
        if find(&self.schemas, name).is_none() {
            let entry = Entry { name, value: schema, pending: false };
            proof {
                lemma_push_entry(self.schemas@, entry);
            }
            self.schemas.push(entry);
        }
        assert(self.schemas() =~= map![name@ => schema.deep_view()].union_prefer_right(
            old(self).schemas(),
        ));
    }

    /// The schema registered under the name.
    pub fn resolve(&self, name: &str) -> (r: &MetaSchema)
        requires
            self.wf(),
            self.schemas().contains_key(name@),
        ensures
            r.deep_view() == self.schemas()[name@],
    {
        let found = find(&self.schemas, name);
        let i = found.unwrap();
        proof {
            lemma_place_of(self.schemas@, i as int);
        }
        &self.schemas[i].value
    }

    /// Starts the registration of the type of that name. Where the name is
    /// neither registered nor pending, it becomes pending, with the placeholder
    /// schema, and the caller is to register the members of the type and then
    /// [`finish`](Registry::finish). Where it is, nothing changes and nothing is
    /// left to do: a type that meets itself among its members stops here.
    pub fn begin(&mut self, name: &'static str) -> (r: bool)
        requires
            old(self).wf(),
        ensures
            final(self).wf(),
            final(self).security_schemes() == old(self).security_schemes(),
            final(self).tags() == old(self).tags(),
            r == !old(self).schemas().contains_key(name@),
            r ==> final(self).schemas() == old(self).schemas().insert(name@, placeholder_schema())
                && final(self).pending() == old(self).pending().insert(name@),
            !r ==> final(self).schemas() == old(self).schemas() && final(self).pending() == old(
                self,
            ).pending(),
    {
        if find(&self.schemas, name).is_none() {
            let entry = Entry { name, value: MetaSchema::placeholder(), pending: true };
            proof {
                lemma_push_entry(self.schemas@, entry);
            }
            self.schemas.push(entry);
            true
        } else {
            false
        }
    }

    /// Ends the registration of a pending type: its schema takes the
    /// placeholder's place.
    pub fn finish(&mut self, name: &'static str, schema: MetaSchema)
        requires
            old(self).wf(),
            old(self).pending().contains(name@),
        ensures
            final(self).wf(),
            final(self).security_schemes() == old(self).security_schemes(),
            final(self).tags() == old(self).tags(),
            final(self).schemas() == old(self).schemas().insert(name@, schema.deep_view()),
            final(self).pending() == old(self).pending().remove(name@),
    {
        let found = find(&self.schemas, name);
        let i = found.unwrap();
        let entry = Entry { name, value: schema, pending: false };
        proof {
            lemma_update_entry(self.schemas@, i as int, entry);
        }
        self.schemas.set(i, entry);
    }

    /// Registers the security scheme under the name, unless the name is
    /// registered already.
    pub fn create_security_scheme(&mut self, name: &'static str, scheme: MetaSecurityScheme)
        requires
            old(self).wf(),
        ensures
            registers_security(map![name@ => scheme.deep_view()], *old(self), *final(self)),
    {
        if find(&self.security_schemes, name).is_none() {
            let entry = Entry { name, value: scheme, pending: false };
            proof {
                lemma_push_entry(self.security_schemes@, entry);
            }
            self.security_schemes.push(entry);
        }
        assert(self.security_schemes() =~= map![name@ => scheme.deep_view()].union_prefer_right(
            old(self).security_schemes(),
        ));
    }

    /// Registers the tag under its name, unless the name is registered already.
    pub fn create_tag(&mut self, tag: MetaTag)
        requires
            old(self).wf(),
        ensures
            registers_tags(map![tag.name@ => tag.deep_view()], *old(self), *final(self)),
    {
        if find(&self.tags, tag.name).is_none() {
            let entry = Entry { name: tag.name, value: tag, pending: false };
            proof {
                lemma_push_entry(self.tags@, entry);
            }
            self.tags.push(entry);
        }
        assert(self.tags() =~= map![tag.name@ => tag.deep_view()].union_prefer_right(
            old(self).tags(),
        ));
    }

    /// The tag registered under the name, if there is one.
    pub fn tag(&self, name: &str) -> (r: Option<&MetaTag>)
        requires
            self.wf(),
        ensures
            r is Some <==> self.tags().contains_key(name@),
            r matches Some(tag) ==> tag.deep_view() == self.tags()[name@],
    {
        match find(&self.tags, name) {
            Some(i) => {
                proof {
                    lemma_place_of(self.tags@, i as int);
                }
                Some(&self.tags[i].value)
            },
            None => None,
        }
    }

    /// The security scheme registered under the name, if there is one.
    pub fn security_scheme(&self, name: &str) -> (r: Option<&MetaSecurityScheme>)
        requires
            self.wf(),
        ensures
            r is Some <==> self.security_schemes().contains_key(name@),
            r matches Some(scheme) ==> scheme.deep_view() == self.security_schemes()[name@],
    {
        match find(&self.security_schemes, name) {
            Some(i) => {
                proof {
                    lemma_place_of(self.security_schemes@, i as int);
                }
                Some(&self.security_schemes[i].value)
            },
            None => None,
        }
    }
}

/// What a registration brings to a registry: each of the given items comes
/// in if its name was free, and nothing that was there changes.
pub open spec fn registers_all(
    schemas: Map<Seq<char>, MetaSchemaView>,
    security_schemes: Map<Seq<char>, MetaSecuritySchemeView>,
    tags: Map<Seq<char>, MetaTagView>,
    before: Registry,
    after: Registry,
) -> bool {
    &&& after.wf()
    &&& after.schemas() == schemas.union_prefer_right(before.schemas())
    &&& after.pending() == before.pending()
    &&& after.security_schemes() == security_schemes.union_prefer_right(before.security_schemes())
    &&& after.tags() == tags.union_prefer_right(before.tags())
}

/// What registering a type does to a registry: the named schemas of the type
/// come in, under the names that were free, and nothing else changes.
pub open spec fn registers(
    schemas: Map<Seq<char>, MetaSchemaView>,
    before: Registry,
    after: Registry,
) -> bool {
    &&& after.wf()
    &&& after.schemas() == schemas.union_prefer_right(before.schemas())
    &&& after.pending() == before.pending()
    &&& after.security_schemes() == before.security_schemes()
    &&& after.tags() == before.tags()
}

/// What registering security schemes does to a registry: each comes in if
/// its name was free, and nothing else changes.
pub open spec fn registers_security(
    security_schemes: Map<Seq<char>, MetaSecuritySchemeView>,
    before: Registry,
    after: Registry,
) -> bool {
    &&& after.wf()
    &&& after.schemas() == before.schemas()
    &&& after.pending() == before.pending()
    &&& after.security_schemes() == security_schemes.union_prefer_right(before.security_schemes())
    &&& after.tags() == before.tags()
}

/// What registering tags does to a registry: each comes in if its name was
/// free, and nothing else changes.
pub open spec fn registers_tags(
    tags: Map<Seq<char>, MetaTagView>,
    before: Registry,
    after: Registry,
) -> bool {
    &&& after.wf()
    &&& after.schemas() == before.schemas()
    &&& after.pending() == before.pending()
    &&& after.security_schemes() == before.security_schemes()
    &&& after.tags() == tags.union_prefer_right(before.tags())
}

/// A registration that is made a second time leaves the registry as the
/// first time left it.
pub proof fn lemma_registers_twice(
    schemas: Map<Seq<char>, MetaSchemaView>,
    before: Registry,
    once: Registry,
    twice: Registry,
)
    requires
        registers(schemas, before, once),
        registers(schemas, once, twice),
    ensures
        twice.schemas() == once.schemas(),
        twice.pending() == once.pending(),
        twice.security_schemes() == once.security_schemes(),
        twice.tags() == once.tags(),
{
    lemma_register_idempotent(schemas, before.schemas());
}

/// A registration of schemas, security schemes and tags that is made a
/// second time leaves the registry as the first time left it.
pub proof fn lemma_registers_all_twice(
    schemas: Map<Seq<char>, MetaSchemaView>,
    security_schemes: Map<Seq<char>, MetaSecuritySchemeView>,
    tags: Map<Seq<char>, MetaTagView>,
    before: Registry,
    once: Registry,
    twice: Registry,
)
    requires
        registers_all(schemas, security_schemes, tags, before, once),
        registers_all(schemas, security_schemes, tags, once, twice),
    ensures
        twice.schemas() == once.schemas(),
        twice.pending() == once.pending(),
        twice.security_schemes() == once.security_schemes(),
        twice.tags() == once.tags(),
{
    lemma_register_idempotent(schemas, before.schemas());
    lemma_register_idempotent(security_schemes, before.security_schemes());
    lemma_register_idempotent(tags, before.tags());
}

/// Registering the same schemas a second time changes nothing.
pub proof fn lemma_register_idempotent<V>(named: Map<Seq<char>, V>, before: Map<Seq<char>, V>)
    ensures
        named.union_prefer_right(named.union_prefer_right(before)) == named.union_prefer_right(
            before,
        ),
{
    assert(named.union_prefer_right(named.union_prefer_right(before)) =~= named.union_prefer_right(
        before,
    ));
}

/// Registering one set of schemas and then another is registering both at
/// once, the first set having the say where both hold a name.
pub proof fn lemma_register_in_turn<V>(
    first: Map<Seq<char>, V>,
    second: Map<Seq<char>, V>,
    before: Map<Seq<char>, V>,
)
    ensures
        second.union_prefer_right(first.union_prefer_right(before)) == second.union_prefer_right(
            first,
        ).union_prefer_right(before),
{
    assert(second.union_prefer_right(first.union_prefer_right(before)) =~= second.union_prefer_right(
        first,
    ).union_prefer_right(before));
}

/// Registering no schema changes nothing.
pub proof fn lemma_register_nothing<V>(before: Map<Seq<char>, V>)
    ensures
        Map::<Seq<char>, V>::empty().union_prefer_right(before) == before,
{
    assert(Map::<Seq<char>, V>::empty().union_prefer_right(before) =~= before);
}

} // verus!
