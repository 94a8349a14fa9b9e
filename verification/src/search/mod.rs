//! Provides an ergonomic way to query entries from the MusicBrainz database.
//!
//! First a bit of terminology: You can search entities using different fields,
//! which are all in the module [fields]. It's impossible to use invalid search
//! fields on the wrong entity.
//!
//! When performing a search you will get a vector of [`SearchEntry`], each
//! wrapping an instance of a [`SearchEntity`](search_entities::SearchEntity)
//! corresponding to the full entity you want to query from the database.

use vstd::prelude::*;
use crate::client::fetch::checked_url_spec;
use crate::client::{base_url, check_response_error, checked_url};
use crate::client::fetch::{context_spec, failure_kind, response_error_spec};
use crate::entities::Resource;
use crate::error::{Error, ErrorModel};
use crate::text::{join, join_spec, texts_of};
use crate::xml::{bindings_of, child_spec, list, list_spec, Document, DocumentModel, FromXml};

pub mod fields;
pub mod query;
pub mod query_builder;
pub mod search_entities;

use self::fields::ReleaseGroupSearchField;
use self::query::{escape_query, escape_query_spec};
use self::search_entities::SearchEntity;

verus! {

/// What a search yields: the entries the server returned, in its order.
pub type SearchResult<Entity> = Result<Vec<SearchEntry<Entity>>, Error>;

/// One entry of the search results.
pub struct SearchEntry<E> {
    /// The returned entity.
    pub entity: E,
    /// A value from 0 to 100 indicating in percent how much this specific
    /// search result matches the search query.
    pub score: u8,
}

/// Mathematical content of a [`SearchEntry`].
pub struct SearchEntryModel<V> {
    pub entity: V,
    pub score: u8,
}

impl<E: DeepView> DeepView for SearchEntry<E> {
    type V = SearchEntryModel<E::V>;

    open spec fn deep_view(&self) -> SearchEntryModel<E::V> {
        SearchEntryModel { entity: self.entity.deep_view(), score: self.score }
    }
}

impl<E: SearchEntity> FromXml for SearchEntry<E> {
    /// The entity is read from the entry's node, the score from the
    /// attribute that the server adds to it.
    open spec fn from_xml_spec(doc: DocumentModel, nodes: Seq<char>) -> Result<
        SearchEntryModel<<E as DeepView>::V>,
        ErrorModel,
    > {
        let entity = E::from_xml_spec(doc, child_spec(nodes, "."@));
        let score = u8::from_xml_spec(doc, child_spec(nodes, "./@ext:score"@));
        if entity is Err {
            Err(entity->Err_0)
        } else if score is Err {
            Err(score->Err_0)
        } else {
            Ok(SearchEntryModel { entity: entity->Ok_0, score: score->Ok_0 })
        }
    }

    fn from_xml(doc: &Document, nodes: &str) -> (r: Result<SearchEntry<E>, Error>) {
        let entity: E = doc.read(nodes, ".")?;
        let score: u8 = doc.read(nodes, "./@ext:score")?;
        Ok(SearchEntry { entity, score })
    }
}

/// The prefixes with which search results are read: that of responses, and
/// the one of the attributes that the search server adds.
pub open spec fn search_context_spec() -> Seq<(Seq<char>, Seq<char>)> {
    context_spec().push(("ext"@, "http://musicbrainz.org/ns/ext#-2.0"@))
}

/// The document that the body of a search response is read as.
pub open spec fn search_document(xml: Seq<char>) -> DocumentModel {
    DocumentModel { xml, namespaces: search_context_spec() }
}

/// The constraints of a query as they stand in a URL: each as name, colon
/// and percent-encoded value.
pub open spec fn query_parts(params: Seq<(Seq<char>, Seq<char>)>) -> Seq<Seq<char>> {
    Seq::new(params.len(), |i: int| params[i].0 + seq![':'] + escape_query_spec(params[i].1))
}

/// The address of a search: base, resource name, and as the `query`
/// parameter the constraints, joined by a percent-encoded ` AND `.
pub open spec fn search_url_spec(resource: Seq<char>, params: Seq<(Seq<char>, Seq<char>)>) -> Seq<
    char,
> {
    base_url() + resource + "/?query="@ + join_spec(query_parts(params), "%20AND%20"@)
}

/// The name and value pairs held by a vector of constraints.
pub open spec fn params_of(v: Seq<(String, String)>) -> Seq<(Seq<char>, Seq<char>)> {
    bindings_of(v)
}

/// What the body of a search response for entities of kind `E` decodes to:
/// the server's error message where it carries one, and else one entry per
/// element of the list named `list_tag`, in document order.
pub open spec fn search_results_spec<E: SearchEntity>(xml: Seq<char>, entries: Seq<char>) -> Result<
    Seq<SearchEntryModel<<E as DeepView>::V>>,
    ErrorModel,
> {
    match response_error_spec(search_document(xml)) {
        Some(e) => Err(e),
        None => list_spec::<SearchEntry<E>>(search_document(xml), entries),
    }
}

/// Builds the address of a search from constraints.
pub fn build_search_url(resource: &str, params: &Vec<(String, String)>) -> (url: String)
    ensures
        url@ == search_url_spec(resource@, params_of(params@)),
{
    let mut parts: Vec<String> = Vec::new();
    let mut i: usize = 0;
    while i < params.len()
        invariant
            i <= params.len(),
            texts_of(parts@) == query_parts(params_of(params@)).subrange(0, i as int),
        decreases params.len() - i,
    {
        let value = escape_query(params[i].1.as_str());
        let mut part = params[i].0.clone();
        part.push(':');
        part.append(value.as_str());
        let ghost before = texts_of(parts@);
        parts.push(part);
        assert(texts_of(parts@) == before.push(part@));
        proof {
            let all = query_parts(params_of(params@));
            assert(params_of(params@)[i as int] == (params@[i as int].0@, params@[i as int].1@));
            assert(all[i as int] == part@);
            assert(all.subrange(0, i + 1) == all.subrange(0, i as int).push(all[i as int]));
        }
        i += 1;
    }
    assert(texts_of(parts@) == query_parts(params_of(params@)));
    let query = join(&parts, "%20AND%20");
    let mut url = String::from_str("https://musicbrainz.org/ws/2/");
    url.append(resource);
    url.append("/?query=");
    url.append(query.as_str());
    url
}

/// Decodes the body of a search response.
pub fn parse_search_results<E: SearchEntity>(xml: &str, entries: &str) -> (r: SearchResult<E>)
    ensures
        crate::xml::agrees(r, search_results_spec::<E>(xml@, entries@)),
        r matches Err(e) ==> e@.kind == failure_kind(search_document(xml@)),
{
    let mut context = crate::client::musicbrainz_context();
    context.push((String::from_str("ext"), String::from_str("http://musicbrainz.org/ns/ext#-2.0")));
    assert(bindings_of(context@) == search_context_spec());
    let doc = Document::new(String::from_str(xml), context);
    check_response_error(&doc)?;
    list::<SearchEntry<E>>(&doc, entries)
}

/// The pure ends of a search: the address it is sent to and the decoding of
/// what comes back. Sending is left to the embedding program.
pub trait SearchBuilder {
    /// The entity contained in the search result.
    type Entity: SearchEntity;

    /// The full entity a search entity can be expanded into.
    type FullEntity: Resource;

    /// The constraints added so far, as pairs of field name and value, in
    /// the order in which they were added.
    spec fn params_spec(&self) -> Seq<(Seq<char>, Seq<char>)>;

    /// The elements of a response that are the entries of the result.
    spec fn entries_spec() -> Seq<char>;

    /// Builds the full url to be used to perform the search request: the
    /// address of [`search_url_spec`], checked by the URL parser.
    fn build_url(&self) -> (r: Result<String, Error>)
        ensures
            match checked_url_spec(
                search_url_spec(Self::FullEntity::name_spec(), self.params_spec()),
            ) {
                Ok(url) => r is Ok && r->Ok_0@ == url,
                Err(e) => r is Err && r->Err_0@ == e,
            },
    ;

    /// Parse the search result. A body that carries a message of the server
    /// is a server error; any other body that does not decode is a parse
    /// failure of the response.
    fn parse_xml(xml: &str) -> (r: SearchResult<Self::Entity>)
        ensures
            crate::xml::agrees(
                r,
                search_results_spec::<Self::Entity>(xml@, Self::entries_spec()),
            ),
            r matches Err(e) ==> e@.kind == failure_kind(search_document(xml@)),
    ;
}

/// A search for release groups in the making.
pub struct ReleaseGroupSearchBuilder {
    params: Vec<(String, String)>,
}

impl ReleaseGroupSearchBuilder {
    /// A search without constraints.
    pub fn new() -> (builder: Self)
        ensures
            builder.params_spec() == Seq::<(Seq<char>, Seq<char>)>::empty(),
    {
        let builder = ReleaseGroupSearchBuilder { params: Vec::new() };
        assert(builder.params_spec() == Seq::<(Seq<char>, Seq<char>)>::empty());
        builder
    }

    /// Specify an additional parameter for the query.
    ///
    /// All parameters are combined using `AND`.
    pub fn add<F: ReleaseGroupSearchField>(self, field: F) -> (builder: Self)
        ensures
            builder.params_spec() == self.params_spec().push((F::name_spec(), field.value_spec())),
    {
        let mut params = self.params;
        let ghost before = params_of(params@);
        let name = String::from_str(F::name());
        let value = field.value();
        params.push((name, value));
        assert(params_of(params@) == before.push((F::name_spec(), field.value_spec())));
        ReleaseGroupSearchBuilder { params }
    }
}

impl SearchBuilder for ReleaseGroupSearchBuilder {
    type Entity = search_entities::ReleaseGroup;

    type FullEntity = crate::entities::ReleaseGroup;

    closed spec fn params_spec(&self) -> Seq<(Seq<char>, Seq<char>)> {
        params_of(self.params@)
    }

    open spec fn entries_spec() -> Seq<char> {
        "//mb:metadata/mb:release-group-list/mb:release-group"@
    }

    fn build_url(&self) -> (r: Result<String, Error>) {
        let url = build_search_url(
            <crate::entities::ReleaseGroup as Resource>::name(),
            &self.params,
        );
        checked_url(url.as_str())
    }

    fn parse_xml(xml: &str) -> (r: SearchResult<search_entities::ReleaseGroup>) {
        parse_search_results::<search_entities::ReleaseGroup>(
            xml,
            "//mb:metadata/mb:release-group-list/mb:release-group",
        )
    }
}

} // verus!
