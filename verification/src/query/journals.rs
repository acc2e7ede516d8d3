//! The `/journals` route.

use vstd::prelude::*;
use crate::error::Result;
use crate::query::works::{combined_route_of, combined_route_spec, strs_view, WorksCombiner, WorksIdentQuery};
use crate::query::{
    component_route, component_then, item_route, prefixed, Component, CrossrefRoute, ResultControl,
    RouteSpec,
};
use crate::text::{owned, strings_view};
use crate::query::{terms_query_string, terms_query_text};

verus! {

/// Used to construct a query that targets crossref `Journal` elements
///
/// `/journals` is the narrowest of the list routes: it takes free form query
/// terms and paging, and rejects `filter`, `sort`, `order`, `facet`, `select`
/// and `sample` with a `400`. The query type mirrors that rather than offering
/// options the route cannot honour.
#[derive(Debug, Clone)]
pub struct JournalsQuery {
    /// search by non specific query
    pub queries: Vec<String>,
    /// limit the returned items and set an offset
    pub result_control: Option<ResultControl>,
}

impl JournalsQuery {
    /// alias for creating an empty default element
    pub fn empty() -> (r: Self)
        ensures
            r.queries@.len() == 0,
            r.result_control is None,
    {
        JournalsQuery { queries: Vec::new(), result_control: None }
    }

    /// Convenience method to create a new query with a term directly
    pub fn new(query: &str) -> (r: Self)
        ensures
            strings_view(r.queries@) == seq![query@],
            r.result_control is None,
    {
        JournalsQuery::empty().query(query)
    }

    /// add a new free form query
    pub fn query(self, query: &str) -> (r: Self)
        ensures
            strings_view(r.queries@) == strings_view(self.queries@).push(query@),
            r == (JournalsQuery { queries: r.queries, ..self }),
    {
        let mut q = self;
        let ghost before = q.queries@;
        q.queries.push(owned(query));
        assert(strings_view(q.queries@) =~= strings_view(before).push(query@));
        q
    }

    /// add a bunch of free form query terms
    pub fn queries(self, queries: &[&str]) -> (r: Self)
        ensures
            strings_view(r.queries@) == strings_view(self.queries@) + strs_view(queries@),
            r == (JournalsQuery { queries: r.queries, ..self }),
    {
        let mut q = self;
        let ghost start = strings_view(q.queries@);
        let mut i: usize = 0;
        while i < queries.len()
            invariant
                i <= queries@.len(),
                strings_view(q.queries@) == start + strs_view(queries@.subrange(0, i as int)),
                q == (JournalsQuery { queries: q.queries, ..self }),
            decreases queries@.len() - i,
        {
            let ghost before = q.queries@;
            q.queries.push(owned(queries[i]));
            assert(strings_view(q.queries@) =~= strings_view(before).push(queries@[i as int]@));
            assert(strs_view(queries@.subrange(0, i + 1)) =~= strs_view(
                queries@.subrange(0, i as int),
            ).push(queries@[i as int]@));
            i = i + 1;
        }
        assert(queries@.subrange(0, queries@.len() as int) == queries@);
        q
    }

    /// Limit the results.
    pub fn result_control(self, result_control: ResultControl) -> (r: Self)
        ensures
            r == (JournalsQuery { result_control: Some(result_control), ..self }),
    {
        JournalsQuery { result_control: Some(result_control), ..self }
    }
}

impl CrossrefRoute for JournalsQuery {
    open spec fn route_spec(&self) -> RouteSpec {
        Ok(terms_query_text(self.queries@, self.result_control))
    }

    fn route(&self) -> (r: Result<String>) {
        Ok(terms_query_string(self.queries.as_slice(), &self.result_control))
    }
}

/// constructs the request payload for the `/journals` route
#[derive(Debug, Clone)]
pub enum Journals {
    /// target a specific journal at `/journals/{id}`
    Identifier(String),
    /// target a `Work` for a specific journal at `/journals/{id}/works?query..`
    Works(WorksIdentQuery),
    /// target all journals that match the query at `/journals?query...`
    Query(JournalsQuery),
}

impl CrossrefRoute for Journals {
    open spec fn route_spec(&self) -> RouteSpec {
        match *self {
            Journals::Identifier(s) => Ok(component_route(Component::Journals) + seq!['/'] + s@),
            Journals::Works(ident) => combined_route_spec(Component::Journals, ident),
            Journals::Query(q) => prefixed(component_route(Component::Journals), q.route_spec()),
        }
    }

    fn route(&self) -> (r: Result<String>) {
        match self {
            Journals::Identifier(s) => Ok(item_route(Component::Journals, s.as_str())),
            Journals::Works(combined) => Self::combined_route(combined),
            Journals::Query(query) => component_then(
                Component::Journals,
                query.route(),
                Ghost(query.route_spec()),
            ),
        }
    }
}

impl WorksCombiner for Journals {
    open spec fn primary() -> Component {
        Component::Journals
    }

    open spec fn combined_ident(&self) -> Option<WorksIdentQuery> {
        match *self {
            Journals::Works(ident) => Some(ident),
            _ => None,
        }
    }

    fn primary_component() -> (r: Component) {
        Component::Journals
    }

    fn ident_query(ident: WorksIdentQuery) -> (r: Self) {
        Journals::Works(ident)
    }

    fn combined_route(ident: &WorksIdentQuery) -> (r: Result<String>) {
        combined_route_of(Component::Journals, ident)
    }
}

} // verus!
