//! The `/funders` route.

use vstd::prelude::*;
use crate::error::Result;
use crate::query::works::{combined_route_of, combined_route_spec, strs_view, WorksCombiner, WorksIdentQuery};
use crate::query::{
    component_route, component_then, item_route, prefixed, Component, CrossrefRoute, ResultControl,
    RouteSpec,
};
use crate::text::{owned, strings_view};
use crate::query::filters::FundersFilter;
use crate::query::{list_query_string, list_query_text};

verus! {

/// Used to construct a query that targets crossref `Funder` elements
///
/// The route takes terms, one filter and paging. It used to also offer
/// `sort`, `order` and `facet`, which crossref answers with a `400`.
#[derive(Debug, Clone)]
pub struct FundersQuery {
    /// search by non specific query
    pub queries: Vec<String>,
    /// filter to apply while querying
    pub filter: Vec<FundersFilter>,
    /// limit the returned items and set an offset
    pub result_control: Option<ResultControl>,
}

impl FundersQuery {
    /// alias for creating an empty default element
    pub fn empty() -> (r: Self)
        ensures
            r.queries@.len() == 0,
            r.filter@.len() == 0,
            r.result_control is None,
    {
        FundersQuery { queries: Vec::new(), filter: Vec::new(), result_control: None }
    }

    /// Convenience method to create a new query with a term directly
    pub fn new(query: &str) -> (r: Self)
        ensures
            strings_view(r.queries@) == seq![query@],
            r.filter@.len() == 0,
            r.result_control is None,
    {
        FundersQuery::empty().query(query)
    }

    /// add a new free form query
    pub fn query(self, query: &str) -> (r: Self)
        ensures
            strings_view(r.queries@) == strings_view(self.queries@).push(query@),
            r == (FundersQuery { queries: r.queries, ..self }),
    {
        let mut q = self;
        let ghost before = q.queries@;
        q.queries.push(owned(query));
        assert(strings_view(q.queries@) =~= strings_view(before).push(query@));
        q
    }

    /// add a bunch of free form query terms
    pub fn queries(self, queries: &[&str]) -> (r: Self)
        ensures
            strings_view(r.queries@) == strings_view(self.queries@) + strs_view(queries@),
            r == (FundersQuery { queries: r.queries, ..self }),
    {
        let mut q = self;
        let ghost start = strings_view(q.queries@);
        let mut i: usize = 0;
        while i < queries.len()
            invariant
                i <= queries@.len(),
                strings_view(q.queries@) == start + strs_view(queries@.subrange(0, i as int)),
                q == (FundersQuery { queries: q.queries, ..self }),
            decreases queries@.len() - i,
        {
            let ghost before = q.queries@;
            q.queries.push(owned(queries[i]));
            assert(strings_view(q.queries@) =~= strings_view(before).push(queries@[i as int]@));
            assert(strs_view(queries@.subrange(0, i + 1)) =~= strs_view(
                queries@.subrange(0, i as int),
            ).push(queries@[i as int]@));
            i = i + 1;
        }
        assert(queries@.subrange(0, queries@.len() as int) == queries@);
        q
    }

    /// add a new filter to the query
    pub fn filter(self, filter: FundersFilter) -> (r: Self)
        ensures
            r.filter@ == self.filter@.push(filter),
            r == (FundersQuery { filter: r.filter, ..self }),
    {
        let mut q = self;
        q.filter.push(filter);
        q
    }

    /// Limit the results.
    pub fn result_control(self, result_control: ResultControl) -> (r: Self)
        ensures
            r == (FundersQuery { result_control: Some(result_control), ..self }),
    {
        FundersQuery { result_control: Some(result_control), ..self }
    }
}

impl CrossrefRoute for FundersQuery {
    open spec fn route_spec(&self) -> RouteSpec {
        list_query_text(self.queries@, self.filter@, self.result_control)
    }

    fn route(&self) -> (r: Result<String>) {
        list_query_string(self.queries.as_slice(), self.filter.as_slice(), &self.result_control)
    }
}

/// constructs the request payload for the `/funders` route
#[derive(Debug, Clone)]
pub enum Funders {
    /// target a specific funder at `/funders/{id}`
    Identifier(String),
    /// target all funders that match the query at `/funders?query...`
    Query(FundersQuery),
    /// target a `Work` for a specific funder at `/funders/{id}/works?query..`
    Works(WorksIdentQuery),
}

impl CrossrefRoute for Funders {
    open spec fn route_spec(&self) -> RouteSpec {
        match *self {
            Funders::Identifier(s) => Ok(component_route(Component::Funders) + seq!['/'] + s@),
            Funders::Query(q) => prefixed(component_route(Component::Funders), q.route_spec()),
            Funders::Works(ident) => combined_route_spec(Component::Funders, ident),
        }
    }

    fn route(&self) -> (r: Result<String>) {
        match self {
            Funders::Identifier(s) => Ok(item_route(Component::Funders, s.as_str())),
            Funders::Query(query) => component_then(
                Component::Funders,
                query.route(),
                Ghost(query.route_spec()),
            ),
            Funders::Works(combined) => Self::combined_route(combined),
        }
    }
}

impl WorksCombiner for Funders {
    open spec fn primary() -> Component {
        Component::Funders
    }

    open spec fn combined_ident(&self) -> Option<WorksIdentQuery> {
        match *self {
            Funders::Works(ident) => Some(ident),
            _ => None,
        }
    }

    fn primary_component() -> (r: Component) {
        Component::Funders
    }

    fn ident_query(ident: WorksIdentQuery) -> (r: Self) {
        Funders::Works(ident)
    }

    fn combined_route(ident: &WorksIdentQuery) -> (r: Result<String>) {
        combined_route_of(Component::Funders, ident)
    }
}

} // verus!
