//! The `/licenses` route.

use vstd::prelude::*;
use crate::error::Result;
use crate::query::works::strs_view;
use crate::query::{
    component_route, component_then, prefixed, Component, CrossrefRoute, ResultControl,
    RouteSpec,
};
use crate::text::{owned, strings_view};
use crate::query::{terms_query_string, terms_query_text};

verus! {

/// Used to construct a query that targets the licenses crossref works are
/// published under
///
/// Like `/journals`, this route takes free form query terms and paging and
/// nothing else.
#[derive(Debug, Clone)]
pub struct LicensesQuery {
    /// search by non specific query
    pub queries: Vec<String>,
    /// limit the returned items and set an offset
    pub result_control: Option<ResultControl>,
}

impl LicensesQuery {
    /// alias for creating an empty default element
    pub fn empty() -> (r: Self)
        ensures
            r.queries@.len() == 0,
            r.result_control is None,
    {
        LicensesQuery { queries: Vec::new(), result_control: None }
    }

    /// Convenience method to create a new query with a term directly
    pub fn new(query: &str) -> (r: Self)
        ensures
            strings_view(r.queries@) == seq![query@],
            r.result_control is None,
    {
        LicensesQuery::empty().query(query)
    }

    /// add a new free form query
    pub fn query(self, query: &str) -> (r: Self)
        ensures
            strings_view(r.queries@) == strings_view(self.queries@).push(query@),
            r == (LicensesQuery { queries: r.queries, ..self }),
    {
        let mut q = self;
        let ghost before = q.queries@;
        q.queries.push(owned(query));
        assert(strings_view(q.queries@) =~= strings_view(before).push(query@));
        q
    }

    /// add a bunch of free form query terms
    pub fn queries(self, queries: &[&str]) -> (r: Self)
        ensures
            strings_view(r.queries@) == strings_view(self.queries@) + strs_view(queries@),
            r == (LicensesQuery { queries: r.queries, ..self }),
    {
        let mut q = self;
        let ghost start = strings_view(q.queries@);
        let mut i: usize = 0;
        while i < queries.len()
            invariant
                i <= queries@.len(),
                strings_view(q.queries@) == start + strs_view(queries@.subrange(0, i as int)),
                q == (LicensesQuery { queries: q.queries, ..self }),
            decreases queries@.len() - i,
        {
            let ghost before = q.queries@;
            q.queries.push(owned(queries[i]));
            assert(strings_view(q.queries@) =~= strings_view(before).push(queries@[i as int]@));
            assert(strs_view(queries@.subrange(0, i + 1)) =~= strs_view(
                queries@.subrange(0, i as int),
            ).push(queries@[i as int]@));
            i = i + 1;
        }
        assert(queries@.subrange(0, queries@.len() as int) == queries@);
        q
    }

    /// Limit the results.
    pub fn result_control(self, result_control: ResultControl) -> (r: Self)
        ensures
            r == (LicensesQuery { result_control: Some(result_control), ..self }),
    {
        LicensesQuery { result_control: Some(result_control), ..self }
    }
}

impl CrossrefRoute for LicensesQuery {
    open spec fn route_spec(&self) -> RouteSpec {
        Ok(terms_query_text(self.queries@, self.result_control))
    }

    fn route(&self) -> (r: Result<String>) {
        Ok(terms_query_string(self.queries.as_slice(), &self.result_control))
    }
}

/// constructs the request payload for the `/licenses` route
///
/// The route lists license urls with the number of works published under each,
/// and has no per-license or combined `works` sub-route, so a query is the only
/// way to address it.
#[derive(Debug, Clone)]
pub enum Licenses {
    /// target all licenses that match the query at `/licenses?query...`
    Query(LicensesQuery),
}

impl CrossrefRoute for Licenses {
    open spec fn route_spec(&self) -> RouteSpec {
        match *self {
            Licenses::Query(q) => prefixed(component_route(Component::Licenses), q.route_spec()),
        }
    }

    fn route(&self) -> (r: Result<String>) {
        match self {
            Licenses::Query(query) => component_then(
                Component::Licenses,
                query.route(),
                Ghost(query.route_spec()),
            ),
        }
    }
}

} // verus!
