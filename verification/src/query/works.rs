//! The `/works` route: queries, the paging through their results, and the
//! works of another component's item.

use vstd::prelude::*;
use vstd::string::StringExecFns;
use crate::encode::{params_view, query_string, query_text};
use crate::error::{Error, Result};
use crate::query::elements::{element_text, WorkElement};
use crate::query::fields::{field_query_param, FieldQuery};
use crate::query::filters::WorksFilter;
use crate::query::{
    component_route, filter_param, list_filter_params, terms_params, order_text, prefixed, result_control_params,
    item_route, route_matches, sort_text, Component, CrossrefQueryParam, CrossrefRoute, Order, Param,
    ResultControl, RouteSpec, Sort,
};
use crate::text::{decimal, join_with, joined, owned, push_char, strings_view, usize_text};
use crate::words::format_queries;

verus! {

/// limits from where and how many `Work` items should be returned
#[derive(Debug, Clone)]
pub enum WorkResultControl {
    /// use the standard ResultControl available for all components
    Standard(ResultControl),
    /// If you are expecting results beyond 10K, then use a cursor to deep page through the results
    Cursor {
        /// the cursor token provided by crossref when initially set to a value of `*`
        token: Option<String>,
        /// limit the results
        rows: Option<usize>,
    },
}

/// The pairs a result control of `/works` renders to: a cursor is sent as
/// its token, or `*` to start one, followed by the row limit if there is one.
pub open spec fn work_result_control_params(rc: WorkResultControl) -> Seq<(Seq<char>, Seq<char>)> {
    match rc {
        WorkResultControl::Standard(standard) => result_control_params(standard),
        WorkResultControl::Cursor { token, rows } => {
            let first = seq![
                ("cursor"@, match token {
                    Some(t) => t@,
                    None => "*"@,
                }),
            ];
            match rows {
                Some(n) => first.push(("rows"@, decimal(n as nat))),
                None => first,
            }
        },
    }
}

impl WorkResultControl {
    /// set a cursor with `*` value, a new cursor will be provided in the `next-cursor` field of the result
    pub fn new_cursor() -> (r: Self)
        ensures
            r == (WorkResultControl::Cursor { token: None, rows: None }),
    {
        WorkResultControl::Cursor { token: None, rows: None }
    }

    /// create a new Cursor with only a token value
    pub fn cursor(token: &str) -> (r: Self)
        ensures
            r matches WorkResultControl::Cursor { token: Some(t), rows: None } && t@ == token@,
    {
        WorkResultControl::Cursor { token: Some(owned(token)), rows: None }
    }
}

impl Default for WorkResultControl {
    fn default() -> (r: Self)
        ensures
            r == (WorkResultControl::Cursor { token: None, rows: None }),
    {
        WorkResultControl::new_cursor()
    }
}

impl CrossrefQueryParam for WorkResultControl {
    open spec fn params_spec(&self) -> Seq<(Seq<char>, Seq<char>)> {
        work_result_control_params(*self)
    }

    fn params(&self) -> (r: Vec<Param>) {
        match self {
            WorkResultControl::Standard(standard) => {
                let v = standard.params();
                assert(params_view(v@) == result_control_params(*standard));
                v
            },
            WorkResultControl::Cursor { token, rows } => {
                let mut v: Vec<Param> = Vec::new();
                let t = match token {
                    Some(t) => t.clone(),
                    None => owned("*"),
                };
                v.push((owned("cursor"), t));
                match rows {
                    Some(n) => {
                        v.push((owned("rows"), usize_text(*n)));
                    },
                    None => {},
                }
                assert(params_view(v@) =~= work_result_control_params(*self));
                v
            },
        }
    }
}

/// Used to construct a query that targets crossref `Works` elements
///
/// Each query parameter is ANDed
#[derive(Debug, Clone)]
pub struct WorksQuery {
    /// search by non specific query
    pub free_form_queries: Vec<String>,
    /// match only particular fields of metadata
    pub field_queries: Vec<FieldQuery>,
    /// filter to apply while querying
    pub filter: Vec<WorksFilter>,
    /// sort results by a certain field and
    pub sort: Option<Sort>,
    /// set the sort order to `asc` or `desc`
    pub order: Option<Order>,
    /// elements to return
    pub elements: Vec<WorkElement>,
    /// deep page through `/works` result sets
    pub result_control: Option<WorkResultControl>,
    /// request random dois
    /// if set all other parameters are ignored
    pub sample: Option<usize>,
}

/// Whether `q` asks for nothing in particular: no terms, no field queries, no
/// filters, no sort, order, selection, paging or sample.
pub open spec fn blank_works_query(q: WorksQuery) -> bool {
    &&& q.free_form_queries@.len() == 0
    &&& blank_but_terms(q)
}

/// Whether `q` asks for nothing beyond its free form terms.
pub open spec fn blank_but_terms(q: WorksQuery) -> bool {
    &&& q.field_queries@.len() == 0
    &&& q.filter@.len() == 0
    &&& q.sort is None
    &&& q.order is None
    &&& q.elements@.len() == 0
    &&& q.result_control is None
    &&& q.sample is None
}

/// One `query.{field}` parameter per field query, in order.
pub open spec fn field_queries_params(fqs: Seq<FieldQuery>) -> Seq<(Seq<char>, Seq<char>)> {
    fqs.map_values(|q: FieldQuery| field_query_param(q))
}

/// The elements a selection sends: `DOI` first if it was not asked for, since
/// a work without it cannot be read, then the ones asked for.
pub open spec fn selected(elements: Seq<WorkElement>) -> Seq<WorkElement> {
    if elements.contains(WorkElement::DOI) {
        elements
    } else {
        seq![WorkElement::DOI] + elements
    }
}

/// The `select` parameter, if any element was asked for.
pub open spec fn select_params(elements: Seq<WorkElement>) -> Seq<(Seq<char>, Seq<char>)> {
    if elements.len() == 0 {
        Seq::empty()
    } else {
        seq![("select"@, joined(selected(elements).map_values(|e: WorkElement| element_text(e)), ','))]
    }
}

/// The `sort` parameter, if a sort is set.
pub open spec fn sort_params(sort: Option<Sort>) -> Seq<(Seq<char>, Seq<char>)> {
    match sort {
        Some(s) => seq![("sort"@, sort_text(s))],
        None => Seq::empty(),
    }
}

/// The `order` parameter, if an order is set.
pub open spec fn order_params(order: Option<Order>) -> Seq<(Seq<char>, Seq<char>)> {
    match order {
        Some(o) => seq![("order"@, order_text(o))],
        None => Seq::empty(),
    }
}

/// The paging parameters, if paging is set.
pub open spec fn paging_params(rc: Option<WorkResultControl>) -> Seq<(Seq<char>, Seq<char>)> {
    match rc {
        Some(rc) => work_result_control_params(rc),
        None => Seq::empty(),
    }
}

/// What a `/works` query renders to.
///
/// A sample asks for random works and crossref ignores everything else when
/// it is set, so it is sent alone. Otherwise the parameters follow in a fixed
/// order: terms, field queries, filters, selection, sort, order and paging.
pub open spec fn works_query_route(q: WorksQuery) -> RouteSpec {
    match q.sample {
        Some(n) => Ok(
            component_route(Component::Works) + query_text(seq![("sample"@, decimal(n as nat))]),
        ),
        None => match list_filter_params(q.filter@) {
            Ok(fp) => Ok(
                component_route(Component::Works) + query_text(
                    terms_params(q.free_form_queries@) + field_queries_params(q.field_queries@) + fp
                        + select_params(q.elements@) + sort_params(q.sort) + order_params(q.order)
                        + paging_params(q.result_control),
                ),
            ),
            Err(bad) => Err(bad),
        },
    }
}

/// Appends `more` to `params`.
fn append_params(params: &mut Vec<Param>, more: Vec<Param>)
    ensures
        params_view(final(params)@) == params_view(old(params)@) + params_view(more@),
{
    let ghost before = params@;
    let mut more = more;
    let ghost added = more@;
    params.append(&mut more);
    assert(params_view(params@) =~= params_view(before) + params_view(added));
}

/// The names of the elements a selection sends, in order.
fn selected_names(elements: &Vec<WorkElement>) -> (r: Vec<String>)
    ensures
        strings_view(r@) == selected(elements@).map_values(|e: WorkElement| element_text(e)),
{
    let mut has_doi = false;
    let mut i: usize = 0;
    while i < elements.len()
        invariant
            i <= elements@.len(),
            has_doi == elements@.subrange(0, i as int).contains(WorkElement::DOI),
        decreases elements@.len() - i,
    {
        let ghost p = elements@.subrange(0, i as int);
        let ghost q = elements@.subrange(0, i + 1);
        assert(q == p.push(elements@[i as int]));
        if elements[i] == WorkElement::DOI {
            has_doi = true;
            assert(q[i as int] == WorkElement::DOI);
        }
        proof {
            if q.contains(WorkElement::DOI) {
                let k = choose|k: int| 0 <= k < q.len() && q[k] == WorkElement::DOI;
                if k < i {
                    assert(p[k] == WorkElement::DOI);
                }
            }
            if p.contains(WorkElement::DOI) {
                let k = choose|k: int| 0 <= k < p.len() && p[k] == WorkElement::DOI;
                assert(q[k] == WorkElement::DOI);
            }
        }
        i = i + 1;
    }
    assert(elements@.subrange(0, elements@.len() as int) == elements@);
    let ghost sel = selected(elements@);
    let mut names: Vec<String> = Vec::new();
    if !has_doi {
        names.push(owned(WorkElement::DOI.name()));
    }
    let ghost start: int = if has_doi { 0 } else { 1 };
    let mut j: usize = 0;
    while j < elements.len()
        invariant
            j <= elements@.len(),
            start == (if has_doi { 0int } else { 1int }),
            sel == selected(elements@),
            has_doi == elements@.contains(WorkElement::DOI),
            strings_view(names@) == sel.subrange(0, start + j).map_values(
                |e: WorkElement| element_text(e),
            ),
        decreases elements@.len() - j,
    {
        let ghost before = names@;
        names.push(owned(elements[j].name()));
        assert(sel[start + j] == elements@[j as int]);
        assert(sel.subrange(0, start + j + 1) == sel.subrange(0, start + j).push(sel[start + j]));
        assert(strings_view(names@) == strings_view(before).push(names@.last()@));
        j = j + 1;
    }
    assert(sel.subrange(0, start + elements@.len()) == sel);
    names
}

impl CrossrefRoute for WorksQuery {
    open spec fn route_spec(&self) -> RouteSpec {
        works_query_route(*self)
    }

    fn route(&self) -> (r: Result<String>) {
        match self.sample {
            Some(n) => {
                let mut params: Vec<Param> = Vec::new();
                params.push((owned("sample"), usize_text(n)));
                let mut s = Component::Works.path();
                s.append(query_string(params.as_slice()).as_str());
                assert(params_view(params@) =~= seq![("sample"@, decimal(n as nat))]);
                return Ok(s);
            },
            None => {},
        }
        let mut params = head_params(self);
        let ghost terms = terms_params(self.free_form_queries@);
        let ghost fields = field_queries_params(self.field_queries@);
        let ghost fp: Seq<(Seq<char>, Seq<char>)> = Seq::empty();
        if self.filter.len() > 0 {
            match filter_param(self.filter.as_slice()) {
                Ok(p) => {
                    proof {
                        fp = seq![(p.0@, p.1@)];
                    }
                    params.push(p);
                },
                Err(e) => {
                    return Err(e);
                },
            }
        }
        assert(list_filter_params(self.filter@) == Ok::<
            Seq<(Seq<char>, Seq<char>)>,
            (Seq<char>, Seq<char>),
        >(fp));
        assert(params_view(params@) =~= terms + fields + fp);

        if self.elements.len() > 0 {
            let names = selected_names(&self.elements);
            params.push((owned("select"), join_with(names.as_slice(), ',')));
        }
        assert(params_view(params@) =~= terms + fields + fp + select_params(self.elements@));
        push_tail(&mut params, self);
        let mut s = Component::Works.path();
        s.append(query_string(params.as_slice()).as_str());
        Ok(s)
    }
}

/// The terms and field query parameters of `q`.
fn head_params(q: &WorksQuery) -> (r: Vec<Param>)
    ensures
        params_view(r@) == terms_params(q.free_form_queries@) + field_queries_params(q.field_queries@),
{
    let mut params: Vec<Param> = Vec::new();
    if q.free_form_queries.len() > 0 {
        params.push((owned("query"), format_queries(q.free_form_queries.as_slice())));
    }
    let ghost terms = terms_params(q.free_form_queries@);
    assert(params_view(params@) =~= terms);
    let mut i: usize = 0;
    while i < q.field_queries.len()
        invariant
            i <= q.field_queries@.len(),
            params_view(params@) == terms + field_queries_params(q.field_queries@.subrange(0, i as int)),
        decreases q.field_queries@.len() - i,
    {
        let ghost before = params@;
        let f = &q.field_queries[i];
        params.push((owned(f.name()), crate::words::format_query(f.value())));
        assert(q.field_queries@.subrange(0, i + 1) == q.field_queries@.subrange(0, i as int).push(
            q.field_queries@[i as int],
        ));
        assert(params_view(params@) == params_view(before).push(
            field_query_param(q.field_queries@[i as int]),
        ));
        i = i + 1;
    }
    assert(q.field_queries@.subrange(0, q.field_queries@.len() as int) == q.field_queries@);
    params
}

/// The sort, order and paging parameters of `q`, pushed onto `params`.
fn push_tail(params: &mut Vec<Param>, q: &WorksQuery)
    ensures
        params_view(final(params)@) == params_view(old(params)@) + sort_params(q.sort) + order_params(
            q.order,
        ) + paging_params(q.result_control),
{
        let ghost upto_select = params_view(params@);
        match q.sort {
            Some(s) => {
                params.push((owned("sort"), owned(s.as_str())));
            },
            None => {},
        }
        assert(params_view(params@) =~= upto_select + sort_params(q.sort));
        let ghost upto_sort = params_view(params@);
        match q.order {
            Some(o) => {
                params.push((owned("order"), owned(o.as_str())));
            },
            None => {},
        }
        assert(params_view(params@) =~= upto_sort + order_params(q.order));
        let ghost upto_order = params_view(params@);
        match &q.result_control {
            Some(rc) => {
                append_params(params, rc.params());
            },
            None => {},
        }
        assert(params_view(params@) =~= upto_order + paging_params(q.result_control));
}

/// The text of each string slice.
pub open spec fn strs_view(v: Seq<&str>) -> Seq<Seq<char>> {
    v.map_values(|s: &str| s@)
}

impl WorksQuery {
    /// alias for creating an empty default element
    pub fn empty() -> (r: Self)
        ensures
            blank_works_query(r),
    {
        WorksQuery {
            free_form_queries: Vec::new(),
            field_queries: Vec::new(),
            filter: Vec::new(),
            sort: None,
            order: None,
            elements: Vec::new(),
            result_control: None,
            sample: None,
        }
    }

    /// creates an new `WorksQuery` with the desired sample size that will result in
    /// a request for random dois
    pub fn random(len: usize) -> (r: Self)
        ensures
            blank_works_query(WorksQuery { sample: None, ..r }),
            r.sample == Some(len),
    {
        WorksQuery::empty().sample(Some(len))
    }

    /// Convenience method to create a new `WorksQuery` with a term directly
    pub fn new(query: &str) -> (r: Self)
        ensures
            blank_but_terms(r),
            strings_view(r.free_form_queries@) == seq![query@],
    {
        WorksQuery::empty().query(query)
    }

    /// Ask for `len` random works instead of a search, or for a search if
    /// given [`None`]. Crossref ignores every other parameter when it is set.
    pub fn sample(self, len: Option<usize>) -> (r: Self)
        ensures
            r == (WorksQuery { sample: len, ..self }),
    {
        WorksQuery { sample: len, ..self }
    }

    /// add a new free form query
    pub fn query(self, query: &str) -> (r: Self)
        ensures
            strings_view(r.free_form_queries@) == strings_view(self.free_form_queries@).push(query@),
            r == (WorksQuery { free_form_queries: r.free_form_queries, ..self }),
    {
        let mut q = self;
        let ghost before = q.free_form_queries@;
        q.free_form_queries.push(owned(query));
        assert(strings_view(q.free_form_queries@) =~= strings_view(before).push(query@));
        q
    }

    /// add a bunch of free form query terms
    pub fn queries(self, queries: &[&str]) -> (r: Self)
        ensures
            strings_view(r.free_form_queries@) == strings_view(self.free_form_queries@) + strs_view(
                queries@,
            ),
            r == (WorksQuery { free_form_queries: r.free_form_queries, ..self }),
    {
        let mut q = self;
        let ghost start = strings_view(q.free_form_queries@);
        let mut i: usize = 0;
        while i < queries.len()
            invariant
                i <= queries@.len(),
                strings_view(q.free_form_queries@) == start + strs_view(
                    queries@.subrange(0, i as int),
                ),
                q == (WorksQuery { free_form_queries: q.free_form_queries, ..self }),
            decreases queries@.len() - i,
        {
            let ghost before = q.free_form_queries@;
            q.free_form_queries.push(owned(queries[i]));
            assert(strings_view(q.free_form_queries@) =~= strings_view(before).push(queries@[i as int]@));
            assert(strs_view(queries@.subrange(0, i + 1)) =~= strs_view(queries@.subrange(0, i as int)).push(queries@[i as int]@));
            i = i + 1;
        }
        assert(queries@.subrange(0, queries@.len() as int) == queries@);
        q
    }

    /// add a new field query form query
    pub fn field_query(self, query: FieldQuery) -> (r: Self)
        ensures
            r.field_queries@ == self.field_queries@.push(query),
            r == (WorksQuery { field_queries: r.field_queries, ..self }),
    {
        let mut q = self;
        q.field_queries.push(query);
        q
    }

    /// Narrow the response to the given fields.
    ///
    /// Crossref returns only what is selected. `DOI` is sent whether or not it
    /// is among them: it is the one field a work cannot be read without.
    pub fn elements(self, element: Vec<WorkElement>) -> (r: Self)
        ensures
            r.elements@ == self.elements@ + element@,
            r == (WorksQuery { elements: r.elements, ..self }),
    {
        let mut q = self;
        let mut element = element;
        q.elements.append(&mut element);
        q
    }

    /// add a bunch of field queries
    pub fn field_queries(self, queries: Vec<FieldQuery>) -> (r: Self)
        ensures
            r.field_queries@ == self.field_queries@ + queries@,
            r == (WorksQuery { field_queries: r.field_queries, ..self }),
    {
        let mut q = self;
        let mut queries = queries;
        q.field_queries.append(&mut queries);
        q
    }

    /// add a new filter to the query
    pub fn filter(self, filter: WorksFilter) -> (r: Self)
        ensures
            r.filter@ == self.filter@.push(filter),
            r == (WorksQuery { filter: r.filter, ..self }),
    {
        let mut q = self;
        q.filter.push(filter);
        q
    }

    /// Sort the results by a field, or by relevance if given [`None`].
    pub fn sort(self, sort: Option<Sort>) -> (r: Self)
        ensures
            r == (WorksQuery { sort, ..self }),
    {
        WorksQuery { sort, ..self }
    }

    /// Order the results, or leave the order to crossref if given [`None`].
    pub fn order(self, order: Option<Order>) -> (r: Self)
        ensures
            r == (WorksQuery { order, ..self }),
    {
        WorksQuery { order, ..self }
    }

    /// set the cursor for result control deep paging
    ///
    /// A row limit set as [`ResultControl::Rows`] carries over to the cursor;
    /// any other paging is replaced.
    pub fn next_cursor(self, cursor: &str) -> (r: Self)
        ensures
            r.result_control matches Some(WorkResultControl::Cursor { token: Some(t), rows })
                && t@ == cursor@ && rows == match self.result_control {
                Some(WorkResultControl::Standard(ResultControl::Rows(n))) => Some(n),
                _ => None,
            },
            r == (WorksQuery { result_control: r.result_control, ..self }),
    {
        let rows = match &self.result_control {
            Some(WorkResultControl::Standard(ResultControl::Rows(n))) => Some(*n),
            _ => None,
        };
        WorksQuery {
            result_control: Some(WorkResultControl::Cursor { token: Some(owned(cursor)), rows }),
            ..self
        }
    }

    /// set an empty cursor
    pub fn new_cursor(self) -> (r: Self)
        ensures
            r == (WorksQuery {
                result_control: Some(WorkResultControl::Cursor { token: None, rows: None }),
                ..self
            }),
    {
        WorksQuery { result_control: Some(WorkResultControl::new_cursor()), ..self }
    }

    /// Limit the results.
    pub fn result_control(self, result_control: WorkResultControl) -> (r: Self)
        ensures
            r == (WorksQuery { result_control: Some(result_control), ..self }),
    {
        WorksQuery { result_control: Some(result_control), ..self }
    }

    /// Wrap the query in a combined query.
    pub fn into_combined<W: WorksCombiner>(self, id: &str) -> (r: W)
        ensures
            r.combined_ident() matches Some(i) && i.id@ == id@ && i.query == self,
    {
        W::ident_query(self.into_ident(id))
    }

    /// Bind the query to a specific id of a primary endpoint element
    pub fn into_ident(self, id: &str) -> (r: WorksIdentQuery)
        ensures
            r.id@ == id@,
            r.query == self,
    {
        WorksIdentQuery::new(id, self)
    }

    /// wrap this query in new `WorkListQuery` that targets the `/works` route of a primary component with an id.
    /// The query will evaluate to the same as [`WorksQuery::into_combined`]
    pub fn into_combined_query<W: WorksCombiner>(self, id: &str) -> (r: WorkListQuery)
        ensures
            r matches WorkListQuery::Combined { primary_component, ident } && primary_component
                == W::primary() && ident.id@ == id@ && ident.query == self,
    {
        W::work_list_query(self.into_ident(id))
    }
}

/// Retrieve a publication by DOI, the registration agency of a DOI, or works
/// by a query.
#[derive(Debug, Clone)]
pub enum Works {
    /// target a Work by a specific id
    Identifier(String),
    /// target Works by a query
    Query(WorksQuery),
    /// return the registration agency for a DOI
    Agency(String),
}

impl Works {
    /// create a new `Works::Identifier` by converting `doi` to a `String`
    pub fn doi(doi: &str) -> (r: Self)
        ensures
            r matches Works::Identifier(s) && s@ == doi@,
    {
        Works::Identifier(owned(doi))
    }

    /// create a new `Works::Agency` targeting the registration agency for the DOI
    pub fn agency_for_doi(doi: &str) -> (r: Self)
        ensures
            r matches Works::Agency(s) && s@ == doi@,
    {
        Works::Agency(owned(doi))
    }
}

impl CrossrefRoute for Works {
    open spec fn route_spec(&self) -> RouteSpec {
        match *self {
            Works::Identifier(s) => Ok(component_route(Component::Works) + seq!['/'] + s@),
            Works::Agency(s) => Ok(component_route(Component::Works) + seq!['/'] + s@ + "/agency"@),
            Works::Query(q) => works_query_route(q),
        }
    }

    fn route(&self) -> (r: Result<String>) {
        match self {
            Works::Identifier(s) => Ok(item_route(Component::Works, s.as_str())),
            Works::Agency(s) => {
                let mut r = item_route(Component::Works, s.as_str());
                r.append("/agency");
                Ok(r)
            },
            Works::Query(q) => q.route(),
        }
    }
}

/// helper struct to capture an id for a `Component` other than `/works` and an additional query for the `/works` route
#[derive(Debug, Clone)]
pub struct WorksIdentQuery {
    /// the id of an component item
    pub id: String,
    /// the query to filter the works results
    pub query: WorksQuery,
}

impl WorksIdentQuery {
    /// create a new Ident Query for the `id`
    pub fn new(id: &str, query: WorksQuery) -> (r: Self)
        ensures
            r.id@ == id@,
            r.query == query,
    {
        WorksIdentQuery { id: owned(id), query }
    }
}

/// The route of the works of item `ident.id` of `primary`:
/// `/{primary}/{id}/works?...`, where the query renders the `/works` part.
pub open spec fn combined_route_spec(primary: Component, ident: WorksIdentQuery) -> RouteSpec {
    prefixed(component_route(primary) + seq!['/'] + ident.id@, works_query_route(ident.query))
}

/// `/{primary}/{id}` followed by what the query renders to.
pub fn combined_route_of(primary: Component, ident: &WorksIdentQuery) -> (r: Result<String>)
    ensures
        route_matches(r, combined_route_spec(primary, *ident)),
{
    match ident.query.route() {
        Ok(tail) => {
            let mut s = item_route(primary, ident.id.as_str());
            s.append(tail.as_str());
            Ok(s)
        },
        Err(e) => Err(e),
    }
}

/// Trait to determine that the type can be used in a combined query
pub trait WorksCombiner: Sized {
    /// The primary component of this type.
    spec fn primary() -> Component;

    /// The works query this value targets the works of an item with, if it
    /// is one.
    spec fn combined_ident(&self) -> Option<WorksIdentQuery>;

    /// the primary component of this type
    fn primary_component() -> (r: Component)
        ensures
            r == Self::primary(),
    ;

    /// construct a new type
    fn ident_query(ident: WorksIdentQuery) -> (r: Self)
        ensures
            r.combined_ident() == Some(ident),
    ;

    /// the combined crossref route
    fn combined_route(ident: &WorksIdentQuery) -> (r: Result<String>)
        ensures
            route_matches(r, combined_route_spec(Self::primary(), *ident)),
    ;

    /// create a new combined `WorkListQuery` with the primary component
    fn work_list_query(ident: WorksIdentQuery) -> (r: WorkListQuery)
        ensures
            r == (WorkListQuery::Combined { primary_component: Self::primary(), ident }),
    {
        WorkListQuery::Combined { primary_component: Self::primary_component(), ident }
    }
}

/// Wraps queries that target `WorkList`, either directly or combined
#[derive(Debug, Clone)]
pub enum WorkListQuery {
    /// Target `Works` directly
    Works(WorksQuery),
    /// Target the corresponding `Works` of a specific `Component`
    Combined {
        /// the component whose item the works belong to
        primary_component: Component,
        /// the item and the query for its works
        ident: WorksIdentQuery,
    },
}

/// The `/works` query a work list query carries.
pub open spec fn work_list_inner(q: WorkListQuery) -> WorksQuery {
    match q {
        WorkListQuery::Works(query) => query,
        WorkListQuery::Combined { ident, .. } => ident.query,
    }
}

impl WorkListQuery {
    /// the underlying `WorksQuery`
    pub fn query(&self) -> (r: &WorksQuery)
        ensures
            *r == work_list_inner(*self),
    {
        match self {
            WorkListQuery::Works(query) => query,
            WorkListQuery::Combined { ident, .. } => &ident.query,
        }
    }

    /// mut reference to the underlying `WorksQuery`
    pub fn query_mut(&mut self) -> (r: &mut WorksQuery)
        ensures
            *r == work_list_inner(*old(self)),
            *final(self) == match *old(self) {
                WorkListQuery::Works(_) => WorkListQuery::Works(*final(r)),
                WorkListQuery::Combined { primary_component, ident } => WorkListQuery::Combined {
                    primary_component,
                    ident: WorksIdentQuery { query: *final(r), ..ident },
                },
            },
    {
        match self {
            WorkListQuery::Works(query) => query,
            WorkListQuery::Combined { ident, .. } => &mut ident.query,
        }
    }
}

impl From<WorksQuery> for WorkListQuery {
    fn from(val: WorksQuery) -> (r: Self) {
        WorkListQuery::Works(val)
    }
}

impl vstd::std_specs::convert::FromSpecImpl<WorksQuery> for WorkListQuery {
    open spec fn obeys_from_spec() -> bool {
        true
    }

    open spec fn from_spec(v: WorksQuery) -> WorkListQuery {
        WorkListQuery::Works(v)
    }
}

/// What a work list query renders to.
pub open spec fn work_list_route(q: WorkListQuery) -> RouteSpec {
    match q {
        WorkListQuery::Works(query) => works_query_route(query),
        WorkListQuery::Combined { primary_component, ident } => combined_route_spec(
            primary_component,
            ident,
        ),
    }
}

impl CrossrefRoute for WorkListQuery {
    open spec fn route_spec(&self) -> RouteSpec {
        work_list_route(*self)
    }

    fn route(&self) -> (r: Result<String>) {
        match self {
            WorkListQuery::Works(query) => query.route(),
            WorkListQuery::Combined { primary_component, ident } => combined_route_of(
                *primary_component,
                ident,
            ),
        }
    }
}

/// A selection always asks for `DOI`, whether or not it was among the
/// elements asked for, and asks for every element that was.
pub proof fn lemma_selection_asks_for_doi(elements: Seq<WorkElement>)
    ensures
        selected(elements).contains(WorkElement::DOI),
        forall|i: int| 0 <= i < elements.len() ==> selected(elements).contains(#[trigger] elements[i]),
{
    if !elements.contains(WorkElement::DOI) {
        let s = seq![WorkElement::DOI] + elements;
        assert(s[0] == WorkElement::DOI);
        assert forall|i: int| 0 <= i < elements.len() implies s.contains(#[trigger] elements[i]) by {
            assert(s[i + 1] == elements[i]);
        }
    } else {
        assert forall|i: int| 0 <= i < elements.len() implies elements.contains(#[trigger] elements[i]) by {
        }
    }
}

/// A sample asks for random works and nothing else: two queries asking for
/// the same sample render the same route, whatever else they set.
pub proof fn lemma_sample_overrides(a: WorksQuery, b: WorksQuery)
    requires
        a.sample is Some,
        a.sample == b.sample,
    ensures
        works_query_route(a) == works_query_route(b),
{
}

/// A query that asks for nothing in particular targets the bare `/works`
/// route.
pub proof fn lemma_empty_query_route(q: WorksQuery)
    requires
        blank_works_query(q),
    ensures
        works_query_route(q) == Ok::<Seq<char>, (Seq<char>, Seq<char>)>(
            component_route(Component::Works),
        ),
{
    let none: Seq<(Seq<char>, Seq<char>)> = Seq::empty();
    assert(terms_params(q.free_form_queries@) == none);
    assert(field_queries_params(q.field_queries@) =~= none);
    assert(none + none + none + none + none + none + none =~= none);
    assert(component_route(Component::Works) + query_text(none) =~= component_route(Component::Works));
}

/// Whether some filter carries a value with a `,` in it.
pub open spec fn some_value_has_comma(filters: Seq<WorksFilter>) -> bool {
    exists|i: int| 0 <= i < filters.len() && crate::query::filters::works_filter_value(#[trigger] filters[i]).contains(',')
}

proof fn lemma_unsendable_iff_comma(filters: Seq<WorksFilter>)
    ensures
        crate::query::unsendable(filters) is Some <==> some_value_has_comma(filters),
    decreases filters.len(),
{
    if filters.len() > 0 {
        let front = filters.drop_last();
        lemma_unsendable_iff_comma(front);
        if some_value_has_comma(front) {
            let i = choose|i: int| 0 <= i < front.len() && crate::query::filters::works_filter_value(#[trigger] front[i]).contains(',');
            assert(filters[i] == front[i]);
        }
        if some_value_has_comma(filters) {
            let i = choose|i: int| 0 <= i < filters.len() && crate::query::filters::works_filter_value(#[trigger] filters[i]).contains(',');
            if i < front.len() {
                assert(front[i] == filters[i]);
            }
        }
    }
}

/// A filter value with a `,` in it cannot be sent -- crossref splits the
/// `filter` parameter on it after decoding -- so a query carrying one renders
/// to that refusal, unless it asks for a sample, which sends no filters; and
/// a query carrying none always renders.
pub proof fn lemma_comma_refused(q: WorksQuery)
    ensures
        works_query_route(q) is Err <==> (q.sample is None && some_value_has_comma(q.filter@)),
{
    lemma_unsendable_iff_comma(q.filter@);
}

} // verus!
