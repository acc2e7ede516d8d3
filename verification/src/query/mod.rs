//! The types a crossref query is built from, and the routes they render to.

use vstd::prelude::*;
use vstd::string::StringExecFns;
use crate::encode::{params_view, query_string, query_text};
use crate::error::{Error, Result};
pub mod types;
pub mod elements;
pub mod fields;
pub mod filters;
pub mod works;
pub mod funders;
pub mod members;
pub mod journals;
pub mod licenses;
pub mod prefixes;

use crate::words::{collapsed, format_queries};
use crate::text::{join_with, joined, option_text, owned, push_char, str_eq, strings_view, usize_text, decimal, contains_char};



pub use elements::WorkElement;
pub use fields::{FieldQuery, SearchField};
pub use filters::{FundersFilter, MembersFilter, WorksFilter};
pub use funders::{Funders, FundersQuery};
pub use journals::{Journals, JournalsQuery};
pub use licenses::{Licenses, LicensesQuery};
pub use members::{Members, MembersQuery};
pub use prefixes::Prefixes;
pub use types::{Type, Types};
pub use works::{WorkListQuery, WorkResultControl, Works, WorksCombiner, WorksIdentQuery, WorksQuery};

verus! {

/// What a route renders to: the path and query string, or the filter name
/// and value that cannot be sent.
pub type RouteSpec = core::result::Result<Seq<char>, (Seq<char>, Seq<char>)>;

/// Whether a rendered route agrees with what it should render to.
pub open spec fn route_matches(r: Result<String>, s: RouteSpec) -> bool {
    match r {
        Ok(t) => s matches Ok(u) && t@ == u,
        Err(Error::UnsendableFilterValue { filter, value }) => s matches Err(
            (f, v),
        ) && filter@ == f && value@ == v,
        Err(_) => false,
    }
}

/// `prefix` in front of a route that renders, the failure of one that does not.
pub open spec fn prefixed(prefix: Seq<char>, s: RouteSpec) -> RouteSpec {
    match s {
        Ok(u) => Ok(prefix + u),
        Err(e) => Err(e),
    }
}

/// A key and value of the query string.
pub type Param = (String, String);

/// a trait used to capture parameters for the query string of the crossref api
pub trait CrossrefQueryParam {
    /// The key/value pairs this element contributes to the query string.
    spec fn params_spec(&self) -> Seq<(Seq<char>, Seq<char>)>;

    /// The key/value pairs this element contributes to the query string.
    ///
    /// Most elements contribute exactly one pair, but a few span two --
    /// [`ResultControl::RowsOffset`] and a cursor with a row limit. Yielding
    /// pairs rather than a rendered `key=value` fragment is what lets the
    /// route builder percent-encode keys and values separately.
    fn params(&self) -> (r: Vec<Param>)
        ensures
            params_view(r@) == self.params_spec(),
    ;
}

/// represents elements that constructs parts of the crossref request url
pub trait CrossrefRoute {
    /// What the route renders to.
    spec fn route_spec(&self) -> RouteSpec;

    /// constructs the route for the crossref api
    fn route(&self) -> (r: Result<String>)
        ensures
            route_matches(r, self.route_spec()),
    ;
}

/// represents a key value pair inside a multi value query string parameter
pub trait ParamFragment {
    /// the name of the fragment
    spec fn key_spec(&self) -> Seq<char>;

    /// the value of the fragment, if any
    spec fn value_spec(&self) -> Option<Seq<char>>;

    /// the key, or name, of the fragment
    fn key(&self) -> (r: String)
        ensures
            r@ == self.key_spec(),
    ;

    /// the value of the fragment, if any
    fn value(&self) -> (r: Option<String>)
        ensures
            option_text(r) == self.value_spec(),
    ;

    /// key and value concatenated with `:`
    fn fragment(&self) -> (r: String)
        ensures
            r@ == fragment_text(self.key_spec(), self.value_spec()),
    {
        let mut out = self.key();
        match self.value() {
            Some(v) => {
                push_char(&mut out, ':');
                out.append(v.as_str());
            },
            None => {},
        }
        out
    }
}

/// A key on its own, or key and value concatenated with `:`.
pub open spec fn fragment_text(key: Seq<char>, value: Option<Seq<char>>) -> Seq<char> {
    match value {
        Some(v) => key + seq![':'] + v,
        None => key,
    }
}

/// Helper trait to mark filters in the query string
pub trait Filter: ParamFragment {}

/// The fragments of `filters`, in order.
pub open spec fn fragments<F: ParamFragment>(filters: Seq<F>) -> Seq<Seq<char>> {
    filters.map_values(|f: F| fragment_text(f.key_spec(), f.value_spec()))
}

/// The first filter whose value carries a `,`, which crossref would read as
/// the start of another filter: its name and its value.
pub open spec fn unsendable<F: ParamFragment>(filters: Seq<F>) -> Option<(Seq<char>, Seq<char>)>
    decreases filters.len(),
{
    if filters.len() == 0 {
        None
    } else {
        match unsendable(filters.drop_last()) {
            Some(found) => Some(found),
            None => match filters.last().value_spec() {
                Some(v) => if v.contains(',') {
                    Some((filters.last().key_spec(), v))
                } else {
                    None
                },
                None => None,
            },
        }
    }
}

proof fn lemma_unsendable_prefix<F: ParamFragment>(fs: Seq<F>, n: int)
    requires
        0 <= n <= fs.len(),
        unsendable(fs.subrange(0, n)) is Some,
    ensures
        unsendable(fs) == unsendable(fs.subrange(0, n)),
    decreases fs.len(),
{
    if n == fs.len() {
        assert(fs.subrange(0, n) == fs);
    } else {
        assert(fs.drop_last().subrange(0, n) == fs.subrange(0, n));
        lemma_unsendable_prefix(fs.drop_last(), n);
    }
}

/// The `filter` parameter of `filters`: every fragment joined with `,`, or the
/// first filter that cannot be sent.
pub open spec fn filter_param_spec<F: ParamFragment>(filters: Seq<F>) -> core::result::Result<
    (Seq<char>, Seq<char>),
    (Seq<char>, Seq<char>),
> {
    match unsendable(filters) {
        Some(bad) => Err(bad),
        None => Ok(("filter"@, joined(fragments(filters), ','))),
    }
}

/// Renders filters as the single `filter` parameter they share.
///
/// Fails with [`Error::UnsendableFilterValue`] on the first filter whose value
/// carries a `,`: crossref splits the parameter on it after decoding, so no
/// form of such a value can be sent.
pub fn filter_param<F: Filter>(filters: &[F]) -> (r: Result<Param>)
    ensures
        match (r, filter_param_spec(filters@)) {
            (Ok(p), Ok(q)) => p.0@ == q.0 && p.1@ == q.1,
            (Err(Error::UnsendableFilterValue { filter, value }), Err(bad)) => filter@ == bad.0
                && value@ == bad.1,
            _ => false,
        },
{
    let mut parts: Vec<String> = Vec::new();
    let mut i: usize = 0;
    while i < filters.len()
        invariant
            i <= filters@.len(),
            unsendable(filters@.subrange(0, i as int)) is None,
            strings_view(parts@) == fragments(filters@.subrange(0, i as int)),
        decreases filters@.len() - i,
    {
        let ghost prefix = filters@.subrange(0, i as int);
        let ghost next = filters@.subrange(0, i + 1);
        assert(next.drop_last() == prefix);
        assert(next.last() == filters@[i as int]);
        match filters[i].value() {
            Some(v) => {
                if contains_char(v.as_str(), ',') {
                    proof {
                        lemma_unsendable_prefix(filters@, i + 1);
                    }
                    return Err(Error::UnsendableFilterValue { filter: filters[i].key(), value: v });
                }
            },
            None => {},
        }
        let ghost before = parts@;
        parts.push(filters[i].fragment());
        assert(fragments(next) == fragments(prefix).push(
            fragment_text(filters@[i as int].key_spec(), filters@[i as int].value_spec()),
        ));
        assert(strings_view(parts@) == strings_view(before).push(parts@.last()@));
        assert(strings_view(parts@) == fragments(next));
        i = i + 1;
    }
    assert(filters@.subrange(0, filters@.len() as int) == filters@);
    Ok((owned("filter"), join_with(parts.as_slice(), ',')))
}

/// represents the visibility of an crossref item
#[derive(Debug, PartialEq, Eq, Clone, Copy, Structural)]
pub enum Visibility {
    /// visible to everyone
    Open,
    /// visible to some
    Limited,
    /// visible to nobody
    Closed,
}

/// The name of a visibility.
pub open spec fn visibility_text(v: Visibility) -> Seq<char> {
    match v {
        Visibility::Open => "open"@,
        Visibility::Limited => "limited"@,
        Visibility::Closed => "closed"@,
    }
}

impl Visibility {
    /// str identifier
    pub fn as_str(&self) -> (r: &'static str)
        ensures
            r@ == visibility_text(*self),
    {
        match self {
            Visibility::Open => "open",
            Visibility::Limited => "limited",
            Visibility::Closed => "closed",
        }
    }
}

/// Determines how results should be sorted
#[derive(Debug, PartialEq, Eq, Clone, Copy, Structural)]
pub enum Order {
    /// list results in ascending order
    Asc,
    /// list results in descending order
    Desc,
}

/// The name crossref knows an order by.
pub open spec fn order_text(o: Order) -> Seq<char> {
    match o {
        Order::Asc => "asc"@,
        Order::Desc => "desc"@,
    }
}

/// The order named `s`, if any.
pub open spec fn order_named(s: Seq<char>) -> Option<Order> {
    if s == "asc"@ {
        Some(Order::Asc)
    } else if s == "desc"@ {
        Some(Order::Desc)
    } else {
        None
    }
}

impl Order {
    /// the key name for the order parameter
    pub fn as_str(&self) -> (r: &'static str)
        ensures
            r@ == order_text(*self),
    {
        match self {
            Order::Asc => "asc",
            Order::Desc => "desc",
        }
    }

    /// Reads an order back from its name.
    pub fn parse(s: &str) -> (r: core::result::Result<Order, String>)
        ensures
            match order_named(s@) {
                Some(o) => r == Ok::<Order, String>(o),
                None => r matches Err(m) && m@ == "Unable to convert "@ + s@ + " to Order"@,
            },
    {
        if str_eq(s, "asc") {
            Ok(Order::Asc)
        } else if str_eq(s, "desc") {
            Ok(Order::Desc)
        } else {
            let mut m = owned("Unable to convert ");
            m.append(s);
            m.append(" to Order");
            Err(m)
        }
    }
}

impl core::str::FromStr for Order {
    type Err = String;

    fn from_str(s: &str) -> (r: core::result::Result<Order, String>)
        ensures
            match order_named(s@) {
                Some(o) => r == Ok::<Order, String>(o),
                None => r matches Err(m) && m@ == "Unable to convert "@ + s@ + " to Order"@,
            },
    {
        Order::parse(s)
    }
}

impl CrossrefQueryParam for Order {
    open spec fn params_spec(&self) -> Seq<(Seq<char>, Seq<char>)> {
        seq![("order"@, order_text(*self))]
    }

    fn params(&self) -> (r: Vec<Param>) {
        let mut v: Vec<Param> = Vec::new();
        v.push((owned("order"), owned(self.as_str())));
        v
    }
}

/// Results from a list response can be sorted by applying the sort and order parameters.
#[derive(Debug, PartialEq, Eq, Clone, Copy, Structural)]
pub enum Sort {
    /// Sort by relevance score
    Score,
    /// Sort by date of most recent change to metadata. Currently the same as `Deposited`
    Updated,
    /// Sort by time of most recent deposit
    Deposited,
    /// Sort by time of most recent index
    Indexed,
    /// Sort by publication date
    Published,
    /// Sort by print publication date
    PublishedPrint,
    /// Sort by online publication date
    PublishedOnline,
    /// Sort by issued date (earliest known publication date)
    Issued,
    /// Sort by number of times this DOI is referenced by other Crossref DOIs
    IsReferencedByCount,
    /// Sort by number of references included in the references section of the document identified by this DOI
    ReferenceCount,
    /// Sort by date the record was created
    Created,
    /// Sort by relevance to the query terms
    Relevance,
}

/// The name crossref knows a sort field by.
pub open spec fn sort_text(s: Sort) -> Seq<char> {
    match s {
        Sort::Score => "score"@,
        Sort::Updated => "updated"@,
        Sort::Deposited => "deposited"@,
        Sort::Indexed => "indexed"@,
        Sort::Published => "published"@,
        Sort::PublishedPrint => "published-print"@,
        Sort::PublishedOnline => "published-online"@,
        Sort::Issued => "issued"@,
        Sort::IsReferencedByCount => "is-referenced-by-count"@,
        Sort::ReferenceCount => "references-count"@,
        Sort::Created => "created"@,
        Sort::Relevance => "relevance"@,
    }
}

/// The sort field named `s`, if any.
pub open spec fn sort_named(s: Seq<char>) -> Option<Sort> {
    if s == "score"@ {
        Some(Sort::Score)
    } else if s == "updated"@ {
        Some(Sort::Updated)
    } else if s == "deposited"@ {
        Some(Sort::Deposited)
    } else if s == "indexed"@ {
        Some(Sort::Indexed)
    } else if s == "published"@ {
        Some(Sort::Published)
    } else if s == "published-print"@ {
        Some(Sort::PublishedPrint)
    } else if s == "published-online"@ {
        Some(Sort::PublishedOnline)
    } else if s == "issued"@ {
        Some(Sort::Issued)
    } else if s == "is-referenced-by-count"@ {
        Some(Sort::IsReferencedByCount)
    } else if s == "references-count"@ {
        Some(Sort::ReferenceCount)
    } else if s == "created"@ {
        Some(Sort::Created)
    } else if s == "relevance"@ {
        Some(Sort::Relevance)
    } else {
        None
    }
}

impl Sort {
    /// the key name for the sort element
    pub fn as_str(&self) -> (r: &'static str)
        ensures
            r@ == sort_text(*self),
    {
        match self {
            Sort::Score => "score",
            Sort::Updated => "updated",
            Sort::Deposited => "deposited",
            Sort::Indexed => "indexed",
            Sort::Published => "published",
            Sort::PublishedPrint => "published-print",
            Sort::PublishedOnline => "published-online",
            Sort::Issued => "issued",
            Sort::IsReferencedByCount => "is-referenced-by-count",
            Sort::ReferenceCount => "references-count",
            Sort::Created => "created",
            Sort::Relevance => "relevance",
        }
    }

    /// Reads a sort field back from its name.
    pub fn parse(s: &str) -> (r: core::result::Result<Sort, String>)
        ensures
            match sort_named(s@) {
                Some(o) => r == Ok::<Sort, String>(o),
                None => r matches Err(m) && m@ == "Unable to convert "@ + s@ + " to Sort"@,
            },
    {
        if str_eq(s, "score") {
            Ok(Sort::Score)
        } else if str_eq(s, "updated") {
            Ok(Sort::Updated)
        } else if str_eq(s, "deposited") {
            Ok(Sort::Deposited)
        } else if str_eq(s, "indexed") {
            Ok(Sort::Indexed)
        } else if str_eq(s, "published") {
            Ok(Sort::Published)
        } else if str_eq(s, "published-print") {
            Ok(Sort::PublishedPrint)
        } else if str_eq(s, "published-online") {
            Ok(Sort::PublishedOnline)
        } else if str_eq(s, "issued") {
            Ok(Sort::Issued)
        } else if str_eq(s, "is-referenced-by-count") {
            Ok(Sort::IsReferencedByCount)
        } else if str_eq(s, "references-count") {
            Ok(Sort::ReferenceCount)
        } else if str_eq(s, "created") {
            Ok(Sort::Created)
        } else if str_eq(s, "relevance") {
            Ok(Sort::Relevance)
        } else {
            let mut m = owned("Unable to convert ");
            m.append(s);
            m.append(" to Sort");
            Err(m)
        }
    }
}

impl core::str::FromStr for Sort {
    type Err = String;

    fn from_str(s: &str) -> (r: core::result::Result<Sort, String>)
        ensures
            match sort_named(s@) {
                Some(o) => r == Ok::<Sort, String>(o),
                None => r matches Err(m) && m@ == "Unable to convert "@ + s@ + " to Sort"@,
            },
    {
        Sort::parse(s)
    }
}

impl CrossrefQueryParam for Sort {
    open spec fn params_spec(&self) -> Seq<(Seq<char>, Seq<char>)> {
        seq![("sort"@, sort_text(*self))]
    }

    fn params(&self) -> (r: Vec<Param>) {
        let mut v: Vec<Param> = Vec::new();
        v.push((owned("sort"), owned(self.as_str())));
        v
    }
}

/// tells crossref how many items shall be returned or where to start
#[derive(Debug, Clone, Copy, PartialEq, Eq, Structural)]
pub enum ResultControl {
    /// limits the returned items per page
    Rows(usize),
    /// sets an offset where crossref begins to retrieve items
    /// high offsets (~10k) result in long response times
    Offset(usize),
    /// combines rows and offset: limit returned items per page, starting at the offset
    RowsOffset {
        /// row limit
        rows: usize,
        /// where to start
        offset: usize,
    },
    /// return random results
    Sample(usize),
}

/// The pairs a result control renders to.
pub open spec fn result_control_params(rc: ResultControl) -> Seq<(Seq<char>, Seq<char>)> {
    match rc {
        ResultControl::Rows(rows) => seq![("rows"@, decimal(rows as nat))],
        ResultControl::Offset(offset) => seq![("offset"@, decimal(offset as nat))],
        ResultControl::RowsOffset { rows, offset } => seq![
            ("rows"@, decimal(rows as nat)),
            ("offset"@, decimal(offset as nat)),
        ],
        ResultControl::Sample(sample) => seq![("sample"@, decimal(sample as nat))],
    }
}

impl CrossrefQueryParam for ResultControl {
    open spec fn params_spec(&self) -> Seq<(Seq<char>, Seq<char>)> {
        result_control_params(*self)
    }

    fn params(&self) -> (r: Vec<Param>) {
        let mut v: Vec<Param> = Vec::new();
        match self {
            ResultControl::Rows(rows) => {
                v.push((owned("rows"), usize_text(*rows)));
            },
            ResultControl::Offset(offset) => {
                v.push((owned("offset"), usize_text(*offset)));
            },
            ResultControl::RowsOffset { rows, offset } => {
                v.push((owned("rows"), usize_text(*rows)));
                v.push((owned("offset"), usize_text(*offset)));
            },
            ResultControl::Sample(sample) => {
                v.push((owned("sample"), usize_text(*sample)));
            },
        }
        assert(params_view(v@) =~= result_control_params(*self));
        assert(self.params_spec() == result_control_params(*self));
        v
    }
}

/// Major resource components supported by the Crossref API
#[derive(Debug, Clone, Copy, PartialEq, Eq, Structural)]
pub enum Component {
    /// works: journal articles, conference proceedings, books, components, etc.
    Works,
    /// funders in the [Funder Registry](https://github.com/Crossref/open-funder-registry)
    Funders,
    /// the DOI prefixes crossref members own
    Prefixes,
    /// crossref members, mostly publishers
    Members,
    /// the work types crossref registers
    Types,
    /// journals in the Crossref database
    Journals,
    /// the licenses works in the crossref metadata are published under
    Licenses,
}

/// The path segment of a component.
pub open spec fn component_text(c: Component) -> Seq<char> {
    match c {
        Component::Works => "works"@,
        Component::Funders => "funders"@,
        Component::Prefixes => "prefixes"@,
        Component::Members => "members"@,
        Component::Types => "types"@,
        Component::Journals => "journals"@,
        Component::Licenses => "licenses"@,
    }
}

/// The route of a component on its own, e.g. `/works`.
pub open spec fn component_route(c: Component) -> Seq<char> {
    seq!['/'] + component_text(c)
}

impl Component {
    /// identifier for the component route
    pub fn as_str(&self) -> (r: &'static str)
        ensures
            r@ == component_text(*self),
    {
        match self {
            Component::Works => "works",
            Component::Funders => "funders",
            Component::Prefixes => "prefixes",
            Component::Members => "members",
            Component::Types => "types",
            Component::Journals => "journals",
            Component::Licenses => "licenses",
        }
    }

    /// `/` followed by the component's name.
    pub fn path(&self) -> (r: String)
        ensures
            r@ == component_route(*self),
    {
        let mut s = String::new();
        push_char(&mut s, '/');
        s.append(self.as_str());
        s
    }
}

impl CrossrefRoute for Component {
    open spec fn route_spec(&self) -> RouteSpec {
        Ok(component_route(*self))
    }

    fn route(&self) -> (r: Result<String>) {
        let path = self.path();
        assert(self.route_spec() == Ok::<Seq<char>, (Seq<char>, Seq<char>)>(path@));
        Ok(path)
    }
}

/// `/{component}/{id}`: the route of one item of a component.
pub fn item_route(component: Component, id: &str) -> (r: String)
    ensures
        r@ == component_route(component) + seq!['/'] + id@,
{
    let mut s = component.path();
    push_char(&mut s, '/');
    s.append(id);
    s
}

/// The route of a component followed by what `tail` renders to.
pub(crate) fn component_then(component: Component, tail: Result<String>, Ghost(s): Ghost<RouteSpec>) -> (r:
    Result<String>)
    requires
        route_matches(tail, s),
    ensures
        route_matches(r, prefixed(component_route(component), s)),
{
    match tail {
        Ok(t) => {
            let mut s = component.path();
            s.append(t.as_str());
            Ok(s)
        },
        Err(e) => Err(e),
    }
}

/// The `query` parameter: every term's words, joined by single spaces.
pub open spec fn terms_params(terms: Seq<String>) -> Seq<(Seq<char>, Seq<char>)> {
    if terms.len() == 0 {
        Seq::empty()
    } else {
        seq![("query"@, collapsed(joined(strings_view(terms), ' ')))]
    }
}

/// The `filter` parameter, if there are filters, or the first filter that
/// cannot be sent.
pub open spec fn list_filter_params<F: ParamFragment>(filters: Seq<F>) -> core::result::Result<
    Seq<(Seq<char>, Seq<char>)>,
    (Seq<char>, Seq<char>),
> {
    if filters.len() == 0 {
        Ok(Seq::empty())
    } else {
        match filter_param_spec(filters) {
            Ok(p) => Ok(seq![p]),
            Err(bad) => Err(bad),
        }
    }
}

/// The paging parameters, if paging is set.
pub open spec fn paging_of(rc: Option<ResultControl>) -> Seq<(Seq<char>, Seq<char>)> {
    match rc {
        Some(rc) => result_control_params(rc),
        None => Seq::empty(),
    }
}

/// What the query of a list route renders to: its terms, filters and paging,
/// or the first filter that cannot be sent.
pub open spec fn list_query_text<F: ParamFragment>(
    terms: Seq<String>,
    filters: Seq<F>,
    rc: Option<ResultControl>,
) -> RouteSpec {
    match list_filter_params(filters) {
        Ok(fp) => Ok(query_text(terms_params(terms) + fp + paging_of(rc))),
        Err(bad) => Err(bad),
    }
}

/// What the query of a list route that takes no filter renders to: its terms
/// and paging.
pub open spec fn terms_query_text(terms: Seq<String>, rc: Option<ResultControl>) -> Seq<char> {
    query_text(terms_params(terms) + paging_of(rc))
}

/// The `query` parameter of `terms`, if there are any, pushed onto `params`.
fn push_terms(params: &mut Vec<Param>, terms: &[String])
    ensures
        params_view(final(params)@) == params_view(old(params)@) + terms_params(terms@),
{
    let ghost before = params@;
    if terms.len() > 0 {
        params.push((owned("query"), format_queries(terms)));
    }
    assert(params_view(params@) =~= params_view(before) + terms_params(terms@));
}

/// The paging parameters of `rc`, if it is set, pushed onto `params`.
fn push_paging(params: &mut Vec<Param>, rc: &Option<ResultControl>)
    ensures
        params_view(final(params)@) == params_view(old(params)@) + paging_of(*rc),
{
    let ghost before = params@;
    match rc {
        Some(rc) => {
            let mut more = rc.params();
            let ghost added = more@;
            params.append(&mut more);
            assert(params_view(params@) =~= params_view(before) + params_view(added));
        },
        None => {},
    }
    assert(params_view(params@) =~= params_view(before) + paging_of(*rc));
}

/// Renders the query of a list route: its terms, filters and paging, each
/// percent-encoded, or the first filter that cannot be sent.
pub fn list_query_string<F: Filter>(
    terms: &[String],
    filters: &[F],
    rc: &Option<ResultControl>,
) -> (r: Result<String>)
    ensures
        route_matches(r, list_query_text(terms@, filters@, *rc)),
{
    let mut params: Vec<Param> = Vec::new();
    push_terms(&mut params, terms);
    let ghost t = params_view(params@);
    let ghost fp: Seq<(Seq<char>, Seq<char>)> = Seq::empty();
    if filters.len() > 0 {
        match filter_param(filters) {
            Ok(p) => {
                proof {
                    fp = seq![(p.0@, p.1@)];
                }
                params.push(p);
            },
            Err(e) => {
                return Err(e);
            },
        }
    }
    assert(params_view(params@) =~= t + fp);
    push_paging(&mut params, rc);
    Ok(query_string(params.as_slice()))
}

/// Renders the query of a list route that takes no filter: its terms and
/// paging, each percent-encoded.
pub fn terms_query_string(terms: &[String], rc: &Option<ResultControl>) -> (r: String)
    ensures
        r@ == terms_query_text(terms@, *rc),
{
    let mut params: Vec<Param> = Vec::new();
    push_terms(&mut params, terms);
    push_paging(&mut params, rc);
    query_string(params.as_slice())
}

/// bundles all available crossref api endpoints
#[derive(Debug, Clone)]
pub enum ResourceComponent {
    /// returns a list of all works (journal articles, conference proceedings, books, components, etc), 20 per page
    Works(Works),
    /// returns a list of all funders in the [Funder Registry](https://github.com/Crossref/open-funder-registry)
    Funders(Funders),
    /// returns a list of all Crossref members (mostly publishers)
    Prefixes(Prefixes),
    /// returns a list of valid work types
    Members(Members),
    /// return a list of licenses applied to works in Crossref metadata
    Types(Types),
    /// return a list of journals in the Crossref database
    Journals(Journals),
    /// return the licenses works in the crossref metadata are published under
    Licenses(Licenses),
}

/// The component a resource starts its route with.
pub open spec fn primary_of(r: ResourceComponent) -> Component {
    match r {
        ResourceComponent::Works(_) => Component::Works,
        ResourceComponent::Funders(_) => Component::Funders,
        ResourceComponent::Prefixes(_) => Component::Prefixes,
        ResourceComponent::Members(_) => Component::Members,
        ResourceComponent::Types(_) => Component::Types,
        ResourceComponent::Journals(_) => Component::Journals,
        ResourceComponent::Licenses(_) => Component::Licenses,
    }
}

impl ResourceComponent {
    /// the starting crossref component that in the route `/{primary_component}/{id}/works`
    pub fn primary_component(&self) -> (r: Component)
        ensures
            r == primary_of(*self),
    {
        match self {
            ResourceComponent::Works(_) => Component::Works,
            ResourceComponent::Funders(_) => Component::Funders,
            ResourceComponent::Prefixes(_) => Component::Prefixes,
            ResourceComponent::Members(_) => Component::Members,
            ResourceComponent::Types(_) => Component::Types,
            ResourceComponent::Journals(_) => Component::Journals,
            ResourceComponent::Licenses(_) => Component::Licenses,
        }
    }
}

/// The route of a resource that renders to one.
pub open spec fn resource_route(resource: ResourceComponent) -> Seq<char> {
    match resource.route_spec() {
        Ok(route) => route,
        Err(_) => Seq::empty(),
    }
}

impl CrossrefRoute for ResourceComponent {
    open spec fn route_spec(&self) -> RouteSpec {
        match *self {
            ResourceComponent::Works(c) => c.route_spec(),
            ResourceComponent::Funders(c) => c.route_spec(),
            ResourceComponent::Prefixes(c) => c.route_spec(),
            ResourceComponent::Members(c) => c.route_spec(),
            ResourceComponent::Types(c) => c.route_spec(),
            ResourceComponent::Journals(c) => c.route_spec(),
            ResourceComponent::Licenses(c) => c.route_spec(),
        }
    }

    fn route(&self) -> (r: Result<String>) {
        match self {
            ResourceComponent::Works(c) => c.route(),
            ResourceComponent::Funders(c) => c.route(),
            ResourceComponent::Prefixes(c) => c.route(),
            ResourceComponent::Members(c) => c.route(),
            ResourceComponent::Types(c) => c.route(),
            ResourceComponent::Journals(c) => c.route(),
            ResourceComponent::Licenses(c) => c.route(),
        }
    }
}

/// root level trait to construct full crossref api request urls
pub trait CrossrefQuery: CrossrefRoute + Sized {
    /// the resource component endpoint this route targets
    fn resource_component(self) -> (r: ResourceComponent);

    /// constructs the full request url by concating the `base_path` with the `route`
    fn to_url(&self, base_path: &str) -> (r: Result<String>)
        ensures
            route_matches(r, prefixed(base_path@, self.route_spec())),
    ;
}

/// `base_path` followed by the route of `query`.
pub fn url_of<Q: CrossrefRoute>(query: &Q, base_path: &str) -> (r: Result<String>)
    ensures
        route_matches(r, prefixed(base_path@, query.route_spec())),
{
    match query.route() {
        Ok(route) => {
            let mut s = owned(base_path);
            s.append(route.as_str());
            Ok(s)
        },
        Err(e) => Err(e),
    }
}

impl CrossrefQuery for ResourceComponent {
    fn resource_component(self) -> (r: ResourceComponent)
        ensures
            r == self,
    {
        self
    }

    fn to_url(&self, base_path: &str) -> (r: Result<String>) {
        url_of(self, base_path)
    }
}

impl CrossrefQuery for Works {
    fn resource_component(self) -> (r: ResourceComponent)
        ensures
            r == ResourceComponent::Works(self),
    {
        ResourceComponent::Works(self)
    }

    fn to_url(&self, base_path: &str) -> (r: Result<String>) {
        url_of(self, base_path)
    }
}

impl CrossrefQuery for Funders {
    fn resource_component(self) -> (r: ResourceComponent)
        ensures
            r == ResourceComponent::Funders(self),
    {
        ResourceComponent::Funders(self)
    }

    fn to_url(&self, base_path: &str) -> (r: Result<String>) {
        url_of(self, base_path)
    }
}

impl CrossrefQuery for Prefixes {
    fn resource_component(self) -> (r: ResourceComponent)
        ensures
            r == ResourceComponent::Prefixes(self),
    {
        ResourceComponent::Prefixes(self)
    }

    fn to_url(&self, base_path: &str) -> (r: Result<String>) {
        url_of(self, base_path)
    }
}

impl CrossrefQuery for Members {
    fn resource_component(self) -> (r: ResourceComponent)
        ensures
            r == ResourceComponent::Members(self),
    {
        ResourceComponent::Members(self)
    }

    fn to_url(&self, base_path: &str) -> (r: Result<String>) {
        url_of(self, base_path)
    }
}

impl CrossrefQuery for Types {
    fn resource_component(self) -> (r: ResourceComponent)
        ensures
            r == ResourceComponent::Types(self),
    {
        ResourceComponent::Types(self)
    }

    fn to_url(&self, base_path: &str) -> (r: Result<String>) {
        url_of(self, base_path)
    }
}

impl CrossrefQuery for Journals {
    fn resource_component(self) -> (r: ResourceComponent)
        ensures
            r == ResourceComponent::Journals(self),
    {
        ResourceComponent::Journals(self)
    }

    fn to_url(&self, base_path: &str) -> (r: Result<String>) {
        url_of(self, base_path)
    }
}

impl CrossrefQuery for Licenses {
    fn resource_component(self) -> (r: ResourceComponent)
        ensures
            r == ResourceComponent::Licenses(self),
    {
        ResourceComponent::Licenses(self)
    }

    fn to_url(&self, base_path: &str) -> (r: Result<String>) {
        url_of(self, base_path)
    }
}

/// The resource a work list query asks for: the works of the component's item
/// it is combined with, and the `/works` query itself for one combined with
/// `/works` or `/licenses`, which have no works of their own.
pub open spec fn work_list_resource(q: WorkListQuery) -> ResourceComponent {
    match q {
        WorkListQuery::Works(query) => ResourceComponent::Works(Works::Query(query)),
        WorkListQuery::Combined { primary_component, ident } => match primary_component {
            Component::Funders => ResourceComponent::Funders(Funders::Works(ident)),
            Component::Journals => ResourceComponent::Journals(Journals::Works(ident)),
            Component::Members => ResourceComponent::Members(Members::Works(ident)),
            Component::Prefixes => ResourceComponent::Prefixes(Prefixes::Works(ident)),
            Component::Types => ResourceComponent::Types(Types::Works(ident)),
            Component::Works | Component::Licenses => ResourceComponent::Works(
                Works::Query(ident.query),
            ),
        },
    }
}

impl CrossrefQuery for WorkListQuery {
    fn resource_component(self) -> (r: ResourceComponent)
        ensures
            r == work_list_resource(self),
    {
        match self {
            WorkListQuery::Works(query) => ResourceComponent::Works(Works::Query(query)),
            WorkListQuery::Combined { primary_component, ident } => match primary_component {
                Component::Funders => ResourceComponent::Funders(Funders::Works(ident)),
                Component::Journals => ResourceComponent::Journals(Journals::Works(ident)),
                Component::Members => ResourceComponent::Members(Members::Works(ident)),
                Component::Prefixes => ResourceComponent::Prefixes(Prefixes::Works(ident)),
                Component::Types => ResourceComponent::Types(Types::Works(ident)),
                Component::Works | Component::Licenses => ResourceComponent::Works(
                    Works::Query(ident.query),
                ),
            },
        }
    }

    fn to_url(&self, base_path: &str) -> (r: Result<String>) {
        url_of(self, base_path)
    }
}

/// What tells the names of sorts and orders apart: their length and their
/// first character.
spec fn name_key(s: Seq<char>) -> (int, char) {
    (s.len() as int, s[0])
}

proof fn lemma_sort_key(s: Sort)
    ensures
        name_key(sort_text(s)) == match s {
            Sort::Score => (5int, 's'),
            Sort::Updated => (7int, 'u'),
            Sort::Deposited => (9int, 'd'),
            Sort::Indexed => (7int, 'i'),
            Sort::Published => (9int, 'p'),
            Sort::PublishedPrint => (15int, 'p'),
            Sort::PublishedOnline => (16int, 'p'),
            Sort::Issued => (6int, 'i'),
            Sort::IsReferencedByCount => (22int, 'i'),
            Sort::ReferenceCount => (16int, 'r'),
            Sort::Created => (7int, 'c'),
            Sort::Relevance => (9int, 'r'),
        },
{
    match s {
        Sort::Score => reveal_strlit("score"),
        Sort::Updated => reveal_strlit("updated"),
        Sort::Deposited => reveal_strlit("deposited"),
        Sort::Indexed => reveal_strlit("indexed"),
        Sort::Published => reveal_strlit("published"),
        Sort::PublishedPrint => reveal_strlit("published-print"),
        Sort::PublishedOnline => reveal_strlit("published-online"),
        Sort::Issued => reveal_strlit("issued"),
        Sort::IsReferencedByCount => reveal_strlit("is-referenced-by-count"),
        Sort::ReferenceCount => reveal_strlit("references-count"),
        Sort::Created => reveal_strlit("created"),
        Sort::Relevance => reveal_strlit("relevance"),
    }
}

/// A sort is read back from its name as itself.
pub proof fn lemma_sort_round_trip(s: Sort)
    ensures
        sort_named(sort_text(s)) == Some(s),
{
    lemma_sort_key(Sort::Score);
    lemma_sort_key(Sort::Updated);
    lemma_sort_key(Sort::Deposited);
    lemma_sort_key(Sort::Indexed);
    lemma_sort_key(Sort::Published);
    lemma_sort_key(Sort::PublishedPrint);
    lemma_sort_key(Sort::PublishedOnline);
    lemma_sort_key(Sort::Issued);
    lemma_sort_key(Sort::IsReferencedByCount);
    lemma_sort_key(Sort::ReferenceCount);
    lemma_sort_key(Sort::Created);
    lemma_sort_key(Sort::Relevance);
    lemma_sort_key(s);
}

/// An order is read back from its name as itself.
pub proof fn lemma_order_round_trip(o: Order)
    ensures
        order_named(order_text(o)) == Some(o),
{
    reveal_strlit("asc");
    reveal_strlit("desc");
    assert("asc"@.len() != "desc"@.len());
}

/// Helper trait for unified interface
pub trait CrossrefParams {
    /// the filter applied
    type Filter: Filter;

    /// The free form query terms.
    spec fn terms_spec(&self) -> Seq<String>;

    /// The filters.
    spec fn filters_spec(&self) -> Seq<Self::Filter>;

    /// The sort, if set.
    spec fn sort_spec(&self) -> Option<Sort>;

    /// The order, if set.
    spec fn order_spec(&self) -> Option<Order>;

    /// The standard paging, if set.
    spec fn paging_spec(&self) -> Option<ResultControl>;

    /// all string queries
    fn query_terms(&self) -> (r: &[String])
        ensures
            r@ == self.terms_spec(),
    ;

    /// the filters this object can use
    fn filters(&self) -> (r: &[Self::Filter])
        ensures
            r@ == self.filters_spec(),
    ;

    /// the sort if set
    fn sort(&self) -> (r: Option<Sort>)
        ensures
            r == self.sort_spec(),
    ;

    /// the order if set
    fn order(&self) -> (r: Option<Order>)
        ensures
            r == self.order_spec(),
    ;

    /// the configured result control, if any
    fn result_control(&self) -> (r: Option<ResultControl>)
        ensures
            r == self.paging_spec(),
    ;
}

impl CrossrefParams for FundersQuery {
    type Filter = FundersFilter;

    open spec fn terms_spec(&self) -> Seq<String> {
        self.queries@
    }

    open spec fn filters_spec(&self) -> Seq<FundersFilter> {
        self.filter@
    }

    open spec fn sort_spec(&self) -> Option<Sort> {
        None
    }

    open spec fn order_spec(&self) -> Option<Order> {
        None
    }

    open spec fn paging_spec(&self) -> Option<ResultControl> {
        self.result_control
    }

    fn query_terms(&self) -> (r: &[String]) {
        self.queries.as_slice()
    }

    fn filters(&self) -> (r: &[FundersFilter]) {
        self.filter.as_slice()
    }

    fn sort(&self) -> (r: Option<Sort>) {
        None
    }

    fn order(&self) -> (r: Option<Order>) {
        None
    }

    fn result_control(&self) -> (r: Option<ResultControl>) {
        self.result_control
    }
}

impl CrossrefParams for MembersQuery {
    type Filter = MembersFilter;

    open spec fn terms_spec(&self) -> Seq<String> {
        self.queries@
    }

    open spec fn filters_spec(&self) -> Seq<MembersFilter> {
        self.filter@
    }

    open spec fn sort_spec(&self) -> Option<Sort> {
        None
    }

    open spec fn order_spec(&self) -> Option<Order> {
        None
    }

    open spec fn paging_spec(&self) -> Option<ResultControl> {
        self.result_control
    }

    fn query_terms(&self) -> (r: &[String]) {
        self.queries.as_slice()
    }

    fn filters(&self) -> (r: &[MembersFilter]) {
        self.filter.as_slice()
    }

    fn sort(&self) -> (r: Option<Sort>) {
        None
    }

    fn order(&self) -> (r: Option<Order>) {
        None
    }

    fn result_control(&self) -> (r: Option<ResultControl>) {
        self.result_control
    }
}

impl CrossrefParams for WorksQuery {
    type Filter = WorksFilter;

    open spec fn terms_spec(&self) -> Seq<String> {
        self.free_form_queries@
    }

    open spec fn filters_spec(&self) -> Seq<WorksFilter> {
        self.filter@
    }

    open spec fn sort_spec(&self) -> Option<Sort> {
        self.sort
    }

    open spec fn order_spec(&self) -> Option<Order> {
        self.order
    }

    open spec fn paging_spec(&self) -> Option<ResultControl> {
        match self.result_control {
            Some(WorkResultControl::Standard(rc)) => Some(rc),
            _ => None,
        }
    }

    fn query_terms(&self) -> (r: &[String]) {
        self.free_form_queries.as_slice()
    }

    fn filters(&self) -> (r: &[WorksFilter]) {
        self.filter.as_slice()
    }

    fn sort(&self) -> (r: Option<Sort>) {
        self.sort
    }

    fn order(&self) -> (r: Option<Order>) {
        self.order
    }

    fn result_control(&self) -> (r: Option<ResultControl>) {
        match &self.result_control {
            Some(WorkResultControl::Standard(rc)) => Some(*rc),
            _ => None,
        }
    }
}

} // verus!
