//! The decisions of the `crossref` command line: reading its arguments into
//! queries, and what `cite` asks crossref about a key and makes of the answer.

use vstd::prelude::*;
use vstd::string::StringExecFns;
use crate::citekey::{spellings_of, CiteKey, Mismatch};
use crate::date::Date;
use crate::query::fields::{field_text, FieldQuery, SearchField};
use crate::query::filters::{filter_error_text, FilterParseError, WorksFilter};
use crate::query::works::{WorkResultControl, WorksQuery};
use crate::query::ResultControl;
use crate::text::{
    chars_of, i32_text, join_with, joined, joined_text, owned, push_char, str_eq, strings_view,
    join_text, signed_decimal,
};
use crate::citekey::spellings_view;

verus! {

/// The paging the `--limit` and `--offset` flags add up to.
pub open spec fn paging_spec(limit: Option<usize>, offset: Option<usize>) -> Option<ResultControl> {
    match (limit, offset) {
        (Some(rows), Some(offset)) => Some(ResultControl::RowsOffset { rows, offset }),
        (Some(rows), None) => Some(ResultControl::Rows(rows)),
        (None, Some(offset)) => Some(ResultControl::Offset(offset)),
        (None, None) => None,
    }
}

/// Resolves the paging flags into a single `ResultControl`.
pub fn paging(limit: Option<usize>, offset: Option<usize>) -> (r: Option<ResultControl>)
    ensures
        r == paging_spec(limit, offset),
{
    match (limit, offset) {
        (Some(rows), Some(offset)) => Some(ResultControl::RowsOffset { rows, offset }),
        (Some(rows), None) => Some(ResultControl::Rows(rows)),
        (None, Some(offset)) => Some(ResultControl::Offset(offset)),
        (None, None) => None,
    }
}

/// Where `c` first occurs in `s`, if it does.
pub open spec fn first_index(s: Seq<char>, c: char) -> Option<int>
    decreases s.len(),
{
    if s.len() == 0 {
        None
    } else {
        match first_index(s.drop_last(), c) {
            Some(i) => Some(i),
            None => if s.last() == c {
                Some(s.len() - 1)
            } else {
                None
            },
        }
    }
}

/// `s` split around the first `c` in it (`str::split_once`).
pub open spec fn split_once(s: Seq<char>, c: char) -> Option<(Seq<char>, Seq<char>)> {
    match first_index(s, c) {
        Some(i) => Some((s.subrange(0, i), s.subrange(i + 1, s.len() as int))),
        None => None,
    }
}

/// `s` split around the first `c` in it, if there is one.
pub fn split_at_first(s: &str, c: char) -> (r: Option<(String, String)>)
    ensures
        match split_once(s@, c) {
            Some((a, b)) => r matches Some(p) && p.0@ == a && p.1@ == b,
            None => r is None,
        },
{
    let cs = chars_of(s);
    let mut i: usize = 0;
    while i < cs.len() && cs[i] != c
        invariant
            cs@ == s@,
            i <= cs@.len(),
            first_index(s@.subrange(0, i as int), c) is None,
        decreases cs@.len() - i,
    {
        assert(s@.subrange(0, i + 1).drop_last() == s@.subrange(0, i as int));
        i = i + 1;
    }
    proof {
        lemma_first_index_extends(s@, c, i as int);
    }
    if i == cs.len() {
        assert(s@.subrange(0, s@.len() as int) == s@);
        return None;
    }
    let mut before = String::new();
    let mut after = String::new();
    let mut j: usize = 0;
    while j < cs.len()
        invariant
            cs@ == s@,
            i < cs@.len(),
            j <= cs@.len(),
            before@ == s@.subrange(0, if j < i { j as int } else { i as int }),
            after@ == s@.subrange(i + 1, if j <= i + 1 { i + 1 } else { j as int }),
        decreases cs@.len() - j,
    {
        if j < i {
            push_char(&mut before, cs[j]);
            assert(s@.subrange(0, j + 1) == s@.subrange(0, j as int).push(cs@[j as int]));
        } else if j > i {
            push_char(&mut after, cs[j]);
            assert(s@.subrange(i + 1, j + 1) == s@.subrange(i + 1, j as int).push(cs@[j as int]));
        }
        j = j + 1;
    }
    Some((before, after))
}

proof fn lemma_first_index_extends(s: Seq<char>, c: char, i: int)
    requires
        0 <= i <= s.len(),
        first_index(s.subrange(0, i), c) is None,
        i < s.len() ==> s[i] == c,
    ensures
        first_index(s, c) == if i < s.len() {
            Some(i)
        } else {
            None::<int>
        },
{
    if i < s.len() {
        assert(s.subrange(0, i + 1).drop_last() == s.subrange(0, i));
        lemma_first_index_keeps(s, c, i + 1);
    } else {
        assert(s.subrange(0, i) == s);
    }
}

proof fn lemma_first_index_keeps(s: Seq<char>, c: char, k: int)
    requires
        0 <= k <= s.len(),
        first_index(s.subrange(0, k), c) is Some,
    ensures
        first_index(s, c) == first_index(s.subrange(0, k), c),
    decreases s.len() - k,
{
    if k < s.len() {
        assert(s.subrange(0, k + 1).drop_last() == s.subrange(0, k));
        lemma_first_index_keeps(s, c, k + 1);
    } else {
        assert(s.subrange(0, k) == s);
    }
}

/// The names of every field, joined by `, `.
pub open spec fn field_list() -> Seq<char> {
    joined_text(crate::query::fields::all_fields().map_values(|f: SearchField| field_text(f)), ", "@)
}

/// Reads a `field=term` argument into the query it asks for, or says why it
/// cannot: it is not a pair, it has no term, or it names no field `/works`
/// can be queried against.
pub fn parse_field_query(arg: &str) -> (r: core::result::Result<FieldQuery, String>)
    ensures
        match split_once(arg@, '=') {
            None => r matches Err(m) && m@ == "`"@ + arg@ + "` is not a `field=term` pair"@,
            Some((field, term)) => if term.len() == 0 {
                r matches Err(m) && m@ == "`"@ + field + "` was given no term to match"@
            } else {
                match r {
                    Ok(q) => field_text(q.spec_field()) == field && q.spec_value() == term,
                    Err(m) => (forall|f: SearchField| field_text(f) != field) && m@ == "`"@ + field
                        + "` is not a field crossref can be queried against. Try one of: "@
                        + field_list(),
                }
            },
        },
{
    let (field, term) = match split_at_first(arg, '=') {
        Some(p) => p,
        None => {
            let mut m = owned("`");
            m.append(arg);
            m.append("` is not a `field=term` pair");
            return Err(m);
        },
    };
    if term.as_str().is_empty() {
        let mut m = owned("`");
        m.append(field.as_str());
        m.append("` was given no term to match");
        return Err(m);
    }
    match FieldQuery::from_field(field.as_str(), term.as_str()) {
        Some(q) => Ok(q),
        None => {
            let fields = SearchField::all();
            let mut names: Vec<&str> = Vec::new();
            let mut i: usize = 0;
            while i < fields.len()
                invariant
                    i <= fields@.len(),
                    fields@ == crate::query::fields::all_fields(),
                    names@.map_values(|p: &str| p@) == fields@.subrange(0, i as int).map_values(
                        |f: SearchField| field_text(f),
                    ),
                decreases fields@.len() - i,
            {
                let ghost before = names@;
                names.push(fields[i].as_str());
                assert(names@ == before.push(names@.last()));
                assert(names@.map_values(|p: &str| p@) =~= before.map_values(|p: &str| p@).push(
                    field_text(fields@[i as int]),
                ));
                assert(fields@.subrange(0, i + 1) == fields@.subrange(0, i as int).push(
                    fields@[i as int],
                ));
                assert(names@.map_values(|p: &str| p@) =~= fields@.subrange(0, i + 1).map_values(
                    |f: SearchField| field_text(f),
                ));
                i = i + 1;
            }
            assert(fields@.subrange(0, fields@.len() as int) == fields@);
            let mut m = owned("`");
            m.append(field.as_str());
            m.append("` is not a field crossref can be queried against. Try one of: ");
            m.append(join_text(names.as_slice(), ", ").as_str());
            Err(m)
        },
    }
}

/// A `name[:value]` filter argument, split into the name and the value.
pub fn split_filter_arg(arg: &str) -> (r: (String, Option<String>))
    ensures
        match split_once(arg@, ':') {
            Some((name, value)) => r.0@ == name && (r.1 matches Some(v) && v@ == value),
            None => r.0@ == arg@ && r.1 is None,
        },
{
    match split_at_first(arg, ':') {
        Some((name, value)) => (name, Some(value)),
        None => (owned(arg), None),
    }
}

/// What the command line says of a filter it could not read: the reason, and
/// for a name the route does not take, the names it does, which is what
/// crossref itself answers a bad filter with.
pub fn filter_complaint(err: &FilterParseError, names: &[&str]) -> (r: String)
    ensures
        r@ == match *err {
            FilterParseError::UnknownName { .. } => filter_error_text(*err) + ". Try one of: "@
                + joined_text(names@.map_values(|p: &str| p@), ", "@),
            _ => filter_error_text(*err),
        },
{
    let mut m = err.message();
    match err {
        FilterParseError::UnknownName { .. } => {
            m.append(". Try one of: ");
            m.append(join_text(names, ", ").as_str());
        },
        _ => {},
    }
    m
}

/// The field and the term of a field query.
pub open spec fn field_query_view(q: FieldQuery) -> (SearchField, Seq<char>) {
    (q.spec_field(), q.spec_value())
}

/// The field queries a `crossref works` command line names: the bibliographic,
/// title and author flags, in that order and where given, then the others.
pub open spec fn named_fields(
    bibliographic: Option<Seq<char>>,
    title: Option<Seq<char>>,
    author: Option<Seq<char>>,
) -> Seq<(SearchField, Seq<char>)> {
    (match bibliographic {
        Some(b) => seq![(SearchField::Bibliographic, b)],
        None => Seq::empty(),
    }) + (match title {
        Some(t) => seq![(SearchField::Title, t)],
        None => Seq::empty(),
    }) + (match author {
        Some(a) => seq![(SearchField::Author, a)],
        None => Seq::empty(),
    })
}

/// Where the first field query stands that asks for a field one before it
/// already asked for.
pub open spec fn first_repeat(qs: Seq<(SearchField, Seq<char>)>) -> Option<int>
    decreases qs.len(),
{
    if qs.len() == 0 {
        None
    } else {
        match first_repeat(qs.drop_last()) {
            Some(at) => Some(at),
            None => if exists|k: int| 0 <= k < qs.len() - 1 && qs[k].0 == qs.last().0 {
                Some(qs.len() - 1)
            } else {
                None
            },
        }
    }
}

/// The optional text, as a view.
pub open spec fn opt_view(o: Option<&str>) -> Option<Seq<char>> {
    match o {
        Some(s) => Some(s@),
        None => None,
    }
}

/// The field queries the flags add up to, the named ones first.
///
/// A field asked for twice is an error rather than a request: crossref
/// answers a repeated `query.title` with a single one of the two terms, and
/// which one it keeps is not ours to guess.
pub fn collect_field_queries(
    bibliographic: Option<&str>,
    title: Option<&str>,
    author: Option<&str>,
    others: Vec<FieldQuery>,
) -> (r: core::result::Result<Vec<FieldQuery>, String>)
    ensures
        ({
            let qs = named_fields(opt_view(bibliographic), opt_view(title), opt_view(author))
                + others@.map_values(|q: FieldQuery| field_query_view(q));
            match first_repeat(qs) {
                None => r matches Ok(v) && v@.map_values(|q: FieldQuery| field_query_view(q)) == qs,
                Some(at) => r matches Err(m) && m@ == "`"@ + crate::query::fields::field_param_text(
                    qs[at].0,
                ) + "` was asked for twice; crossref matches a field against one term"@,
            }
        }),
{
    let mut queries: Vec<FieldQuery> = Vec::new();
    match bibliographic {
        Some(b) => {
            queries.push(FieldQuery::bibliographic(b));
        },
        None => {},
    }
    match title {
        Some(t) => {
            queries.push(FieldQuery::title(t));
        },
        None => {},
    }
    match author {
        Some(a) => {
            queries.push(FieldQuery::author(a));
        },
        None => {},
    }
    let ghost named = queries@.map_values(|q: FieldQuery| field_query_view(q));
    assert(named =~= named_fields(opt_view(bibliographic), opt_view(title), opt_view(author)));
    let ghost others_view = others@.map_values(|q: FieldQuery| field_query_view(q));
    let mut rest = others;
    let ghost added = rest@;
    queries.append(&mut rest);
    let ghost qs = queries@.map_values(|q: FieldQuery| field_query_view(q));
    assert(qs =~= named + added.map_values(|q: FieldQuery| field_query_view(q)));
    assert(others_view == added.map_values(|q: FieldQuery| field_query_view(q)));
    let mut at: usize = 0;
    while at < queries.len()
        invariant
            at <= queries@.len(),
            qs == queries@.map_values(|q: FieldQuery| field_query_view(q)),
            qs == named_fields(opt_view(bibliographic), opt_view(title), opt_view(author))
                + others_view,
            others_view == others@.map_values(|q: FieldQuery| field_query_view(q)),
            first_repeat(qs.subrange(0, at as int)) is None,
        decreases queries@.len() - at,
    {
        let ghost pre = qs.subrange(0, at as int);
        let ghost next = qs.subrange(0, at + 1);
        assert(next.drop_last() == pre);
        assert(next.last() == qs[at as int]);
        let mut seen: usize = 0;
        let mut repeated = false;
        while seen < at && !repeated
            invariant
                seen <= at,
                at < queries@.len(),
                qs == queries@.map_values(|q: FieldQuery| field_query_view(q)),
                repeated ==> seen >= 1 && qs[seen - 1].0 == qs[at as int].0,
                !repeated ==> forall|k: int| 0 <= k < seen ==> qs[k].0 != qs[at as int].0,
            decreases at - seen + (if repeated { 0int } else { 1int }),
        {
            if queries[seen].field() == queries[at].field() {
                repeated = true;
            }
            seen = seen + 1;
        }
        if repeated {
            proof {
                assert(next[seen - 1] == qs[seen - 1]);
                assert(next[seen - 1].0 == next.last().0);
                assert(first_repeat(next) == Some(at as int));
                lemma_first_repeat_keeps(qs, at + 1);
                assert(qs[at as int] == field_query_view(queries@[at as int]));
            }
            let mut m = owned("`");
            m.append(queries[at].name());
            m.append("` was asked for twice; crossref matches a field against one term");
            return Err(m);
        }
        assert(forall|k: int| 0 <= k < next.len() - 1 ==> next[k].0 != next.last().0);
        at = at + 1;
    }
    assert(qs.subrange(0, qs.len() as int) == qs);
    Ok(queries)
}

proof fn lemma_first_repeat_keeps(qs: Seq<(SearchField, Seq<char>)>, k: int)
    requires
        0 <= k <= qs.len(),
        first_repeat(qs.subrange(0, k)) is Some,
    ensures
        first_repeat(qs) == first_repeat(qs.subrange(0, k)),
    decreases qs.len() - k,
{
    if k < qs.len() {
        assert(qs.subrange(0, k + 1).drop_last() == qs.subrange(0, k));
        lemma_first_repeat_keeps(qs, k + 1);
    } else {
        assert(qs.subrange(0, k) == qs);
    }
}

/// Whether `q` asks for the works matching `fq`, published in the years
/// `within` either side of `year`, `candidates` at a time, and nothing else.
pub open spec fn published_around_spec(
    q: WorksQuery,
    fq: (SearchField, Seq<char>),
    year: i32,
    within: int,
    candidates: int,
) -> bool {
    &&& q.free_form_queries@.len() == 0
    &&& q.field_queries@.map_values(|f: FieldQuery| field_query_view(f)) == seq![fq]
    &&& q.filter@.len() == 2
    &&& q.filter@[0] matches WorksFilter::FromPubDate(d) && d.spec_year() == year - within
        && d.spec_month() == 1 && d.spec_day() == 1
    &&& q.filter@[1] matches WorksFilter::UntilPubDate(d) && d.spec_year() == year + within
        && d.spec_month() == 12 && d.spec_day() == 31
    &&& q.sort is None
    &&& q.order is None
    &&& q.elements@.len() == 0
    &&& q.sample is None
    &&& q.result_control == Some(
        WorkResultControl::Standard(ResultControl::Rows(candidates as usize)),
    )
}

/// The works matching `fq`, narrowed to the years a work cited as from `year`
/// could carry, and to as many works as are worth weighing.
///
/// Without the window a bare surname matches a career; `query.author` ORs its
/// terms, so even two surnames leave hundreds of works that share one of them.
pub fn published_around(fq: FieldQuery, year: i32, within: u8, candidates: u16) -> (r: WorksQuery)
    requires
        1400 <= year <= 2200,
    ensures
        published_around_spec(r, field_query_view(fq), year, within as int, candidates as int),
{
    let w = within as i32;
    let from = match Date::from_ymd_opt(year - w, 1, 1) {
        Some(d) => d,
        None => {
            proof {
                assert(false);
            }
            return WorksQuery::empty();
        },
    };
    let until = match Date::from_ymd_opt(year + w, 12, 31) {
        Some(d) => d,
        None => {
            proof {
                assert(false);
            }
            return WorksQuery::empty();
        },
    };
    let q = WorksQuery::empty().field_query(fq).filter(WorksFilter::FromPubDate(from)).filter(
        WorksFilter::UntilPubDate(until),
    ).result_control(WorkResultControl::Standard(ResultControl::Rows(candidates as usize)));
    assert(q.field_queries@.map_values(|f: FieldQuery| field_query_view(f)) =~= seq![
        field_query_view(fq),
    ]);
    q
}

/// The works whose authors `surnames` could be naming, around `year`.
pub fn author_query(surnames: &[String], year: i32, within: u8, candidates: u16) -> (r: WorksQuery)
    requires
        1400 <= year <= 2200,
    ensures
        published_around_spec(
            r,
            (SearchField::Author, joined(strings_view(surnames@), ' ')),
            year,
            within as int,
            candidates as int,
        ),
{
    let authors = FieldQuery::author(join_with(surnames, ' ').as_str());
    published_around(authors, year, within, candidates)
}

/// The whole citation a key stands in for: its surnames and its year.
pub open spec fn citation_of(key: CiteKey) -> Seq<char> {
    joined(strings_view(key.spec_surnames()), ' ') + seq![' '] + signed_decimal(key.spec_year() as int)
}

/// The key as the whole citation it stands in for, which crossref matches
/// against titles, authors, ISSNs and years at once.
///
/// The year goes into the terms rather than beside them: crossref answers a
/// `query.author` and a `query.bibliographic` sent together with nothing at
/// all, so this has to be a request of its own.
pub fn bibliographic_query(key: &CiteKey, within: u8, candidates: u16) -> (r: WorksQuery)
    ensures
        published_around_spec(
            r,
            (SearchField::Bibliographic, citation_of(*key)),
            key.spec_year(),
            within as int,
            candidates as int,
        ),
{
    let mut citation = join_with(key.surnames(), ' ');
    push_char(&mut citation, ' ');
    let year = key.year();
    citation.append(i32_text(year).as_str());
    assert(citation@ =~= citation_of(*key));
    published_around(FieldQuery::bibliographic(citation.as_str()), year, within, candidates)
}

/// One request `cite` is willing to spend on a key, and the spelling it spends
/// it on.
pub struct Attempt {
    /// the guessed spelling this asks about, or [`None`] for the key as written
    pub spelling: Option<Vec<String>>,
    /// the query the request sends
    pub query: WorksQuery,
}

/// The smaller of two counts.
pub open spec fn at_most(a: int, b: int) -> int {
    if a < b {
        a
    } else {
        b
    }
}

/// Everything worth asking crossref about a key, in the order it is worth
/// asking: the surnames against the author field, then the key as the whole
/// citation it stands in for, then one guessed spelling at a time, at most
/// `spellings` of them.
///
/// The guesses come last because they are only ever needed when the name was
/// written with a mark the key could not keep, and cost a request each.
pub fn attempts(key: &CiteKey, candidates: u16, year_window: u8, spellings: u16) -> (r: Vec<Attempt>)
    ensures
        ({
            let sv = strings_view(key.spec_surnames());
            let guesses = spellings_of(sv);
            &&& r@.len() == 2 + at_most(guesses.len() as int, spellings as int)
            &&& r@[0].spelling is None
            &&& published_around_spec(
                r@[0].query,
                (SearchField::Author, joined(sv, ' ')),
                key.spec_year(),
                year_window as int,
                candidates as int,
            )
            &&& r@[1].spelling is None
            &&& published_around_spec(
                r@[1].query,
                (SearchField::Bibliographic, citation_of(*key)),
                key.spec_year(),
                year_window as int,
                candidates as int,
            )
            &&& forall|k: int|
                2 <= k < r@.len() ==> ((#[trigger] r@[k]).spelling matches Some(s) && strings_view(s@)
                    == guesses[k - 2] && published_around_spec(
                    r@[k].query,
                    (SearchField::Author, joined(guesses[k - 2], ' ')),
                    key.spec_year(),
                    year_window as int,
                    candidates as int,
                ))
        }),
{
    let year = key.year();
    let mut out: Vec<Attempt> = Vec::new();
    out.push(
        Attempt {
            spelling: None,
            query: author_query(key.surnames(), year, year_window, candidates),
        },
    );
    out.push(Attempt { spelling: None, query: bibliographic_query(key, year_window, candidates) });
    let guesses = key.spellings();
    let ghost gv = spellings_view(guesses@);
    let mut k: usize = 0;
    while k < guesses.len() && k < spellings as usize
        invariant
            k <= guesses@.len(),
            k <= spellings,
            gv == spellings_view(guesses@),
            gv == spellings_of(strings_view(key.spec_surnames())),
            year == key.spec_year(),
            1400 <= year <= 2200,
            out@.len() == 2 + k,
            out@[0].spelling is None,
            published_around_spec(
                out@[0].query,
                (SearchField::Author, joined(strings_view(key.spec_surnames()), ' ')),
                year,
                year_window as int,
                candidates as int,
            ),
            out@[1].spelling is None,
            published_around_spec(
                out@[1].query,
                (SearchField::Bibliographic, citation_of(*key)),
                year,
                year_window as int,
                candidates as int,
            ),
            forall|j: int|
                2 <= j < out@.len() ==> ((#[trigger] out@[j]).spelling matches Some(s) && strings_view(
                    s@,
                ) == gv[j - 2] && published_around_spec(
                    out@[j].query,
                    (SearchField::Author, joined(gv[j - 2], ' ')),
                    year,
                    year_window as int,
                    candidates as int,
                )),
        decreases guesses@.len() - k,
    {
        let spelling = guesses[k].clone();
        assert(strings_view(spelling@) == gv[k as int]);
        let query = author_query(spelling.as_slice(), year, year_window, candidates);
        out.push(Attempt { spelling: Some(spelling), query });
        k = k + 1;
    }
    out
}

/// What `cite` concludes about a key.
#[derive(Debug, Clone, Copy, PartialEq, Eq, Structural)]
pub enum Verdict {
    /// one work, and the key vouches for it
    Matched,
    /// several works the key vouches for, and nothing in the key to choose
    /// between them
    Ambiguous,
    /// nothing the key vouches for
    Unmatched,
}

/// Where the works that drew no mismatch stand, in order.
pub open spec fn vouched_spec(mismatches: Seq<Vec<Mismatch>>) -> Seq<usize>
    decreases mismatches.len(),
{
    if mismatches.len() == 0 {
        Seq::empty()
    } else {
        let front = vouched_spec(mismatches.drop_last());
        if mismatches.last()@.len() == 0 {
            front.push((mismatches.len() - 1) as usize)
        } else {
            front
        }
    }
}

/// The works of a page the key vouches for: those that drew no mismatch.
pub fn vouched(mismatches: &[Vec<Mismatch>]) -> (r: Vec<usize>)
    ensures
        r@ == vouched_spec(mismatches@),
{
    let mut r: Vec<usize> = Vec::new();
    let mut i: usize = 0;
    while i < mismatches.len()
        invariant
            i <= mismatches@.len(),
            r@ == vouched_spec(mismatches@.subrange(0, i as int)),
        decreases mismatches@.len() - i,
    {
        assert(mismatches@.subrange(0, i + 1).drop_last() == mismatches@.subrange(0, i as int));
        assert(mismatches@.subrange(0, i + 1).last() == mismatches@[i as int]);
        if mismatches[i].len() == 0 {
            r.push(i);
        }
        i = i + 1;
    }
    assert(mismatches@.subrange(0, mismatches@.len() as int) == mismatches@);
    r
}

/// What a page with `vouched` works the key vouches for decides: one is a
/// match, several are ambiguous, none sends `cite` on to its next attempt.
pub fn verdict_for(vouched: usize) -> (r: Option<Verdict>)
    ensures
        r == if vouched == 1 {
            Some(Verdict::Matched)
        } else if vouched > 1 {
            Some(Verdict::Ambiguous)
        } else {
            None
        },
{
    if vouched == 1 {
        Some(Verdict::Matched)
    } else if vouched > 1 {
        Some(Verdict::Ambiguous)
    } else {
        None
    }
}

/// Whether `doi` is not among those already turned down, so that a work that
/// came back for two attempts is reported once.
pub fn first_time(seen: &[String], doi: &str) -> (r: bool)
    ensures
        r == !strings_view(seen@).contains(doi@),
{
    let mut i: usize = 0;
    while i < seen.len()
        invariant
            i <= seen@.len(),
            forall|j: int| 0 <= j < i ==> seen@[j]@ != doi@,
        decreases seen@.len() - i,
    {
        if str_eq(seen[i].as_str(), doi) {
            assert(strings_view(seen@)[i as int] == doi@);
            return false;
        }
        i = i + 1;
    }
    assert forall|j: int| 0 <= j < strings_view(seen@).len() implies strings_view(seen@)[j] != doi@ by {
        assert(strings_view(seen@)[j] == seen@[j]@);
    }
    true
}


/// Whether `cite` succeeds: only when every key resolved to exactly one
/// work. A key that resolved to nothing, or to several works, is an answer
/// all the same, but not a success.
pub fn every_key_matched(verdicts: &[Verdict]) -> (r: bool)
    ensures
        r == forall|i: int| 0 <= i < verdicts@.len() ==> verdicts@[i] == Verdict::Matched,
{
    let mut i: usize = 0;
    while i < verdicts.len()
        invariant
            i <= verdicts@.len(),
            forall|j: int| 0 <= j < i ==> verdicts@[j] == Verdict::Matched,
        decreases verdicts@.len() - i,
    {
        match verdicts[i] {
            Verdict::Matched => {},
            _ => {
                return false;
            },
        }
        i = i + 1;
    }
    true
}

/// The DOIs that the page positions `at` name.
pub open spec fn named(dois: Seq<Seq<char>>, at: Seq<usize>) -> Seq<Seq<char>> {
    at.map_values(|i: usize| dois[i as int])
}

/// Which of the first `n` works of a page `cite` turns down as near misses,
/// by position: each that drew a mismatch, unless its DOI is listed already,
/// in `seen` or earlier on the page.
pub open spec fn newly_turned_down(
    seen: Seq<Seq<char>>,
    dois: Seq<Seq<char>>,
    mismatches: Seq<Vec<Mismatch>>,
    n: nat,
) -> Seq<usize>
    decreases n,
{
    if n == 0 {
        Seq::empty()
    } else {
        let front = newly_turned_down(seen, dois, mismatches, (n - 1) as nat);
        let at = (n - 1) as int;
        if mismatches[at]@.len() > 0 && !(seen + named(dois, front)).contains(dois[at]) {
            front.push(at as usize)
        } else {
            front
        }
    }
}

/// How many of the works it turned down an unmatched key reports.
pub const NEAR_MISSES: usize = 3;

/// What `cite` has gathered about one key over its attempts: how many
/// requests it made, and the works it turned down, by DOI, in the order
/// crossref first ranked them.
pub struct Resolver {
    requests: usize,
    turned_down: Vec<String>,
}

/// What one page of answers decides.
pub struct Outcome {
    /// `Matched` or `Ambiguous` where the key vouches for works on the page;
    /// `None` sends `cite` on to its next attempt
    pub verdict: Option<Verdict>,
    /// the positions of the works the key vouches for
    pub vouched: Vec<usize>,
    /// the positions of the works turned down for the first time
    pub turned_down: Vec<usize>,
}

impl Resolver {
    /// The requests made so far.
    pub closed spec fn requests_made(&self) -> nat {
        self.requests as nat
    }

    /// The DOIs of the works turned down so far.
    pub closed spec fn turned_down_view(&self) -> Seq<Seq<char>> {
        strings_view(self.turned_down@)
    }

    /// Nothing asked yet.
    pub fn new() -> (r: Resolver)
        ensures
            r.requests_made() == 0,
            r.turned_down_view() == Seq::<Seq<char>>::empty(),
    {
        Resolver { requests: 0, turned_down: Vec::new() }
    }

    /// How many requests were made.
    pub fn requests(&self) -> (r: usize)
        ensures
            r == self.requests_made(),
    {
        self.requests
    }

    /// How many of the works turned down an unmatched key reports: the first
    /// [`NEAR_MISSES`], or all where there are fewer.
    pub fn near_misses(&self) -> (r: usize)
        ensures
            r == if self.turned_down_view().len() < NEAR_MISSES {
                self.turned_down_view().len()
            } else {
                NEAR_MISSES as nat
            },
    {
        if self.turned_down.len() < NEAR_MISSES {
            self.turned_down.len()
        } else {
            NEAR_MISSES
        }
    }

    /// Takes in the answer to one more request: the DOI of each work on the
    /// page and the mismatches the key found with it. Counts the request,
    /// lists the works turned down for the first time, and says what the page
    /// decides.
    pub fn page(&mut self, dois: &[String], mismatches: &[Vec<Mismatch>]) -> (r: Outcome)
        requires
            dois@.len() == mismatches@.len(),
            old(self).requests_made() < usize::MAX,
        ensures
            final(self).requests_made() == old(self).requests_made() + 1,
            r.vouched@ == vouched_spec(mismatches@),
            r.verdict == if vouched_spec(mismatches@).len() == 1 {
                Some(Verdict::Matched)
            } else if vouched_spec(mismatches@).len() > 1 {
                Some(Verdict::Ambiguous)
            } else {
                None
            },
            r.turned_down@ == newly_turned_down(
                old(self).turned_down_view(),
                strings_view(dois@),
                mismatches@,
                dois@.len() as nat,
            ),
            final(self).turned_down_view() == old(self).turned_down_view() + named(
                strings_view(dois@),
                r.turned_down@,
            ),
            old(self).turned_down_view().no_duplicates()
                ==> final(self).turned_down_view().no_duplicates(),
    {
        let ghost seen = self.turned_down_view();
        let ghost names = strings_view(dois@);
        self.requests = self.requests + 1;
        let mut newly: Vec<usize> = Vec::new();
        let mut i: usize = 0;
        while i < dois.len()
            invariant
                i <= dois@.len(),
                dois@.len() == mismatches@.len(),
                names == strings_view(dois@),
                newly@ == newly_turned_down(seen, names, mismatches@, i as nat),
                strings_view(self.turned_down@) == seen + named(names, newly@),
                self.requests == old(self).requests + 1,
            decreases dois@.len() - i,
        {
            proof {
                assert(names[i as int] == dois@[i as int]@);
            }
            if mismatches[i].len() > 0 && first_time(self.turned_down.as_slice(), dois[i].as_str()) {
                let ghost before = newly@;
                let ghost listed = self.turned_down@;
                let doi = owned(dois[i].as_str());
                self.turned_down.push(doi);
                newly.push(i);
                proof {
                    assert(strings_view(listed.push(doi)) =~= strings_view(listed).push(names[i as int]));
                    assert(named(names, before.push(i)) =~= named(names, before).push(names[i as int]));
                    assert(strings_view(self.turned_down@) == seen + named(names, newly@));
                }
            }
            i = i + 1;
        }
        proof {
            if seen.no_duplicates() {
                lemma_turned_down_once(seen, names, mismatches@, dois@.len() as nat);
            }
        }
        let vouched = vouched(mismatches);
        let verdict = verdict_for(vouched.len());
        Outcome { verdict, vouched, turned_down: newly }
    }
}

/// Nothing is turned down twice: the works a resolver lists stay distinct
/// across every page it takes in.
pub proof fn lemma_turned_down_once(
    seen: Seq<Seq<char>>,
    dois: Seq<Seq<char>>,
    mismatches: Seq<Vec<Mismatch>>,
    n: nat,
)
    requires
        seen.no_duplicates(),
        n <= dois.len(),
        n <= mismatches.len(),
        n <= usize::MAX,
    ensures
        (seen + named(dois, newly_turned_down(seen, dois, mismatches, n))).no_duplicates(),
    decreases n,
{
    if n > 0 {
        let front = newly_turned_down(seen, dois, mismatches, (n - 1) as nat);
        lemma_turned_down_once(seen, dois, mismatches, (n - 1) as nat);
        let at = (n - 1) as int;
        let listed = seen + named(dois, front);
        if mismatches[at]@.len() > 0 && !listed.contains(dois[at]) {
            assert(named(dois, front.push(at as usize)) =~= named(dois, front).push(dois[at]));
            assert(seen + named(dois, front.push(at as usize)) == listed.push(dois[at]));
            assert forall|i: int, j: int|
                0 <= i < listed.len() + 1 && 0 <= j < listed.len() + 1 && i != j implies
                #[trigger] listed.push(dois[at])[i] != #[trigger] listed.push(dois[at])[j] by {
                if i == listed.len() {
                    assert(listed.push(dois[at])[j] == listed[j]);
                } else if j == listed.len() {
                    assert(listed.push(dois[at])[i] == listed[i]);
                }
            }
        }
    }
}

} // verus!
