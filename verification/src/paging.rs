//! Deep paging through the works a query matches.
//!
//! Crossref hands out a `next-cursor` with every page of a cursor query; the
//! next page is asked for with that token. [`DeepPager`] keeps the query and
//! decides, page by page, what to ask for next and when to stop. The requests
//! themselves are made by whoever drives it.

use vstd::prelude::*;
use crate::query::works::{work_list_inner, WorkListQuery, WorkResultControl, WorksIdentQuery, WorksQuery};

verus! {

/// `q` with its `/works` query's paging replaced by `rc`.
pub open spec fn with_paging(q: WorkListQuery, rc: Option<WorkResultControl>) -> WorkListQuery {
    match q {
        WorkListQuery::Works(w) => WorkListQuery::Works(WorksQuery { result_control: rc, ..w }),
        WorkListQuery::Combined { primary_component, ident } => WorkListQuery::Combined {
            primary_component,
            ident: WorksIdentQuery { query: WorksQuery { result_control: rc, ..ident.query }, ..ident },
        },
    }
}

/// The query a page is asked for with: the query as it is, or, if it sets no
/// paging, the query starting a new cursor.
pub open spec fn query_to_send(q: WorkListQuery) -> WorkListQuery {
    match work_list_inner(q).result_control {
        None => with_paging(q, Some(WorkResultControl::Cursor { token: None, rows: None })),
        Some(_) => q,
    }
}

/// Where paging stands after a page arrived with `next_cursor`: the query,
/// and whether paging is over.
///
/// A cursor query carries the new token into the next request. A query paged
/// by rows and offset is not deep paged, so it ends with its first page, as
/// does any query whose page came without a cursor.
pub open spec fn after_page(q: WorkListQuery, next_cursor: Option<String>) -> (WorkListQuery, bool) {
    match next_cursor {
        Some(c) => match work_list_inner(q).result_control {
            Some(WorkResultControl::Cursor { token, rows }) => (
                with_paging(q, Some(WorkResultControl::Cursor { token: Some(c), rows })),
                false,
            ),
            Some(WorkResultControl::Standard(_)) => (q, true),
            None => (q, false),
        },
        None => (q, true),
    }
}

/// Pages through the works a query matches, one request at a time.
#[derive(Debug)]
pub struct DeepPager {
    query: WorkListQuery,
    finished: bool,
}

impl DeepPager {
    /// The query the next page is asked for with.
    pub closed spec fn spec_query(&self) -> WorkListQuery {
        self.query
    }

    /// Whether paging is over.
    pub closed spec fn spec_finished(&self) -> bool {
        self.finished
    }

    /// Starts paging through what `query` matches.
    pub fn new(query: WorkListQuery) -> (r: DeepPager)
        ensures
            r.spec_query() == query,
            !r.spec_finished(),
    {
        DeepPager { query, finished: false }
    }

    /// The query the next page is asked for with.
    pub fn query(&self) -> (r: &WorkListQuery)
        ensures
            *r == self.spec_query(),
    {
        &self.query
    }

    /// Whether another page is to be asked for. If it is, a query that sets no
    /// paging starts a new cursor, and [`DeepPager::query`] is what to send.
    pub fn prepare(&mut self) -> (go: bool)
        ensures
            go == !old(self).spec_finished(),
            final(self).spec_finished() == old(self).spec_finished(),
            final(self).spec_query() == if go {
                query_to_send(old(self).spec_query())
            } else {
                old(self).spec_query()
            },
    {
        if self.finished {
            return false;
        }
        let ghost before = self.query;
        let q = self.query.query_mut();
        if q.result_control.is_none() {
            q.result_control = Some(WorkResultControl::new_cursor());
        }
        assert(self.query == query_to_send(before));
        true
    }

    /// Takes in a page that arrived with `next_cursor`, and says whether it is
    /// to be handed on: an empty page ends the stream.
    pub fn received(&mut self, next_cursor: Option<String>, items_empty: bool) -> (hand_on: bool)
        ensures
            hand_on == !items_empty,
            final(self).spec_query() == after_page(old(self).spec_query(), next_cursor).0,
            final(self).spec_finished() == (old(self).spec_finished() || after_page(
                old(self).spec_query(),
                next_cursor,
            ).1),
    {
        let ghost before = self.query;
        match next_cursor {
            Some(c) => {
                let q = self.query.query_mut();
                match &q.result_control {
                    Some(WorkResultControl::Cursor { token: _, rows }) => {
                        let rows = *rows;
                        q.result_control = Some(WorkResultControl::Cursor { token: Some(c), rows });
                    },
                    Some(WorkResultControl::Standard(_)) => {
                        self.finished = true;
                    },
                    None => {},
                }
            },
            None => {
                self.finished = true;
            },
        }
        assert(self.query == after_page(before, next_cursor).0);
        !items_empty
    }

    /// A page could not be had: paging is over.
    pub fn failed(&mut self)
        ensures
            final(self).spec_finished(),
            final(self).spec_query() == old(self).spec_query(),
    {
        self.finished = true;
    }
}

/// Deep paging threads the cursor from one page into the next: once a page of
/// a query that is paged by cursor, or not paged at all, arrives with a
/// `next-cursor`, the next page is asked for with that token and paging goes
/// on.
pub proof fn lemma_cursor_threads(q: WorkListQuery, cursor: String)
    requires
        !(work_list_inner(q).result_control matches Some(WorkResultControl::Standard(_))),
    ensures
        ({
            let (next, done) = after_page(query_to_send(q), Some(cursor));
            &&& !done
            &&& work_list_inner(query_to_send(next)).result_control matches Some(
                WorkResultControl::Cursor { token: Some(t), .. },
            ) && t == cursor
        }),
{
}

/// A query paged by rows and offset is asked for once: whatever its page
/// says, paging is over after it.
pub proof fn lemma_standard_paging_ends(q: WorkListQuery, next_cursor: Option<String>)
    requires
        work_list_inner(q).result_control matches Some(WorkResultControl::Standard(_)),
    ensures
        after_page(query_to_send(q), next_cursor).1,
{
}

/// A page without a cursor ends paging.
pub proof fn lemma_no_cursor_ends(q: WorkListQuery)
    ensures
        after_page(q, None).1,
{
}

} // verus!
