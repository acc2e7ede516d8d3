//! What crossref reports about a journal's deposits.

use vstd::prelude::*;

verus! {

/// How many DOIs crossref holds for a journal.
#[derive(Debug, Clone, Copy, PartialEq, Eq)]
pub struct Counts {
    /// every DOI, current and backfile
    pub total_dois: i32,
    /// DOIs for material published within the last two years
    pub current_dois: i32,
    /// DOIs for material published more than two years ago
    pub backfile_dois: i32,
}

/// an ISSN together with the kind of ISSN it is
#[derive(Debug, Clone, PartialEq, Eq)]
pub struct IssnType {
    /// the identifier, in `xxxx-xxxx` form
    pub value: String,
    /// `print`, `electronic` or `link`; crossref leaves this `null` for some journals
    pub type_: Option<String>,
}

/// The per-year DOI counts crossref reports for a journal.
#[derive(Debug, Clone, PartialEq, Eq)]
pub struct Breakdowns {
    /// `(year, number of DOIs issued that year)` pairs, in the order crossref returned them
    pub dois_by_issued_year: Vec<(i64, i64)>,
}

/// `pairs` with `x` put after every pair whose year is no later than its
/// own: the step of a stable sort by year.
pub open spec fn insert_by_year(pairs: Seq<(i64, i64)>, x: (i64, i64)) -> Seq<(i64, i64)>
    decreases pairs.len(),
{
    if pairs.len() == 0 {
        seq![x]
    } else if pairs.last().0 <= x.0 {
        pairs.push(x)
    } else {
        insert_by_year(pairs.drop_last(), x).push(pairs.last())
    }
}

/// `pairs` sorted ascending by year, pairs of the same year keeping the
/// order they came in.
pub open spec fn sorted_by_year(pairs: Seq<(i64, i64)>) -> Seq<(i64, i64)>
    decreases pairs.len(),
{
    if pairs.len() == 0 {
        Seq::empty()
    } else {
        insert_by_year(sorted_by_year(pairs.drop_last()), pairs.last())
    }
}

/// Whether the years of `pairs` never go down.
pub open spec fn years_ascend(pairs: Seq<(i64, i64)>) -> bool {
    forall|i: int, j: int| 0 <= i < j < pairs.len() ==> pairs[i].0 <= pairs[j].0
}

/// `sorted` with `x` put after every pair whose year is no later than its own.
fn insert_pair(sorted: &mut Vec<(i64, i64)>, x: (i64, i64))
    ensures
        final(sorted)@ == insert_by_year(old(sorted)@, x),
    decreases old(sorted)@.len(),
{
    if sorted.len() == 0 {
        sorted.push(x);
        assert(sorted@ == seq![x]);
        return;
    }
    let last = sorted[sorted.len() - 1];
    if last.0 <= x.0 {
        sorted.push(x);
    } else {
        let ghost before = sorted@;
        let popped = sorted.pop().unwrap();
        assert(sorted@ == before.drop_last());
        insert_pair(sorted, x);
        sorted.push(popped);
    }
}

impl Breakdowns {
    /// `(year, DOI count)` pairs sorted ascending by year; pairs of the same
    /// year keep the order crossref returned them in.
    pub fn sorted(&self) -> (r: Vec<(i64, i64)>)
        ensures
            r@ == sorted_by_year(self.dois_by_issued_year@),
    {
        let pairs = &self.dois_by_issued_year;
        let mut out: Vec<(i64, i64)> = Vec::new();
        let mut i: usize = 0;
        while i < pairs.len()
            invariant
                i <= pairs@.len(),
                out@ == sorted_by_year(pairs@.subrange(0, i as int)),
            decreases pairs@.len() - i,
        {
            assert(pairs@.subrange(0, i + 1).drop_last() == pairs@.subrange(0, i as int));
            insert_pair(&mut out, pairs[i]);
            i = i + 1;
        }
        assert(pairs@.subrange(0, pairs@.len() as int) == pairs@);
        out
    }
}

/// `(year, DOI count)` pairs of a journal sorted ascending by year.
///
/// Empty if crossref reported no breakdown for the journal.
pub fn dois_by_issued_year(breakdowns: &Option<Breakdowns>) -> (r: Vec<(i64, i64)>)
    ensures
        r@ == match *breakdowns {
            Some(b) => sorted_by_year(b.dois_by_issued_year@),
            None => Seq::empty(),
        },
{
    match breakdowns {
        Some(b) => b.sorted(),
        None => Vec::new(),
    }
}

proof fn lemma_insert_keeps_order(pairs: Seq<(i64, i64)>, x: (i64, i64))
    requires
        years_ascend(pairs),
    ensures
        years_ascend(insert_by_year(pairs, x)),
        insert_by_year(pairs, x).to_multiset() == pairs.to_multiset().insert(x),
        insert_by_year(pairs, x).len() == pairs.len() + 1,
        forall|k: int|
            0 <= k < insert_by_year(pairs, x).len() ==> (#[trigger] insert_by_year(pairs, x)[k] == x
                || pairs.contains(insert_by_year(pairs, x)[k])),
    decreases pairs.len(),
{
    broadcast use vstd::seq_lib::group_to_multiset_ensures;

    let r = insert_by_year(pairs, x);
    if pairs.len() == 0 {
        assert(r == seq![x]);
        assert(seq![x] == Seq::<(i64, i64)>::empty().push(x));
    } else if pairs.last().0 <= x.0 {
        assert(forall|k: int| 0 <= k < pairs.len() ==> #[trigger] pairs[k] == pairs[k]);
        assert forall|k: int| 0 <= k < r.len() implies (#[trigger] r[k] == x || pairs.contains(r[k])) by {
            if k < pairs.len() {
                assert(r[k] == pairs[k]);
            }
        }
    } else {
        let front = pairs.drop_last();
        let y = pairs.last();
        assert(years_ascend(front));
        lemma_insert_keeps_order(front, x);
        let inner = insert_by_year(front, x);
        assert(r == inner.push(y));
        assert(pairs == front.push(y));
        assert forall|i: int, j: int| 0 <= i < j < r.len() implies r[i].0 <= r[j].0 by {
            if j == r.len() - 1 {
                assert(r[j] == y);
                assert(r[i] == inner[i]);
                if inner[i] != x {
                    assert(front.contains(inner[i]));
                    let k = choose|k: int| 0 <= k < front.len() && front[k] == inner[i];
                    assert(pairs[k] == front[k]);
                }
            } else {
                assert(r[i] == inner[i]);
                assert(r[j] == inner[j]);
            }
        }
        assert forall|k: int| 0 <= k < r.len() implies (#[trigger] r[k] == x || pairs.contains(r[k])) by {
            if k == r.len() - 1 {
                assert(pairs[pairs.len() - 1] == y);
            } else {
                assert(r[k] == inner[k]);
                if inner[k] != x {
                    let m = choose|m: int| 0 <= m < front.len() && front[m] == inner[k];
                    assert(pairs[m] == front[m]);
                }
            }
        }
    }
}

/// Sorting by year puts the years in ascending order and neither loses nor
/// adds a pair.
pub proof fn lemma_sorted_by_year(pairs: Seq<(i64, i64)>)
    ensures
        years_ascend(sorted_by_year(pairs)),
        sorted_by_year(pairs).to_multiset() == pairs.to_multiset(),
    decreases pairs.len(),
{
    broadcast use vstd::seq_lib::group_to_multiset_ensures;

    if pairs.len() > 0 {
        lemma_sorted_by_year(pairs.drop_last());
        lemma_insert_keeps_order(sorted_by_year(pairs.drop_last()), pairs.last());
        assert(pairs == pairs.drop_last().push(pairs.last()));
    }
}

} // verus!
