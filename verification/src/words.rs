//! Normalising free form query terms.
//!
//! Crossref reads the `query` value as a whitespace separated list of terms, so
//! runs of whitespace are collapsed into single spaces and the ends trimmed.
//! The separator is a plain space rather than the `+` it renders as on the
//! wire, because the value is percent-encoded afterwards.

use vstd::prelude::*;
use crate::text::{chars_of, joined, push_char, strings_view};

verus! {

/// Whether `c` carries the Unicode `White_Space` property, which is what
/// `char::is_whitespace` tests.
pub open spec fn white_space(c: char) -> bool {
    ||| ('\t' <= c && c <= '\r')
    ||| c == ' '
    ||| c == '\u{85}'
    ||| c == '\u{a0}'
    ||| c == '\u{1680}'
    ||| ('\u{2000}' <= c && c <= '\u{200a}')
    ||| c == '\u{2028}'
    ||| c == '\u{2029}'
    ||| c == '\u{202f}'
    ||| c == '\u{205f}'
    ||| c == '\u{3000}'
}

/// `char::is_whitespace`: whether `c` has the Unicode `White_Space` property.
#[verifier::external_body]
pub(crate) fn is_white_space(c: char) -> (r: bool)
    ensures
        r == white_space(c),
{
    c.is_whitespace()
}

/// Whether `s` ends inside a word, that is in a character that is not whitespace.
pub open spec fn ends_in_word(s: Seq<char>) -> bool {
    s.len() > 0 && !white_space(s.last())
}

/// The words of `s`: its maximal runs of characters that are not whitespace,
/// in order (`str::split_whitespace`).
pub open spec fn words(s: Seq<char>) -> Seq<Seq<char>>
    decreases s.len(),
{
    if s.len() == 0 {
        Seq::empty()
    } else {
        let front = s.drop_last();
        let c = s.last();
        if white_space(c) {
            words(front)
        } else if ends_in_word(front) {
            let ws = words(front);
            ws.update(ws.len() - 1, ws.last().push(c))
        } else {
            words(front).push(seq![c])
        }
    }
}

/// `s` with its whitespace collapsed: its words joined by single spaces.
pub open spec fn collapsed(s: Seq<char>) -> Seq<char> {
    joined(words(s), ' ')
}

proof fn lemma_words_nonempty(s: Seq<char>)
    ensures
        ends_in_word(s) ==> words(s).len() > 0,
        forall|i: int| 0 <= i < words(s).len() ==> #[trigger] words(s)[i].len() > 0,
    decreases s.len(),
{
    if s.len() > 0 {
        lemma_words_nonempty(s.drop_last());
    }
}

proof fn lemma_join_nonempty(ws: Seq<Seq<char>>)
    requires
        forall|i: int| 0 <= i < ws.len() ==> #[trigger] ws[i].len() > 0,
    ensures
        (joined(ws, ' ').len() == 0) == (ws.len() == 0),
    decreases ws.len(),
{
    if ws.len() > 1 {
        lemma_join_nonempty(ws.drop_last());
    }
}

proof fn lemma_join_extend_last(ws: Seq<Seq<char>>, c: char)
    requires
        ws.len() > 0,
    ensures
        joined(ws.update(ws.len() - 1, ws.last().push(c)), ' ') == joined(ws, ' ').push(c),
{
    let ws2 = ws.update(ws.len() - 1, ws.last().push(c));
    if ws.len() > 1 {
        assert(ws2.drop_last() == ws.drop_last());
    }
}

proof fn lemma_join_push(ws: Seq<Seq<char>>, w: Seq<char>)
    ensures
        joined(ws.push(w), ' ') == if ws.len() == 0 { w } else { joined(ws, ' ') + seq![' '] + w },
{
    assert(ws.push(w).drop_last() == ws);
}

/// Feeds one character to the collapsing scanner: `out` holds the collapsed
/// text read so far and `in_word` whether that text ended inside a word.
fn scan_char(out: &mut String, in_word: &mut bool, c: char, Ghost(read): Ghost<Seq<char>>)
    requires
        old(out)@ == collapsed(read),
        *old(in_word) == ends_in_word(read),
    ensures
        final(out)@ == collapsed(read.push(c)),
        *final(in_word) == ends_in_word(read.push(c)),
{
    let ghost next = read.push(c);
    proof {
        assert(next.drop_last() == read);
        assert(next.last() == c);
        lemma_words_nonempty(read);
        lemma_join_nonempty(words(read));
    }
    if is_white_space(c) {
        *in_word = false;
    } else {
        if *in_word {
            proof {
                lemma_join_extend_last(words(read), c);
            }
            push_char(out, c);
        } else {
            proof {
                lemma_join_push(words(read), seq![c]);
            }
            if !out.as_str().is_empty() {
                push_char(out, ' ');
            }
            push_char(out, c);
            proof {
                assert(seq![' '] + seq![c] == seq![' ', c]);
            }
        }
        *in_word = true;
    }
}

/// Normalises a query term by collapsing runs of whitespace into single
/// spaces and trimming both ends.
pub fn format_query(topic: &str) -> (r: String)
    ensures
        r@ == collapsed(topic@),
{
    let chars = chars_of(topic);
    let mut out = String::new();
    let mut in_word = false;
    let mut i: usize = 0;
    while i < chars.len()
        invariant
            i <= chars@.len(),
            chars@ == topic@,
            out@ == collapsed(chars@.subrange(0, i as int)),
            in_word == ends_in_word(chars@.subrange(0, i as int)),
        decreases chars@.len() - i,
    {
        let ghost read = chars@.subrange(0, i as int);
        scan_char(&mut out, &mut in_word, chars[i], Ghost(read));
        assert(chars@.subrange(0, i + 1) == read.push(chars@[i as int]));
        i = i + 1;
    }
    assert(chars@.subrange(0, chars@.len() as int) == chars@);
    out
}

/// Combines the individual topics of a query into a single `query` value: the
/// topics joined by a space, with whitespace collapsed.
pub fn format_queries(topics: &[String]) -> (r: String)
    ensures
        r@ == collapsed(joined(strings_view(topics@), ' ')),
{
    let ghost ts = strings_view(topics@);
    let mut out = String::new();
    let mut in_word = false;
    let mut t: usize = 0;
    while t < topics.len()
        invariant
            t <= topics@.len(),
            ts == strings_view(topics@),
            out@ == collapsed(joined(ts.subrange(0, t as int), ' ')),
            in_word == ends_in_word(joined(ts.subrange(0, t as int), ' ')),
        decreases topics@.len() - t,
    {
        let ghost before = joined(ts.subrange(0, t as int), ' ');
        let ghost mut read = before;
        if t > 0 {
            scan_char(&mut out, &mut in_word, ' ', Ghost(read));
            proof {
                read = read.push(' ');
            }
        }
        let ghost start = read;
        let chars = chars_of(topics[t].as_str());
        let mut i: usize = 0;
        while i < chars.len()
            invariant
                i <= chars@.len(),
                read == start + chars@.subrange(0, i as int),
                out@ == collapsed(read),
                in_word == ends_in_word(read),
            decreases chars@.len() - i,
        {
            let ghost prev = read;
            scan_char(&mut out, &mut in_word, chars[i], Ghost(read));
            proof {
                read = read.push(chars@[i as int]);
                assert(start + chars@.subrange(0, i + 1) == prev.push(chars@[i as int]));
            }
            i = i + 1;
        }
        proof {
            assert(chars@.subrange(0, chars@.len() as int) == chars@);
            let next = ts.subrange(0, t + 1);
            assert(next.drop_last() == ts.subrange(0, t as int));
            assert(next.last() == topics@[t as int]@);
            if t == 0 {
                assert(start == Seq::<char>::empty());
                assert(read == chars@);
                assert(joined(next, ' ') == next[0]);
            } else {
                assert(joined(next, ' ') == before + seq![' '] + next.last());
                assert(start == before + seq![' ']);
            }
        }
        t = t + 1;
    }
    assert(ts.subrange(0, topics@.len() as int) == ts);
    out
}

/// Whether `w` is a word: not empty, and without whitespace.
pub open spec fn is_word(w: Seq<char>) -> bool {
    w.len() > 0 && forall|i: int| 0 <= i < w.len() ==> !white_space(#[trigger] w[i])
}

proof fn lemma_words_are_words(s: Seq<char>)
    ensures
        forall|i: int| 0 <= i < words(s).len() ==> is_word(#[trigger] words(s)[i]),
    decreases s.len(),
{
    if s.len() > 0 {
        let front = s.drop_last();
        let c = s.last();
        lemma_words_are_words(front);
        lemma_words_nonempty(front);
        if !white_space(c) && ends_in_word(front) {
            let ws = words(front);
            let w = ws.last().push(c);
            assert(is_word(ws[ws.len() - 1]));
            assert forall|i: int| 0 <= i < w.len() implies !white_space(#[trigger] w[i]) by {
                if i < w.len() - 1 {
                    assert(w[i] == ws.last()[i]);
                }
            }
            assert forall|i: int| 0 <= i < words(s).len() implies is_word(#[trigger] words(s)[i]) by {
                if i < ws.len() - 1 {
                    assert(words(s)[i] == ws[i]);
                }
            }
        } else if !white_space(c) {
            assert forall|i: int| 0 <= i < words(s).len() implies is_word(#[trigger] words(s)[i]) by {
                if i < words(front).len() {
                    assert(words(s)[i] == words(front)[i]);
                } else {
                    assert(words(s)[i] == seq![c]);
                }
            }
        }
    }
}

proof fn lemma_words_of_word(w: Seq<char>)
    requires
        is_word(w),
    ensures
        words(w) == seq![w],
    decreases w.len(),
{
    let front = w.drop_last();
    assert(!white_space(w[w.len() - 1]));
    if w.len() == 1 {
        assert(front.len() == 0);
        assert(words(front) == Seq::<Seq<char>>::empty());
        assert(!ends_in_word(front));
        assert(seq![w.last()] == w);
        assert(words(w) == words(front).push(seq![w.last()]));
    } else {
        assert(is_word(front)) by {
            assert forall|i: int| 0 <= i < front.len() implies !white_space(#[trigger] front[i]) by {
                assert(front[i] == w[i]);
            }
        }
        lemma_words_of_word(front);
        assert(!white_space(front[front.len() - 1]));
        assert(ends_in_word(front));
        assert(front.push(w.last()) == w);
        assert(words(front).update(0, words(front).last().push(w.last())) =~= seq![w]);
    }
}

proof fn lemma_words_after_space(t: Seq<char>, w: Seq<char>)
    requires
        is_word(w),
    ensures
        words(t + seq![' '] + w) == words(t).push(w),
    decreases w.len(),
{
    let x = t + seq![' '] + w;
    let front = x.drop_last();
    assert(x.last() == w.last());
    assert(!white_space(w[w.len() - 1]));
    if w.len() == 1 {
        assert(front == t + seq![' ']);
        assert((t + seq![' ']).drop_last() == t);
        assert((t + seq![' ']).last() == ' ');
        assert(white_space(' '));
        assert(words(front) == words(t));
        assert(!ends_in_word(front));
        assert(seq![w.last()] == w);
        assert(words(x) == words(front).push(seq![w.last()]));
    } else {
        let w2 = w.drop_last();
        assert(is_word(w2)) by {
            assert forall|i: int| 0 <= i < w2.len() implies !white_space(#[trigger] w2[i]) by {
                assert(w2[i] == w[i]);
            }
        }
        assert(front == t + seq![' '] + w2);
        lemma_words_after_space(t, w2);
        assert(front.last() == w2.last());
        assert(!white_space(w2[w2.len() - 1]));
        assert(ends_in_word(front));
        assert(w2.push(w.last()) == w);
        let ws = words(front);
        assert(ws.update(ws.len() - 1, ws.last().push(w.last())) == words(t).push(w));
    }
}

proof fn lemma_words_of_joined(ws: Seq<Seq<char>>)
    requires
        forall|i: int| 0 <= i < ws.len() ==> is_word(#[trigger] ws[i]),
    ensures
        words(joined(ws, ' ')) == ws,
    decreases ws.len(),
{
    if ws.len() == 1 {
        lemma_words_of_word(ws[0]);
        assert(seq![ws[0]] == ws);
    } else if ws.len() > 1 {
        let front = ws.drop_last();
        assert forall|i: int| 0 <= i < front.len() implies is_word(#[trigger] front[i]) by {
            assert(front[i] == ws[i]);
        }
        lemma_words_of_joined(front);
        assert(is_word(ws[ws.len() - 1]));
        lemma_words_after_space(joined(front, ' '), ws.last());
        assert(front.push(ws.last()) == ws);
    }
}

/// Collapsing whitespace twice changes nothing the first time did not: a
/// query term normalised once is already normal.
pub proof fn lemma_collapse_idempotent(s: Seq<char>)
    ensures
        collapsed(collapsed(s)) == collapsed(s),
{
    lemma_words_are_words(s);
    lemma_words_of_joined(words(s));
}

} // verus!
