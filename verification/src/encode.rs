//! Percent-encoding for the crossref query string.
//!
//! Every key and value is escaped on its own, so a term containing `&`, `=`,
//! `#` or `%` stays inside the parameter it belongs to: `R&D` is sent as
//! `R%26D` rather than as `R` plus a stray parameter `D`.
//!
//! The characters left literal are the RFC 3986 unreserved set plus the
//! punctuation crossref's own syntax is built from: `:` and `,` separate the
//! fragments of a `filter` value, `/` appears in every DOI and `*` is the
//! initial deep-paging cursor.

use vstd::prelude::*;
use vstd::string::StringExecFns;
use vstd::utf8::encode_utf8;
use crate::text::push_char;

verus! {

/// Whether a byte of the UTF-8 encoding is sent as it is.
pub open spec fn kept_literal(b: u8) -> bool {
    ||| (0x30 <= b && b <= 0x39)
    ||| (0x41 <= b && b <= 0x5A)
    ||| (0x61 <= b && b <= 0x7A)
    ||| b == 0x2D  // -
    ||| b == 0x2E  // .
    ||| b == 0x5F  // _
    ||| b == 0x7E  // ~
    ||| b == 0x3A  // :
    ||| b == 0x2C  // ,
    ||| b == 0x2F  // /
    ||| b == 0x2A  // *
}

/// The upper case hex digit for a value below sixteen.
pub open spec fn hex_digit(n: u8) -> char {
    if n < 10 {
        (n + 48) as char
    } else {
        (n + 55) as char
    }
}

/// `%` followed by the two upper case hex digits of `b`.
pub open spec fn percent_byte(b: u8) -> Seq<char> {
    seq!['%', hex_digit(b / 16), hex_digit(b % 16)]
}

/// How one byte of the UTF-8 encoding is sent.
pub open spec fn encode_byte(b: u8) -> Seq<char> {
    if kept_literal(b) {
        seq![b as char]
    } else {
        percent_byte(b)
    }
}

/// The escaped form of a sequence of bytes, byte by byte.
pub open spec fn encode_bytes(bs: Seq<u8>) -> Seq<char>
    decreases bs.len(),
{
    if bs.len() == 0 {
        Seq::empty()
    } else {
        encode_bytes(bs.drop_last()) + encode_byte(bs.last())
    }
}

/// The escaped form of a string: its UTF-8 bytes, each escaped on its own.
pub open spec fn encoded(s: Seq<char>) -> Seq<char> {
    encode_bytes(encode_utf8(s))
}

/// `percent_encoding::percent_encode_byte`: the `%XX` form of one byte, with
/// upper case hex digits, whatever the byte is.
#[verifier::external_body]
fn percent_encode_byte(b: u8) -> (r: &'static str)
    ensures
        r@ == percent_byte(b),
{
    percent_encoding::percent_encode_byte(b)
}

/// Whether `b` is sent as it is.
pub fn is_kept_literal(b: u8) -> (r: bool)
    ensures
        r == kept_literal(b),
{
    (0x30 <= b && b <= 0x39) || (0x41 <= b && b <= 0x5A) || (0x61 <= b && b <= 0x7A) || b == 0x2D
        || b == 0x2E || b == 0x5F || b == 0x7E || b == 0x3A || b == 0x2C || b == 0x2F || b
        == 0x2A
}

/// Percent-encodes a single key or value of the query string.
pub fn encode(value: &str) -> (r: String)
    ensures
        r@ == encoded(value@),
{
    let bytes = value.as_bytes();
    let mut out = String::new();
    let mut i: usize = 0;
    while i < bytes.len()
        invariant
            i <= bytes@.len(),
            bytes@ == encode_utf8(value@),
            out@ == encode_bytes(bytes@.subrange(0, i as int)),
        decreases bytes@.len() - i,
    {
        let b = bytes[i];
        if is_kept_literal(b) {
            push_char(&mut out, b as char);
        } else {
            out.append(percent_encode_byte(b));
        }
        assert(bytes@.subrange(0, i + 1).drop_last() == bytes@.subrange(0, i as int));
        i = i + 1;
    }
    assert(bytes@.subrange(0, bytes@.len() as int) == bytes@);
    out
}


/// One `key=value` pair, both escaped.
pub open spec fn param_text(p: (Seq<char>, Seq<char>)) -> Seq<char> {
    encoded(p.0) + seq!['='] + encoded(p.1)
}

/// The pairs, each escaped, joined with `&`.
pub open spec fn joined_params(ps: Seq<(Seq<char>, Seq<char>)>) -> Seq<char>
    decreases ps.len(),
{
    if ps.len() == 0 {
        Seq::empty()
    } else if ps.len() == 1 {
        param_text(ps[0])
    } else {
        joined_params(ps.drop_last()) + seq!['&'] + param_text(ps.last())
    }
}

/// The query string of a route: empty when there is nothing to send,
/// otherwise `?` followed by the escaped pairs joined with `&`.
pub open spec fn query_text(ps: Seq<(Seq<char>, Seq<char>)>) -> Seq<char> {
    if ps.len() == 0 {
        Seq::empty()
    } else {
        seq!['?'] + joined_params(ps)
    }
}

/// The text of each key/value pair.
pub open spec fn params_view(v: Seq<(String, String)>) -> Seq<(Seq<char>, Seq<char>)> {
    v.map_values(|p: (String, String)| (p.0@, p.1@))
}

/// Renders `params` as the query string of a route, percent-encoding each key
/// and each value.
///
/// Returns an empty string for an empty slice, so callers can concatenate it
/// onto a route unconditionally; otherwise the result starts with `?`.
pub fn query_string(params: &[(String, String)]) -> (r: String)
    ensures
        r@ == query_text(params_view(params@)),
{
    let mut route = String::new();
    if params.len() == 0 {
        return route;
    }
    push_char(&mut route, '?');
    let mut i: usize = 0;
    while i < params.len()
        invariant
            i <= params@.len(),
            params@.len() > 0,
            route@ == seq!['?'] + joined_params(params_view(params@).subrange(0, i as int)),
        decreases params@.len() - i,
    {
        if i > 0 {
            push_char(&mut route, '&');
        }
        let key = encode(params[i].0.as_str());
        let value = encode(params[i].1.as_str());
        route.append(key.as_str());
        push_char(&mut route, '=');
        route.append(value.as_str());
        proof {
            let pv = params_view(params@);
            assert(pv.subrange(0, i + 1).drop_last() == pv.subrange(0, i as int));
            assert(pv.subrange(0, i + 1).last() == pv[i as int]);
            if i == 0 {
                assert(pv.subrange(0, 1)[0] == pv[0]);
            }
        }
        i = i + 1;
    }
    assert(params_view(params@).subrange(0, params@.len() as int) == params_view(params@));
    route
}

/// The characters an escaped string is made of: the ones sent literally,
/// `%`, and the upper case hex digits.
pub open spec fn escaped_char(c: char) -> bool {
    ||| ('0' <= c && c <= '9')
    ||| ('A' <= c && c <= 'Z')
    ||| ('a' <= c && c <= 'z')
    ||| c == '-' || c == '.' || c == '_' || c == '~' || c == ':' || c == ',' || c == '/' || c == '*'
    ||| c == '%'
}

/// How often `c` occurs in `s`.
pub open spec fn occurrences(s: Seq<char>, c: char) -> nat
    decreases s.len(),
{
    if s.len() == 0 {
        0
    } else {
        occurrences(s.drop_last(), c) + if s.last() == c { 1nat } else { 0nat }
    }
}

proof fn lemma_occurrences_concat(a: Seq<char>, b: Seq<char>, c: char)
    ensures
        occurrences(a + b, c) == occurrences(a, c) + occurrences(b, c),
    decreases b.len(),
{
    if b.len() == 0 {
        assert(a + b == a);
    } else {
        lemma_occurrences_concat(a, b.drop_last(), c);
        assert((a + b).drop_last() == a + b.drop_last());
    }
}

proof fn lemma_occurrences_single(c: char, d: char)
    ensures
        occurrences(seq![c], d) == if c == d { 1nat } else { 0nat },
{
    let s: Seq<char> = seq![c];
    assert(s.drop_last() == Seq::<char>::empty());
    assert(s.last() == c);
    assert(occurrences(Seq::<char>::empty(), d) == 0);
    assert(occurrences(s, d) == occurrences(s.drop_last(), d) + if s.last() == d { 1nat } else { 0nat });
}

proof fn lemma_occurrences_absent(s: Seq<char>, c: char)
    requires
        forall|i: int| 0 <= i < s.len() ==> s[i] != c,
    ensures
        occurrences(s, c) == 0,
    decreases s.len(),
{
    if s.len() > 0 {
        lemma_occurrences_absent(s.drop_last(), c);
    }
}

proof fn lemma_encode_bytes_escaped(bs: Seq<u8>)
    ensures
        forall|i: int| 0 <= i < encode_bytes(bs).len() ==> escaped_char(#[trigger] encode_bytes(bs)[i]),
    decreases bs.len(),
{
    if bs.len() > 0 {
        lemma_encode_bytes_escaped(bs.drop_last());
        let b = bs.last();
        let prev = encode_bytes(bs.drop_last());
        let tail = encode_byte(b);
        assert forall|i: int| 0 <= i < tail.len() implies escaped_char(#[trigger] tail[i]) by {
            if kept_literal(b) {
                assert(tail[i] == b as char);
            } else {
                assert(b / 16 < 16 && b % 16 < 16);
            }
        }
        assert forall|i: int| 0 <= i < encode_bytes(bs).len() implies escaped_char(
            #[trigger] encode_bytes(bs)[i],
        ) by {
            if i < prev.len() {
                assert(encode_bytes(bs)[i] == prev[i]);
            } else {
                assert(encode_bytes(bs)[i] == tail[i - prev.len()]);
            }
        }
    }
}

/// An escaped string never carries `&` or `=`.
pub proof fn lemma_encoded_has_no_separator(s: Seq<char>)
    ensures
        occurrences(encoded(s), '&') == 0,
        occurrences(encoded(s), '=') == 0,
{
    lemma_encode_bytes_escaped(encode_utf8(s));
    lemma_occurrences_absent(encoded(s), '&');
    lemma_occurrences_absent(encoded(s), '=');
}

proof fn lemma_param_separators(p: (Seq<char>, Seq<char>))
    ensures
        occurrences(param_text(p), '&') == 0,
        occurrences(param_text(p), '=') == 1,
{
    lemma_encoded_has_no_separator(p.0);
    lemma_encoded_has_no_separator(p.1);
    lemma_occurrences_single('=', '&');
    lemma_occurrences_single('=', '=');
    lemma_occurrences_concat(encoded(p.0), seq!['='], '&');
    lemma_occurrences_concat(encoded(p.0) + seq!['='], encoded(p.1), '&');
    lemma_occurrences_concat(encoded(p.0), seq!['='], '=');
    lemma_occurrences_concat(encoded(p.0) + seq!['='], encoded(p.1), '=');
}

/// No key or value can start a parameter of its own: the query string of `n`
/// pairs holds exactly `n - 1` separating `&` and exactly `n` `=`, whatever the
/// keys and values contain.
pub proof fn lemma_query_text_separators(ps: Seq<(Seq<char>, Seq<char>)>)
    requires
        ps.len() > 0,
    ensures
        occurrences(query_text(ps), '&') == ps.len() - 1,
        occurrences(query_text(ps), '=') == ps.len(),
    decreases ps.len(),
{
    lemma_joined_separators(ps);
    lemma_occurrences_single('?', '&');
    lemma_occurrences_single('?', '=');
    lemma_occurrences_concat(seq!['?'], joined_params(ps), '&');
    lemma_occurrences_concat(seq!['?'], joined_params(ps), '=');
}

proof fn lemma_joined_separators(ps: Seq<(Seq<char>, Seq<char>)>)
    requires
        ps.len() > 0,
    ensures
        occurrences(joined_params(ps), '&') == ps.len() - 1,
        occurrences(joined_params(ps), '=') == ps.len(),
    decreases ps.len(),
{
    if ps.len() == 1 {
        lemma_param_separators(ps[0]);
    } else {
        let front = joined_params(ps.drop_last());
        lemma_joined_separators(ps.drop_last());
        lemma_param_separators(ps.last());
        let amp: Seq<char> = seq!['&'];
        lemma_occurrences_single('&', '&');
        lemma_occurrences_single('&', '=');
        lemma_occurrences_concat(front, amp, '&');
        lemma_occurrences_concat(front + amp, param_text(ps.last()), '&');
        lemma_occurrences_concat(front, amp, '=');
        lemma_occurrences_concat(front + amp, param_text(ps.last()), '=');
    }
}

} // verus!
