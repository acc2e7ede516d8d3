//! Small text helpers the rest of the crate builds strings with: decimal
//! rendering of integers and appending single characters.

use vstd::prelude::*;
use vstd::string::StringExecFns;

verus! {

/// The ascii digit for `d`, which is below ten.
pub open spec fn digit_char(d: nat) -> char {
    (d + 48) as char
}

/// The decimal rendering of `n`: no sign, no leading zeros, `"0"` for zero.
pub open spec fn decimal(n: nat) -> Seq<char>
    decreases n,
{
    if n < 10 {
        seq![digit_char(n)]
    } else {
        decimal(n / 10).push(digit_char(n % 10))
    }
}

/// The decimal rendering of a signed integer, with a leading `-` when negative.
pub open spec fn signed_decimal(n: int) -> Seq<char> {
    if n < 0 {
        seq!['-'] + decimal((-n) as nat)
    } else {
        decimal(n as nat)
    }
}

/// Appends one character to `s` (`String::push`).
#[verifier::external_body]
pub(crate) fn push_char(s: &mut String, c: char)
    ensures
        final(s)@ == old(s)@.push(c),
{
    s.push(c)
}

/// `usize`'s `Display`, which renders the number in decimal.
#[verifier::external_body]
pub(crate) fn usize_text(n: usize) -> (r: String)
    ensures
        r@ == decimal(n as nat),
{
    n.to_string()
}

/// `u64`'s `Display`, which renders the number in decimal.
#[verifier::external_body]
pub(crate) fn u64_text(n: u64) -> (r: String)
    ensures
        r@ == decimal(n as nat),
{
    n.to_string()
}

/// `i32`'s `Display`, which renders the number in decimal with a `-` when negative.
#[verifier::external_body]
pub(crate) fn i32_text(n: i32) -> (r: String)
    ensures
        r@ == signed_decimal(n as int),
{
    n.to_string()
}

/// A new `String` holding `s`.
pub fn owned(s: &str) -> (r: String)
    ensures
        r@ == s@,
{
    let mut r = String::new();
    r.append(s);
    r
}

/// `a` followed by `b`, as a new `String`.
pub fn join2(a: &str, b: &str) -> (r: String)
    ensures
        r@ == a@ + b@,
{
    let mut r = String::new();
    r.append(a);
    r.append(b);
    r
}

/// The characters of `s`, in order.
pub fn chars_of(s: &str) -> (r: Vec<char>)
    ensures
        r@ == s@,
{
    let mut v: Vec<char> = Vec::new();
    for c in it: s.chars()
        invariant
            v@ == it.seq().subrange(0, it.index() as int),
    {
        v.push(c);
    }
    v
}

/// The parts joined by `sep`: nothing for no parts, the part itself for one.
pub open spec fn joined(parts: Seq<Seq<char>>, sep: char) -> Seq<char>
    decreases parts.len(),
{
    if parts.len() == 0 {
        Seq::empty()
    } else if parts.len() == 1 {
        parts[0]
    } else {
        joined(parts.drop_last(), sep) + seq![sep] + parts.last()
    }
}

/// The text of each string.
pub open spec fn strings_view(v: Seq<String>) -> Seq<Seq<char>> {
    v.map_values(|s: String| s@)
}

/// The text of an optional string.
pub open spec fn option_text(o: Option<String>) -> Option<Seq<char>> {
    match o {
        Some(s) => Some(s@),
        None => None,
    }
}

/// Joins `parts` with `sep` between each two.
pub fn join_with(parts: &[String], sep: char) -> (r: String)
    ensures
        r@ == joined(strings_view(parts@), sep),
{
    let ghost ps = strings_view(parts@);
    let mut out = String::new();
    let mut i: usize = 0;
    while i < parts.len()
        invariant
            i <= parts@.len(),
            ps == strings_view(parts@),
            out@ == joined(ps.subrange(0, i as int), sep),
        decreases parts@.len() - i,
    {
        if i > 0 {
            push_char(&mut out, sep);
        }
        out.append(parts[i].as_str());
        proof {
            let next = ps.subrange(0, i + 1);
            assert(next.drop_last() == ps.subrange(0, i as int));
            assert(next.last() == parts@[i as int]@);
            if i == 0 {
                assert(next[0] == parts@[0]@);
            }
        }
        i = i + 1;
    }
    assert(ps.subrange(0, parts@.len() as int) == ps);
    out
}

/// Whether `a` and `b` hold the same text.
pub fn str_eq(a: &str, b: &str) -> (r: bool)
    ensures
        r == (a@ == b@),
{
    let x = chars_of(a);
    let y = chars_of(b);
    if x.len() != y.len() {
        return false;
    }
    let mut i: usize = 0;
    while i < x.len()
        invariant
            x@ == a@,
            y@ == b@,
            x@.len() == y@.len(),
            i <= x@.len(),
            forall|j: int| 0 <= j < i ==> x@[j] == y@[j],
        decreases x@.len() - i,
    {
        if x[i] != y[i] {
            return false;
        }
        i = i + 1;
    }
    assert(x@ == y@);
    true
}

/// Whether `s` contains `c`.
pub fn contains_char(s: &str, c: char) -> (r: bool)
    ensures
        r == s@.contains(c),
{
    let x = chars_of(s);
    let mut i: usize = 0;
    while i < x.len()
        invariant
            x@ == s@,
            i <= x@.len(),
            forall|j: int| 0 <= j < i ==> x@[j] != c,
        decreases x@.len() - i,
    {
        if x[i] == c {
            assert(s@[i as int] == c);
            return true;
        }
        i = i + 1;
    }
    false
}

/// The parts joined by the text `sep`: nothing for no parts, the part itself
/// for one.
pub open spec fn joined_text(parts: Seq<Seq<char>>, sep: Seq<char>) -> Seq<char>
    decreases parts.len(),
{
    if parts.len() == 0 {
        Seq::empty()
    } else if parts.len() == 1 {
        parts[0]
    } else {
        joined_text(parts.drop_last(), sep) + sep + parts.last()
    }
}

/// Joins `parts` with the text `sep` between each two.
pub fn join_text(parts: &[&str], sep: &str) -> (r: String)
    ensures
        r@ == joined_text(parts@.map_values(|p: &str| p@), sep@),
{
    let ghost ps = parts@.map_values(|p: &str| p@);
    let mut out = String::new();
    let mut i: usize = 0;
    while i < parts.len()
        invariant
            i <= parts@.len(),
            ps == parts@.map_values(|p: &str| p@),
            out@ == joined_text(ps.subrange(0, i as int), sep@),
        decreases parts@.len() - i,
    {
        if i > 0 {
            out.append(sep);
        }
        out.append(parts[i]);
        proof {
            let next = ps.subrange(0, i + 1);
            assert(next.drop_last() == ps.subrange(0, i as int));
            assert(next.last() == parts@[i as int]@);
            if i == 0 {
                assert(next[0] == parts@[0]@);
            }
        }
        i = i + 1;
    }
    assert(ps.subrange(0, parts@.len() as int) == ps);
    out
}

} // verus!
