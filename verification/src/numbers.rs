//! Reading numbers and trimmed values out of text, the way `str::trim` and
//! the integer `FromStr` impls of std read them.

use vstd::prelude::*;
use crate::text::{chars_of, push_char};
use crate::words::{is_white_space, white_space};

verus! {

/// `s` without the whitespace it starts with.
pub open spec fn trim_start(s: Seq<char>) -> Seq<char>
    decreases s.len(),
{
    if s.len() > 0 && white_space(s[0]) {
        trim_start(s.drop_first())
    } else {
        s
    }
}

/// `s` without the whitespace it ends with.
pub open spec fn trim_end(s: Seq<char>) -> Seq<char>
    decreases s.len(),
{
    if s.len() > 0 && white_space(s.last()) {
        trim_end(s.drop_last())
    } else {
        s
    }
}

/// `s` without leading and trailing whitespace (`str::trim`).
pub open spec fn trim(s: Seq<char>) -> Seq<char> {
    trim_end(trim_start(s))
}

/// Whether `c` is one of the ascii digits `0` to `9`.
pub open spec fn ascii_digit(c: char) -> bool {
    '0' <= c && c <= '9'
}

/// Whether every character of `s` is an ascii digit.
pub open spec fn all_digits(s: Seq<char>) -> bool {
    forall|i: int| 0 <= i < s.len() ==> ascii_digit(#[trigger] s[i])
}

/// The number the ascii digits of `s` write in decimal.
pub open spec fn digits_value(s: Seq<char>) -> nat
    decreases s.len(),
{
    if s.len() == 0 {
        0
    } else {
        digits_value(s.drop_last()) * 10 + ((s.last() as int - '0' as int) as nat)
    }
}

/// The magnitude an unsigned integer's `FromStr` reads from `s`: an optional
/// `+` and then at least one digit, and nothing else.
pub open spec fn unsigned_text(s: Seq<char>) -> Option<nat> {
    let d = if s.len() > 0 && s[0] == '+' {
        s.drop_first()
    } else {
        s
    };
    if d.len() > 0 && all_digits(d) {
        Some(digits_value(d))
    } else {
        None
    }
}

/// What `s.parse::<u64>()` reads: the magnitude, if it fits.
pub open spec fn parsed_u64(s: Seq<char>) -> Option<u64> {
    match unsigned_text(s) {
        Some(n) => if n <= u64::MAX {
            Some(n as u64)
        } else {
            None
        },
        None => None,
    }
}

/// What `s.parse::<u32>()` reads: the magnitude, if it fits.
pub open spec fn parsed_u32(s: Seq<char>) -> Option<u32> {
    match unsigned_text(s) {
        Some(n) => if n <= u32::MAX {
            Some(n as u32)
        } else {
            None
        },
        None => None,
    }
}

/// What `s.parse::<i32>()` reads: an optional `-` or `+`, at least one digit
/// and nothing else, if the number fits.
pub open spec fn parsed_i32(s: Seq<char>) -> Option<i32> {
    if s.len() > 0 && s[0] == '-' {
        let d = s.drop_first();
        if d.len() > 0 && all_digits(d) && digits_value(d) <= 2147483648 {
            Some((0 - digits_value(d)) as i32)
        } else {
            None
        }
    } else {
        match unsigned_text(s) {
            Some(n) => if n <= i32::MAX {
                Some(n as i32)
            } else {
                None
            },
            None => None,
        }
    }
}

proof fn lemma_trim_start_skips(s: Seq<char>, i: int)
    requires
        0 <= i <= s.len(),
        forall|j: int| 0 <= j < i ==> white_space(#[trigger] s[j]),
    ensures
        trim_start(s) == trim_start(s.subrange(i, s.len() as int)),
    decreases i,
{
    if i > 0 {
        assert(white_space(s[0]));
        let t = s.drop_first();
        assert forall|j: int| 0 <= j < i - 1 implies white_space(#[trigger] t[j]) by {
            assert(t[j] == s[j + 1]);
        }
        lemma_trim_start_skips(t, i - 1);
        assert(t.subrange(i - 1, t.len() as int) == s.subrange(i, s.len() as int));
    } else {
        assert(s.subrange(0, s.len() as int) == s);
    }
}

proof fn lemma_trim_end_skips(s: Seq<char>, k: int)
    requires
        0 <= k <= s.len(),
        forall|j: int| k <= j < s.len() ==> white_space(#[trigger] s[j]),
    ensures
        trim_end(s) == trim_end(s.subrange(0, k)),
    decreases s.len() - k,
{
    if k < s.len() {
        assert(white_space(s.last()));
        let t = s.drop_last();
        assert forall|j: int| k <= j < t.len() implies white_space(#[trigger] t[j]) by {
            assert(t[j] == s[j]);
        }
        lemma_trim_end_skips(t, k);
        assert(t.subrange(0, k) == s.subrange(0, k));
    } else {
        assert(s.subrange(0, k) == s);
    }
}

/// `s` without leading and trailing whitespace (`str::trim`), as a new string.
pub fn trimmed(s: &str) -> (r: String)
    ensures
        r@ == trim(s@),
{
    let cs = chars_of(s);
    let n = cs.len();
    let mut i: usize = 0;
    while i < n && is_white_space(cs[i])
        invariant
            cs@ == s@,
            n == cs@.len(),
            i <= n,
            forall|j: int| 0 <= j < i ==> white_space(#[trigger] cs@[j]),
        decreases n - i,
    {
        i = i + 1;
    }
    proof {
        lemma_trim_start_skips(s@, i as int);
    }
    let ghost front = s@.subrange(i as int, n as int);
    assert(i == n || !white_space(front[0]));
    assert(trim_start(front) == front);
    let mut k: usize = n;
    while k > i && is_white_space(cs[k - 1])
        invariant
            cs@ == s@,
            n == cs@.len(),
            i <= k <= n,
            forall|j: int| k <= j < n ==> white_space(#[trigger] cs@[j]),
        decreases k,
    {
        k = k - 1;
    }
    proof {
        assert forall|j: int| k - i <= j < front.len() implies white_space(#[trigger] front[j]) by {
            assert(front[j] == cs@[j + i]);
        }
        lemma_trim_end_skips(front, k - i);
        let kept = front.subrange(0, k - i);
        assert(kept.len() == 0 || !white_space(kept.last()));
        assert(trim_end(kept) == kept);
    }
    let mut out = String::new();
    let mut j: usize = i;
    while j < k
        invariant
            cs@ == s@,
            i <= j <= k <= n,
            n == cs@.len(),
            out@ == s@.subrange(i as int, j as int),
        decreases k - j,
    {
        push_char(&mut out, cs[j]);
        assert(s@.subrange(i as int, j + 1) == s@.subrange(i as int, j as int).push(cs@[j as int]));
        j = j + 1;
    }
    assert(front.subrange(0, k - i) == s@.subrange(i as int, k as int));
    out
}

/// The digit `c` stands for.
fn digit_of(c: char) -> (r: u32)
    requires
        ascii_digit(c),
    ensures
        r == c as int - '0' as int,
        r < 10,
{
    (c as u32) - ('0' as u32)
}

proof fn lemma_digits_value_grows(s: Seq<char>, k: int)
    requires
        0 <= k <= s.len(),
        all_digits(s),
    ensures
        digits_value(s) >= digits_value(s.subrange(0, k)),
    decreases s.len() - k,
{
    if k < s.len() {
        lemma_digits_value_grows(s.drop_last(), k);
        assert(s.drop_last().subrange(0, k) == s.subrange(0, k));
        assert(ascii_digit(s.last()));
        assert(digits_value(s) >= digits_value(s.drop_last()));
    } else {
        assert(s.subrange(0, k) == s);
    }
}

/// The value of the ascii digits `cs[from..]`, or [`None`] if it exceeds `max`.
fn digits_up_to(cs: &Vec<char>, from: usize, max: u64) -> (r: Option<u64>)
    requires
        from <= cs@.len(),
        all_digits(cs@.subrange(from as int, cs@.len() as int)),
        max >= 9,
    ensures
        match r {
            Some(v) => v == digits_value(cs@.subrange(from as int, cs@.len() as int)) && v <= max,
            None => digits_value(cs@.subrange(from as int, cs@.len() as int)) > max,
        },
{
    let ghost d = cs@.subrange(from as int, cs@.len() as int);
    let mut value: u64 = 0;
    let mut j: usize = from;
    while j < cs.len()
        invariant
            from <= j <= cs@.len(),
            d == cs@.subrange(from as int, cs@.len() as int),
            all_digits(d),
            value == digits_value(d.subrange(0, j - from)),
            value <= max,
            max >= 9,
        decreases cs@.len() - j,
    {
        let ghost prefix = d.subrange(0, j - from);
        let ghost next = d.subrange(0, j - from + 1);
        assert(next.drop_last() == prefix);
        assert(next.last() == cs@[j as int]);
        assert(ascii_digit(d[j - from]));
        let digit = digit_of(cs[j]);
        if value > (max - digit as u64) / 10 {
            proof {
                assert(value * 10 + digit > max) by (nonlinear_arith)
                    requires
                        value > (max - digit) / 10,
                        digit < 10,
                        digit <= max,
                ;
                lemma_digits_value_grows(d, j - from + 1);
            }
            return None;
        }
        assert(value * 10 + digit <= max) by (nonlinear_arith)
            requires
                value <= (max - digit) / 10,
                digit < 10,
        ;
        value = value * 10 + digit as u64;
        j = j + 1;
    }
    assert(d.subrange(0, j - from) == d);
    Some(value)
}

/// Whether every character of `cs[from..]` is an ascii digit.
fn all_digits_from(cs: &Vec<char>, from: usize) -> (r: bool)
    requires
        from <= cs@.len(),
    ensures
        r == all_digits(cs@.subrange(from as int, cs@.len() as int)),
{
    let ghost d = cs@.subrange(from as int, cs@.len() as int);
    let mut j: usize = from;
    while j < cs.len()
        invariant
            from <= j <= cs@.len(),
            d == cs@.subrange(from as int, cs@.len() as int),
            forall|k: int| 0 <= k < j - from ==> ascii_digit(#[trigger] d[k]),
        decreases cs@.len() - j,
    {
        let c = cs[j];
        if !('0' <= c && c <= '9') {
            assert(!ascii_digit(d[j - from]));
            return false;
        }
        j = j + 1;
    }
    true
}

/// The magnitude `cs` writes after an optional `+`, or [`None`] if it is not
/// one or exceeds `max`.
fn unsigned_up_to(cs: &Vec<char>, max: u64) -> (r: Option<u64>)
    requires
        max >= 9,
    ensures
        match unsigned_text(cs@) {
            Some(n) => if n <= max {
                r == Some(n as u64)
            } else {
                r is None
            },
            None => r is None,
        },
{
    let from: usize = if cs.len() > 0 && cs[0] == '+' {
        1
    } else {
        0
    };
    let ghost d = cs@.subrange(from as int, cs@.len() as int);
    assert(d == if cs@.len() > 0 && cs@[0] == '+' {
        cs@.drop_first()
    } else {
        cs@
    });
    if from == cs.len() || !all_digits_from(cs, from) {
        return None;
    }
    digits_up_to(cs, from, max)
}

/// `s.parse::<u64>()`: an optional `+` followed by decimal digits.
pub fn parse_u64(s: &str) -> (r: Option<u64>)
    ensures
        r == parsed_u64(s@),
{
    let cs = chars_of(s);
    unsigned_up_to(&cs, u64::MAX)
}

/// `s.parse::<u32>()`: an optional `+` followed by decimal digits.
pub fn parse_u32(s: &str) -> (r: Option<u32>)
    ensures
        r == parsed_u32(s@),
{
    let cs = chars_of(s);
    match unsigned_up_to(&cs, 4294967295) {
        Some(n) => Some(n as u32),
        None => None,
    }
}

/// `s.parse::<i32>()`: an optional `-` or `+` followed by decimal digits.
pub fn parse_i32(s: &str) -> (r: Option<i32>)
    ensures
        r == parsed_i32(s@),
{
    let cs = chars_of(s);
    if cs.len() > 0 && cs[0] == '-' {
        assert(cs@.subrange(1, cs@.len() as int) == cs@.drop_first());
        if cs.len() == 1 || !all_digits_from(&cs, 1) {
            return None;
        }
        match digits_up_to(&cs, 1, 2147483648) {
            Some(n) => {
                if n == 2147483648 {
                    Some(-2147483648i32)
                } else {
                    Some(0 - (n as i32))
                }
            },
            None => None,
        }
    } else {
        match unsigned_up_to(&cs, 2147483647) {
            Some(n) => Some(n as i32),
            None => None,
        }
    }
}

} // verus!
