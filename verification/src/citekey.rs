//! Reading a bibtex citation key back into the work it stands for.
//!
//! A key like `@FloysandEtAl2021` carries three things and no more: the
//! surnames of the first authors, in the order they were credited, whether the
//! list was cut short, and the year the work was cited by. It carries no
//! title, so nothing here can identify a work on its own. What it can do is
//! answer, of a work crossref returned, whether the key vouches for it -- and
//! that is the half that matters, because crossref answers every query with
//! something.
//!
//! Letter case and the Unicode classes of characters are std's: the names
//! below stand for what `char` and `str` answer, and are not restated.

use vstd::prelude::*;
use vstd::string::StringExecFns;
use crate::numbers::{all_digits, digits_value, parse_i32, parsed_i32, trim, trim_end, trim_start, trimmed, unsigned_text};
use crate::words::white_space;
use crate::text::{chars_of, decimal, digit_char, i32_text, owned, push_char, signed_decimal, strings_view, usize_text};

verus! {

/// What `char::to_lowercase` yields for `c`.
pub uninterp spec fn lowercase_of(c: char) -> Seq<char>;

/// What `char::to_uppercase` yields for `c`.
pub uninterp spec fn uppercase_of(c: char) -> Seq<char>;

/// What `char::is_alphanumeric` answers for `c`.
pub uninterp spec fn alphanumeric(c: char) -> bool;

/// What `char::is_uppercase` answers for `c`.
pub uninterp spec fn upper_case(c: char) -> bool;

/// What `char::is_lowercase` answers for `c`.
pub uninterp spec fn lower_case(c: char) -> bool;

/// What `str::to_lowercase` yields for `s`.
pub uninterp spec fn lowercase_text(s: Seq<char>) -> Seq<char>;

/// `char::to_lowercase`, collected: the lowercase mapping of the Unicode
/// Character Database. An ascii character maps to its ascii lower case (a
/// capital `A` to `Z` to `a` to `z`, every other one to itself), and no
/// character maps to anything holding an ascii capital.
#[verifier::external_body]
fn char_lowercase(c: char) -> (r: String)
    ensures
        r@ == lowercase_of(c),
        (c as u32) < 128 ==> r@ == seq![ascii_lower(c)],
        no_capital(r@),
{
    c.to_lowercase().to_string()
}

/// `char::to_uppercase`, collected.
#[verifier::external_body]
fn char_uppercase(c: char) -> (r: String)
    ensures
        r@ == uppercase_of(c),
{
    c.to_uppercase().to_string()
}

/// `char::is_alphanumeric`: whether `c` is alphabetic or numeric in Unicode's
/// sense. Of the ascii characters, those are the letters and the digits.
#[verifier::external_body]
fn is_alphanumeric(c: char) -> (r: bool)
    ensures
        r == alphanumeric(c),
        (c as u32) < 128 ==> r == ascii_alnum(c),
{
    c.is_alphanumeric()
}

/// `char::is_uppercase`: whether `c` has Unicode's `Uppercase` property. Of
/// the ascii characters, those are `A` to `Z`.
#[verifier::external_body]
fn is_upper_case(c: char) -> (r: bool)
    ensures
        r == upper_case(c),
        (c as u32) < 128 ==> r == ('A' <= c && c <= 'Z'),
{
    c.is_uppercase()
}

/// `char::is_lowercase`: whether `c` has Unicode's `Lowercase` property. Of
/// the ascii characters, those are `a` to `z`.
#[verifier::external_body]
fn is_lower_case(c: char) -> (r: bool)
    ensures
        r == lower_case(c),
        (c as u32) < 128 ==> r == ('a' <= c && c <= 'z'),
{
    c.is_lowercase()
}

/// `str::to_lowercase`: the lowercase mapping of each character. Text
/// written in ascii maps to its ascii lower case.
#[verifier::external_body]
fn text_lowercase(s: &str) -> (r: String)
    ensures
        r@ == lowercase_text(s@),
        ascii_text(s@) ==> r@ == ascii_lowered(s@),
{
    s.to_lowercase()
}

/// `char::is_alphanumeric` of `c`, with the ascii case spelled out.
pub open spec fn alnum_char(c: char) -> bool {
    if (c as u32) < 128 {
        ascii_alnum(c)
    } else {
        alphanumeric(c)
    }
}

/// `char::is_uppercase` of `c`, with the ascii case spelled out.
pub open spec fn capital(c: char) -> bool {
    if (c as u32) < 128 {
        'A' <= c && c <= 'Z'
    } else {
        upper_case(c)
    }
}

/// `char::is_lowercase` of `c`, with the ascii case spelled out.
pub open spec fn small(c: char) -> bool {
    if (c as u32) < 128 {
        'a' <= c && c <= 'z'
    } else {
        lower_case(c)
    }
}

/// `str::to_lowercase` of `s`, with the ascii case spelled out.
pub open spec fn lower_text(s: Seq<char>) -> Seq<char> {
    if ascii_text(s) {
        ascii_lowered(s)
    } else {
        lowercase_text(s)
    }
}

/// Whether `c` is an ascii letter or digit.
pub open spec fn ascii_alnum(c: char) -> bool {
    ('0' <= c && c <= '9') || ('a' <= c && c <= 'z') || ('A' <= c && c <= 'Z')
}

/// Whether `c` is an ascii digit.
pub open spec fn ascii_digit(c: char) -> bool {
    '0' <= c && c <= '9'
}

/// Whether every character of `s` is ascii.
pub open spec fn ascii_text(s: Seq<char>) -> bool {
    forall|i: int| 0 <= i < s.len() ==> (#[trigger] s[i] as u32) < 128
}

/// `c` in lower case if it is an ascii capital, itself otherwise.
pub open spec fn ascii_lower(c: char) -> char {
    if 'A' <= c && c <= 'Z' {
        ((c as u32) + 32) as char
    } else {
        c
    }
}

/// Whether `s` holds no ascii capital.
pub open spec fn no_capital(s: Seq<char>) -> bool {
    forall|i: int| 0 <= i < s.len() ==> !('A' <= #[trigger] s[i] && s[i] <= 'Z')
}

/// Whether `c` is an ascii lower case letter or an ascii digit.
pub open spec fn lower_alnum(c: char) -> bool {
    ascii_digit(c) || ('a' <= c && c <= 'z')
}

/// Whether `s` is made of ascii lower case letters and digits only.
pub open spec fn lower_alnum_only(s: Seq<char>) -> bool {
    forall|i: int| 0 <= i < s.len() ==> lower_alnum(#[trigger] s[i])
}

/// What `char::to_lowercase` yields for `c`, with the ascii case spelled out.
pub open spec fn lower_of(c: char) -> Seq<char> {
    if (c as u32) < 128 {
        seq![ascii_lower(c)]
    } else {
        lowercase_of(c)
    }
}

/// `s` with its ascii capitals in lower case.
pub open spec fn ascii_lowered(s: Seq<char>) -> Seq<char> {
    s.map_values(|c: char| ascii_lower(c))
}

/// The marks a latin letter is written with, ordered by how often a name
/// carries them, both per letter and within a letter: each ascii spelling and
/// the letters it stands in for.
///
/// Read right to left by [`fold`], to compare a key written in ascii against
/// metadata that is not, and left to right by [`CiteKey::spellings`], to guess
/// the spelling back, likeliest first.
pub open spec fn marks() -> Seq<(Seq<char>, Seq<char>)> {
    seq![
        ("o"@, "øöóòôõő"@),
        ("a"@, "åäáàâãā"@),
        ("e"@, "éèêëěę"@),
        ("u"@, "üúùûů"@),
        ("i"@, "íìîï"@),
        ("n"@, "ñńň"@),
        ("c"@, "çčć"@),
        ("s"@, "šśş"@),
        ("z"@, "žźż"@),
        ("y"@, "ýÿ"@),
        ("l"@, "ł"@),
        ("d"@, "đð"@),
        ("r"@, "ř"@),
        ("t"@, "ť"@),
        ("g"@, "ğ"@),
        ("ae"@, "æ"@),
        ("oe"@, "œ"@),
        ("ss"@, "ß"@),
        ("th"@, "þ"@),
    ]
}

/// The view of a table of string pairs.
pub open spec fn pairs_view(t: Seq<(&str, &str)>) -> Seq<(Seq<char>, Seq<char>)> {
    t.map_values(|p: (&str, &str)| (p.0@, p.1@))
}

/// The table of marks, [`marks`].
fn marks_table() -> (r: Vec<(&'static str, &'static str)>)
    ensures
        pairs_view(r@) == marks(),
{
    let r = vec![
        ("o", "øöóòôõő"),
        ("a", "åäáàâãā"),
        ("e", "éèêëěę"),
        ("u", "üúùûů"),
        ("i", "íìîï"),
        ("n", "ñńň"),
        ("c", "çčć"),
        ("s", "šśş"),
        ("z", "žźż"),
        ("y", "ýÿ"),
        ("l", "ł"),
        ("d", "đð"),
        ("r", "ř"),
        ("t", "ť"),
        ("g", "ğ"),
        ("ae", "æ"),
        ("oe", "œ"),
        ("ss", "ß"),
        ("th", "þ"),
    ];
    assert(pairs_view(r@) =~= marks());
    r
}

/// The ascii spelling of the first entry of `table` that lists `l`.
pub open spec fn first_base(table: Seq<(Seq<char>, Seq<char>)>, l: char) -> Option<Seq<char>>
    decreases table.len(),
{
    if table.len() == 0 {
        None
    } else if table[0].1.contains(l) {
        Some(table[0].0)
    } else {
        first_base(table.drop_first(), l)
    }
}

/// What a lower case letter folds to: itself if it is an ascii letter or
/// digit, its ascii spelling if it is a marked letter, nothing otherwise.
pub open spec fn fold_letter(l: char) -> Seq<char> {
    if ascii_alnum(l) {
        seq![l]
    } else {
        match first_base(marks(), l) {
            Some(a) => a,
            None => Seq::empty(),
        }
    }
}

/// What a run of lower case letters folds to.
pub open spec fn fold_letters(ls: Seq<char>) -> Seq<char>
    decreases ls.len(),
{
    if ls.len() == 0 {
        Seq::empty()
    } else {
        fold_letters(ls.drop_last()) + fold_letter(ls.last())
    }
}

/// The ascii skeleton of a name: every character in lower case, each of those
/// folded.
pub open spec fn folded(s: Seq<char>) -> Seq<char>
    decreases s.len(),
{
    if s.len() == 0 {
        Seq::empty()
    } else {
        folded(s.drop_last()) + fold_letters(lower_of(s.last()))
    }
}

/// The ascii spelling of the marked letter `l`, if the table lists it.
fn base_of(table: &Vec<(&'static str, &'static str)>, l: char) -> (r: Option<&'static str>)
    ensures
        match first_base(pairs_view(table@), l) {
            Some(a) => r matches Some(s) && s@ == a,
            None => r is None,
        },
{
    let ghost t = pairs_view(table@);
    assert(t.subrange(0, t.len() as int) == t);
    let mut i: usize = 0;
    while i < table.len()
        invariant
            i <= table@.len(),
            t == pairs_view(table@),
            first_base(t, l) == first_base(t.subrange(i as int, t.len() as int), l),
        decreases table@.len() - i,
    {
        let ghost rest = t.subrange(i as int, t.len() as int);
        assert(rest[0] == t[i as int]);
        assert(rest.drop_first() == t.subrange(i + 1, t.len() as int));
        if crate::text::contains_char(table[i].1, l) {
            return Some(table[i].0);
        }
        i = i + 1;
    }
    None
}

/// Whether `c` is an ascii letter or digit.
fn is_ascii_alnum(c: char) -> (r: bool)
    ensures
        r == ascii_alnum(c),
{
    ('0' <= c && c <= '9') || ('a' <= c && c <= 'z') || ('A' <= c && c <= 'Z')
}

/// The ascii skeleton of a name: lower case, letters and digits only, every
/// mark in the table folded away and everything else dropped.
///
/// `Fløysand`, `FLØYSAND` and `Floysand` all fold to `floysand`, and
/// `van Dijk`, `Van Dijk` and `VanDijk` all fold to `vandijk`.
pub fn fold(name: &str) -> (r: String)
    ensures
        r@ == folded(name@),
        lower_alnum_only(r@),
        folded(r@) == r@,
{
    let table = marks_table();
    let cs = chars_of(name);
    let mut out = String::new();
    let mut i: usize = 0;
    while i < cs.len()
        invariant
            cs@ == name@,
            i <= cs@.len(),
            pairs_view(table@) == marks(),
            out@ == folded(name@.subrange(0, i as int)),
            lower_alnum_only(out@),
        decreases cs@.len() - i,
    {
        let lower = chars_of(char_lowercase(cs[i]).as_str());
        assert(lower@ == lower_of(cs@[i as int]));
        let ghost start = out@;
        let mut j: usize = 0;
        while j < lower.len()
            invariant
                j <= lower@.len(),
                lower@ == lower_of(cs@[i as int]),
                pairs_view(table@) == marks(),
                out@ == start + fold_letters(lower@.subrange(0, j as int)),
            decreases lower@.len() - j,
        {
            let l = lower[j];
            if is_ascii_alnum(l) {
                push_char(&mut out, l);
            } else {
                match base_of(&table, l) {
                    Some(a) => {
                        out.append(a);
                    },
                    None => {},
                }
            }
            assert(lower@.subrange(0, j + 1).drop_last() == lower@.subrange(0, j as int));
            j = j + 1;
        }
        assert(lower@.subrange(0, lower@.len() as int) == lower@);
        assert(name@.subrange(0, i + 1).drop_last() == name@.subrange(0, i as int));
        proof {
            lemma_fold_letters_lower(lower@);
            lemma_lower_concat(start, fold_letters(lower@));
        }
        i = i + 1;
    }
    assert(name@.subrange(0, name@.len() as int) == name@);
    proof {
        lemma_fold_fixes(out@);
    }
    out
}

/// Whether the letter `c`, after `previous`, starts a new word of a key: after
/// a separator, between letters and digits, and at a camel case hump.
pub open spec fn starts_word(previous: Option<char>, c: char) -> bool {
    match previous {
        None => true,
        Some(before) => ascii_digit(before) != ascii_digit(c) || (capital(c) && small(
            before,
        )),
    }
}

/// The words a key was built from, and the letter it ends in if it ends in
/// a word.
pub open spec fn tokenize(s: Seq<char>) -> (Seq<Seq<char>>, Option<char>)
    decreases s.len(),
{
    if s.len() == 0 {
        (Seq::empty(), None)
    } else {
        let (ts, previous) = tokenize(s.drop_last());
        let c = s.last();
        if !alnum_char(c) {
            (ts, None)
        } else if starts_word(previous, c) || ts.len() == 0 {
            (ts.push(seq![c]), Some(c))
        } else {
            (ts.update(ts.len() - 1, ts.last().push(c)), Some(c))
        }
    }
}

/// Splits a key into the words it was built from, on the three boundaries a
/// key can have: a separator, a change between letters and digits, and the
/// camel case hump that is the only separator `LindforsJakobsen2022` has.
pub fn tokens(key: &str) -> (r: Vec<String>)
    ensures
        strings_view(r@) == tokenize(key@).0,
{
    let cs = chars_of(key);
    let mut done: Vec<String> = Vec::new();
    let mut current = String::new();
    let mut open = false;
    let mut previous: Option<char> = None;
    let mut i: usize = 0;
    while i < cs.len()
        invariant
            cs@ == key@,
            i <= cs@.len(),
            tokenize(key@.subrange(0, i as int)).1 == previous,
            tokenize(key@.subrange(0, i as int)).0 == if open {
                strings_view(done@).push(current@)
            } else {
                strings_view(done@)
            },
            previous is Some ==> open,
            !open ==> done@.len() == 0,
        decreases cs@.len() - i,
    {
        let c = cs[i];
        let ghost before = key@.subrange(0, i as int);
        assert(key@.subrange(0, i + 1).drop_last() == before);
        let ghost ts = tokenize(before).0;
        if !is_alphanumeric(c) {
            previous = None;
        } else {
            let starts = match previous {
                None => true,
                Some(b) => (('0' <= b && b <= '9') != ('0' <= c && c <= '9')) || (is_upper_case(c)
                    && is_lower_case(b)),
            };
            if starts || !open {
                if open {
                    let ghost d = done@;
                    done.push(current);
                    assert(strings_view(done@) == strings_view(d).push(done@.last()@));
                }
                current = String::new();
                push_char(&mut current, c);
                open = true;
                assert(current@ == seq![c]);
            } else {
                push_char(&mut current, c);
                assert(ts.update(ts.len() - 1, ts.last().push(c)) == strings_view(done@).push(
                    current@,
                ));
            }
            previous = Some(c);
        }
        i = i + 1;
    }
    assert(key@.subrange(0, key@.len() as int) == key@);
    if open {
        let ghost d = done@;
        done.push(current);
        assert(strings_view(done@) == strings_view(d).push(done@.last()@));
    }
    done
}

/// Whether a token is a year a work could have been published in, which is
/// the only way to tell one from a volume number or a page range: four
/// characters that read as a number from 1400 to 2200.
pub open spec fn year_token(t: Seq<char>) -> bool {
    match parsed_i32(t) {
        Some(y) => 1400 <= y <= 2200 && t.len() == 4,
        None => false,
    }
}

/// Whether a token is a year a work could have been published in.
pub fn is_year(token: &str) -> (r: bool)
    ensures
        r == year_token(token@),
{
    match parse_i32(token) {
        Some(y) => 1400 <= y && y <= 2200 && chars_of(token).len() == 4,
        None => false,
    }
}

/// `s` without the `@`s it starts with.
pub open spec fn strip_ats(s: Seq<char>) -> Seq<char>
    decreases s.len(),
{
    if s.len() > 0 && s[0] == '@' {
        strip_ats(s.drop_first())
    } else {
        s
    }
}

/// Where the last year among `toks` stands.
pub open spec fn last_year(toks: Seq<Seq<char>>) -> Option<int>
    decreases toks.len(),
{
    if toks.len() == 0 {
        None
    } else if year_token(toks.last()) {
        Some(toks.len() - 1)
    } else {
        last_year(toks.drop_last())
    }
}

/// Whether `a` and `b` are the same text but for the case of ascii letters
/// (`str::eq_ignore_ascii_case`).
pub open spec fn same_ignoring_ascii_case(a: Seq<char>, b: Seq<char>) -> bool {
    a.len() == b.len() && forall|i: int| 0 <= i < a.len() ==> ascii_lower(#[trigger] a[i])
        == ascii_lower(b[i])
}

/// `c` in lower case if it is an ascii capital, itself otherwise.
fn lower_ascii(c: char) -> (r: char)
    ensures
        r == ascii_lower(c),
{
    if 'A' <= c && c <= 'Z' {
        ((c as u8) + 32) as char
    } else {
        c
    }
}

/// Whether `a` and `b` are the same text but for the case of ascii letters.
fn eq_ignore_ascii_case(a: &str, b: &str) -> (r: bool)
    ensures
        r == same_ignoring_ascii_case(a@, b@),
{
    let x = chars_of(a);
    let y = chars_of(b);
    if x.len() != y.len() {
        return false;
    }
    let mut i: usize = 0;
    while i < x.len()
        invariant
            x@ == a@,
            y@ == b@,
            x@.len() == y@.len(),
            i <= x@.len(),
            forall|j: int| 0 <= j < i ==> ascii_lower(#[trigger] x@[j]) == ascii_lower(y@[j]),
        decreases x@.len() - i,
    {
        if lower_ascii(x[i]) != lower_ascii(y[i]) {
            return false;
        }
        i = i + 1;
    }
    true
}

/// The names the words of a key before its year give, read front to back,
/// and whether an `et al` was among them. `etal`, and `et` followed by `al`,
/// in any case, cut the list short; a word shorter than two letters is an
/// initial or a stray letter and names nobody.
pub open spec fn read_names(toks: Seq<Seq<char>>) -> (Seq<Seq<char>>, bool)
    decreases toks.len(),
{
    if toks.len() == 0 {
        (Seq::empty(), false)
    } else {
        let name = toks[0];
        if lower_text(name) == "etal"@ {
            (read_names(toks.drop_first()).0, true)
        } else if lower_text(name) == "et"@ && toks.len() > 1 && same_ignoring_ascii_case(
            toks[1],
            "al"@,
        ) {
            (read_names(toks.subrange(2, toks.len() as int)).0, true)
        } else if name.len() < 2 {
            read_names(toks.drop_first())
        } else {
            let rest = read_names(toks.drop_first());
            (seq![name] + rest.0, rest.1)
        }
    }
}

/// Whether `t` is a word of a key: at least one character, every one of
/// them alphanumeric.
pub open spec fn key_word(t: Seq<char>) -> bool {
    t.len() > 0 && forall|j: int| 0 <= j < t.len() ==> alnum_char(#[trigger] t[j])
}

/// Whether every one of `ts` is a word of a key.
pub open spec fn key_words(ts: Seq<Seq<char>>) -> bool {
    forall|i: int| 0 <= i < ts.len() ==> key_word(#[trigger] ts[i])
}

proof fn lemma_tokenize_words(s: Seq<char>)
    ensures
        key_words(tokenize(s).0),
        tokenize(s).1 matches Some(c) ==> tokenize(s).0.len() > 0,
    decreases s.len(),
{
    if s.len() > 0 {
        lemma_tokenize_words(s.drop_last());
        let (ts, previous) = tokenize(s.drop_last());
        let c = s.last();
        if alnum_char(c) {
            if starts_word(previous, c) || ts.len() == 0 {
                let n = ts.push(seq![c]);
                assert forall|i: int| 0 <= i < n.len() implies key_word(#[trigger] n[i]) by {
                    if i < ts.len() {
                        assert(n[i] == ts[i]);
                    } else {
                        assert(n[i] == seq![c]);
                        assert(seq![c][0] == c);
                    }
                }
            } else {
                let w = ts.last().push(c);
                let n = ts.update(ts.len() - 1, w);
                assert(key_word(ts[ts.len() - 1]));
                assert forall|j: int| 0 <= j < w.len() implies alnum_char(#[trigger] w[j]) by {
                    if j < ts.last().len() {
                        assert(w[j] == ts.last()[j]);
                    }
                }
                assert forall|i: int| 0 <= i < n.len() implies key_word(#[trigger] n[i]) by {
                    if i < ts.len() - 1 {
                        assert(n[i] == ts[i]);
                    } else {
                        assert(n[i] == w);
                    }
                }
            }
        }
    }
}

proof fn lemma_words_subrange(ts: Seq<Seq<char>>, a: int, b: int)
    requires
        key_words(ts),
        0 <= a <= b <= ts.len(),
    ensures
        key_words(ts.subrange(a, b)),
{
    assert forall|i: int| 0 <= i < ts.subrange(a, b).len() implies key_word(#[trigger] ts.subrange(a, b)[i]) by {
        assert(ts.subrange(a, b)[i] == ts[a + i]);
    }
}

proof fn lemma_read_names_words(toks: Seq<Seq<char>>)
    requires
        key_words(toks),
    ensures
        forall|i: int| 0 <= i < read_names(toks).0.len() ==> (#[trigger] read_names(toks).0[i]).len() >= 2
            && key_word(read_names(toks).0[i]),
    decreases toks.len(),
{
    if toks.len() > 0 {
        let name = toks[0];
        lemma_words_subrange(toks, 1, toks.len() as int);
        assert(toks.drop_first() == toks.subrange(1, toks.len() as int));
        lemma_read_names_words(toks.drop_first());
        if lower_text(name) == "etal"@ {
            assert(read_names(toks).0 == read_names(toks.drop_first()).0);
        } else if lower_text(name) == "et"@ && toks.len() > 1 && same_ignoring_ascii_case(
            toks[1],
            "al"@,
        ) {
            lemma_words_subrange(toks, 2, toks.len() as int);
            lemma_read_names_words(toks.subrange(2, toks.len() as int));
            assert(read_names(toks).0 == read_names(toks.subrange(2, toks.len() as int)).0);
        } else if name.len() < 2 {
            assert(read_names(toks).0 == read_names(toks.drop_first()).0);
        } else {
            let rest = read_names(toks.drop_first());
            let n = seq![name] + rest.0;
            assert(read_names(toks).0 == n);
            assert(key_word(toks[0]));
            assert forall|i: int| 0 <= i < n.len() implies (#[trigger] n[i]).len() >= 2 && key_word(n[i]) by {
                if i == 0 {
                    assert(n[0] == name);
                } else {
                    assert(n[i] == rest.0[i - 1]);
                }
            }
        }
    }
}

/// What a citation key says: the key without its leading `@`s, the surnames
/// it names, the year it cites and whether it cuts the author list short; or
/// why it says nothing a work could be held to.
///
/// The year is the last four digit year among the key's words; whatever
/// follows it disambiguates it, like the `a` of `Lindfors2022a`.
pub open spec fn read_key(raw: Seq<char>) -> core::result::Result<
    (Seq<char>, Seq<Seq<char>>, i32, bool),
    Seq<char>,
> {
    let key = strip_ats(trim(raw));
    let toks = tokenize(key).0;
    match last_year(toks) {
        None => Err("`"@ + key + "` carries no four digit year"@),
        Some(at) => {
            let (names, et_al) = read_names(toks.subrange(0, at));
            if names.len() == 0 {
                Err("`"@ + key + "` names no author"@)
            } else {
                Ok((key, names, parsed_i32(toks[at]).unwrap(), et_al))
            }
        },
    }
}

/// A citation key, read for the little it says: `@FloysandEtAl2021` is the
/// surname `Floysand`, an unnamed rest, and the year 2021.
///
/// Parsed rather than validated, so everything downstream holds a key that
/// named someone and gave a year.
#[derive(Debug, PartialEq, Eq)]
pub struct CiteKey {
    key: String,
    surnames: Vec<String>,
    year: i32,
    et_al: bool,
}

impl CiteKey {
    /// A key names someone, by a surname of two letters or more, all of them
    /// alphanumeric, and gives a year from 1400 to 2200.
    #[verifier::type_invariant]
    spec fn names_someone(self) -> bool {
        &&& self.surnames@.len() > 0
        &&& forall|i: int| 0 <= i < self.surnames@.len() ==> (#[trigger] self.surnames@[i])@.len() >= 2
        &&& forall|i: int| 0 <= i < self.surnames@.len() ==> key_word((#[trigger] self.surnames@[i])@)
        &&& 1400 <= self.year <= 2200
    }

    /// the key as it was written, without its leading `@`
    pub closed spec fn spec_key(self) -> Seq<char> {
        self.key@
    }

    /// the surnames the key names, in order
    pub closed spec fn spec_surnames(self) -> Seq<String> {
        self.surnames@
    }

    /// the year the key cites
    pub closed spec fn spec_year(self) -> i32 {
        self.year
    }

    /// whether the key cut the author list short
    pub closed spec fn spec_et_al(self) -> bool {
        self.et_al
    }

    /// the key as it was written, without its leading `@`
    pub fn key(&self) -> (r: &str)
        ensures
            r@ == self.spec_key(),
    {
        self.key.as_str()
    }

    /// the surnames the key names, in the order it names them; never none,
    /// and each of two or more alphanumeric characters
    pub fn surnames(&self) -> (r: &[String])
        ensures
            r@ == self.spec_surnames(),
            r@.len() > 0,
            forall|i: int| 0 <= i < r@.len() ==> (#[trigger] r@[i])@.len() >= 2 && key_word(r@[i]@),
    {
        proof {
            use_type_invariant(self);
        }
        self.surnames.as_slice()
    }

    /// the year the work was cited by, which is not always the year crossref
    /// issued it under -- a work published online in one year and in an issue
    /// the next is cited by either
    pub fn year(&self) -> (r: i32)
        ensures
            r == self.spec_year(),
            1400 <= r <= 2200,
    {
        proof {
            use_type_invariant(self);
        }
        self.year
    }

    /// whether the key cut the author list short with an `et al`
    pub fn et_al(&self) -> (r: bool)
        ensures
            r == self.spec_et_al(),
    {
        self.et_al
    }

    /// Reads a citation key, with or without its leading `@`.
    pub fn parse(raw: &str) -> (r: core::result::Result<CiteKey, String>)
        ensures
            match read_key(raw@) {
                Ok((key, names, year, et_al)) => r matches Ok(k) && k.spec_key() == key
                    && strings_view(k.spec_surnames()) == names && k.spec_year() == year
                    && k.spec_et_al() == et_al,
                Err(m) => r matches Err(e) && e@ == m,
            },
    {
        let t = trimmed(raw);
        let cs = chars_of(t.as_str());
        let mut s: usize = 0;
        assert(cs@.subrange(0, cs@.len() as int) == cs@);
        while s < cs.len() && cs[s] == '@'
            invariant
                cs@ == trim(raw@),
                s <= cs@.len(),
                strip_ats(trim(raw@)) == strip_ats(cs@.subrange(s as int, cs@.len() as int)),
            decreases cs@.len() - s,
        {
            assert(cs@.subrange(s as int, cs@.len() as int).drop_first() == cs@.subrange(
                s + 1,
                cs@.len() as int,
            ));
            s = s + 1;
        }
        let mut key = String::new();
        let mut j: usize = s;
        while j < cs.len()
            invariant
                cs@ == trim(raw@),
                s <= j <= cs@.len(),
                key@ == cs@.subrange(s as int, j as int),
            decreases cs@.len() - j,
        {
            push_char(&mut key, cs[j]);
            assert(cs@.subrange(s as int, j + 1) == cs@.subrange(s as int, j as int).push(
                cs@[j as int],
            ));
            j = j + 1;
        }
        let ghost rest = cs@.subrange(s as int, cs@.len() as int);
        assert(rest.len() == 0 || rest[0] != '@');
        assert(strip_ats(rest) == rest);
        assert(key@ == strip_ats(trim(raw@)));
        let toks = tokens(key.as_str());
        let ghost tv = strings_view(toks@);
        let mut at: usize = toks.len();
        let mut found = false;
        assert(tv.subrange(0, tv.len() as int) == tv);
        while at > 0 && !found
            invariant
                at <= toks@.len(),
                tv == strings_view(toks@),
                tv == tokenize(key@).0,
                found ==> at < toks@.len() && year_token(tv[at as int]) && last_year(tv) == Some(
                    at as int,
                ),
                !found ==> last_year(tv) == last_year(tv.subrange(0, at as int)),
            decreases at + (if found { 0int } else { 1int }),
        {
            let ghost pre = tv.subrange(0, at as int);
            assert(pre.last() == tv[at - 1]);
            assert(pre.drop_last() == tv.subrange(0, at - 1));
            if is_year(toks[at - 1].as_str()) {
                found = true;
                at = at - 1;
            } else {
                at = at - 1;
            }
        }
        if !found {
            assert(tv.subrange(0, 0) == Seq::<Seq<char>>::empty());
            let mut m = owned("`");
            m.append(key.as_str());
            m.append("` carries no four digit year");
            return Err(m);
        }
        let year = match parse_i32(toks[at].as_str()) {
            Some(y) => y,
            None => {
                return Err(owned(""));
            },
        };
        let mut surnames: Vec<String> = Vec::new();
        let mut et_al = false;
        let ghost before = tv.subrange(0, at as int);
        let mut i: usize = 0;
        while i < at
            invariant
                at < toks@.len(),
                i <= at,
                tv == strings_view(toks@),
                before == tv.subrange(0, at as int),
                read_names(before) == (
                    strings_view(surnames@) + read_names(tv.subrange(i as int, at as int)).0,
                    et_al || read_names(tv.subrange(i as int, at as int)).1,
                ),
                forall|k: int| 0 <= k < surnames@.len() ==> (#[trigger] surnames@[k])@.len() >= 2,
            decreases at - i,
        {
            let ghost here = tv.subrange(i as int, at as int);
            assert(here[0] == tv[i as int]);
            assert(here.drop_first() == tv.subrange(i + 1, at as int));
            let name = &toks[i];
            let lower = text_lowercase(name.as_str());
            if crate::text::str_eq(lower.as_str(), "etal") {
                et_al = true;
                i = i + 1;
            } else if crate::text::str_eq(lower.as_str(), "et") && i + 1 < at
                && eq_ignore_ascii_case(toks[i + 1].as_str(), "al") {
                assert(here[1] == tv[i + 1]);
                assert(here.subrange(2, here.len() as int) == tv.subrange(i + 2, at as int));
                et_al = true;
                i = i + 2;
            } else if chars_of(name.as_str()).len() < 2 {
                i = i + 1;
            } else {
                let ghost sv = strings_view(surnames@);
                surnames.push(name.clone());
                assert(strings_view(surnames@) == sv.push(name@));
                assert(sv + (seq![name@] + read_names(here.drop_first()).0) == sv.push(name@)
                    + read_names(here.drop_first()).0);
                i = i + 1;
            }
        }
        assert(tv.subrange(at as int, at as int) == Seq::<Seq<char>>::empty());
        assert(strings_view(surnames@) + Seq::<Seq<char>>::empty() == strings_view(surnames@));
        assert(tv[at as int] == toks@[at as int]@);
        if surnames.len() == 0 {
            let mut m = owned("`");
            m.append(key.as_str());
            m.append("` names no author");
            return Err(m);
        }
        proof {
            lemma_tokenize_words(key@);
            lemma_words_subrange(tv, 0, at as int);
            lemma_read_names_words(before);
            assert forall|k: int| 0 <= k < surnames@.len() implies key_word((#[trigger] surnames@[k])@) by {
                assert(strings_view(surnames@)[k] == surnames@[k]@);
                assert(read_names(before).0[k] == surnames@[k]@);
            }
        }
        Ok(CiteKey { key, surnames, year, et_al })
    }
}

impl Clone for CiteKey {
    fn clone(&self) -> (r: Self)
        ensures
            r.spec_key() == self.spec_key(),
            r.spec_surnames() == self.spec_surnames(),
            r.spec_year() == self.spec_year(),
            r.spec_et_al() == self.spec_et_al(),
    {
        proof {
            use_type_invariant(self);
        }
        let surnames = self.surnames.clone();
        assert(surnames@ == self.surnames@);
        CiteKey { key: self.key.clone(), surnames, year: self.year, et_al: self.et_al }
    }
}

impl core::str::FromStr for CiteKey {
    type Err = String;

    fn from_str(s: &str) -> (r: core::result::Result<CiteKey, String>)
        ensures
            match read_key(s@) {
                Ok((key, names, year, et_al)) => r matches Ok(k) && k.spec_key() == key
                    && strings_view(k.spec_surnames()) == names && k.spec_year() == year
                    && k.spec_et_al() == et_al,
                Err(m) => r matches Err(e) && e@ == m,
            },
    {
        CiteKey::parse(s)
    }
}

/// Where `p` occurs in `t` from `i` on, left to right and without overlap,
/// as `str::match_indices` finds it.
pub open spec fn match_positions(t: Seq<char>, p: Seq<char>, i: int) -> Seq<int>
    decreases t.len() - i,
{
    if p.len() == 0 || i < 0 || i + p.len() > t.len() {
        Seq::empty()
    } else if t.subrange(i, i + p.len()) == p {
        seq![i] + match_positions(t, p, i + p.len())
    } else {
        match_positions(t, p, i + 1)
    }
}

/// `s` with the `width` letters at `at` replaced by `mark`, keeping the case
/// that was there: `Overa` guessed at `o` gives `Øvera`, not `øvera`.
pub open spec fn respelled(s: Seq<char>, at: int, width: int, mark: char) -> Seq<char> {
    s.subrange(0, at) + (if capital(s[at]) {
        uppercase_of(mark)
    } else {
        seq![mark]
    }) + s.subrange(at + width, s.len() as int)
}

/// The guesses that put `mark` in place of `ascii` in the surname at `which`:
/// one for each place the surname spells `ascii`, if it is written in ascii.
pub open spec fn guesses_in(surnames: Seq<Seq<char>>, which: int, ascii: Seq<char>, mark: char) -> Seq<
    Seq<Seq<char>>,
> {
    let s = surnames[which];
    if !ascii_text(s) {
        Seq::empty()
    } else {
        match_positions(ascii_lowered(s), ascii, 0).map_values(
            |at: int| surnames.update(which, respelled(s, at, ascii.len() as int, mark)),
        )
    }
}

/// The guesses that put `mark` in place of `ascii`, in the first `n`
/// surnames, surname by surname.
pub open spec fn guesses_for_mark(surnames: Seq<Seq<char>>, ascii: Seq<char>, mark: char, n: int) -> Seq<
    Seq<Seq<char>>,
>
    decreases n,
{
    if n <= 0 {
        Seq::empty()
    } else {
        guesses_for_mark(surnames, ascii, mark, n - 1) + guesses_in(surnames, n - 1, ascii, mark)
    }
}

/// The guesses at the `rank`th likeliest mark of each of the first `k`
/// letters of `table`, letter by letter.
pub open spec fn rank_guesses(
    surnames: Seq<Seq<char>>,
    table: Seq<(Seq<char>, Seq<char>)>,
    rank: int,
    k: int,
) -> Seq<Seq<Seq<char>>>
    decreases k,
{
    if k <= 0 {
        Seq::empty()
    } else {
        rank_guesses(surnames, table, rank, k - 1) + if 0 <= rank < table[k - 1].1.len() {
            guesses_for_mark(surnames, table[k - 1].0, table[k - 1].1[rank], surnames.len() as int)
        } else {
            Seq::empty()
        }
    }
}

/// The guesses at the first `r` ranks of marks, rank by rank.
pub open spec fn ranked_guesses(surnames: Seq<Seq<char>>, r: int) -> Seq<Seq<Seq<char>>>
    decreases r,
{
    if r <= 0 {
        Seq::empty()
    } else {
        ranked_guesses(surnames, r - 1) + rank_guesses(surnames, marks(), r - 1, marks().len() as int)
    }
}

/// The most marks the table lists for one letter.
pub open spec fn deepest(table: Seq<(Seq<char>, Seq<char>)>) -> nat
    decreases table.len(),
{
    if table.len() == 0 {
        0
    } else {
        let rest = deepest(table.drop_last());
        if table.last().1.len() > rest {
            table.last().1.len()
        } else {
            rest
        }
    }
}

/// The accented spellings a key naming `surnames` could have been written
/// down from, the likeliest first: every mark of the table at its rank, the
/// ranks in order, each put in place of one spelling of its letter in one
/// ascii surname.
pub open spec fn spellings_of(surnames: Seq<Seq<char>>) -> Seq<Seq<Seq<char>>> {
    ranked_guesses(surnames, deepest(marks()) as int)
}

/// The view of a list of spellings.
pub open spec fn spellings_view(v: Seq<Vec<String>>) -> Seq<Seq<Seq<char>>> {
    v.map_values(|s: Vec<String>| strings_view(s@))
}

/// Whether every character of `s` is ascii.
fn is_ascii_text(s: &Vec<char>) -> (r: bool)
    ensures
        r == ascii_text(s@),
{
    let mut i: usize = 0;
    while i < s.len()
        invariant
            i <= s@.len(),
            forall|j: int| 0 <= j < i ==> (#[trigger] s@[j] as u32) < 128,
        decreases s@.len() - i,
    {
        if (s[i] as u32) >= 128 {
            return false;
        }
        i = i + 1;
    }
    true
}

/// Whether `p` occurs in `t` at `at`.
fn occurs_at(t: &Vec<char>, p: &Vec<char>, at: usize) -> (r: bool)
    requires
        at + p@.len() <= t@.len(),
    ensures
        r == (t@.subrange(at as int, at + p@.len()) == p@),
{
    let tl = t.len();
    let mut j: usize = 0;
    while j < p.len()
        invariant
            tl == t@.len(),
            at + p@.len() <= t@.len(),
            j <= p@.len(),
            forall|k: int| 0 <= k < j ==> t@[at + k] == p@[k],
        decreases p@.len() - j,
    {
        if t[at + j] != p[j] {
            assert(t@.subrange(at as int, at + p@.len())[j as int] != p@[j as int]);
            return false;
        }
        j = j + 1;
    }
    assert(t@.subrange(at as int, at + p@.len()) =~= p@);
    true
}

/// `s` with the `width` letters at `at` replaced by `mark`, keeping the case
/// that was there.
fn respell(s: &Vec<char>, at: usize, width: usize, mark: char) -> (r: String)
    requires
        at + width <= s@.len(),
        at < s@.len(),
    ensures
        r@ == respelled(s@, at as int, width as int, mark),
{
    let mut out = String::new();
    let mut i: usize = 0;
    while i < at
        invariant
            i <= at,
            at + width <= s@.len(),
            out@ == s@.subrange(0, i as int),
        decreases at - i,
    {
        push_char(&mut out, s[i]);
        assert(s@.subrange(0, i + 1) == s@.subrange(0, i as int).push(s@[i as int]));
        i = i + 1;
    }
    if is_upper_case(s[at]) {
        out.append(char_uppercase(mark).as_str());
    } else {
        push_char(&mut out, mark);
    }
    let ghost head = out@;
    let sl = s.len();
    assert(at + width <= sl);
    let mut j: usize = at + width;
    while j < s.len()
        invariant
            at + width <= j <= s@.len(),
            out@ == head + s@.subrange(at + width, j as int),
        decreases s@.len() - j,
    {
        push_char(&mut out, s[j]);
        assert(s@.subrange(at + width, j + 1) == s@.subrange(at + width, j as int).push(s@[j as int]));
        j = j + 1;
    }
    out
}

/// `surnames` with the one at `which` replaced by `name`.
fn replaced(surnames: &Vec<String>, which: usize, name: String) -> (r: Vec<String>)
    requires
        which < surnames@.len(),
    ensures
        strings_view(r@) == strings_view(surnames@).update(which as int, name@),
{
    let ghost target = strings_view(surnames@).update(which as int, name@);
    let mut r: Vec<String> = Vec::new();
    let mut name = Some(name);
    let ghost text = name->0@;
    let mut j: usize = 0;
    while j < surnames.len()
        invariant
            j <= surnames@.len(),
            which < surnames@.len(),
            target == strings_view(surnames@).update(which as int, text),
            j <= which ==> (name matches Some(n) && n@ == text),
            strings_view(r@) == target.subrange(0, j as int),
        decreases surnames@.len() - j,
    {
        let ghost before = r@;
        if j == which {
            let n = name.take().unwrap();
            r.push(n);
        } else {
            r.push(surnames[j].clone());
        }
        assert(strings_view(r@) == strings_view(before).push(r@.last()@));
        assert(target.subrange(0, j + 1) == target.subrange(0, j as int).push(target[j as int]));
        j = j + 1;
    }
    assert(target.subrange(0, surnames@.len() as int) == target);
    r
}

/// The lower case ascii letters of `s`, as characters.
fn lowered_chars(s: &Vec<char>) -> (r: Vec<char>)
    ensures
        r@ == ascii_lowered(s@),
{
    let mut r: Vec<char> = Vec::new();
    let mut i: usize = 0;
    while i < s.len()
        invariant
            i <= s@.len(),
            r@ == ascii_lowered(s@.subrange(0, i as int)),
        decreases s@.len() - i,
    {
        r.push(lower_ascii(s[i]));
        assert(ascii_lowered(s@.subrange(0, i + 1)) =~= ascii_lowered(s@.subrange(0, i as int)).push(
            ascii_lower(s@[i as int]),
        ));
        i = i + 1;
    }
    assert(s@.subrange(0, s@.len() as int) == s@);
    r
}

/// Appends the guesses that put `mark` in place of `ascii` in the surname at
/// `which`.
fn push_guesses_in(
    surnames: &Vec<String>,
    which: usize,
    ascii: &str,
    mark: char,
    out: &mut Vec<Vec<String>>,
)
    requires
        which < surnames@.len(),
    ensures
        spellings_view(final(out)@) == spellings_view(old(out)@) + guesses_in(
            strings_view(surnames@),
            which as int,
            ascii@,
            mark,
        ),
{
    let ghost sv = strings_view(surnames@);
    let s = chars_of(surnames[which].as_str());
    assert(s@ == sv[which as int]);
    if !is_ascii_text(&s) {
        assert(spellings_view(out@) + Seq::<Seq<Seq<char>>>::empty() == spellings_view(out@));
        return;
    }
    let t = lowered_chars(&s);
    let p = chars_of(ascii);
    let ghost start = spellings_view(out@);
    let ghost guess = |at: int| sv.update(which as int, respelled(s@, at, p@.len() as int, mark));
    let ghost all = match_positions(t@, p@, 0);
    let ghost emitted: Seq<int> = Seq::empty();
    let mut i: usize = 0;
    while p.len() > 0 && p.len() <= t.len() && i <= t.len() - p.len()
        invariant
            i <= t@.len(),
            t@.len() == s@.len(),
            t@ == ascii_lowered(s@),
            p@ == ascii@,
            sv == strings_view(surnames@),
            which < surnames@.len(),
            s@ == sv[which as int],
            all == match_positions(t@, p@, 0),
            all == emitted + match_positions(t@, p@, i as int),
            guess == (|at: int| sv.update(which as int, respelled(s@, at, p@.len() as int, mark))),
            spellings_view(out@) == start + emitted.map_values(guess),
        decreases t@.len() - i,
    {
        if occurs_at(&t, &p, i) {
            let name = respell(&s, i, p.len(), mark);
            let g = replaced(surnames, which, name);
            let ghost before = spellings_view(out@);
            out.push(g);
            assert(spellings_view(out@) == before.push(guess(i as int)));
            proof {
                assert(match_positions(t@, p@, i as int) == seq![i as int] + match_positions(
                    t@,
                    p@,
                    i + p@.len(),
                ));
                assert(emitted.push(i as int).map_values(guess) == emitted.map_values(guess).push(
                    guess(i as int),
                ));
                assert(emitted + (seq![i as int] + match_positions(t@, p@, i + p@.len())) == emitted.push(
                    i as int,
                ) + match_positions(t@, p@, i + p@.len()));
                emitted = emitted.push(i as int);
            }
            i = i + p.len();
        } else {
            i = i + 1;
        }
    }
    assert(match_positions(t@, p@, i as int) == Seq::<int>::empty());
    assert(emitted + Seq::<int>::empty() == emitted);
    assert(guesses_in(sv, which as int, ascii@, mark) == all.map_values(guess));
}

/// Appends the guesses that put `mark` in place of `ascii`, surname by surname.
fn push_guesses_for_mark(surnames: &Vec<String>, ascii: &str, mark: char, out: &mut Vec<Vec<String>>)
    ensures
        spellings_view(final(out)@) == spellings_view(old(out)@) + guesses_for_mark(
            strings_view(surnames@),
            ascii@,
            mark,
            surnames@.len() as int,
        ),
{
    let ghost start = spellings_view(out@);
    let mut which: usize = 0;
    while which < surnames.len()
        invariant
            which <= surnames@.len(),
            spellings_view(out@) == start + guesses_for_mark(
                strings_view(surnames@),
                ascii@,
                mark,
                which as int,
            ),
        decreases surnames@.len() - which,
    {
        push_guesses_in(surnames, which, ascii, mark, out);
        which = which + 1;
    }
}

/// Appends the guesses at the `rank`th likeliest mark of every letter of the
/// table, letter by letter.
fn push_rank_guesses(
    surnames: &Vec<String>,
    table: &Vec<(&'static str, &'static str)>,
    rank: usize,
    out: &mut Vec<Vec<String>>,
)
    ensures
        spellings_view(final(out)@) == spellings_view(old(out)@) + rank_guesses(
            strings_view(surnames@),
            pairs_view(table@),
            rank as int,
            table@.len() as int,
        ),
{
    let ghost start = spellings_view(out@);
    let ghost tv = pairs_view(table@);
    let mut k: usize = 0;
    while k < table.len()
        invariant
            k <= table@.len(),
            tv == pairs_view(table@),
            spellings_view(out@) == start + rank_guesses(
                strings_view(surnames@),
                tv,
                rank as int,
                k as int,
            ),
        decreases table@.len() - k,
    {
        let marked = chars_of(table[k].1);
        assert(marked@ == tv[k as int].1);
        let ghost before = spellings_view(out@);
        if rank < marked.len() {
            push_guesses_for_mark(surnames, table[k].0, marked[rank], out);
        } else {
            assert(before + Seq::<Seq<Seq<char>>>::empty() == before);
        }
        assert(start + rank_guesses(strings_view(surnames@), tv, rank as int, k + 1) == start
            + rank_guesses(strings_view(surnames@), tv, rank as int, k as int) + (if 0 <= rank
            < tv[k as int].1.len() {
            guesses_for_mark(
                strings_view(surnames@),
                tv[k as int].0,
                tv[k as int].1[rank as int],
                surnames@.len() as int,
            )
        } else {
            Seq::empty()
        }));
        k = k + 1;
    }
}

/// The most marks the table lists for one letter.
fn depth_of(table: &Vec<(&'static str, &'static str)>) -> (r: usize)
    ensures
        r == deepest(pairs_view(table@)),
{
    let ghost tv = pairs_view(table@);
    let mut best: usize = 0;
    let mut k: usize = 0;
    while k < table.len()
        invariant
            k <= table@.len(),
            tv == pairs_view(table@),
            best == deepest(tv.subrange(0, k as int)),
        decreases table@.len() - k,
    {
        let n = chars_of(table[k].1).len();
        assert(tv.subrange(0, k + 1).drop_last() == tv.subrange(0, k as int));
        assert(tv.subrange(0, k + 1).last().1.len() == n);
        if n > best {
            best = n;
        }
        k = k + 1;
    }
    assert(tv.subrange(0, tv.len() as int) == tv);
    best
}

impl CiteKey {
    /// The accented spellings this key could have been written down from, the
    /// likeliest first, each differing from the key in a single surname.
    ///
    /// Only ascii surnames are guessed at: a key that kept its diacritics
    /// needs no guessing. One letter at a time is a deliberate floor rather
    /// than a limit of the idea -- every further letter multiplies the
    /// requests, and a name that lost two marks is rare next to one that lost
    /// one.
    pub fn spellings(&self) -> (r: Vec<Vec<String>>)
        ensures
            spellings_view(r@) == spellings_of(strings_view(self.spec_surnames())),
    {
        let table = marks_table();
        let depth = depth_of(&table);
        let mut out: Vec<Vec<String>> = Vec::new();
        let mut rank: usize = 0;
        while rank < depth
            invariant
                rank <= depth,
                depth == deepest(marks()),
                pairs_view(table@) == marks(),
                table@.len() == marks().len(),
                spellings_view(out@) == ranked_guesses(
                    strings_view(self.surnames@),
                    rank as int,
                ),
            decreases depth - rank,
        {
            push_rank_guesses(&self.surnames, &table, rank, &mut out);
            rank = rank + 1;
        }
        out
    }
}

/// What every guess in `gs` is: the surnames with just the one at some `which`,
/// an ascii surname, respelled.
pub open spec fn one_surname_respelled(surnames: Seq<Seq<char>>, gs: Seq<Seq<Seq<char>>>) -> bool {
    forall|k: int| 0 <= k < gs.len() ==> respells_one(surnames, #[trigger] gs[k])
}

/// Whether `guess` is `surnames` with just the one at some `which`, an ascii
/// surname, respelled: one run of its letters, at `at` and `width` long,
/// replaced by a mark that is not ascii.
pub open spec fn respells_one(surnames: Seq<Seq<char>>, guess: Seq<Seq<char>>) -> bool {
    exists|which: int, at: int, width: int, mark: char|
        #![trigger surnames.update(which, respelled(surnames[which], at, width, mark))]
        0 <= which < surnames.len() && ascii_text(surnames[which]) && (mark as u32) >= 128 && 0
            <= at && 1 <= width && at + width <= surnames[which].len() && guess == surnames.update(
            which,
            respelled(surnames[which], at, width, mark),
        )
}

/// Where `p` occurs in `t` from `i` on lies within `t`, and `p` is not empty
/// wherever it occurs.
proof fn lemma_match_positions_within(t: Seq<char>, p: Seq<char>, i: int)
    ensures
        forall|k: int| 0 <= k < match_positions(t, p, i).len() ==> p.len() >= 1 && 0 <= i <= #[trigger] match_positions(t, p, i)[k]
            && match_positions(t, p, i)[k] + p.len() <= t.len(),
    decreases t.len() - i,
{
    if !(p.len() == 0 || i < 0 || i + p.len() > t.len()) {
        if t.subrange(i, i + p.len()) == p {
            lemma_match_positions_within(t, p, i + p.len());
            let m = match_positions(t, p, i);
            let rest = match_positions(t, p, i + p.len());
            assert(m == seq![i] + rest);
            assert forall|k: int| 0 <= k < m.len() implies p.len() >= 1 && 0 <= i <= #[trigger] m[k] && m[k] + p.len() <= t.len() by {
                if k > 0 {
                    assert(m[k] == rest[k - 1]);
                    assert(i + p.len() <= rest[k - 1]);
                } else {
                    assert(m[0] == i);
                }
            }
        } else {
            lemma_match_positions_within(t, p, i + 1);
            let m = match_positions(t, p, i);
            assert(m == match_positions(t, p, i + 1));
            assert forall|k: int| 0 <= k < m.len() implies p.len() >= 1 && 0 <= i <= #[trigger] m[k] && m[k] + p.len() <= t.len() by {
                assert(i + 1 <= match_positions(t, p, i + 1)[k]);
            }
        }
    }
}

/// A respelling that keeps a small letter puts the mark in, so an ascii
/// surname comes out no longer ascii, and so different.
pub proof fn lemma_respelled_lower_non_ascii(s: Seq<char>, at: int, width: int, mark: char)
    requires
        ascii_text(s),
        0 <= at,
        1 <= width,
        at + width <= s.len(),
        (mark as u32) >= 128,
        !capital(s[at]),
    ensures
        !ascii_text(respelled(s, at, width, mark)),
        respelled(s, at, width, mark) != s,
{
    let r = respelled(s, at, width, mark);
    assert(r[at] == mark);
}

/// Every mark the table lists is a letter outside ascii.
proof fn lemma_marks_not_ascii()
    ensures
        forall|k: int, r: int| 0 <= k < marks().len() && 0 <= r < marks()[k].1.len() ==> (#[trigger] marks()[k].1[r] as u32) >= 128,
{
    reveal_strlit("øöóòôõő");
    reveal_strlit("åäáàâãā");
    reveal_strlit("éèêëěę");
    reveal_strlit("üúùûů");
    reveal_strlit("íìîï");
    reveal_strlit("ñńň");
    reveal_strlit("çčć");
    reveal_strlit("šśş");
    reveal_strlit("žźż");
    reveal_strlit("ýÿ");
    reveal_strlit("ł");
    reveal_strlit("đð");
    reveal_strlit("ř");
    reveal_strlit("ť");
    reveal_strlit("ğ");
    reveal_strlit("æ");
    reveal_strlit("œ");
    reveal_strlit("ß");
    reveal_strlit("þ");
}

proof fn lemma_concat_respelled(
    surnames: Seq<Seq<char>>,
    a: Seq<Seq<Seq<char>>>,
    b: Seq<Seq<Seq<char>>>,
)
    requires
        one_surname_respelled(surnames, a),
        one_surname_respelled(surnames, b),
    ensures
        one_surname_respelled(surnames, a + b),
{
    assert forall|k: int| 0 <= k < (a + b).len() implies respells_one(surnames, #[trigger] (a + b)[k]) by {
        if k < a.len() {
            assert((a + b)[k] == a[k]);
        } else {
            assert((a + b)[k] == b[k - a.len()]);
        }
    }
}

proof fn lemma_guesses_in_respelled(surnames: Seq<Seq<char>>, which: int, ascii: Seq<char>, mark: char)
    requires
        0 <= which < surnames.len(),
        (mark as u32) >= 128,
    ensures
        one_surname_respelled(surnames, guesses_in(surnames, which, ascii, mark)),
{
    let gs = guesses_in(surnames, which, ascii, mark);
    let s = surnames[which];
    if ascii_text(s) {
        let m = match_positions(ascii_lowered(s), ascii, 0);
        lemma_match_positions_within(ascii_lowered(s), ascii, 0);
        assert forall|k: int| 0 <= k < gs.len() implies respells_one(surnames, #[trigger] gs[k]) by {
            let at = m[k];
            assert(gs[k] == surnames.update(which, respelled(s, at, ascii.len() as int, mark)));
            assert(ascii_lowered(s).len() == s.len());
        }
    }
}

proof fn lemma_mark_respelled(surnames: Seq<Seq<char>>, ascii: Seq<char>, mark: char, n: int)
    requires
        n <= surnames.len(),
        (mark as u32) >= 128,
    ensures
        one_surname_respelled(surnames, guesses_for_mark(surnames, ascii, mark, n)),
    decreases n,
{
    if n > 0 {
        lemma_mark_respelled(surnames, ascii, mark, n - 1);
        lemma_guesses_in_respelled(surnames, n - 1, ascii, mark);
        lemma_concat_respelled(
            surnames,
            guesses_for_mark(surnames, ascii, mark, n - 1),
            guesses_in(surnames, n - 1, ascii, mark),
        );
    }
}

proof fn lemma_rank_respelled(
    surnames: Seq<Seq<char>>,
    table: Seq<(Seq<char>, Seq<char>)>,
    rank: int,
    k: int,
)
    requires
        k <= table.len(),
        forall|q: int, r: int| 0 <= q < table.len() && 0 <= r < table[q].1.len() ==> (#[trigger] table[q].1[r] as u32) >= 128,
    ensures
        one_surname_respelled(surnames, rank_guesses(surnames, table, rank, k)),
    decreases k,
{
    if k > 0 {
        lemma_rank_respelled(surnames, table, rank, k - 1);
        let more = if 0 <= rank < table[k - 1].1.len() {
            guesses_for_mark(surnames, table[k - 1].0, table[k - 1].1[rank], surnames.len() as int)
        } else {
            Seq::empty()
        };
        if 0 <= rank < table[k - 1].1.len() {
            lemma_mark_respelled(
                surnames,
                table[k - 1].0,
                table[k - 1].1[rank],
                surnames.len() as int,
            );
        }
        lemma_concat_respelled(surnames, rank_guesses(surnames, table, rank, k - 1), more);
    }
}

/// Every spelling guessed for a key is the key's surnames with exactly one of
/// them respelled, and that one was written in ascii: one run of its letters
/// is replaced by a mark outside ascii, so that, where the letter replaced is
/// not a capital, the surname comes out no longer ascii
/// ([`lemma_respelled_lower_non_ascii`]). A key that kept its diacritics in
/// every surname is not guessed at.
pub proof fn lemma_spellings_change_one_ascii_surname(surnames: Seq<Seq<char>>)
    ensures
        one_surname_respelled(surnames, spellings_of(surnames)),
        (forall|i: int| 0 <= i < surnames.len() ==> !ascii_text(#[trigger] surnames[i])) ==> spellings_of(
            surnames,
        ).len() == 0,
{
    lemma_ranked_respelled(surnames, deepest(marks()) as int);
    let gs = spellings_of(surnames);
    if gs.len() > 0 {
        assert(respells_one(surnames, gs[0]));
    }
}

proof fn lemma_ranked_respelled(surnames: Seq<Seq<char>>, r: int)
    ensures
        one_surname_respelled(surnames, ranked_guesses(surnames, r)),
    decreases r,
{
    if r > 0 {
        lemma_ranked_respelled(surnames, r - 1);
        lemma_marks_not_ascii();
        lemma_rank_respelled(surnames, marks(), r - 1, marks().len() as int);
        lemma_concat_respelled(
            surnames,
            ranked_guesses(surnames, r - 1),
            rank_guesses(surnames, marks(), r - 1, marks().len() as int),
        );
    }
}

/// Why a work is not the one a [`CiteKey`] cites.
#[derive(Debug, Clone, PartialEq, Eq)]
pub enum Mismatch {
    /// the work carries no author or editor to check the key against
    NoAuthors,
    /// the key names someone else first
    NotFirstAuthor {
        /// the surname the key opens with
        expected: String,
        /// the work's first author
        found: String,
    },
    /// a surname the key names is credited nowhere after the ones before it
    MissingAuthor {
        /// the surname that is missing
        expected: String,
    },
    /// the key said `et al` of an author list with no one left over
    TooFewAuthors {
        /// how many the work credits
        found: usize,
    },
    /// the work is published too far from the year the key cites
    Year {
        /// the year the work was published
        found: i32,
        /// the year the key cites
        cited: i32,
    },
    /// the work carries no publication date at all
    Undated,
}

/// How a mismatch reads.
pub open spec fn mismatch_text(m: Mismatch) -> Seq<char> {
    match m {
        Mismatch::NoAuthors => "credits nobody"@,
        Mismatch::NotFirstAuthor { expected, found } => "opens with "@ + found@ + ", not "@
            + expected@,
        Mismatch::MissingAuthor { expected } => "does not credit "@ + expected@,
        Mismatch::TooFewAuthors { found } => "credits "@ + decimal(found as nat)
            + ", too few for an `et al`"@,
        Mismatch::Year { found, cited } => "published "@ + signed_decimal(found as int)
            + ", cited as "@ + signed_decimal(cited as int),
        Mismatch::Undated => "carries no publication date"@,
    }
}

impl Mismatch {
    /// How the mismatch reads, e.g. `published 2019, cited as 2022`.
    pub fn message(&self) -> (r: String)
        ensures
            r@ == mismatch_text(*self),
    {
        match self {
            Mismatch::NoAuthors => owned("credits nobody"),
            Mismatch::NotFirstAuthor { expected, found } => {
                let mut m = owned("opens with ");
                m.append(found.as_str());
                m.append(", not ");
                m.append(expected.as_str());
                m
            },
            Mismatch::MissingAuthor { expected } => {
                let mut m = owned("does not credit ");
                m.append(expected.as_str());
                m
            },
            Mismatch::TooFewAuthors { found } => {
                let mut m = owned("credits ");
                m.append(usize_text(*found).as_str());
                m.append(", too few for an `et al`");
                m
            },
            Mismatch::Year { found, cited } => {
                let mut m = owned("published ");
                m.append(i32_text(*found).as_str());
                m.append(", cited as ");
                m.append(i32_text(*cited).as_str());
                m
            },
            Mismatch::Undated => owned("carries no publication date"),
        }
    }
}

/// The texts of `ss`, one after another.
pub open spec fn concat_all(ss: Seq<Seq<char>>) -> Seq<char>
    decreases ss.len(),
{
    if ss.len() == 0 {
        Seq::empty()
    } else {
        concat_all(ss.drop_last()) + ss.last()
    }
}

/// How many of `surnames`, from the front and from `took` on, an author
/// called `family` answers for: the fewest whose texts run together to it.
pub open spec fn credit_from(surnames: Seq<Seq<char>>, family: Seq<char>, took: int) -> Option<int>
    decreases surnames.len() + 1 - took,
{
    if took < 1 || took > surnames.len() {
        None
    } else if concat_all(surnames.subrange(0, took)) == family {
        Some(took)
    } else {
        credit_from(surnames, family, took + 1)
    }
}

/// The first author from `at` on who answers for the next of `surnames`, and
/// how many of them.
pub open spec fn first_credit(surnames: Seq<Seq<char>>, credited: Seq<Seq<char>>, at: int) -> Option<
    (int, int),
>
    decreases credited.len() - at,
{
    if at < 0 || at >= credited.len() {
        None
    } else {
        match credit_from(surnames, credited[at], 1) {
            Some(took) => Some((at, took)),
            None => first_credit(surnames, credited, at + 1),
        }
    }
}

/// Walks the key's surnames, from the `s`th, along the work's authors, from
/// the `f`th, both folded.
pub open spec fn walk(
    surnames: Seq<String>,
    families: Seq<String>,
    folded_names: Seq<Seq<char>>,
    credited: Seq<Seq<char>>,
    s: int,
    f: int,
) -> Seq<Mismatch>
    decreases folded_names.len() - s,
{
    if s < 0 || s >= folded_names.len() {
        Seq::empty()
    } else {
        match first_credit(folded_names.subrange(s, folded_names.len() as int), credited, f) {
            Some((at, took)) => if s == 0 && at != 0 {
                seq![Mismatch::NotFirstAuthor { expected: surnames[0], found: families[0] }]
            } else if took >= 1 && s + took <= folded_names.len() {
                walk(surnames, families, folded_names, credited, s + took, at + 1)
            } else {
                Seq::empty()
            },
            None => seq![Mismatch::MissingAuthor { expected: surnames[s] }],
        }
    }
}

/// The folded text of each string.
pub open spec fn folds(ss: Seq<String>) -> Seq<Seq<char>> {
    ss.map_values(|x: String| folded(x@))
}

/// Why the authors `families` are not the ones the key's `surnames` name:
/// nothing when the surnames are credited in the key's order, the first by
/// the first author; otherwise the first thing that went wrong.
pub open spec fn unmatched(surnames: Seq<String>, families: Seq<String>) -> Seq<Mismatch> {
    if families.len() == 0 {
        seq![Mismatch::NoAuthors]
    } else {
        walk(surnames, families, folds(surnames), folds(families), 0, 0)
    }
}

/// How many of `surnames`, from the front, an author called `family`
/// answers for, or [`None`] if the author is not the next one the key names.
fn credits(surnames: &[String], from: usize, family: &String) -> (r: Option<usize>)
    requires
        from <= surnames@.len(),
    ensures
        match credit_from(strings_view(surnames@).subrange(from as int, surnames@.len() as int), family@, 1) {
            Some(t) => r == Some(t as usize),
            None => r is None,
        },
{
    let ghost ss = strings_view(surnames@).subrange(from as int, surnames@.len() as int);
    let mut acc = String::new();
    let mut k: usize = from;
    while k < surnames.len()
        invariant
            from <= k <= surnames@.len(),
            ss == strings_view(surnames@).subrange(from as int, surnames@.len() as int),
            acc@ == concat_all(ss.subrange(0, k - from)),
            credit_from(ss, family@, 1) == credit_from(ss, family@, k - from + 1),
        decreases surnames@.len() - k,
    {
        acc.append(surnames[k].as_str());
        assert(ss.subrange(0, k - from + 1).drop_last() == ss.subrange(0, k - from));
        assert(ss.subrange(0, k - from + 1).last() == surnames@[k as int]@);
        if crate::text::str_eq(acc.as_str(), family.as_str()) {
            return Some(k - from + 1);
        }
        k = k + 1;
    }
    None
}

/// The folded text of each string.
fn fold_all(ss: &[String]) -> (r: Vec<String>)
    ensures
        strings_view(r@) == folds(ss@),
{
    let mut r: Vec<String> = Vec::new();
    let mut i: usize = 0;
    while i < ss.len()
        invariant
            i <= ss@.len(),
            strings_view(r@) == folds(ss@.subrange(0, i as int)),
        decreases ss@.len() - i,
    {
        let ghost before = r@;
        r.push(fold(ss[i].as_str()));
        assert(strings_view(r@) == strings_view(before).push(r@.last()@));
        assert(folds(ss@.subrange(0, i + 1)) == folds(ss@.subrange(0, i as int)).push(
            folded(ss@[i as int]@),
        ));
        i = i + 1;
    }
    assert(ss@.subrange(0, ss@.len() as int) == ss@);
    r
}

/// The first author from `at` on who answers for the surnames from `s` on,
/// and how many of them.
fn find_credit(folded_names: &Vec<String>, s: usize, credited: &Vec<String>, at: usize) -> (r: Option<
    (usize, usize),
>)
    requires
        s <= folded_names@.len(),
    ensures
        match first_credit(
            strings_view(folded_names@).subrange(s as int, folded_names@.len() as int),
            strings_view(credited@),
            at as int,
        ) {
            Some((a, t)) => r == Some((a as usize, t as usize)),
            None => r is None,
        },
{
    let ghost ss = strings_view(folded_names@).subrange(s as int, folded_names@.len() as int);
    let ghost cv = strings_view(credited@);
    let mut a: usize = at;
    while a < credited.len()
        invariant
            s <= folded_names@.len(),
            ss == strings_view(folded_names@).subrange(s as int, folded_names@.len() as int),
            cv == strings_view(credited@),
            at <= a,
            first_credit(ss, cv, at as int) == first_credit(ss, cv, a as int),
        decreases credited@.len() - a,
    {
        assert(cv[a as int] == credited@[a as int]@);
        match credits(folded_names.as_slice(), s, &credited[a]) {
            Some(t) => {
                return Some((a, t));
            },
            None => {},
        }
        a = a + 1;
    }
    None
}

impl CiteKey {
    /// Walks the key's surnames along the work's authors: they have to appear
    /// in the order the key gives them, starting at the first author, which is
    /// the one thing every citation key style agrees on.
    ///
    /// An author may answer for more than one of the key's surnames, because
    /// camel case cannot say whether `VanDijk` is one name or two. `van Dijk`
    /// takes both; two authors named `Le` and `Nguyen` take one each.
    pub fn unmatched_authors(&self, families: &[String]) -> (r: Vec<Mismatch>)
        ensures
            r@ == unmatched(self.spec_surnames(), families@),
    {
        proof {
            use_type_invariant(self);
        }
        let folded_names = fold_all(self.surnames.as_slice());
        let credited = fold_all(families);
        if families.len() == 0 {
            return vec![Mismatch::NoAuthors];
        }
        let ghost sn = self.surnames@;
        let ghost fv = folds(sn);
        let ghost cv = folds(families@);
        let mut surname: usize = 0;
        let mut family: usize = 0;
        let cl = credited.len();
        while surname < folded_names.len()
            invariant
                cl == credited@.len(),
                sn == self.surnames@,
                strings_view(folded_names@) == fv,
                fv == folds(sn),
                strings_view(credited@) == cv,
                cv == folds(families@),
                families@.len() > 0,
                sn.len() > 0,
                surname <= fv.len(),
                surname > 0 ==> family > 0,
                walk(sn, families@, fv, cv, 0, 0) == walk(sn, families@, fv, cv, surname as int, family as int),
            decreases fv.len() - surname,
        {
            proof {
                lemma_credit_takes_some(fv.subrange(surname as int, fv.len() as int), cv, family as int);
            }
            match find_credit(&folded_names, surname, &credited, family) {
                Some((at, took)) => {
                    if surname == 0 && at != 0 {
                        return vec![
                            Mismatch::NotFirstAuthor {
                                expected: self.surnames[0].clone(),
                                found: families[0].clone(),
                            },
                        ];
                    }
                    surname = surname + took;
                    family = at + 1;
                },
                None => {
                    return vec![Mismatch::MissingAuthor { expected: self.surnames[surname].clone() }];
                },
            }
        }
        Vec::new()
    }
}

proof fn lemma_credit_from_bounds(surnames: Seq<Seq<char>>, family: Seq<char>, took: int)
    ensures
        credit_from(surnames, family, took) matches Some(t) ==> took <= t <= surnames.len() && 1 <= t,
    decreases surnames.len() + 1 - took,
{
    if took >= 1 && took <= surnames.len() && concat_all(surnames.subrange(0, took)) != family {
        lemma_credit_from_bounds(surnames, family, took + 1);
    }
}

proof fn lemma_credit_takes_some(surnames: Seq<Seq<char>>, credited: Seq<Seq<char>>, at: int)
    ensures
        first_credit(surnames, credited, at) matches Some((a, t)) ==> 1 <= t <= surnames.len()
            && at <= a < credited.len(),
    decreases credited.len() - at,
{
    if 0 <= at < credited.len() {
        lemma_credit_from_bounds(surnames, credited[at], 1);
        lemma_credit_takes_some(surnames, credited, at + 1);
    }
}

/// What a work credits a contributor under: the family name of a person, the
/// whole name of an organisation.
#[derive(Debug, Clone)]
pub struct Contributor {
    /// the family name of a person
    pub family: Option<String>,
    /// the name of an organisation
    pub name: Option<String>,
}

/// What to hold a contributor to: the family name of a person, the whole name
/// of an organisation, nothing for a contributor with neither.
pub open spec fn credited_name(c: Contributor) -> Option<Seq<char>> {
    match c.family {
        Some(f) => Some(f@),
        None => match c.name {
            Some(n) => Some(n@),
            None => None,
        },
    }
}

/// The names the contributors are credited under, in order, leaving out those
/// with none.
pub open spec fn names_of(cs: Seq<Contributor>) -> Seq<Seq<char>>
    decreases cs.len(),
{
    if cs.len() == 0 {
        Seq::empty()
    } else {
        match credited_name(cs.last()) {
            Some(n) => names_of(cs.drop_last()).push(n),
            None => names_of(cs.drop_last()),
        }
    }
}

/// The surnames a citation would name a work by: its authors, or the editors
/// of one deposited without any, which is how crossref carries edited volumes.
pub open spec fn families_of(author: Option<Vec<Contributor>>, editor: Option<Vec<Contributor>>) -> Seq<
    Seq<char>,
> {
    match author {
        Some(a) if a@.len() > 0 => names_of(a@),
        _ => match editor {
            Some(e) if e@.len() > 0 => names_of(e@),
            _ => Seq::empty(),
        },
    }
}

/// The names the contributors are credited under, in order.
fn names(cs: &Vec<Contributor>) -> (r: Vec<String>)
    ensures
        strings_view(r@) == names_of(cs@),
{
    let mut r: Vec<String> = Vec::new();
    let mut i: usize = 0;
    while i < cs.len()
        invariant
            i <= cs@.len(),
            strings_view(r@) == names_of(cs@.subrange(0, i as int)),
        decreases cs@.len() - i,
    {
        let ghost before = r@;
        assert(cs@.subrange(0, i + 1).drop_last() == cs@.subrange(0, i as int));
        assert(cs@.subrange(0, i + 1).last() == cs@[i as int]);
        match &cs[i].family {
            Some(f) => {
                r.push(f.clone());
                assert(strings_view(r@) == strings_view(before).push(f@));
            },
            None => match &cs[i].name {
                Some(n) => {
                    r.push(n.clone());
                    assert(strings_view(r@) == strings_view(before).push(n@));
                },
                None => {},
            },
        }
        i = i + 1;
    }
    assert(cs@.subrange(0, cs@.len() as int) == cs@);
    r
}

/// The surnames a citation would name a work by: its authors, or the editors
/// of one deposited without any.
///
/// Organisations are credited under a single `name` rather than a family name,
/// and are taken as they stand -- a key can name one as readily as a person.
pub fn families(author: &Option<Vec<Contributor>>, editor: &Option<Vec<Contributor>>) -> (r: Vec<
    String,
>)
    ensures
        strings_view(r@) == families_of(*author, *editor),
{
    match author {
        Some(a) if a.len() > 0 => {
            return names(a);
        },
        _ => {},
    }
    match editor {
        Some(e) if e.len() > 0 => names(e),
        _ => Vec::new(),
    }
}

/// The earliest of the years that are there.
pub open spec fn earliest(years: Seq<Option<i32>>) -> Option<i32>
    decreases years.len(),
{
    if years.len() == 0 {
        None
    } else {
        match (earliest(years.drop_last()), years.last()) {
            (Some(a), Some(b)) => Some(if b < a {
                b
            } else {
                a
            }),
            (Some(a), None) => Some(a),
            (None, b) => b,
        }
    }
}

/// The year to hold a work to: the earliest of the years it was published
/// in (issued, online, in print, posted), since that is the one a
/// bibliography is built from.
pub fn published_year(years: &[Option<i32>]) -> (r: Option<i32>)
    ensures
        r == earliest(years@),
{
    let mut best: Option<i32> = None;
    let mut i: usize = 0;
    while i < years.len()
        invariant
            i <= years@.len(),
            best == earliest(years@.subrange(0, i as int)),
        decreases years@.len() - i,
    {
        assert(years@.subrange(0, i + 1).drop_last() == years@.subrange(0, i as int));
        assert(years@.subrange(0, i + 1).last() == years@[i as int]);
        best = match (best, years[i]) {
            (Some(a), Some(b)) => Some(if b < a {
                b
            } else {
                a
            }),
            (Some(a), None) => Some(a),
            (None, b) => b,
        };
        i = i + 1;
    }
    assert(years@.subrange(0, years@.len() as int) == years@);
    best
}

/// Whether a year is within `within` years of the year cited.
pub open spec fn close_enough(year: i32, cited: i32, within: i32) -> bool {
    -(within as int) <= year - cited <= within
}

/// Whether the work's year is far from the one cited, or missing.
pub open spec fn year_mismatches(year: Option<i32>, cited: i32, within: i32) -> Seq<Mismatch> {
    match year {
        Some(y) => if close_enough(y, cited, within) {
            Seq::empty()
        } else {
            seq![Mismatch::Year { found: y, cited }]
        },
        None => seq![Mismatch::Undated],
    }
}

/// Every reason a work credited to `families` and published in `year` is
/// not the one `key` cites.
pub open spec fn key_mismatches(key: CiteKey, families: Seq<String>, year: Option<i32>, within: i32) -> Seq<
    Mismatch,
> {
    year_mismatches(year, key.spec_year(), within) + unmatched(key.spec_surnames(), families) + if key.spec_et_al()
        && families.len() <= key.spec_surnames().len() {
        seq![Mismatch::TooFewAuthors { found: families.len() as usize }]
    } else {
        Seq::empty()
    }
}

impl CiteKey {
    /// Why a work credited to `families` and published in `year` is not the
    /// one the key cites, or nothing at all when it is. `within` is how many
    /// years either side of the key's year still count as the same
    /// publication.
    ///
    /// Every reason is reported rather than the first, because a near miss is
    /// worth reading: a work off by a year and nothing else is a different
    /// answer than a work by different people.
    pub fn mismatches(&self, families: &[String], year: Option<i32>, within: i32) -> (r: Vec<Mismatch>)
        ensures
            r@ == key_mismatches(*self, families@, year, within),
    {
        let mut out: Vec<Mismatch> = Vec::new();
        match year {
            Some(y) => {
                let d = (y as i64) - (self.year as i64);
                if !(-(within as i64) <= d && d <= within as i64) {
                    out.push(Mismatch::Year { found: y, cited: self.year });
                }
            },
            None => {
                out.push(Mismatch::Undated);
            },
        }
        let ghost first = out@;
        let mut more = self.unmatched_authors(families);
        out.append(&mut more);
        let ghost second = out@;
        if self.et_al && families.len() <= self.surnames.len() {
            out.push(Mismatch::TooFewAuthors { found: families.len() });
        }
        assert(out@ =~= key_mismatches(*self, families@, year, within));
        out
    }
}

/// A key vouches for a work only if the work's first author answers for the
/// key's first surname: the one thing every citation key style agrees on.
pub proof fn lemma_first_author_answers(surnames: Seq<String>, families: Seq<String>)
    requires
        surnames.len() > 0,
        unmatched(surnames, families).len() == 0,
    ensures
        families.len() > 0,
        credit_from(folds(surnames), folds(families)[0], 1) is Some,
{
    let fv = folds(surnames);
    let cv = folds(families);
    assert(fv.subrange(0, fv.len() as int) == fv);
    lemma_credit_takes_some(fv, cv, 0);
    if credit_from(fv, cv[0], 1) is None {
        lemma_first_credit_skips(fv, cv, 1);
    }
}

proof fn lemma_first_credit_skips(surnames: Seq<Seq<char>>, credited: Seq<Seq<char>>, at: int)
    requires
        0 < at,
    ensures
        first_credit(surnames, credited, at) matches Some((a, t)) ==> a >= at,
    decreases credited.len() - at,
{
    if at < credited.len() {
        lemma_first_credit_skips(surnames, credited, at + 1);
    }
}

/// Whether every character of `s` is an ascii letter or digit.
pub open spec fn alnum_only(s: Seq<char>) -> bool {
    forall|i: int| 0 <= i < s.len() ==> ascii_alnum(#[trigger] s[i])
}

proof fn lemma_alnum_concat(a: Seq<char>, b: Seq<char>)
    requires
        alnum_only(a),
        alnum_only(b),
    ensures
        alnum_only(a + b),
{
    assert forall|i: int| 0 <= i < (a + b).len() implies ascii_alnum(#[trigger] (a + b)[i]) by {
        if i < a.len() {
            assert((a + b)[i] == a[i]);
        } else {
            assert((a + b)[i] == b[i - a.len()]);
        }
    }
}

proof fn lemma_first_base_listed(table: Seq<(Seq<char>, Seq<char>)>, l: char)
    ensures
        first_base(table, l) matches Some(a) ==> exists|k: int| 0 <= k < table.len() && #[trigger] table[k].0 == a,
    decreases table.len(),
{
    if table.len() > 0 && !table[0].1.contains(l) {
        lemma_first_base_listed(table.drop_first(), l);
        if first_base(table.drop_first(), l) is Some {
            let k = choose|k: int| 0 <= k < table.drop_first().len() && #[trigger] table.drop_first()[k].0 == first_base(table.drop_first(), l)->0;
            assert(table[k + 1] == table.drop_first()[k]);
        }
    } else if table.len() > 0 {
        assert(table[0].0 == table[0].0);
    }
}

proof fn lemma_bases_alnum()
    ensures
        forall|k: int| 0 <= k < marks().len() ==> lower_alnum_only(#[trigger] marks()[k].0),
        forall|k: int| 0 <= k < marks().len() ==> alnum_only(#[trigger] marks()[k].0),
{
    reveal_strlit("o");
    reveal_strlit("a");
    reveal_strlit("e");
    reveal_strlit("u");
    reveal_strlit("i");
    reveal_strlit("n");
    reveal_strlit("c");
    reveal_strlit("s");
    reveal_strlit("z");
    reveal_strlit("y");
    reveal_strlit("l");
    reveal_strlit("d");
    reveal_strlit("r");
    reveal_strlit("t");
    reveal_strlit("g");
    reveal_strlit("ae");
    reveal_strlit("oe");
    reveal_strlit("ss");
    reveal_strlit("th");
    assert forall|k: int| 0 <= k < marks().len() implies lower_alnum_only(#[trigger] marks()[k].0) by {
        let b = marks()[k].0;
        assert forall|i: int| 0 <= i < b.len() implies lower_alnum(#[trigger] b[i]) by {
        }
    }
    assert forall|k: int| 0 <= k < marks().len() implies alnum_only(#[trigger] marks()[k].0) by {
        let b = marks()[k].0;
        assert forall|i: int| 0 <= i < b.len() implies ascii_alnum(#[trigger] b[i]) by {
            assert(lower_alnum_only(marks()[k].0));
            assert(lower_alnum(b[i]));
        }
    }
}

proof fn lemma_lower_concat(a: Seq<char>, b: Seq<char>)
    requires
        lower_alnum_only(a),
        lower_alnum_only(b),
    ensures
        lower_alnum_only(a + b),
{
    assert forall|i: int| 0 <= i < (a + b).len() implies lower_alnum(#[trigger] (a + b)[i]) by {
        if i < a.len() {
            assert((a + b)[i] == a[i]);
        } else {
            assert((a + b)[i] == b[i - a.len()]);
        }
    }
}

proof fn lemma_fold_letter_lower(l: char)
    requires
        !('A' <= l && l <= 'Z'),
    ensures
        lower_alnum_only(fold_letter(l)),
{
    if !ascii_alnum(l) {
        lemma_first_base_listed(marks(), l);
        lemma_bases_alnum();
        if first_base(marks(), l) is Some {
            let k = choose|k: int| 0 <= k < marks().len() && #[trigger] marks()[k].0 == first_base(marks(), l)->0;
            assert(lower_alnum_only(marks()[k].0));
        }
    } else {
        assert(fold_letter(l) == seq![l]);
        assert(lower_alnum(l));
    }
}

proof fn lemma_fold_letters_lower(ls: Seq<char>)
    requires
        no_capital(ls),
    ensures
        lower_alnum_only(fold_letters(ls)),
    decreases ls.len(),
{
    if ls.len() > 0 {
        assert(no_capital(ls.drop_last())) by {
            assert forall|i: int| 0 <= i < ls.drop_last().len() implies !('A' <= #[trigger] ls.drop_last()[i] && ls.drop_last()[i] <= 'Z') by {
                assert(ls.drop_last()[i] == ls[i]);
            }
        }
        lemma_fold_letters_lower(ls.drop_last());
        assert(!('A' <= ls[ls.len() - 1] && ls[ls.len() - 1] <= 'Z'));
        lemma_fold_letter_lower(ls.last());
        lemma_lower_concat(fold_letters(ls.drop_last()), fold_letter(ls.last()));
    }
}

/// Folding what is already made of ascii lower case letters and digits
/// changes nothing: a folded name folds to itself.
pub proof fn lemma_fold_fixes(t: Seq<char>)
    requires
        lower_alnum_only(t),
    ensures
        folded(t) == t,
    decreases t.len(),
{
    if t.len() > 0 {
        let c = t.last();
        assert(lower_alnum(t[t.len() - 1]));
        assert(lower_alnum_only(t.drop_last())) by {
            assert forall|i: int| 0 <= i < t.drop_last().len() implies lower_alnum(#[trigger] t.drop_last()[i]) by {
                assert(t.drop_last()[i] == t[i]);
            }
        }
        lemma_fold_fixes(t.drop_last());
        assert((c as u32) < 128);
        assert(ascii_lower(c) == c);
        assert(lower_of(c) == seq![c]);
        assert(seq![c].drop_last() == Seq::<char>::empty());
        assert(fold_letters(seq![c]) == fold_letters(Seq::<char>::empty()) + fold_letter(c));
        assert(fold_letter(c) == seq![c]);
        assert(fold_letters(seq![c]) == seq![c]);
        assert(t == t.drop_last() + seq![c]);
    }
}

proof fn lemma_fold_letter_alnum(l: char)
    ensures
        alnum_only(fold_letter(l)),
{
    if !ascii_alnum(l) {
        lemma_first_base_listed(marks(), l);
        lemma_bases_alnum();
        if first_base(marks(), l) is Some {
            let k = choose|k: int| 0 <= k < marks().len() && #[trigger] marks()[k].0 == first_base(marks(), l)->0;
            assert(alnum_only(marks()[k].0));
        }
    }
}

proof fn lemma_fold_letters_alnum(ls: Seq<char>)
    ensures
        alnum_only(fold_letters(ls)),
    decreases ls.len(),
{
    if ls.len() > 0 {
        lemma_fold_letters_alnum(ls.drop_last());
        lemma_fold_letter_alnum(ls.last());
        lemma_alnum_concat(fold_letters(ls.drop_last()), fold_letter(ls.last()));
    }
}

/// A folded name is made of ascii letters and digits only: spaces, hyphens,
/// apostrophes and every other mark are gone.
pub proof fn lemma_folded_is_alnum(s: Seq<char>)
    ensures
        alnum_only(folded(s)),
    decreases s.len(),
{
    if s.len() > 0 {
        lemma_folded_is_alnum(s.drop_last());
        lemma_fold_letters_alnum(lower_of(s.last()));
        lemma_alnum_concat(folded(s.drop_last()), fold_letters(lower_of(s.last())));
    }
}

/// Whatever a key reads as names someone and gives a year: the key is the
/// text without its surrounding whitespace and leading `@`s, it names at
/// least one surname, each of two or more alphanumeric characters, and its
/// year lies from 1400 to 2200.
pub proof fn lemma_read_key_names_someone(raw: Seq<char>)
    ensures
        read_key(raw) matches Ok((key, names, year, _)) ==> {
            &&& key == strip_ats(trim(raw))
            &&& names.len() > 0
            &&& forall|i: int| 0 <= i < names.len() ==> (#[trigger] names[i]).len() >= 2 && key_word(names[i])
            &&& 1400 <= year <= 2200
        },
{
    let key = strip_ats(trim(raw));
    let toks = tokenize(key).0;
    lemma_tokenize_words(key);
    if let Some(at) = last_year(toks) {
        lemma_last_year_in(toks);
        lemma_words_subrange(toks, 0, at);
        lemma_read_names_words(toks.subrange(0, at));
    }
}

proof fn lemma_last_year_in(toks: Seq<Seq<char>>)
    ensures
        last_year(toks) matches Some(at) ==> 0 <= at < toks.len() && year_token(toks[at]),
    decreases toks.len(),
{
    if toks.len() > 0 && !year_token(toks.last()) {
        lemma_last_year_in(toks.drop_last());
        if let Some(at) = last_year(toks.drop_last()) {
            assert(toks.drop_last()[at] == toks[at]);
        }
    }
}

/// `@` is not whitespace.
proof fn lemma_at_not_white()
    ensures
        !white_space('@'),
{
}

proof fn lemma_trim_end_front(c: char, s: Seq<char>)
    requires
        !white_space(c),
    ensures
        trim_end(seq![c] + s) == seq![c] + trim_end(s),
    decreases s.len(),
{
    if s.len() > 0 {
        assert((seq![c] + s).last() == s.last());
        if white_space(s.last()) {
            assert((seq![c] + s).drop_last() == seq![c] + s.drop_last());
            lemma_trim_end_front(c, s.drop_last());
        }
    } else {
        assert(seq![c] + s == seq![c]);
        assert(seq![c].last() == c);
    }
}

/// The leading `@` is optional: a key written with one reads as the same key,
/// or fails the same way, as the key written without it.
pub proof fn lemma_leading_at_optional(s: Seq<char>)
    requires
        trim_start(s) == s,
    ensures
        read_key(seq!['@'] + s) == read_key(s),
{
    let t = seq!['@'] + s;
    lemma_at_not_white();
    assert(t[0] == '@');
    assert(trim_start(t) == t);
    lemma_trim_end_front('@', s);
    assert(trim(t) == seq!['@'] + trim(s));
    assert((seq!['@'] + trim(s)).drop_first() == trim(s));
    assert(strip_ats(trim(t)) == strip_ats(trim(s)));
}

/// The groups a walk of the surnames from the `s`th along the authors from
/// the `f`th finds, in order: where each group starts among the surnames, how
/// many surnames it takes, and which author answers for it.
pub open spec fn found_groups(fv: Seq<Seq<char>>, cv: Seq<Seq<char>>, s: int, f: int) -> Seq<(int, int, int)>
    decreases fv.len() - s,
{
    if s < 0 || s >= fv.len() {
        Seq::empty()
    } else {
        match first_credit(fv.subrange(s, fv.len() as int), cv, f) {
            Some((at, took)) => if took >= 1 && s + took <= fv.len() {
                seq![(s, took, at)] + found_groups(fv, cv, s + took, at + 1)
            } else {
                Seq::empty()
            },
            None => Seq::empty(),
        }
    }
}

/// Whether `g` groups the surnames `fv` from the `s`th to the end into runs
/// that follow one another, each answered for by one of the authors `cv`,
/// later authors for later runs, the first from the `f`th on.
pub open spec fn groups_cover(fv: Seq<Seq<char>>, cv: Seq<Seq<char>>, g: Seq<(int, int, int)>, s: int, f: int) -> bool {
    &&& g.len() > 0
    &&& g[0].0 == s
    &&& g[0].2 >= f
    &&& g.last().0 + g.last().1 == fv.len()
    &&& forall|j: int| 0 <= j < g.len() ==> {
        &&& 1 <= (#[trigger] g[j]).1
        &&& 0 <= g[j].0
        &&& g[j].0 + g[j].1 <= fv.len()
        &&& 0 <= g[j].2 < cv.len()
        &&& concat_all(fv.subrange(g[j].0, g[j].0 + g[j].1)) == cv[g[j].2]
    }
    &&& forall|j: int| 0 <= j < g.len() - 1 ==> #[trigger] g[j + 1].0 == g[j].0 + g[j].1 && g[j + 1].2 > g[j].2
}

proof fn lemma_first_credit_found(surnames: Seq<Seq<char>>, credited: Seq<Seq<char>>, at: int)
    ensures
        first_credit(surnames, credited, at) matches Some((a, t)) ==> credit_from(surnames, credited[a], 1) == Some(t),
    decreases credited.len() - at,
{
    if 0 <= at < credited.len() && credit_from(surnames, credited[at], 1) is None {
        lemma_first_credit_found(surnames, credited, at + 1);
    }
}

proof fn lemma_credit_from_concat(surnames: Seq<Seq<char>>, family: Seq<char>, took: int)
    ensures
        credit_from(surnames, family, took) matches Some(t) ==> concat_all(surnames.subrange(0, t)) == family,
    decreases surnames.len() + 1 - took,
{
    if took >= 1 && took <= surnames.len() && concat_all(surnames.subrange(0, took)) != family {
        lemma_credit_from_concat(surnames, family, took + 1);
    }
}

proof fn lemma_walk_groups(
    surnames: Seq<String>,
    families: Seq<String>,
    fv: Seq<Seq<char>>,
    cv: Seq<Seq<char>>,
    s: int,
    f: int,
)
    requires
        0 <= s < fv.len(),
        walk(surnames, families, fv, cv, s, f).len() == 0,
    ensures
        groups_cover(fv, cv, found_groups(fv, cv, s, f), s, f),
        s == 0 ==> found_groups(fv, cv, s, f)[0].2 == 0,
    decreases fv.len() - s,
{
    let rest = fv.subrange(s, fv.len() as int);
    lemma_credit_takes_some(rest, cv, f);
    lemma_first_credit_found(rest, cv, f);
    match first_credit(rest, cv, f) {
        Some((at, took)) => {
            lemma_credit_from_concat(rest, cv[at], 1);
            assert(rest.subrange(0, took) == fv.subrange(s, s + took));
            let g = found_groups(fv, cv, s, f);
            let x = (s, took, at);
            if s + took < fv.len() {
                lemma_walk_groups(surnames, families, fv, cv, s + took, at + 1);
                let tail = found_groups(fv, cv, s + took, at + 1);
                assert(g == seq![x] + tail);
                assert(g.last() == tail.last());
                assert forall|j: int| 0 <= j < g.len() implies {
                    &&& 1 <= (#[trigger] g[j]).1
                    &&& 0 <= g[j].0
                    &&& g[j].0 + g[j].1 <= fv.len()
                    &&& 0 <= g[j].2 < cv.len()
                    &&& concat_all(fv.subrange(g[j].0, g[j].0 + g[j].1)) == cv[g[j].2]
                } by {
                    if j > 0 {
                        assert(g[j] == tail[j - 1]);
                    }
                }
                assert forall|j: int| 0 <= j < g.len() - 1 implies #[trigger] g[j + 1].0 == g[j].0 + g[j].1
                    && g[j + 1].2 > g[j].2 by {
                    assert(g[j + 1] == tail[j]);
                    if j > 0 {
                        assert(g[j] == tail[j - 1]);
                        let i = j - 1;
                        assert(0 <= i < tail.len() - 1);
                        assert(tail[i + 1].0 == tail[i].0 + tail[i].1 && tail[i + 1].2 > tail[i].2);
                        assert(i + 1 == j);
                    } else {
                        assert(g[0] == x);
                        assert(tail[0].0 == s + took && tail[0].2 >= at + 1);
                    }
                }
            } else {
                assert(found_groups(fv, cv, s + took, at + 1) == Seq::<(int, int, int)>::empty());
                assert(g == seq![x]);
            }
        },
        None => {},
    }
}

/// Every surname of a key vouching for a work is credited, and in the key's
/// order: the surnames fall into consecutive runs, each run answered for by
/// one author, later runs by later authors, and the first run by the first
/// author.
pub proof fn lemma_credited_in_order(surnames: Seq<String>, families: Seq<String>)
    requires
        surnames.len() > 0,
        unmatched(surnames, families).len() == 0,
    ensures
        families.len() > 0,
        groups_cover(folds(surnames), folds(families), found_groups(folds(surnames), folds(families), 0, 0), 0, 0),
        found_groups(folds(surnames), folds(families), 0, 0)[0].2 == 0,
{
    lemma_walk_groups(surnames, families, folds(surnames), folds(families), 0, 0);
}

proof fn lemma_walk_one_at_most(
    surnames: Seq<String>,
    families: Seq<String>,
    fv: Seq<Seq<char>>,
    cv: Seq<Seq<char>>,
    s: int,
    f: int,
)
    ensures
        walk(surnames, families, fv, cv, s, f).len() <= 1,
    decreases fv.len() - s,
{
    if 0 <= s < fv.len() {
        match first_credit(fv.subrange(s, fv.len() as int), cv, f) {
            Some((at, took)) => {
                if !(s == 0 && at != 0) && took >= 1 && s + took <= fv.len() {
                    lemma_walk_one_at_most(surnames, families, fv, cv, s + took, at + 1);
                }
            },
            None => {},
        }
    }
}

/// The authors of a work are held to a key for one reason at most: the walk
/// stops at the first thing that goes wrong.
pub proof fn lemma_one_author_mismatch_at_most(surnames: Seq<String>, families: Seq<String>)
    ensures
        unmatched(surnames, families).len() <= 1,
{
    if families.len() > 0 {
        lemma_walk_one_at_most(surnames, families, folds(surnames), folds(families), 0, 0);
    }
}

proof fn lemma_contains_concat<A>(a: Seq<A>, b: Seq<A>, x: A)
    requires
        a.contains(x) || b.contains(x),
    ensures
        (a + b).contains(x),
{
    if a.contains(x) {
        let i = choose|i: int| 0 <= i < a.len() && a[i] == x;
        assert((a + b)[i] == x);
    } else {
        let i = choose|i: int| 0 <= i < b.len() && b[i] == x;
        assert((a + b)[a.len() + i] == x);
    }
}

proof fn lemma_deepest_bounds(table: Seq<(Seq<char>, Seq<char>)>)
    ensures
        forall|k: int| 0 <= k < table.len() ==> (#[trigger] table[k]).1.len() <= deepest(table),
    decreases table.len(),
{
    if table.len() > 0 {
        lemma_deepest_bounds(table.drop_last());
        assert forall|k: int| 0 <= k < table.len() implies (#[trigger] table[k]).1.len() <= deepest(table) by {
            if k < table.len() - 1 {
                assert(table[k] == table.drop_last()[k]);
            }
        }
    }
}

proof fn lemma_guesses_in_has(surnames: Seq<Seq<char>>, which: int, ascii: Seq<char>, mark: char, at: int)
    requires
        0 <= which < surnames.len(),
        ascii_text(surnames[which]),
        match_positions(ascii_lowered(surnames[which]), ascii, 0).contains(at),
    ensures
        guesses_in(surnames, which, ascii, mark).contains(
            surnames.update(which, respelled(surnames[which], at, ascii.len() as int, mark)),
        ),
{
    let m = match_positions(ascii_lowered(surnames[which]), ascii, 0);
    let i = choose|i: int| 0 <= i < m.len() && m[i] == at;
    assert(guesses_in(surnames, which, ascii, mark)[i] == surnames.update(
        which,
        respelled(surnames[which], at, ascii.len() as int, mark),
    ));
}

proof fn lemma_mark_guesses_has(surnames: Seq<Seq<char>>, ascii: Seq<char>, mark: char, n: int, which: int, x: Seq<Seq<char>>)
    requires
        0 <= which < n,
        guesses_in(surnames, which, ascii, mark).contains(x),
    ensures
        guesses_for_mark(surnames, ascii, mark, n).contains(x),
    decreases n,
{
    if which < n - 1 {
        lemma_mark_guesses_has(surnames, ascii, mark, n - 1, which, x);
    }
    lemma_contains_concat(guesses_for_mark(surnames, ascii, mark, n - 1), guesses_in(surnames, n - 1, ascii, mark), x);
}

proof fn lemma_rank_guesses_has(
    surnames: Seq<Seq<char>>,
    table: Seq<(Seq<char>, Seq<char>)>,
    rank: int,
    kk: int,
    k: int,
    x: Seq<Seq<char>>,
)
    requires
        0 <= k < kk <= table.len(),
        0 <= rank < table[k].1.len(),
        guesses_for_mark(surnames, table[k].0, table[k].1[rank], surnames.len() as int).contains(x),
    ensures
        rank_guesses(surnames, table, rank, kk).contains(x),
    decreases kk,
{
    let more = if 0 <= rank < table[kk - 1].1.len() {
        guesses_for_mark(surnames, table[kk - 1].0, table[kk - 1].1[rank], surnames.len() as int)
    } else {
        Seq::empty()
    };
    if k < kk - 1 {
        lemma_rank_guesses_has(surnames, table, rank, kk - 1, k, x);
    }
    lemma_contains_concat(rank_guesses(surnames, table, rank, kk - 1), more, x);
}

proof fn lemma_ranked_has(surnames: Seq<Seq<char>>, rr: int, rank: int, x: Seq<Seq<char>>)
    requires
        0 <= rank < rr,
        rank_guesses(surnames, marks(), rank, marks().len() as int).contains(x),
    ensures
        ranked_guesses(surnames, rr).contains(x),
    decreases rr,
{
    if rank < rr - 1 {
        lemma_ranked_has(surnames, rr - 1, rank, x);
    }
    lemma_contains_concat(
        ranked_guesses(surnames, rr - 1),
        rank_guesses(surnames, marks(), rr - 1, marks().len() as int),
        x,
    );
}

/// Every mark the table lists is guessed: for every ascii surname of a key,
/// every place it spells a letter the table lists (left to right, as
/// `str::match_indices` finds them) and every mark listed for that letter,
/// whatever its rank, the spellings hold the surnames with just that place
/// respelled with that mark.
pub proof fn lemma_every_mark_guessed(surnames: Seq<Seq<char>>, which: int, k: int, rank: int, at: int)
    requires
        0 <= which < surnames.len(),
        ascii_text(surnames[which]),
        0 <= k < marks().len(),
        0 <= rank < marks()[k].1.len(),
        match_positions(ascii_lowered(surnames[which]), marks()[k].0, 0).contains(at),
    ensures
        spellings_of(surnames).contains(
            surnames.update(which, respelled(surnames[which], at, marks()[k].0.len() as int, marks()[k].1[rank])),
        ),
{
    let ascii = marks()[k].0;
    let mark = marks()[k].1[rank];
    let x = surnames.update(which, respelled(surnames[which], at, ascii.len() as int, mark));
    lemma_guesses_in_has(surnames, which, ascii, mark, at);
    lemma_mark_guesses_has(surnames, ascii, mark, surnames.len() as int, which, x);
    lemma_rank_guesses_has(surnames, marks(), rank, marks().len() as int, k, x);
    lemma_deepest_bounds(marks());
    assert(marks()[k].1.len() <= deepest(marks()));
    lemma_ranked_has(surnames, deepest(marks()) as int, rank, x);
}

/// Seven ranks are tried: the most marks the table lists for one letter,
/// seven for `o` and for `a`.
pub proof fn lemma_seven_ranks()
    ensures
        deepest(marks()) == 7,
{
    reveal_strlit("øöóòôõő");
    reveal_strlit("åäáàâãā");
    reveal_strlit("éèêëěę");
    reveal_strlit("üúùûů");
    reveal_strlit("íìîï");
    reveal_strlit("ñńň");
    reveal_strlit("çčć");
    reveal_strlit("šśş");
    reveal_strlit("žźż");
    reveal_strlit("ýÿ");
    reveal_strlit("ł");
    reveal_strlit("đð");
    reveal_strlit("ř");
    reveal_strlit("ť");
    reveal_strlit("ğ");
    reveal_strlit("æ");
    reveal_strlit("œ");
    reveal_strlit("ß");
    reveal_strlit("þ");
    lemma_deepest_bounds(marks());
    assert(marks()[0].1.len() == 7);
    lemma_deepest_reached(marks());
}

proof fn lemma_deepest_reached(table: Seq<(Seq<char>, Seq<char>)>)
    ensures
        table.len() == 0 || exists|k: int| 0 <= k < table.len() && (#[trigger] table[k]).1.len() == deepest(table),
    decreases table.len(),
{
    if table.len() > 0 {
        lemma_deepest_reached(table.drop_last());
        if table.last().1.len() > deepest(table.drop_last()) {
            assert(table[table.len() - 1].1.len() == deepest(table));
        } else if table.drop_last().len() > 0 {
            let k = choose|k: int| 0 <= k < table.drop_last().len() && (#[trigger] table.drop_last()[k]).1.len() == deepest(table.drop_last());
            assert(table[k] == table.drop_last()[k]);
        } else {
            assert(table[0].1.len() == deepest(table));
        }
    }
}

/// The year a work is held to is the earliest of those it carries: one of
/// them, and no later than any; none exactly when it carries none.
pub proof fn lemma_published_year_is_earliest(years: Seq<Option<i32>>)
    ensures
        earliest(years) is None <==> forall|i: int| 0 <= i < years.len() ==> (#[trigger] years[i]) is None,
        earliest(years) matches Some(y) ==> (exists|i: int| 0 <= i < years.len() && #[trigger] years[i] == Some(y)),
        earliest(years) matches Some(y) ==> forall|i: int| 0 <= i < years.len() && (#[trigger] years[i]) is Some
            ==> y <= years[i]->0,
    decreases years.len(),
{
    if years.len() > 0 {
        let front = years.drop_last();
        lemma_published_year_is_earliest(front);
        assert forall|i: int| 0 <= i < front.len() implies front[i] == #[trigger] years[i] by {}
        let last = years.len() - 1;
        assert(years.last() == years[last]);
        match earliest(front) {
            Some(a) => {
                let j = choose|j: int| 0 <= j < front.len() && #[trigger] front[j] == Some(a);
                assert(years[j] == Some(a));
            },
            None => {},
        }
    }
}

/// The names a work is checked against are its authors' whenever it credits
/// any author, whatever its editors; its editors' only when it credits no
/// author, whatever stands in an empty author list.
pub proof fn lemma_authors_before_editors(
    author: Option<Vec<Contributor>>,
    editor: Option<Vec<Contributor>>,
    other_editor: Option<Vec<Contributor>>,
)
    ensures
        author is Some && author.unwrap()@.len() > 0 ==> families_of(author, editor) == names_of(
            author.unwrap()@,
        ) && families_of(author, editor) == families_of(author, other_editor),
        (author is None || author.unwrap()@.len() == 0) ==> families_of(author, editor) == families_of(
            None,
            editor,
        ) && families_of(author, editor) == match editor {
            Some(e) => names_of(e@),
            None => Seq::<Seq<char>>::empty(),
        },
{
    match editor {
        Some(e) => {
            if e@.len() == 0 {
                assert(names_of(e@) == Seq::<Seq<char>>::empty());
            }
        },
        None => {},
    }
}

/// The names contributors are credited under are theirs, in their order:
/// where every contributor carries a name, the `i`th name is the `i`th
/// contributor's.
pub proof fn lemma_names_in_order(cs: Seq<Contributor>)
    ensures
        names_of(cs).len() <= cs.len(),
        (forall|i: int| 0 <= i < cs.len() ==> (#[trigger] credited_name(cs[i])) is Some) ==> {
            &&& names_of(cs).len() == cs.len()
            &&& forall|i: int| 0 <= i < cs.len() ==> #[trigger] names_of(cs)[i] == credited_name(cs[i])->0
        },
    decreases cs.len(),
{
    if cs.len() > 0 {
        let front = cs.drop_last();
        lemma_names_in_order(front);
        if forall|i: int| 0 <= i < cs.len() ==> (#[trigger] credited_name(cs[i])) is Some {
            assert forall|i: int| 0 <= i < front.len() implies (#[trigger] credited_name(front[i])) is Some by {
                assert(front[i] == cs[i]);
            }
            assert(credited_name(cs[cs.len() - 1]) is Some);
            assert forall|i: int| 0 <= i < cs.len() implies #[trigger] names_of(cs)[i] == credited_name(cs[i])->0 by {
                if i < cs.len() - 1 {
                    assert(front[i] == cs[i]);
                    assert(names_of(cs)[i] == names_of(front)[i]);
                }
            }
        }
    }
}

proof fn lemma_decimal_reads(n: nat)
    ensures
        decimal(n).len() > 0,
        all_digits(decimal(n)),
        digits_value(decimal(n)) == n,
    decreases n,
{
    if n >= 10 {
        lemma_decimal_reads(n / 10);
        let d = decimal(n);
        assert(d.drop_last() == decimal(n / 10));
        assert(d.last() == digit_char(n % 10));
        assert forall|i: int| 0 <= i < d.len() implies ascii_digit(#[trigger] d[i]) by {
            if i < d.len() - 1 {
                assert(d[i] == decimal(n / 10)[i]);
            }
        }
        assert((d.last() as int - '0' as int) == n % 10);
        assert(digits_value(d) == digits_value(d.drop_last()) * 10 + ((d.last() as int - '0' as int) as nat));
        assert((n / 10) * 10 + n % 10 == n) by (nonlinear_arith);
    } else {
        let d = decimal(n);
        assert(d.drop_last() == Seq::<char>::empty());
        assert((d.last() as int - '0' as int) == n);
        assert(digits_value(d) == digits_value(d.drop_last()) * 10 + ((d.last() as int - '0' as int) as nat));
    }
}

/// Every year from 1400 to 2200, written out in its four digits, is a year a
/// key may cite; and no four digit number outside that range is.
pub proof fn lemma_years_from_1400_to_2200(y: nat)
    requires
        1000 <= y <= 9999,
    ensures
        year_token(decimal(y)) <==> 1400 <= y <= 2200,
{
    lemma_decimal_reads(y);
    let d = decimal(y);
    assert(decimal(y) == decimal(y / 10).push(digit_char(y % 10)));
    assert(decimal(y / 10) == decimal(y / 100).push(digit_char((y / 10) % 10)));
    assert(decimal(y / 100) == decimal(y / 1000).push(digit_char((y / 100) % 10)));
    assert(decimal(y / 1000) == seq![digit_char(y / 1000)]);
    assert(d.len() == 4);
    assert(ascii_digit(d[0]));
    assert(unsigned_text(d) == Some(y));
}

/// Whether `s` is written the way a plain surname is: a capital and then
/// small letters, all ascii, two letters at least.
pub open spec fn plain_surname(s: Seq<char>) -> bool {
    &&& s.len() >= 2
    &&& 'A' <= s[0] && s[0] <= 'Z'
    &&& forall|i: int| 1 <= i < s.len() ==> 'a' <= #[trigger] s[i] && s[i] <= 'z'
}

proof fn lemma_tokenize_name_year(s: Seq<char>, d: Seq<char>, k: int)
    requires
        plain_surname(s),
        d.len() > 0,
        all_digits(d),
        1 <= k <= s.len() + d.len(),
    ensures
        k <= s.len() ==> tokenize((s + d).subrange(0, k)) == (seq![s.subrange(0, k)], Some(s[k - 1])),
        k > s.len() ==> tokenize((s + d).subrange(0, k)) == (
            seq![s, d.subrange(0, k - s.len())],
            Some(d[k - s.len() - 1]),
        ),
    decreases k,
{
    let raw = s + d;
    let pre = raw.subrange(0, k);
    assert(pre.drop_last() == raw.subrange(0, k - 1));
    assert(pre.last() == raw[k - 1]);
    if k == 1 {
        assert(raw.subrange(0, 0) == Seq::<char>::empty());
        assert(raw[0] == s[0]);
        assert(s.subrange(0, 1) == seq![s[0]]);
    } else {
        lemma_tokenize_name_year(s, d, k - 1);
        if k <= s.len() {
            assert(raw[k - 1] == s[k - 1]);
            assert('a' <= s[k - 1] && s[k - 1] <= 'z');
            assert(s.subrange(0, k - 1).push(s[k - 1]) == s.subrange(0, k));
        } else if k == s.len() + 1 {
            assert(raw[k - 1] == d[0]);
            assert(ascii_digit(d[0]));
            assert(s.subrange(0, s.len() as int) == s);
            assert(d.subrange(0, 1) == seq![d[0]]);
            assert(s[s.len() - 1] == s[k - 2]);
            assert('a' <= s[k - 2] && s[k - 2] <= 'z' || 'A' <= s[k - 2] && s[k - 2] <= 'Z');
        } else {
            let j = k - s.len();
            assert(raw[k - 1] == d[j - 1]);
            assert(ascii_digit(d[j - 1]));
            assert(ascii_digit(d[j - 2]));
            assert(d.subrange(0, j - 1).push(d[j - 1]) == d.subrange(0, j));
            assert(seq![s, d.subrange(0, j - 1)].update(1, d.subrange(0, j - 1).push(d[j - 1])) == seq![
                s,
                d.subrange(0, j),
            ]);
        }
    }
}

/// A key made of a plain surname and a year from 1400 to 2200 reads as that
/// surname and that year, with no `et al`: `Darwin1859` names `Darwin` and
/// cites 1859.
pub proof fn lemma_surname_and_year_read(s: Seq<char>, y: nat)
    requires
        plain_surname(s),
        ascii_lowered(s) != "etal"@,
        1400 <= y <= 2200,
    ensures
        read_key(s + decimal(y)) == Ok::<(Seq<char>, Seq<Seq<char>>, i32, bool), Seq<char>>(
            (s + decimal(y), seq![s], y as i32, false),
        ),
{
    let d = decimal(y);
    let raw = s + d;
    lemma_decimal_reads(y);
    lemma_years_from_1400_to_2200(y);
    assert(raw[0] == s[0]);
    assert(!white_space(raw[0]));
    assert(trim_start(raw) == raw);
    assert(raw.last() == d.last());
    assert(ascii_digit(d[d.len() - 1]));
    assert(!white_space(raw.last()));
    assert(trim_end(raw) == raw);
    assert(strip_ats(raw) == raw);
    lemma_tokenize_name_year(s, d, raw.len() as int);
    assert(raw.subrange(0, raw.len() as int) == raw);
    assert(d.subrange(0, d.len() as int) == d);
    let toks = tokenize(raw).0;
    assert(toks == seq![s, d]);
    assert(toks.last() == d);
    assert(last_year(toks) == Some(1int));
    assert(toks.subrange(0, 1) == seq![s]);
    assert(ascii_text(s)) by {
        assert forall|i: int| 0 <= i < s.len() implies (#[trigger] s[i] as u32) < 128 by {
            if i > 0 {
                assert('a' <= s[i] && s[i] <= 'z');
            }
        }
    }
    assert(lower_text(s) == ascii_lowered(s));
    assert(ascii_lowered(s).len() == s.len());
    reveal_strlit("et");
    assert(lower_text(s) != "et"@ || seq![s].len() <= 1);
    assert(seq![s].drop_first() == Seq::<Seq<char>>::empty());
    let one = seq![s];
    assert(one[0] == s);
    assert(one.len() == 1);
    assert(lower_text(one[0]) != "etal"@);
    assert(read_names(one.drop_first()) == (Seq::<Seq<char>>::empty(), false));
    assert(read_names(one) == (seq![one[0]] + read_names(one.drop_first()).0, read_names(one.drop_first()).1));
    assert(read_names(seq![s]) == (seq![s] + Seq::<Seq<char>>::empty(), false));
    assert(seq![s] + Seq::<Seq<char>>::empty() == seq![s]);
    assert(parsed_i32(d) == Some(y as i32));
}

} // verus!
