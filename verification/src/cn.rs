//! Content negotiation: a work's metadata in a format other than crossref json.
//!
//! Crossref re-serializes a registered work on request, so a DOI can be pulled
//! straight out as BibTeX, RIS, RDF or a formatted citation. The format
//! becomes the `Accept` header and the body comes back verbatim.

use vstd::prelude::*;
use vstd::string::StringExecFns;
use crate::text::owned;

verus! {

/// A format crossref will re-serialize a work into.
///
/// `application/vnd.datacite.datacite+xml` is deliberately absent: crossref
/// answers it with a `406`, since it only serves formats for the DOIs it
/// registers itself.
#[derive(Debug, Clone, PartialEq, Eq)]
pub enum CnFormat {
    /// RDF/XML
    RdfXml,
    /// RDF in the Turtle syntax
    Turtle,
    /// [CSL](https://citationstyles.org) JSON, the standard citeproc shape
    CiteProcJson,
    /// crossref's older, non-standard citeproc flavour
    CiteProcJsonIsh,
    /// RIS, for reference managers
    Ris,
    /// BibTeX
    BibTex,
    /// crossref's own deposit schema
    CrossrefXml,
    /// crossref's text and data mining schema, which carries the full-text links
    CrossrefTdm,
    /// a citation formatted for reading, rendered by crossref itself
    Bibliography {
        /// the CSL style to render in, e.g. `apa` or `ieee`; crossref answers
        /// an unknown one with a `406`.
        style: String,
        /// the locale to render in, e.g. `de-DE`. [`None`] leaves it to
        /// crossref, which uses `en-US`.
        locale: Option<String>,
    },
}

/// The `Accept` header that asks crossref for a format.
pub open spec fn accept_text(f: CnFormat) -> Seq<char> {
    match f {
        CnFormat::RdfXml => "application/rdf+xml"@,
        CnFormat::Turtle => "text/turtle"@,
        CnFormat::CiteProcJson => "application/vnd.citationstyles.csl+json"@,
        CnFormat::CiteProcJsonIsh => "application/citeproc+json"@,
        CnFormat::Ris => "application/x-research-info-systems"@,
        CnFormat::BibTex => "application/x-bibtex"@,
        CnFormat::CrossrefXml => "application/vnd.crossref.unixref+xml"@,
        CnFormat::CrossrefTdm => "application/vnd.crossref.unixsd+xml"@,
        CnFormat::Bibliography { style, locale } => "text/x-bibliography; style="@ + style@ + match locale {
            Some(l) => "; locale="@ + l@,
            None => Seq::empty(),
        },
    }
}

impl CnFormat {
    /// A citation in the named CSL style, rendered in crossref's default locale.
    pub fn bibliography(style: &str) -> (r: CnFormat)
        ensures
            r matches CnFormat::Bibliography { style: s, locale: None } && s@ == style@,
    {
        CnFormat::Bibliography { style: owned(style), locale: None }
    }

    /// The `Accept` header that asks crossref for this format.
    pub fn accept(&self) -> (r: String)
        ensures
            r@ == accept_text(*self),
    {
        match self {
            CnFormat::RdfXml => owned("application/rdf+xml"),
            CnFormat::Turtle => owned("text/turtle"),
            CnFormat::CiteProcJson => owned("application/vnd.citationstyles.csl+json"),
            CnFormat::CiteProcJsonIsh => owned("application/citeproc+json"),
            CnFormat::Ris => owned("application/x-research-info-systems"),
            CnFormat::BibTex => owned("application/x-bibtex"),
            CnFormat::CrossrefXml => owned("application/vnd.crossref.unixref+xml"),
            CnFormat::CrossrefTdm => owned("application/vnd.crossref.unixsd+xml"),
            CnFormat::Bibliography { style, locale } => {
                let mut accept = owned("text/x-bibliography; style=");
                accept.append(style.as_str());
                match locale {
                    Some(l) => {
                        accept.append("; locale=");
                        accept.append(l.as_str());
                    },
                    None => {},
                }
                accept
            },
        }
    }
}

/// Where crossref re-serializes the work `doi`: its `/transform` route
/// under `base_url`.
pub fn transform_url(base_url: &str, doi: &str) -> (r: String)
    ensures
        r@ == base_url@ + "/works/"@ + doi@ + "/transform"@,
{
    let mut url = owned(base_url);
    url.append("/works/");
    url.append(doi);
    url.append("/transform");
    url
}

/// Where crossref lists the CSL styles a bibliography can be rendered in.
pub fn styles_url(base_url: &str) -> (r: String)
    ensures
        r@ == base_url@ + "/styles"@,
{
    let mut url = owned(base_url);
    url.append("/styles");
    url
}

/// What tells the fixed `Accept` values apart: their length and their
/// thirteenth character.
spec fn accept_key(s: Seq<char>) -> (int, char) {
    (s.len() as int, if s.len() > 12 {
        s[12]
    } else {
        ' '
    })
}

/// The first and sixth characters of an `Accept` value.
spec fn accept_head(s: Seq<char>) -> (char, char) {
    (s[0], s[5])
}

proof fn lemma_fixed_accept(f: CnFormat)
    requires
        !(f is Bibliography),
    ensures
        accept_head(accept_text(f)) != ('t', 'x'),
        accept_key(accept_text(f)) == match f {
            CnFormat::RdfXml => (19int, 'r'),
            CnFormat::Turtle => (11int, ' '),
            CnFormat::CiteProcJson => (39int, 'v'),
            CnFormat::CiteProcJsonIsh => (25int, 'c'),
            CnFormat::Ris => (35int, 'x'),
            CnFormat::BibTex => (20int, 'x'),
            CnFormat::CrossrefXml => (36int, 'v'),
            _ => (35int, 'v'),
        },
{
    match f {
        CnFormat::RdfXml => reveal_strlit("application/rdf+xml"),
        CnFormat::Turtle => reveal_strlit("text/turtle"),
        CnFormat::CiteProcJson => reveal_strlit("application/vnd.citationstyles.csl+json"),
        CnFormat::CiteProcJsonIsh => reveal_strlit("application/citeproc+json"),
        CnFormat::Ris => reveal_strlit("application/x-research-info-systems"),
        CnFormat::BibTex => reveal_strlit("application/x-bibtex"),
        CnFormat::CrossrefXml => reveal_strlit("application/vnd.crossref.unixref+xml"),
        CnFormat::CrossrefTdm => reveal_strlit("application/vnd.crossref.unixsd+xml"),
        _ => {},
    }
}

/// No two formats ask for the same thing: two different formats send two
/// different `Accept` values. Two bibliographies are told apart by
/// [`lemma_bibliographies_ask_differently`].
pub proof fn lemma_formats_ask_differently(a: CnFormat, b: CnFormat)
    requires
        a != b,
        !(a is Bibliography && b is Bibliography),
    ensures
        accept_text(a) != accept_text(b),
{
    reveal_strlit("text/x-bibliography; style=");
    if a is Bibliography {
        lemma_fixed_accept(b);
        assert(accept_head(accept_text(a)) == ('t', 'x'));
    } else if b is Bibliography {
        lemma_fixed_accept(a);
        assert(accept_head(accept_text(b)) == ('t', 'x'));
    } else {
        lemma_fixed_accept(a);
        lemma_fixed_accept(b);
    }
}

/// What a bibliography's `Accept` value holds after its style: the locale,
/// if there is one.
spec fn locale_tail(locale: Option<Seq<char>>) -> Seq<char> {
    match locale {
        Some(l) => "; locale="@ + l,
        None => Seq::empty(),
    }
}

proof fn lemma_tails_differ(
    p: Seq<char>,
    s1: Seq<char>,
    t1: Seq<char>,
    s2: Seq<char>,
    t2: Seq<char>,
)
    requires
        s1.len() < s2.len(),
        !s2.contains(';'),
        t1.len() == 0 || t1[0] == ';',
    ensures
        p + s1 + t1 != p + s2 + t2,
{
    let x = p + s1 + t1;
    let y = p + s2 + t2;
    let k: int = (p.len() + s1.len()) as int;
    if x == y {
        assert(y[k] == s2[s1.len() as int]);
        if t1.len() == 0 {
            assert(x.len() < y.len());
        } else {
            assert(x[k] == t1[0]);
        }
    }
}

/// Two bibliographies ask differently when their styles or their locales
/// differ, so long as neither style carries a `;`, which would let a style
/// pass for a locale.
pub proof fn lemma_bibliographies_ask_differently(a: CnFormat, b: CnFormat)
    requires
        a matches CnFormat::Bibliography { style: s1, locale: l1 },
        b matches CnFormat::Bibliography { style: s2, locale: l2 },
        !a->style@.contains(';'),
        !b->style@.contains(';'),
        a->style@ != b->style@ || crate::text::option_text(a->locale) != crate::text::option_text(b->locale),
    ensures
        accept_text(a) != accept_text(b),
{
    reveal_strlit("text/x-bibliography; style=");
    reveal_strlit("; locale=");
    let p = "text/x-bibliography; style="@;
    let s1 = a->style@;
    let s2 = b->style@;
    let t1 = locale_tail(crate::text::option_text(a->locale));
    let t2 = locale_tail(crate::text::option_text(b->locale));
    assert(accept_text(a) == p + s1 + t1);
    assert(accept_text(b) == p + s2 + t2);
    assert(t1.len() == 0 || t1[0] == ';');
    assert(t2.len() == 0 || t2[0] == ';');
    if s1.len() < s2.len() {
        lemma_tails_differ(p, s1, t1, s2, t2);
    } else if s2.len() < s1.len() {
        lemma_tails_differ(p, s2, t2, s1, t1);
    } else if accept_text(a) == accept_text(b) {
        let x = p + s1 + t1;
        let y = p + s2 + t2;
        assert(s1 =~= x.subrange(p.len() as int, (p.len() + s1.len()) as int));
        assert(s2 =~= y.subrange(p.len() as int, (p.len() + s2.len()) as int));
        assert(t1 =~= x.subrange((p.len() + s1.len()) as int, x.len() as int));
        assert(t2 =~= y.subrange((p.len() + s2.len()) as int, y.len() as int));
        match (a->locale, b->locale) {
            (Some(m1), Some(m2)) => {
                assert(m1@ =~= t1.subrange(9, t1.len() as int));
                assert(m2@ =~= t2.subrange(9, t2.len() as int));
            },
            _ => {},
        }
    }
}

} // verus!
