//! The fields of a work a `/works` query can ask crossref to return.

use vstd::prelude::*;
use crate::text::str_eq;

verus! {

/// A field of a work that a query can ask crossref to return.
///
/// Passed to `WorksQuery::elements`; crossref returns only what was selected.
/// Covers all 59 fields `/works` accepts.
#[allow(non_camel_case_types, clippy::upper_case_acronyms)]
#[derive(Debug, Clone, Copy, PartialEq, Eq, Hash, Structural)]
pub enum WorkElement {
    /// `DOI`
    DOI,
    /// `ISBN`
    ISBN,
    /// `ISSN`
    ISSN,
    /// `URL`
    URL,
    /// `abstract`
    Abstract_,
    /// `accepted`
    Accepted,
    /// `alternative-id`
    AlternativeId,
    /// `approved`
    Approved,
    /// `archive`
    Archive,
    /// `article-number`
    ArticleNumber,
    /// `assertion`
    Assertion,
    /// `author`
    Author,
    /// `chair`
    Chair,
    /// `clinical-trial-number`
    ClinicalTrialNumber,
    /// `container-title`
    ContainerTitle,
    /// `content-created`
    ContentCreated,
    /// `content-domain`
    ContentDomain,
    /// `contributor`
    Contributor,
    /// `created`
    Created,
    /// `degree`
    Degree,
    /// `deposited`
    Deposited,
    /// `editor`
    Editor,
    /// `event`
    Event,
    /// `funder`
    Funder,
    /// `group-title`
    GroupTitle,
    /// `indexed`
    Indexed,
    /// `is-referenced-by-count`
    IsReferencedByCount,
    /// `issn-type`
    IssnType,
    /// `issue`
    Issue,
    /// `issued`
    Issued,
    /// `license`
    License,
    /// `link`
    Link,
    /// `member`
    Member,
    /// `original-title`
    OriginalTitle,
    /// `page`
    Page,
    /// `posted`
    Posted,
    /// `prefix`
    Prefix,
    /// `published`
    Published,
    /// `published-online`
    PublishedOnline,
    /// `published-print`
    PublishedPrint,
    /// `publisher`
    Publisher,
    /// `publisher-location`
    PublisherLocation,
    /// `reference`
    Reference,
    /// `references-count`
    ReferencesCount,
    /// `relation`
    Relation,
    /// `resource`
    Resource,
    /// `score`
    Score,
    /// `short-container-title`
    ShortContainerTitle,
    /// `short-title`
    ShortTitle,
    /// `standards-body`
    StandardsBody,
    /// `subject`
    Subject,
    /// `subtitle`
    Subtitle,
    /// `title`
    Title,
    /// `translator`
    Translator,
    /// `type`
    Type,
    /// `update-policy`
    UpdatePolicy,
    /// `update-to`
    UpdateTo,
    /// `updated-by`
    UpdatedBy,
    /// `volume`
    Volume,
}

/// The name crossref knows an element by.
pub open spec fn element_text(x: WorkElement) -> Seq<char> {
    match x {
        WorkElement::DOI => "DOI"@,
        WorkElement::ISBN => "ISBN"@,
        WorkElement::ISSN => "ISSN"@,
        WorkElement::URL => "URL"@,
        WorkElement::Abstract_ => "abstract"@,
        WorkElement::Accepted => "accepted"@,
        WorkElement::AlternativeId => "alternative-id"@,
        WorkElement::Approved => "approved"@,
        WorkElement::Archive => "archive"@,
        WorkElement::ArticleNumber => "article-number"@,
        WorkElement::Assertion => "assertion"@,
        WorkElement::Author => "author"@,
        WorkElement::Chair => "chair"@,
        WorkElement::ClinicalTrialNumber => "clinical-trial-number"@,
        WorkElement::ContainerTitle => "container-title"@,
        WorkElement::ContentCreated => "content-created"@,
        WorkElement::ContentDomain => "content-domain"@,
        WorkElement::Contributor => "contributor"@,
        WorkElement::Created => "created"@,
        WorkElement::Degree => "degree"@,
        WorkElement::Deposited => "deposited"@,
        WorkElement::Editor => "editor"@,
        WorkElement::Event => "event"@,
        WorkElement::Funder => "funder"@,
        WorkElement::GroupTitle => "group-title"@,
        WorkElement::Indexed => "indexed"@,
        WorkElement::IsReferencedByCount => "is-referenced-by-count"@,
        WorkElement::IssnType => "issn-type"@,
        WorkElement::Issue => "issue"@,
        WorkElement::Issued => "issued"@,
        WorkElement::License => "license"@,
        WorkElement::Link => "link"@,
        WorkElement::Member => "member"@,
        WorkElement::OriginalTitle => "original-title"@,
        WorkElement::Page => "page"@,
        WorkElement::Posted => "posted"@,
        WorkElement::Prefix => "prefix"@,
        WorkElement::Published => "published"@,
        WorkElement::PublishedOnline => "published-online"@,
        WorkElement::PublishedPrint => "published-print"@,
        WorkElement::Publisher => "publisher"@,
        WorkElement::PublisherLocation => "publisher-location"@,
        WorkElement::Reference => "reference"@,
        WorkElement::ReferencesCount => "references-count"@,
        WorkElement::Relation => "relation"@,
        WorkElement::Resource => "resource"@,
        WorkElement::Score => "score"@,
        WorkElement::ShortContainerTitle => "short-container-title"@,
        WorkElement::ShortTitle => "short-title"@,
        WorkElement::StandardsBody => "standards-body"@,
        WorkElement::Subject => "subject"@,
        WorkElement::Subtitle => "subtitle"@,
        WorkElement::Title => "title"@,
        WorkElement::Translator => "translator"@,
        WorkElement::Type => "type"@,
        WorkElement::UpdatePolicy => "update-policy"@,
        WorkElement::UpdateTo => "update-to"@,
        WorkElement::UpdatedBy => "updated-by"@,
        WorkElement::Volume => "volume"@,
    }
}

/// Every variant of [`WorkElement`], in the order they are declared.
pub open spec fn all_elements() -> Seq<WorkElement> {
    seq![WorkElement::DOI, WorkElement::ISBN, WorkElement::ISSN, WorkElement::URL, WorkElement::Abstract_, WorkElement::Accepted, WorkElement::AlternativeId, WorkElement::Approved, WorkElement::Archive, WorkElement::ArticleNumber, WorkElement::Assertion, WorkElement::Author, WorkElement::Chair, WorkElement::ClinicalTrialNumber, WorkElement::ContainerTitle, WorkElement::ContentCreated, WorkElement::ContentDomain, WorkElement::Contributor, WorkElement::Created, WorkElement::Degree, WorkElement::Deposited, WorkElement::Editor, WorkElement::Event, WorkElement::Funder, WorkElement::GroupTitle, WorkElement::Indexed, WorkElement::IsReferencedByCount, WorkElement::IssnType, WorkElement::Issue, WorkElement::Issued, WorkElement::License, WorkElement::Link, WorkElement::Member, WorkElement::OriginalTitle, WorkElement::Page, WorkElement::Posted, WorkElement::Prefix, WorkElement::Published, WorkElement::PublishedOnline, WorkElement::PublishedPrint, WorkElement::Publisher, WorkElement::PublisherLocation, WorkElement::Reference, WorkElement::ReferencesCount, WorkElement::Relation, WorkElement::Resource, WorkElement::Score, WorkElement::ShortContainerTitle, WorkElement::ShortTitle, WorkElement::StandardsBody, WorkElement::Subject, WorkElement::Subtitle, WorkElement::Title, WorkElement::Translator, WorkElement::Type, WorkElement::UpdatePolicy, WorkElement::UpdateTo, WorkElement::UpdatedBy, WorkElement::Volume]
}

/// Every variant is listed by [`all_elements`].
pub proof fn lemma_all_elements_complete(x: WorkElement)
    ensures
        all_elements().contains(x),
{
    match x {
        WorkElement::DOI => assert(all_elements()[0] == x),
        WorkElement::ISBN => assert(all_elements()[1] == x),
        WorkElement::ISSN => assert(all_elements()[2] == x),
        WorkElement::URL => assert(all_elements()[3] == x),
        WorkElement::Abstract_ => assert(all_elements()[4] == x),
        WorkElement::Accepted => assert(all_elements()[5] == x),
        WorkElement::AlternativeId => assert(all_elements()[6] == x),
        WorkElement::Approved => assert(all_elements()[7] == x),
        WorkElement::Archive => assert(all_elements()[8] == x),
        WorkElement::ArticleNumber => assert(all_elements()[9] == x),
        WorkElement::Assertion => assert(all_elements()[10] == x),
        WorkElement::Author => assert(all_elements()[11] == x),
        WorkElement::Chair => assert(all_elements()[12] == x),
        WorkElement::ClinicalTrialNumber => assert(all_elements()[13] == x),
        WorkElement::ContainerTitle => assert(all_elements()[14] == x),
        WorkElement::ContentCreated => assert(all_elements()[15] == x),
        WorkElement::ContentDomain => assert(all_elements()[16] == x),
        WorkElement::Contributor => assert(all_elements()[17] == x),
        WorkElement::Created => assert(all_elements()[18] == x),
        WorkElement::Degree => assert(all_elements()[19] == x),
        WorkElement::Deposited => assert(all_elements()[20] == x),
        WorkElement::Editor => assert(all_elements()[21] == x),
        WorkElement::Event => assert(all_elements()[22] == x),
        WorkElement::Funder => assert(all_elements()[23] == x),
        WorkElement::GroupTitle => assert(all_elements()[24] == x),
        WorkElement::Indexed => assert(all_elements()[25] == x),
        WorkElement::IsReferencedByCount => assert(all_elements()[26] == x),
        WorkElement::IssnType => assert(all_elements()[27] == x),
        WorkElement::Issue => assert(all_elements()[28] == x),
        WorkElement::Issued => assert(all_elements()[29] == x),
        WorkElement::License => assert(all_elements()[30] == x),
        WorkElement::Link => assert(all_elements()[31] == x),
        WorkElement::Member => assert(all_elements()[32] == x),
        WorkElement::OriginalTitle => assert(all_elements()[33] == x),
        WorkElement::Page => assert(all_elements()[34] == x),
        WorkElement::Posted => assert(all_elements()[35] == x),
        WorkElement::Prefix => assert(all_elements()[36] == x),
        WorkElement::Published => assert(all_elements()[37] == x),
        WorkElement::PublishedOnline => assert(all_elements()[38] == x),
        WorkElement::PublishedPrint => assert(all_elements()[39] == x),
        WorkElement::Publisher => assert(all_elements()[40] == x),
        WorkElement::PublisherLocation => assert(all_elements()[41] == x),
        WorkElement::Reference => assert(all_elements()[42] == x),
        WorkElement::ReferencesCount => assert(all_elements()[43] == x),
        WorkElement::Relation => assert(all_elements()[44] == x),
        WorkElement::Resource => assert(all_elements()[45] == x),
        WorkElement::Score => assert(all_elements()[46] == x),
        WorkElement::ShortContainerTitle => assert(all_elements()[47] == x),
        WorkElement::ShortTitle => assert(all_elements()[48] == x),
        WorkElement::StandardsBody => assert(all_elements()[49] == x),
        WorkElement::Subject => assert(all_elements()[50] == x),
        WorkElement::Subtitle => assert(all_elements()[51] == x),
        WorkElement::Title => assert(all_elements()[52] == x),
        WorkElement::Translator => assert(all_elements()[53] == x),
        WorkElement::Type => assert(all_elements()[54] == x),
        WorkElement::UpdatePolicy => assert(all_elements()[55] == x),
        WorkElement::UpdateTo => assert(all_elements()[56] == x),
        WorkElement::UpdatedBy => assert(all_elements()[57] == x),
        WorkElement::Volume => assert(all_elements()[58] == x),
    }
}

impl WorkElement {
    /// Every variant, in the order they are declared.
    pub fn all() -> (r: Vec<WorkElement>)
        ensures
            r@ == all_elements(),
    {
        vec![WorkElement::DOI, WorkElement::ISBN, WorkElement::ISSN, WorkElement::URL, WorkElement::Abstract_, WorkElement::Accepted, WorkElement::AlternativeId, WorkElement::Approved, WorkElement::Archive, WorkElement::ArticleNumber, WorkElement::Assertion, WorkElement::Author, WorkElement::Chair, WorkElement::ClinicalTrialNumber, WorkElement::ContainerTitle, WorkElement::ContentCreated, WorkElement::ContentDomain, WorkElement::Contributor, WorkElement::Created, WorkElement::Degree, WorkElement::Deposited, WorkElement::Editor, WorkElement::Event, WorkElement::Funder, WorkElement::GroupTitle, WorkElement::Indexed, WorkElement::IsReferencedByCount, WorkElement::IssnType, WorkElement::Issue, WorkElement::Issued, WorkElement::License, WorkElement::Link, WorkElement::Member, WorkElement::OriginalTitle, WorkElement::Page, WorkElement::Posted, WorkElement::Prefix, WorkElement::Published, WorkElement::PublishedOnline, WorkElement::PublishedPrint, WorkElement::Publisher, WorkElement::PublisherLocation, WorkElement::Reference, WorkElement::ReferencesCount, WorkElement::Relation, WorkElement::Resource, WorkElement::Score, WorkElement::ShortContainerTitle, WorkElement::ShortTitle, WorkElement::StandardsBody, WorkElement::Subject, WorkElement::Subtitle, WorkElement::Title, WorkElement::Translator, WorkElement::Type, WorkElement::UpdatePolicy, WorkElement::UpdateTo, WorkElement::UpdatedBy, WorkElement::Volume]
    }

    /// the name crossref knows this element by
    pub fn name(&self) -> (r: &'static str)
        ensures
            r@ == element_text(*self),
    {
        match self {
            WorkElement::DOI => "DOI",
            WorkElement::ISBN => "ISBN",
            WorkElement::ISSN => "ISSN",
            WorkElement::URL => "URL",
            WorkElement::Abstract_ => "abstract",
            WorkElement::Accepted => "accepted",
            WorkElement::AlternativeId => "alternative-id",
            WorkElement::Approved => "approved",
            WorkElement::Archive => "archive",
            WorkElement::ArticleNumber => "article-number",
            WorkElement::Assertion => "assertion",
            WorkElement::Author => "author",
            WorkElement::Chair => "chair",
            WorkElement::ClinicalTrialNumber => "clinical-trial-number",
            WorkElement::ContainerTitle => "container-title",
            WorkElement::ContentCreated => "content-created",
            WorkElement::ContentDomain => "content-domain",
            WorkElement::Contributor => "contributor",
            WorkElement::Created => "created",
            WorkElement::Degree => "degree",
            WorkElement::Deposited => "deposited",
            WorkElement::Editor => "editor",
            WorkElement::Event => "event",
            WorkElement::Funder => "funder",
            WorkElement::GroupTitle => "group-title",
            WorkElement::Indexed => "indexed",
            WorkElement::IsReferencedByCount => "is-referenced-by-count",
            WorkElement::IssnType => "issn-type",
            WorkElement::Issue => "issue",
            WorkElement::Issued => "issued",
            WorkElement::License => "license",
            WorkElement::Link => "link",
            WorkElement::Member => "member",
            WorkElement::OriginalTitle => "original-title",
            WorkElement::Page => "page",
            WorkElement::Posted => "posted",
            WorkElement::Prefix => "prefix",
            WorkElement::Published => "published",
            WorkElement::PublishedOnline => "published-online",
            WorkElement::PublishedPrint => "published-print",
            WorkElement::Publisher => "publisher",
            WorkElement::PublisherLocation => "publisher-location",
            WorkElement::Reference => "reference",
            WorkElement::ReferencesCount => "references-count",
            WorkElement::Relation => "relation",
            WorkElement::Resource => "resource",
            WorkElement::Score => "score",
            WorkElement::ShortContainerTitle => "short-container-title",
            WorkElement::ShortTitle => "short-title",
            WorkElement::StandardsBody => "standards-body",
            WorkElement::Subject => "subject",
            WorkElement::Subtitle => "subtitle",
            WorkElement::Title => "title",
            WorkElement::Translator => "translator",
            WorkElement::Type => "type",
            WorkElement::UpdatePolicy => "update-policy",
            WorkElement::UpdateTo => "update-to",
            WorkElement::UpdatedBy => "updated-by",
            WorkElement::Volume => "volume",
        }
    }

    /// The element named `s`, if any.
    pub fn lookup(s: &str) -> (r: Option<WorkElement>)
        ensures
            match r {
                Some(x) => element_text(x) == s@,
                None => forall|x: WorkElement| element_text(x) != s@,
            },
    {
        let all = WorkElement::all();
        let mut i: usize = 0;
        while i < all.len()
            invariant
                all@ == all_elements(),
                i <= all@.len(),
                forall|j: int| 0 <= j < i ==> element_text(#[trigger] all@[j]) != s@,
            decreases all@.len() - i,
        {
            if str_eq(s, all[i].name()) {
                return Some(all[i]);
            }
            i = i + 1;
        }
        proof {
            assert forall|x: WorkElement| element_text(x) != s@ by {
                lemma_all_elements_complete(x);
            }
        }
        None
    }
}

} // verus!
