//! The work types crossref registers, and the `/types` route.

use vstd::prelude::*;
use crate::error::{Error, Result};
use crate::query::works::{combined_route_of, combined_route_spec, WorksCombiner, WorksIdentQuery};
use crate::query::{component_route, item_route, Component, CrossrefRoute, RouteSpec};
use crate::text::{owned, str_eq};

verus! {

/// One of the work types crossref registers, as listed by `/types`.
///
/// The vocabulary is crossref's own and changes: `grant`, `database` and
/// `report-component` were added after this crate first modelled it, and
/// `standard-series` was dropped.
#[derive(Debug, Clone, Copy, PartialEq, Eq, Hash, Structural)]
pub enum Type {
    /// `book-section`, which crossref labels Book Section
    BookSection,
    /// `monograph`, which crossref labels Monograph
    Monograph,
    /// `report-component`, which crossref labels Report Component
    ReportComponent,
    /// `report`, which crossref labels Report
    Report,
    /// `peer-review`, which crossref labels Peer Review
    PeerReview,
    /// `book-track`, which crossref labels Book Track
    BookTrack,
    /// `journal-article`, which crossref labels Journal Article
    JournalArticle,
    /// `book-part`, which crossref labels Part
    BookPart,
    /// `other`, which crossref labels Other
    Other,
    /// `book`, which crossref labels Book
    Book,
    /// `journal-volume`, which crossref labels Journal Volume
    JournalVolume,
    /// `book-set`, which crossref labels Book Set
    BookSet,
    /// `reference-entry`, which crossref labels Reference Entry
    ReferenceEntry,
    /// `proceedings-article`, which crossref labels Proceedings Article
    ProceedingsArticle,
    /// `journal`, which crossref labels Journal
    Journal,
    /// `component`, which crossref labels Component
    Component,
    /// `book-chapter`, which crossref labels Book Chapter
    BookChapter,
    /// `proceedings-series`, which crossref labels Proceedings Series
    ProceedingsSeries,
    /// `report-series`, which crossref labels Report Series
    ReportSeries,
    /// `proceedings`, which crossref labels Proceedings
    Proceedings,
    /// `database`, which crossref labels Database
    Database,
    /// `standard`, which crossref labels Standard
    Standard,
    /// `reference-book`, which crossref labels Reference Book
    ReferenceBook,
    /// `posted-content`, which crossref labels Posted Content
    PostedContent,
    /// `journal-issue`, which crossref labels Journal Issue
    JournalIssue,
    /// `dissertation`, which crossref labels Dissertation
    Dissertation,
    /// `grant`, which crossref labels Grant
    Grant,
    /// `dataset`, which crossref labels Dataset
    Dataset,
    /// `book-series`, which crossref labels Book Series
    BookSeries,
    /// `edited-book`, which crossref labels Edited Book
    EditedBook,
}

/// The identifier crossref knows a type by.
pub open spec fn type_id_text(x: Type) -> Seq<char> {
    match x {
        Type::BookSection => "book-section"@,
        Type::Monograph => "monograph"@,
        Type::ReportComponent => "report-component"@,
        Type::Report => "report"@,
        Type::PeerReview => "peer-review"@,
        Type::BookTrack => "book-track"@,
        Type::JournalArticle => "journal-article"@,
        Type::BookPart => "book-part"@,
        Type::Other => "other"@,
        Type::Book => "book"@,
        Type::JournalVolume => "journal-volume"@,
        Type::BookSet => "book-set"@,
        Type::ReferenceEntry => "reference-entry"@,
        Type::ProceedingsArticle => "proceedings-article"@,
        Type::Journal => "journal"@,
        Type::Component => "component"@,
        Type::BookChapter => "book-chapter"@,
        Type::ProceedingsSeries => "proceedings-series"@,
        Type::ReportSeries => "report-series"@,
        Type::Proceedings => "proceedings"@,
        Type::Database => "database"@,
        Type::Standard => "standard"@,
        Type::ReferenceBook => "reference-book"@,
        Type::PostedContent => "posted-content"@,
        Type::JournalIssue => "journal-issue"@,
        Type::Dissertation => "dissertation"@,
        Type::Grant => "grant"@,
        Type::Dataset => "dataset"@,
        Type::BookSeries => "book-series"@,
        Type::EditedBook => "edited-book"@,
    }
}

/// Every variant of [`Type`], in the order they are declared.
pub open spec fn all_types() -> Seq<Type> {
    seq![Type::BookSection, Type::Monograph, Type::ReportComponent, Type::Report, Type::PeerReview, Type::BookTrack, Type::JournalArticle, Type::BookPart, Type::Other, Type::Book, Type::JournalVolume, Type::BookSet, Type::ReferenceEntry, Type::ProceedingsArticle, Type::Journal, Type::Component, Type::BookChapter, Type::ProceedingsSeries, Type::ReportSeries, Type::Proceedings, Type::Database, Type::Standard, Type::ReferenceBook, Type::PostedContent, Type::JournalIssue, Type::Dissertation, Type::Grant, Type::Dataset, Type::BookSeries, Type::EditedBook]
}

/// Every variant is listed by [`all_types`].
pub proof fn lemma_all_types_complete(x: Type)
    ensures
        all_types().contains(x),
{
    match x {
        Type::BookSection => assert(all_types()[0] == x),
        Type::Monograph => assert(all_types()[1] == x),
        Type::ReportComponent => assert(all_types()[2] == x),
        Type::Report => assert(all_types()[3] == x),
        Type::PeerReview => assert(all_types()[4] == x),
        Type::BookTrack => assert(all_types()[5] == x),
        Type::JournalArticle => assert(all_types()[6] == x),
        Type::BookPart => assert(all_types()[7] == x),
        Type::Other => assert(all_types()[8] == x),
        Type::Book => assert(all_types()[9] == x),
        Type::JournalVolume => assert(all_types()[10] == x),
        Type::BookSet => assert(all_types()[11] == x),
        Type::ReferenceEntry => assert(all_types()[12] == x),
        Type::ProceedingsArticle => assert(all_types()[13] == x),
        Type::Journal => assert(all_types()[14] == x),
        Type::Component => assert(all_types()[15] == x),
        Type::BookChapter => assert(all_types()[16] == x),
        Type::ProceedingsSeries => assert(all_types()[17] == x),
        Type::ReportSeries => assert(all_types()[18] == x),
        Type::Proceedings => assert(all_types()[19] == x),
        Type::Database => assert(all_types()[20] == x),
        Type::Standard => assert(all_types()[21] == x),
        Type::ReferenceBook => assert(all_types()[22] == x),
        Type::PostedContent => assert(all_types()[23] == x),
        Type::JournalIssue => assert(all_types()[24] == x),
        Type::Dissertation => assert(all_types()[25] == x),
        Type::Grant => assert(all_types()[26] == x),
        Type::Dataset => assert(all_types()[27] == x),
        Type::BookSeries => assert(all_types()[28] == x),
        Type::EditedBook => assert(all_types()[29] == x),
    }
}

impl Type {
    /// Every variant, in the order they are declared.
    pub fn all() -> (r: Vec<Type>)
        ensures
            r@ == all_types(),
    {
        vec![Type::BookSection, Type::Monograph, Type::ReportComponent, Type::Report, Type::PeerReview, Type::BookTrack, Type::JournalArticle, Type::BookPart, Type::Other, Type::Book, Type::JournalVolume, Type::BookSet, Type::ReferenceEntry, Type::ProceedingsArticle, Type::Journal, Type::Component, Type::BookChapter, Type::ProceedingsSeries, Type::ReportSeries, Type::Proceedings, Type::Database, Type::Standard, Type::ReferenceBook, Type::PostedContent, Type::JournalIssue, Type::Dissertation, Type::Grant, Type::Dataset, Type::BookSeries, Type::EditedBook]
    }

    /// the identifier crossref knows this type by
    pub fn id(&self) -> (r: &'static str)
        ensures
            r@ == type_id_text(*self),
    {
        match self {
            Type::BookSection => "book-section",
            Type::Monograph => "monograph",
            Type::ReportComponent => "report-component",
            Type::Report => "report",
            Type::PeerReview => "peer-review",
            Type::BookTrack => "book-track",
            Type::JournalArticle => "journal-article",
            Type::BookPart => "book-part",
            Type::Other => "other",
            Type::Book => "book",
            Type::JournalVolume => "journal-volume",
            Type::BookSet => "book-set",
            Type::ReferenceEntry => "reference-entry",
            Type::ProceedingsArticle => "proceedings-article",
            Type::Journal => "journal",
            Type::Component => "component",
            Type::BookChapter => "book-chapter",
            Type::ProceedingsSeries => "proceedings-series",
            Type::ReportSeries => "report-series",
            Type::Proceedings => "proceedings",
            Type::Database => "database",
            Type::Standard => "standard",
            Type::ReferenceBook => "reference-book",
            Type::PostedContent => "posted-content",
            Type::JournalIssue => "journal-issue",
            Type::Dissertation => "dissertation",
            Type::Grant => "grant",
            Type::Dataset => "dataset",
            Type::BookSeries => "book-series",
            Type::EditedBook => "edited-book",
        }
    }

    /// The type whose identifier is `s`, if crossref registers one.
    pub fn lookup(s: &str) -> (r: Option<Type>)
        ensures
            match r {
                Some(x) => type_id_text(x) == s@,
                None => forall|x: Type| type_id_text(x) != s@,
            },
    {
        let all = Type::all();
        let mut i: usize = 0;
        while i < all.len()
            invariant
                all@ == all_types(),
                i <= all@.len(),
                forall|j: int| 0 <= j < i ==> type_id_text(#[trigger] all@[j]) != s@,
            decreases all@.len() - i,
        {
            if str_eq(s, all[i].id()) {
                return Some(all[i]);
            }
            i = i + 1;
        }
        proof {
            assert forall|x: Type| type_id_text(x) != s@ by {
                lemma_all_types_complete(x);
            }
        }
        None
    }
}

/// The label crossref displays for a type.
pub open spec fn type_label_text(t: Type) -> Seq<char> {
    match t {
        Type::BookSection => "Book Section"@,
        Type::Monograph => "Monograph"@,
        Type::ReportComponent => "Report Component"@,
        Type::Report => "Report"@,
        Type::PeerReview => "Peer Review"@,
        Type::BookTrack => "Book Track"@,
        Type::JournalArticle => "Journal Article"@,
        Type::BookPart => "Part"@,
        Type::Other => "Other"@,
        Type::Book => "Book"@,
        Type::JournalVolume => "Journal Volume"@,
        Type::BookSet => "Book Set"@,
        Type::ReferenceEntry => "Reference Entry"@,
        Type::ProceedingsArticle => "Proceedings Article"@,
        Type::Journal => "Journal"@,
        Type::Component => "Component"@,
        Type::BookChapter => "Book Chapter"@,
        Type::ProceedingsSeries => "Proceedings Series"@,
        Type::ReportSeries => "Report Series"@,
        Type::Proceedings => "Proceedings"@,
        Type::Database => "Database"@,
        Type::Standard => "Standard"@,
        Type::ReferenceBook => "Reference Book"@,
        Type::PostedContent => "Posted Content"@,
        Type::JournalIssue => "Journal Issue"@,
        Type::Dissertation => "Dissertation"@,
        Type::Grant => "Grant"@,
        Type::Dataset => "Dataset"@,
        Type::BookSeries => "Book Series"@,
        Type::EditedBook => "Edited Book"@,
    }
}

impl Type {
    /// the display-friendly label crossref gives this type
    pub fn label(&self) -> (r: &'static str)
        ensures
            r@ == type_label_text(*self),
    {
        match self {
            Type::BookSection => "Book Section",
            Type::Monograph => "Monograph",
            Type::ReportComponent => "Report Component",
            Type::Report => "Report",
            Type::PeerReview => "Peer Review",
            Type::BookTrack => "Book Track",
            Type::JournalArticle => "Journal Article",
            Type::BookPart => "Part",
            Type::Other => "Other",
            Type::Book => "Book",
            Type::JournalVolume => "Journal Volume",
            Type::BookSet => "Book Set",
            Type::ReferenceEntry => "Reference Entry",
            Type::ProceedingsArticle => "Proceedings Article",
            Type::Journal => "Journal",
            Type::Component => "Component",
            Type::BookChapter => "Book Chapter",
            Type::ProceedingsSeries => "Proceedings Series",
            Type::ReportSeries => "Report Series",
            Type::Proceedings => "Proceedings",
            Type::Database => "Database",
            Type::Standard => "Standard",
            Type::ReferenceBook => "Reference Book",
            Type::PostedContent => "Posted Content",
            Type::JournalIssue => "Journal Issue",
            Type::Dissertation => "Dissertation",
            Type::Grant => "Grant",
            Type::Dataset => "Dataset",
            Type::BookSeries => "Book Series",
            Type::EditedBook => "Edited Book",
        }
    }
}


/// What tells one type identifier from another: its length and two of its characters.
spec fn id_key(s: Seq<char>) -> (int, char, char) {
    (s.len() as int, s[0], if s.len() > 5 { s[5] } else { ' ' })
}

/// [`id_key`] of each type's identifier, worked out.
spec fn type_key(t: Type) -> (int, char, char) {
    match t {
        Type::BookSection => (12, 'b', 's'),
        Type::Monograph => (9, 'm', 'r'),
        Type::ReportComponent => (16, 'r', 't'),
        Type::Report => (6, 'r', 't'),
        Type::PeerReview => (11, 'p', 'r'),
        Type::BookTrack => (10, 'b', 't'),
        Type::JournalArticle => (15, 'j', 'a'),
        Type::BookPart => (9, 'b', 'p'),
        Type::Other => (5, 'o', ' '),
        Type::Book => (4, 'b', ' '),
        Type::JournalVolume => (14, 'j', 'a'),
        Type::BookSet => (8, 'b', 's'),
        Type::ReferenceEntry => (15, 'r', 'e'),
        Type::ProceedingsArticle => (19, 'p', 'e'),
        Type::Journal => (7, 'j', 'a'),
        Type::Component => (9, 'c', 'n'),
        Type::BookChapter => (12, 'b', 'c'),
        Type::ProceedingsSeries => (18, 'p', 'e'),
        Type::ReportSeries => (13, 'r', 't'),
        Type::Proceedings => (11, 'p', 'e'),
        Type::Database => (8, 'd', 'a'),
        Type::Standard => (8, 's', 'a'),
        Type::ReferenceBook => (14, 'r', 'e'),
        Type::PostedContent => (14, 'p', 'd'),
        Type::JournalIssue => (13, 'j', 'a'),
        Type::Dissertation => (12, 'd', 'r'),
        Type::Grant => (5, 'g', ' '),
        Type::Dataset => (7, 'd', 'e'),
        Type::BookSeries => (11, 'b', 's'),
        Type::EditedBook => (11, 'e', 'd'),
    }
}

proof fn lemma_type_key(t: Type)
    ensures
        id_key(type_id_text(t)) == type_key(t),
{
    match t {
        Type::BookSection => reveal_strlit("book-section"),
        Type::Monograph => reveal_strlit("monograph"),
        Type::ReportComponent => reveal_strlit("report-component"),
        Type::Report => reveal_strlit("report"),
        Type::PeerReview => reveal_strlit("peer-review"),
        Type::BookTrack => reveal_strlit("book-track"),
        Type::JournalArticle => reveal_strlit("journal-article"),
        Type::BookPart => reveal_strlit("book-part"),
        Type::Other => reveal_strlit("other"),
        Type::Book => reveal_strlit("book"),
        Type::JournalVolume => reveal_strlit("journal-volume"),
        Type::BookSet => reveal_strlit("book-set"),
        Type::ReferenceEntry => reveal_strlit("reference-entry"),
        Type::ProceedingsArticle => reveal_strlit("proceedings-article"),
        Type::Journal => reveal_strlit("journal"),
        Type::Component => reveal_strlit("component"),
        Type::BookChapter => reveal_strlit("book-chapter"),
        Type::ProceedingsSeries => reveal_strlit("proceedings-series"),
        Type::ReportSeries => reveal_strlit("report-series"),
        Type::Proceedings => reveal_strlit("proceedings"),
        Type::Database => reveal_strlit("database"),
        Type::Standard => reveal_strlit("standard"),
        Type::ReferenceBook => reveal_strlit("reference-book"),
        Type::PostedContent => reveal_strlit("posted-content"),
        Type::JournalIssue => reveal_strlit("journal-issue"),
        Type::Dissertation => reveal_strlit("dissertation"),
        Type::Grant => reveal_strlit("grant"),
        Type::Dataset => reveal_strlit("dataset"),
        Type::BookSeries => reveal_strlit("book-series"),
        Type::EditedBook => reveal_strlit("edited-book"),
    }
}

/// No two types share an identifier.
pub proof fn lemma_type_ids_distinct(a: Type, b: Type)
    requires
        type_id_text(a) == type_id_text(b),
    ensures
        a == b,
{
    lemma_type_key(a);
    lemma_type_key(b);
}

/// Reads a type back from its identifier, failing with
/// [`Error::InvalidTypeName`] on one crossref does not register.
pub fn parse_type(s: &str) -> (r: Result<Type>)
    ensures
        match r {
            Ok(t) => type_id_text(t) == s@,
            Err(Error::InvalidTypeName { name }) => name@ == s@ && forall|t: Type|
                type_id_text(t) != s@,
            Err(_) => false,
        },
{
    match Type::lookup(s) {
        Some(t) => Ok(t),
        None => Err(Error::InvalidTypeName { name: owned(s) }),
    }
}

impl core::str::FromStr for Type {
    type Err = Error;

    fn from_str(s: &str) -> (r: Result<Type>)
        ensures
            match r {
                Ok(t) => type_id_text(t) == s@,
                Err(Error::InvalidTypeName { name }) => name@ == s@ && forall|t: Type|
                    type_id_text(t) != s@,
                Err(_) => false,
            },
    {
        parse_type(s)
    }
}

/// constructs the request payload for the `/types` route
///
/// The route takes `query`, `rows` and `offset`, but answers all three with the
/// same complete list -- there are only 30 types, so crossref serves them in one
/// page and ignores the paging. This crate therefore models the list, one type,
/// and the works of one type, and nothing else.
#[derive(Debug, Clone)]
pub enum Types {
    /// every available type
    All,
    /// target a specific type at `/types/{id}`
    Identifier(String),
    /// target a `Work` for a specific type at `/types/{id}/works?query..`
    Works(WorksIdentQuery),
}

impl CrossrefRoute for Types {
    open spec fn route_spec(&self) -> RouteSpec {
        match *self {
            Types::All => Ok(component_route(Component::Types)),
            Types::Identifier(s) => Ok(component_route(Component::Types) + seq!['/'] + s@),
            Types::Works(ident) => combined_route_spec(Component::Types, ident),
        }
    }

    fn route(&self) -> (r: Result<String>) {
        match self {
            Types::All => Component::Types.route(),
            Types::Identifier(s) => Ok(item_route(Component::Types, s.as_str())),
            Types::Works(combined) => Self::combined_route(combined),
        }
    }
}


impl WorksCombiner for Types {
    open spec fn primary() -> Component {
        Component::Types
    }

    open spec fn combined_ident(&self) -> Option<WorksIdentQuery> {
        match *self {
            Types::Works(ident) => Some(ident),
            _ => None,
        }
    }

    fn primary_component() -> (r: Component) {
        Component::Types
    }

    fn ident_query(ident: WorksIdentQuery) -> (r: Self) {
        Types::Works(ident)
    }

    fn combined_route(ident: &WorksIdentQuery) -> (r: Result<String>) {
        combined_route_of(Component::Types, ident)
    }
}

} // verus!
