//! Field queries: a term matched against one field of a work's metadata.

use vstd::prelude::*;
use crate::encode::params_view;
use crate::query::{CrossrefQueryParam, Param};
use crate::text::{owned, str_eq};
use crate::words::{collapsed, format_query};

verus! {

/// A field of a work's metadata that `/works` can match a term against.
#[derive(Debug, Clone, Copy, PartialEq, Eq, Hash, Structural)]
pub enum SearchField {
    /// titles, including the subtitle
    Title,
    /// the title of the containing work, aka `publication.name`
    ContainerTitle,
    /// author given and family names
    Author,
    /// editor given and family names
    Editor,
    /// chair given and family names
    Chair,
    /// translator given and family names
    Translator,
    /// author, editor, chair and translator given and family names
    Contributor,
    /// bibliographic information, useful for citation look up. Includes
    /// titles, authors, ISSNs and publication years
    Bibliographic,
    /// contributor affiliations
    Affiliation,
    /// the degree a dissertation was awarded for
    Degree,
    /// the description deposited for posted content
    Description,
    /// the short form of an event's name
    EventAcronym,
    /// where an event was held
    EventLocation,
    /// an event's name
    EventName,
    /// who sponsored an event
    EventSponsor,
    /// an event's theme
    EventTheme,
    /// the name of a funding body, for works whose funder carries no registry DOI
    FunderName,
    /// where the publisher is located
    PublisherLocation,
    /// the publisher's name
    PublisherName,
    /// the short form of a standards body's name
    StandardsBodyAcronym,
    /// the name of the body that issued a standard
    StandardsBodyName,
}

/// The name crossref knows a field by.
pub open spec fn field_text(x: SearchField) -> Seq<char> {
    match x {
        SearchField::Title => "title"@,
        SearchField::ContainerTitle => "container-title"@,
        SearchField::Author => "author"@,
        SearchField::Editor => "editor"@,
        SearchField::Chair => "chair"@,
        SearchField::Translator => "translator"@,
        SearchField::Contributor => "contributor"@,
        SearchField::Bibliographic => "bibliographic"@,
        SearchField::Affiliation => "affiliation"@,
        SearchField::Degree => "degree"@,
        SearchField::Description => "description"@,
        SearchField::EventAcronym => "event-acronym"@,
        SearchField::EventLocation => "event-location"@,
        SearchField::EventName => "event-name"@,
        SearchField::EventSponsor => "event-sponsor"@,
        SearchField::EventTheme => "event-theme"@,
        SearchField::FunderName => "funder-name"@,
        SearchField::PublisherLocation => "publisher-location"@,
        SearchField::PublisherName => "publisher-name"@,
        SearchField::StandardsBodyAcronym => "standards-body-acronym"@,
        SearchField::StandardsBodyName => "standards-body-name"@,
    }
}

/// Every variant of [`SearchField`], in the order they are declared.
pub open spec fn all_fields() -> Seq<SearchField> {
    seq![SearchField::Title, SearchField::ContainerTitle, SearchField::Author, SearchField::Editor, SearchField::Chair, SearchField::Translator, SearchField::Contributor, SearchField::Bibliographic, SearchField::Affiliation, SearchField::Degree, SearchField::Description, SearchField::EventAcronym, SearchField::EventLocation, SearchField::EventName, SearchField::EventSponsor, SearchField::EventTheme, SearchField::FunderName, SearchField::PublisherLocation, SearchField::PublisherName, SearchField::StandardsBodyAcronym, SearchField::StandardsBodyName]
}

/// Every variant is listed by [`all_fields`].
pub proof fn lemma_all_fields_complete(x: SearchField)
    ensures
        all_fields().contains(x),
{
    match x {
        SearchField::Title => assert(all_fields()[0] == x),
        SearchField::ContainerTitle => assert(all_fields()[1] == x),
        SearchField::Author => assert(all_fields()[2] == x),
        SearchField::Editor => assert(all_fields()[3] == x),
        SearchField::Chair => assert(all_fields()[4] == x),
        SearchField::Translator => assert(all_fields()[5] == x),
        SearchField::Contributor => assert(all_fields()[6] == x),
        SearchField::Bibliographic => assert(all_fields()[7] == x),
        SearchField::Affiliation => assert(all_fields()[8] == x),
        SearchField::Degree => assert(all_fields()[9] == x),
        SearchField::Description => assert(all_fields()[10] == x),
        SearchField::EventAcronym => assert(all_fields()[11] == x),
        SearchField::EventLocation => assert(all_fields()[12] == x),
        SearchField::EventName => assert(all_fields()[13] == x),
        SearchField::EventSponsor => assert(all_fields()[14] == x),
        SearchField::EventTheme => assert(all_fields()[15] == x),
        SearchField::FunderName => assert(all_fields()[16] == x),
        SearchField::PublisherLocation => assert(all_fields()[17] == x),
        SearchField::PublisherName => assert(all_fields()[18] == x),
        SearchField::StandardsBodyAcronym => assert(all_fields()[19] == x),
        SearchField::StandardsBodyName => assert(all_fields()[20] == x),
    }
}

impl SearchField {
    /// Every variant, in the order they are declared.
    pub fn all() -> (r: Vec<SearchField>)
        ensures
            r@ == all_fields(),
    {
        vec![SearchField::Title, SearchField::ContainerTitle, SearchField::Author, SearchField::Editor, SearchField::Chair, SearchField::Translator, SearchField::Contributor, SearchField::Bibliographic, SearchField::Affiliation, SearchField::Degree, SearchField::Description, SearchField::EventAcronym, SearchField::EventLocation, SearchField::EventName, SearchField::EventSponsor, SearchField::EventTheme, SearchField::FunderName, SearchField::PublisherLocation, SearchField::PublisherName, SearchField::StandardsBodyAcronym, SearchField::StandardsBodyName]
    }

    /// the name crossref knows this field by
    pub fn as_str(&self) -> (r: &'static str)
        ensures
            r@ == field_text(*self),
    {
        match self {
            SearchField::Title => "title",
            SearchField::ContainerTitle => "container-title",
            SearchField::Author => "author",
            SearchField::Editor => "editor",
            SearchField::Chair => "chair",
            SearchField::Translator => "translator",
            SearchField::Contributor => "contributor",
            SearchField::Bibliographic => "bibliographic",
            SearchField::Affiliation => "affiliation",
            SearchField::Degree => "degree",
            SearchField::Description => "description",
            SearchField::EventAcronym => "event-acronym",
            SearchField::EventLocation => "event-location",
            SearchField::EventName => "event-name",
            SearchField::EventSponsor => "event-sponsor",
            SearchField::EventTheme => "event-theme",
            SearchField::FunderName => "funder-name",
            SearchField::PublisherLocation => "publisher-location",
            SearchField::PublisherName => "publisher-name",
            SearchField::StandardsBodyAcronym => "standards-body-acronym",
            SearchField::StandardsBodyName => "standards-body-name",
        }
    }

    /// The field named `s`, if any.
    pub fn lookup(s: &str) -> (r: Option<SearchField>)
        ensures
            match r {
                Some(x) => field_text(x) == s@,
                None => forall|x: SearchField| field_text(x) != s@,
            },
    {
        let all = SearchField::all();
        let mut i: usize = 0;
        while i < all.len()
            invariant
                all@ == all_fields(),
                i <= all@.len(),
                forall|j: int| 0 <= j < i ==> field_text(#[trigger] all@[j]) != s@,
            decreases all@.len() - i,
        {
            if str_eq(s, all[i].as_str()) {
                return Some(all[i]);
            }
            i = i + 1;
        }
        proof {
            assert forall|x: SearchField| field_text(x) != s@ by {
                lemma_all_fields_complete(x);
            }
        }
        None
    }
}

/// The name of the parameter that queries a field: `query.` and the field's name.
pub open spec fn field_param_text(f: SearchField) -> Seq<char> {
    match f {
        SearchField::Title => "query.title"@,
        SearchField::ContainerTitle => "query.container-title"@,
        SearchField::Author => "query.author"@,
        SearchField::Editor => "query.editor"@,
        SearchField::Chair => "query.chair"@,
        SearchField::Translator => "query.translator"@,
        SearchField::Contributor => "query.contributor"@,
        SearchField::Bibliographic => "query.bibliographic"@,
        SearchField::Affiliation => "query.affiliation"@,
        SearchField::Degree => "query.degree"@,
        SearchField::Description => "query.description"@,
        SearchField::EventAcronym => "query.event-acronym"@,
        SearchField::EventLocation => "query.event-location"@,
        SearchField::EventName => "query.event-name"@,
        SearchField::EventSponsor => "query.event-sponsor"@,
        SearchField::EventTheme => "query.event-theme"@,
        SearchField::FunderName => "query.funder-name"@,
        SearchField::PublisherLocation => "query.publisher-location"@,
        SearchField::PublisherName => "query.publisher-name"@,
        SearchField::StandardsBodyAcronym => "query.standards-body-acronym"@,
        SearchField::StandardsBodyName => "query.standards-body-name"@,
    }
}

impl SearchField {
    /// the name of the parameter that queries this field
    pub fn param(&self) -> (r: &'static str)
        ensures
            r@ == field_param_text(*self),
    {
        match self {
            SearchField::Title => "query.title",
            SearchField::ContainerTitle => "query.container-title",
            SearchField::Author => "query.author",
            SearchField::Editor => "query.editor",
            SearchField::Chair => "query.chair",
            SearchField::Translator => "query.translator",
            SearchField::Contributor => "query.contributor",
            SearchField::Bibliographic => "query.bibliographic",
            SearchField::Affiliation => "query.affiliation",
            SearchField::Degree => "query.degree",
            SearchField::Description => "query.description",
            SearchField::EventAcronym => "query.event-acronym",
            SearchField::EventLocation => "query.event-location",
            SearchField::EventName => "query.event-name",
            SearchField::EventSponsor => "query.event-sponsor",
            SearchField::EventTheme => "query.event-theme",
            SearchField::FunderName => "query.funder-name",
            SearchField::PublisherLocation => "query.publisher-location",
            SearchField::PublisherName => "query.publisher-name",
            SearchField::StandardsBodyAcronym => "query.standards-body-acronym",
            SearchField::StandardsBodyName => "query.standards-body-name",
        }
    }
}

impl FieldQuery {
    /// titles, including the subtitle
    pub fn title(term: &str) -> (r: FieldQuery)
        ensures
            r.spec_field() == SearchField::Title,
            r.spec_value() == term@,
    {
        FieldQuery::of(SearchField::Title, term)
    }

    /// the title of the containing work, aka `publication.name`
    pub fn container_title(term: &str) -> (r: FieldQuery)
        ensures
            r.spec_field() == SearchField::ContainerTitle,
            r.spec_value() == term@,
    {
        FieldQuery::of(SearchField::ContainerTitle, term)
    }

    /// author given and family names
    pub fn author(term: &str) -> (r: FieldQuery)
        ensures
            r.spec_field() == SearchField::Author,
            r.spec_value() == term@,
    {
        FieldQuery::of(SearchField::Author, term)
    }

    /// editor given and family names
    pub fn editor(term: &str) -> (r: FieldQuery)
        ensures
            r.spec_field() == SearchField::Editor,
            r.spec_value() == term@,
    {
        FieldQuery::of(SearchField::Editor, term)
    }

    /// chair given and family names
    pub fn chair(term: &str) -> (r: FieldQuery)
        ensures
            r.spec_field() == SearchField::Chair,
            r.spec_value() == term@,
    {
        FieldQuery::of(SearchField::Chair, term)
    }

    /// translator given and family names
    pub fn translator(term: &str) -> (r: FieldQuery)
        ensures
            r.spec_field() == SearchField::Translator,
            r.spec_value() == term@,
    {
        FieldQuery::of(SearchField::Translator, term)
    }

    /// author, editor, chair and translator given and family names
    pub fn contributor(term: &str) -> (r: FieldQuery)
        ensures
            r.spec_field() == SearchField::Contributor,
            r.spec_value() == term@,
    {
        FieldQuery::of(SearchField::Contributor, term)
    }

    /// bibliographic information, useful for citation look up. Includes
    /// titles, authors, ISSNs and publication years
    pub fn bibliographic(term: &str) -> (r: FieldQuery)
        ensures
            r.spec_field() == SearchField::Bibliographic,
            r.spec_value() == term@,
    {
        FieldQuery::of(SearchField::Bibliographic, term)
    }

    /// contributor affiliations
    pub fn affiliation(term: &str) -> (r: FieldQuery)
        ensures
            r.spec_field() == SearchField::Affiliation,
            r.spec_value() == term@,
    {
        FieldQuery::of(SearchField::Affiliation, term)
    }

    /// the degree a dissertation was awarded for
    pub fn degree(term: &str) -> (r: FieldQuery)
        ensures
            r.spec_field() == SearchField::Degree,
            r.spec_value() == term@,
    {
        FieldQuery::of(SearchField::Degree, term)
    }

    /// the description deposited for posted content
    pub fn description(term: &str) -> (r: FieldQuery)
        ensures
            r.spec_field() == SearchField::Description,
            r.spec_value() == term@,
    {
        FieldQuery::of(SearchField::Description, term)
    }

    /// the short form of an event's name
    pub fn event_acronym(term: &str) -> (r: FieldQuery)
        ensures
            r.spec_field() == SearchField::EventAcronym,
            r.spec_value() == term@,
    {
        FieldQuery::of(SearchField::EventAcronym, term)
    }

    /// where an event was held
    pub fn event_location(term: &str) -> (r: FieldQuery)
        ensures
            r.spec_field() == SearchField::EventLocation,
            r.spec_value() == term@,
    {
        FieldQuery::of(SearchField::EventLocation, term)
    }

    /// an event's name
    pub fn event_name(term: &str) -> (r: FieldQuery)
        ensures
            r.spec_field() == SearchField::EventName,
            r.spec_value() == term@,
    {
        FieldQuery::of(SearchField::EventName, term)
    }

    /// who sponsored an event
    pub fn event_sponsor(term: &str) -> (r: FieldQuery)
        ensures
            r.spec_field() == SearchField::EventSponsor,
            r.spec_value() == term@,
    {
        FieldQuery::of(SearchField::EventSponsor, term)
    }

    /// an event's theme
    pub fn event_theme(term: &str) -> (r: FieldQuery)
        ensures
            r.spec_field() == SearchField::EventTheme,
            r.spec_value() == term@,
    {
        FieldQuery::of(SearchField::EventTheme, term)
    }

    /// the name of a funding body, for works whose funder carries no registry DOI
    pub fn funder_name(term: &str) -> (r: FieldQuery)
        ensures
            r.spec_field() == SearchField::FunderName,
            r.spec_value() == term@,
    {
        FieldQuery::of(SearchField::FunderName, term)
    }

    /// where the publisher is located
    pub fn publisher_location(term: &str) -> (r: FieldQuery)
        ensures
            r.spec_field() == SearchField::PublisherLocation,
            r.spec_value() == term@,
    {
        FieldQuery::of(SearchField::PublisherLocation, term)
    }

    /// the publisher's name
    pub fn publisher_name(term: &str) -> (r: FieldQuery)
        ensures
            r.spec_field() == SearchField::PublisherName,
            r.spec_value() == term@,
    {
        FieldQuery::of(SearchField::PublisherName, term)
    }

    /// the short form of a standards body's name
    pub fn standards_body_acronym(term: &str) -> (r: FieldQuery)
        ensures
            r.spec_field() == SearchField::StandardsBodyAcronym,
            r.spec_value() == term@,
    {
        FieldQuery::of(SearchField::StandardsBodyAcronym, term)
    }

    /// the name of the body that issued a standard
    pub fn standards_body_name(term: &str) -> (r: FieldQuery)
        ensures
            r.spec_field() == SearchField::StandardsBodyName,
            r.spec_value() == term@,
    {
        FieldQuery::of(SearchField::StandardsBodyName, term)
    }

}

/// A term matched against one field of a work's metadata, sent as the
/// `query.{field}` parameter.
#[derive(Debug, Clone)]
pub struct FieldQuery {
    field: SearchField,
    value: String,
}

impl FieldQuery {
    /// The field the term is matched against.
    pub closed spec fn spec_field(&self) -> SearchField {
        self.field
    }

    /// The term, as given.
    pub closed spec fn spec_value(&self) -> Seq<char> {
        self.value@
    }

    /// A query matching `term` against `field`.
    pub fn of(field: SearchField, term: &str) -> (r: FieldQuery)
        ensures
            r.spec_field() == field,
            r.spec_value() == term@,
    {
        FieldQuery { field, value: owned(term) }
    }

    /// A query matching `term` against the field named `field`, or [`None`]
    /// if `/works` has no field of that name.
    pub fn from_field(field: &str, term: &str) -> (r: Option<FieldQuery>)
        ensures
            match r {
                Some(q) => field_text(q.spec_field()) == field@ && q.spec_value() == term@,
                None => forall|f: SearchField| field_text(f) != field@,
            },
    {
        match SearchField::lookup(field) {
            Some(f) => Some(FieldQuery::of(f, term)),
            None => None,
        }
    }

    /// the name of the parameter, e.g. `query.title`
    pub fn name(&self) -> (r: &'static str)
        ensures
            r@ == field_param_text(self.spec_field()),
    {
        self.field.param()
    }

    /// the term, as given
    pub fn value(&self) -> (r: &str)
        ensures
            r@ == self.spec_value(),
    {
        self.value.as_str()
    }

    /// the field the term is matched against
    pub fn field(&self) -> (r: SearchField)
        ensures
            r == self.spec_field(),
    {
        self.field
    }
}

/// The one pair a field query renders to: its parameter name and the term
/// with its whitespace collapsed.
pub open spec fn field_query_param(q: FieldQuery) -> (Seq<char>, Seq<char>) {
    (field_param_text(q.spec_field()), collapsed(q.spec_value()))
}

impl CrossrefQueryParam for FieldQuery {
    open spec fn params_spec(&self) -> Seq<(Seq<char>, Seq<char>)> {
        seq![field_query_param(*self)]
    }

    fn params(&self) -> (r: Vec<Param>) {
        let mut v: Vec<Param> = Vec::new();
        v.push((owned(self.name()), format_query(self.value())));
        v
    }
}

} // verus!
