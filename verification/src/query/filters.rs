//! The filters each route narrows a query by.

use vstd::prelude::*;
use crate::date::{chrono_date_parsed, date_text, Date};
use crate::numbers::{parse_i32, parse_u64, parsed_i32, parsed_u64};
use crate::query::types::{type_id_text, Type};
use crate::query::{fragment_text, Filter, ParamFragment};
use crate::text::{decimal, i32_text, owned, signed_decimal, str_eq, u64_text};

verus! {

/// Narrows a `/works` query. Every filter is ANDed with the others.
///
/// Covers all 90 filters `/works` accepts. `location` and `reference-visibility`
/// are not among them: `location` belongs to [`FundersFilter`].
#[derive(Debug, Clone, PartialEq, Eq)]
pub enum WorksFilter {
    /// metadata which includes one or more funder entry
    HasFunder,
    /// metadata where a funder entry carries a Funder Registry DOI
    HasFunderDoi,
    /// metadata where a funder entry carries a ROR id
    HasFunderRorId,
    /// metadata for records that have any affiliation information
    HasAffiliation,
    /// metadata where an affiliation carries a ROR id
    HasAffiliationRorId,
    /// metadata carrying a ROR id anywhere
    HasRorId,
    /// metadata that includes any `<license_ref>` elements
    HasLicense,
    /// metadata that includes any full text `<resource>` elements
    HasFullText,
    /// metadata for works that have a list of references
    HasReferences,
    /// metadata which include name of archive partner
    HasArchive,
    /// metadata which includes one or more ORCIDs
    HasOrcid,
    /// metadata which includes one or more ORCIDs where the depositing publisher claims to have witness the ORCID owner authenticate with ORCID
    HasAuthenticatedOrcid,
    /// metadata for records which include an abstract
    HasAbstract,
    /// metadata for records which include a clinical trial number
    HasClinicalTrialNumber,
    /// metadata where the publisher records a domain name location for Crossmark content
    HasContentDomain,
    /// metadata where the publisher restricts Crossmark usage to content domains
    HasDomainRestriction,
    /// metadata for records that either assert or are the object of a relation
    HasRelation,
    /// metadata for records that carry an editorial update
    HasUpdate,
    /// metadata for records that include a link to an editorial update policy
    HasUpdatePolicy,
    /// metadata for records with any assertions
    HasAssertion,
    /// metadata for records that carry award information
    HasAward,
    /// metadata for records deposited under more than one DOI
    HasAlias,
    /// metadata for records that are the primary DOI of an alias group
    HasPrimeDoi,
    /// metadata for records that describe an event
    HasEvent,
    /// metadata for records that represent editorial updates
    IsUpdate,
    /// metadata which include the `id` in FundRef data
    Funder(String),
    /// metadata belonging to a DOI owner prefix `{owner_prefix}` (e.g. 10.1016 )
    Prefix(String),
    /// metadata belonging to a Crossref member
    Member(String),
    /// metadata describing the DOI
    Doi(String),
    /// metadata where record has an ISSN = the value. Format is xxxx-xxxx
    Issn(String),
    /// metadata where record has an ISBN = the value
    Isbn(String),
    /// metadata where `<orcid>` element's value = the value
    Orcid(String),
    /// metadata which where value of archive partner is the value
    Archive(String),
    /// metadata records whose article or serial are mentioned in the given value.
    /// Currently the only supported value is `doaj`
    Directory(String),
    /// metadata for records that represent editorial updates to the DOI
    Updates(String),
    /// metadata for records with a publication title exactly with an exact match
    ContainerTitle(String),
    /// metadata for records with an exact matching category label.
    /// Category labels come from [this list](https://www.elsevier.com/solutions/scopus/content) published by Scopus
    CategoryName(String),
    /// metadata for records with an exacty matching type label
    TypeName(String),
    /// metadata records whose type = value.
    /// Type must be an ID value from the list of types returned by the `/types` resource
    Type(Type),
    /// metadata for records with a matching group title, as deposited for posted content
    GroupTitle(String),
    /// metadata where the publisher records a particular domain name as the location Crossmark content will appear
    ContentDomain(String),
    /// metadata for records carrying the given clinical trial number
    ClinicalTrialNumber(String),
    /// metadata for records with the given alternative ID,
    /// which may be a publisher-specific ID, or any other identifier a publisher may have provided
    AlternativeId(String),
    /// metadata for records with a given article number
    ArticleNumber(String),
    /// metadata carrying the given [ROR](https://ror.org) id, the identifier
    /// crossref now models affiliations and funders with
    RorId(String),
    /// metadata for editorial updates of the given kind, e.g. `correction` or `retraction`
    UpdateType(String),
    /// metadata where a funder's DOI was asserted by the value, either
    /// `crossref` or `publisher`
    FunderDoiAssertedBy(String),
    /// metadata for records with a particular named assertion
    Assertion(String),
    /// metadata for records with an assertion in a particular group
    AssertionGroup(String),
    /// metadata for records with a matching award number.
    /// Optionally combine with `award.funder`
    AwardNumber(String),
    /// metadata for records with an award with matching funder.
    /// Optionally combine with `award.number`
    AwardFunder(String),
    /// metadata for records with an award of at least this amount
    GteAwardAmount(u64),
    /// metadata for records with an award of at most this amount
    LteAwardAmount(u64),
    /// metadata where `<license_ref>` value equals the value
    LicenseUrl(String),
    /// metadata where the `<license_ref>`'s applies_to attribute is
    LicenseVersion(String),
    /// metadata where difference between publication date and the `<license_ref>`'s start_date attribute is <= value (in days)
    LicenseDelay(i32),
    /// metadata where `<resource>` element's content_version attribute is the value
    FullTextVersion(String),
    /// metadata where `<resource>` element's content_type attribute is value (e.g. `application/pdf)`
    FullTextType(String),
    /// metadata where `<resource>` link has one of the following intended applications: `text-mining`, `similarity-checking` or `unspecified`
    FullTextApplication(String),
    /// One of the relation types from the Crossref relations schema
    /// (e.g. `is-referenced-by`, `is-parent-of`, `is-preprint-of`)
    RelationType(String),
    /// Relations where the object identifier matches the identifier provided
    RelationObject(String),
    /// One of the identifier types from the Crossref relations schema (e.g. `doi`, `issn`)
    RelationObjectType(String),
    /// metadata indexed since (inclusive)
    FromIndexDate(Date),
    /// metadata indexed before (inclusive)
    UntilIndexDate(Date),
    /// metadata last (re)deposited since (inclusive)
    FromDepositDate(Date),
    /// metadata last (re)deposited before (inclusive)
    UntilDepositDate(Date),
    /// Metadata updated since (inclusive) {date}.
    /// Currently the same as `from-deposit-date`
    FromUpdateDate(Date),
    /// Metadata updated before (inclusive) {date}.
    /// Currently the same as `until-deposit-date`
    UntilUpdateDate(Date),
    /// metadata first deposited since (inclusive)
    FromCreatedDate(Date),
    /// metadata first deposited before (inclusive)
    UntilCreatedDate(Date),
    /// metadata where published date is since (inclusive)
    FromPubDate(Date),
    /// metadata where published date is before (inclusive)
    UntilPubDate(Date),
    /// metadata where online published date is since (inclusive)
    FromOnlinePubDate(Date),
    /// metadata where online published date is before (inclusive)
    UntilOnlinePubDate(Date),
    /// metadata where print published date is since (inclusive)
    FromPrintPubDate(Date),
    /// metadata where print published date is before (inclusive)
    UntilPrintPubDate(Date),
    /// metadata where posted date is since (inclusive)
    FromPostedDate(Date),
    /// metadata where posted date is before (inclusive)
    UntilPostedDate(Date),
    /// metadata where accepted date is since (inclusive)
    FromAcceptedDate(Date),
    /// metadata where accepted date is before (inclusive)
    UntilAcceptedDate(Date),
    /// metadata where approved date is since (inclusive)
    FromApprovedDate(Date),
    /// metadata where approved date is before (inclusive)
    UntilApprovedDate(Date),
    /// metadata where an award was made since (inclusive)
    FromAwardedDate(Date),
    /// metadata where an award was made before (inclusive)
    UntilAwardedDate(Date),
    /// metadata where issued date is since (inclusive)
    FromIssuedDate(Date),
    /// metadata where issued date is before (inclusive)
    UntilIssuedDate(Date),
    /// metadata for events starting since (inclusive)
    FromEventStartDate(Date),
    /// metadata for events starting before (inclusive)
    UntilEventStartDate(Date),
    /// metadata for events ending since (inclusive)
    FromEventEndDate(Date),
    /// metadata for events ending before (inclusive)
    UntilEventEndDate(Date),
}

/// The name crossref knows a filter by.
pub open spec fn works_filter_name(f: WorksFilter) -> Seq<char> {
    match f {
        WorksFilter::HasFunder => "has-funder"@,
        WorksFilter::HasFunderDoi => "has-funder-doi"@,
        WorksFilter::HasFunderRorId => "has-funder-ror-id"@,
        WorksFilter::HasAffiliation => "has-affiliation"@,
        WorksFilter::HasAffiliationRorId => "has-affiliation-ror-id"@,
        WorksFilter::HasRorId => "has-ror-id"@,
        WorksFilter::HasLicense => "has-license"@,
        WorksFilter::HasFullText => "has-full-text"@,
        WorksFilter::HasReferences => "has-references"@,
        WorksFilter::HasArchive => "has-archive"@,
        WorksFilter::HasOrcid => "has-orcid"@,
        WorksFilter::HasAuthenticatedOrcid => "has-authenticated-orcid"@,
        WorksFilter::HasAbstract => "has-abstract"@,
        WorksFilter::HasClinicalTrialNumber => "has-clinical-trial-number"@,
        WorksFilter::HasContentDomain => "has-content-domain"@,
        WorksFilter::HasDomainRestriction => "has-domain-restriction"@,
        WorksFilter::HasRelation => "has-relation"@,
        WorksFilter::HasUpdate => "has-update"@,
        WorksFilter::HasUpdatePolicy => "has-update-policy"@,
        WorksFilter::HasAssertion => "has-assertion"@,
        WorksFilter::HasAward => "has-award"@,
        WorksFilter::HasAlias => "has-alias"@,
        WorksFilter::HasPrimeDoi => "has-prime-doi"@,
        WorksFilter::HasEvent => "has-event"@,
        WorksFilter::IsUpdate => "is-update"@,
        WorksFilter::Funder(_) => "funder"@,
        WorksFilter::Prefix(_) => "prefix"@,
        WorksFilter::Member(_) => "member"@,
        WorksFilter::Doi(_) => "doi"@,
        WorksFilter::Issn(_) => "issn"@,
        WorksFilter::Isbn(_) => "isbn"@,
        WorksFilter::Orcid(_) => "orcid"@,
        WorksFilter::Archive(_) => "archive"@,
        WorksFilter::Directory(_) => "directory"@,
        WorksFilter::Updates(_) => "updates"@,
        WorksFilter::ContainerTitle(_) => "container-title"@,
        WorksFilter::CategoryName(_) => "category-name"@,
        WorksFilter::TypeName(_) => "type-name"@,
        WorksFilter::Type(_) => "type"@,
        WorksFilter::GroupTitle(_) => "group-title"@,
        WorksFilter::ContentDomain(_) => "content-domain"@,
        WorksFilter::ClinicalTrialNumber(_) => "clinical-trial-number"@,
        WorksFilter::AlternativeId(_) => "alternative-id"@,
        WorksFilter::ArticleNumber(_) => "article-number"@,
        WorksFilter::RorId(_) => "ror-id"@,
        WorksFilter::UpdateType(_) => "update-type"@,
        WorksFilter::FunderDoiAssertedBy(_) => "funder-doi-asserted-by"@,
        WorksFilter::Assertion(_) => "assertion"@,
        WorksFilter::AssertionGroup(_) => "assertion-group"@,
        WorksFilter::AwardNumber(_) => "award.number"@,
        WorksFilter::AwardFunder(_) => "award.funder"@,
        WorksFilter::GteAwardAmount(_) => "gte-award-amount"@,
        WorksFilter::LteAwardAmount(_) => "lte-award-amount"@,
        WorksFilter::LicenseUrl(_) => "license.url"@,
        WorksFilter::LicenseVersion(_) => "license.version"@,
        WorksFilter::LicenseDelay(_) => "license.delay"@,
        WorksFilter::FullTextVersion(_) => "full-text.version"@,
        WorksFilter::FullTextType(_) => "full-text.type"@,
        WorksFilter::FullTextApplication(_) => "full-text.application"@,
        WorksFilter::RelationType(_) => "relation.type"@,
        WorksFilter::RelationObject(_) => "relation.object"@,
        WorksFilter::RelationObjectType(_) => "relation.object-type"@,
        WorksFilter::FromIndexDate(_) => "from-index-date"@,
        WorksFilter::UntilIndexDate(_) => "until-index-date"@,
        WorksFilter::FromDepositDate(_) => "from-deposit-date"@,
        WorksFilter::UntilDepositDate(_) => "until-deposit-date"@,
        WorksFilter::FromUpdateDate(_) => "from-update-date"@,
        WorksFilter::UntilUpdateDate(_) => "until-update-date"@,
        WorksFilter::FromCreatedDate(_) => "from-created-date"@,
        WorksFilter::UntilCreatedDate(_) => "until-created-date"@,
        WorksFilter::FromPubDate(_) => "from-pub-date"@,
        WorksFilter::UntilPubDate(_) => "until-pub-date"@,
        WorksFilter::FromOnlinePubDate(_) => "from-online-pub-date"@,
        WorksFilter::UntilOnlinePubDate(_) => "until-online-pub-date"@,
        WorksFilter::FromPrintPubDate(_) => "from-print-pub-date"@,
        WorksFilter::UntilPrintPubDate(_) => "until-print-pub-date"@,
        WorksFilter::FromPostedDate(_) => "from-posted-date"@,
        WorksFilter::UntilPostedDate(_) => "until-posted-date"@,
        WorksFilter::FromAcceptedDate(_) => "from-accepted-date"@,
        WorksFilter::UntilAcceptedDate(_) => "until-accepted-date"@,
        WorksFilter::FromApprovedDate(_) => "from-approved-date"@,
        WorksFilter::UntilApprovedDate(_) => "until-approved-date"@,
        WorksFilter::FromAwardedDate(_) => "from-awarded-date"@,
        WorksFilter::UntilAwardedDate(_) => "until-awarded-date"@,
        WorksFilter::FromIssuedDate(_) => "from-issued-date"@,
        WorksFilter::UntilIssuedDate(_) => "until-issued-date"@,
        WorksFilter::FromEventStartDate(_) => "from-event-start-date"@,
        WorksFilter::UntilEventStartDate(_) => "until-event-start-date"@,
        WorksFilter::FromEventEndDate(_) => "from-event-end-date"@,
        WorksFilter::UntilEventEndDate(_) => "until-event-end-date"@,
    }
}

/// The value a filter is sent with: `true` for one that only asks whether a
/// record has something, the value it carries otherwise.
pub open spec fn works_filter_value(f: WorksFilter) -> Seq<char> {
    match f {
        WorksFilter::HasFunder => "true"@,
        WorksFilter::HasFunderDoi => "true"@,
        WorksFilter::HasFunderRorId => "true"@,
        WorksFilter::HasAffiliation => "true"@,
        WorksFilter::HasAffiliationRorId => "true"@,
        WorksFilter::HasRorId => "true"@,
        WorksFilter::HasLicense => "true"@,
        WorksFilter::HasFullText => "true"@,
        WorksFilter::HasReferences => "true"@,
        WorksFilter::HasArchive => "true"@,
        WorksFilter::HasOrcid => "true"@,
        WorksFilter::HasAuthenticatedOrcid => "true"@,
        WorksFilter::HasAbstract => "true"@,
        WorksFilter::HasClinicalTrialNumber => "true"@,
        WorksFilter::HasContentDomain => "true"@,
        WorksFilter::HasDomainRestriction => "true"@,
        WorksFilter::HasRelation => "true"@,
        WorksFilter::HasUpdate => "true"@,
        WorksFilter::HasUpdatePolicy => "true"@,
        WorksFilter::HasAssertion => "true"@,
        WorksFilter::HasAward => "true"@,
        WorksFilter::HasAlias => "true"@,
        WorksFilter::HasPrimeDoi => "true"@,
        WorksFilter::HasEvent => "true"@,
        WorksFilter::IsUpdate => "true"@,
        WorksFilter::Funder(x) => x@,
        WorksFilter::Prefix(x) => x@,
        WorksFilter::Member(x) => x@,
        WorksFilter::Doi(x) => x@,
        WorksFilter::Issn(x) => x@,
        WorksFilter::Isbn(x) => x@,
        WorksFilter::Orcid(x) => x@,
        WorksFilter::Archive(x) => x@,
        WorksFilter::Directory(x) => x@,
        WorksFilter::Updates(x) => x@,
        WorksFilter::ContainerTitle(x) => x@,
        WorksFilter::CategoryName(x) => x@,
        WorksFilter::TypeName(x) => x@,
        WorksFilter::Type(x) => type_id_text(x),
        WorksFilter::GroupTitle(x) => x@,
        WorksFilter::ContentDomain(x) => x@,
        WorksFilter::ClinicalTrialNumber(x) => x@,
        WorksFilter::AlternativeId(x) => x@,
        WorksFilter::ArticleNumber(x) => x@,
        WorksFilter::RorId(x) => x@,
        WorksFilter::UpdateType(x) => x@,
        WorksFilter::FunderDoiAssertedBy(x) => x@,
        WorksFilter::Assertion(x) => x@,
        WorksFilter::AssertionGroup(x) => x@,
        WorksFilter::AwardNumber(x) => x@,
        WorksFilter::AwardFunder(x) => x@,
        WorksFilter::GteAwardAmount(x) => decimal(x as nat),
        WorksFilter::LteAwardAmount(x) => decimal(x as nat),
        WorksFilter::LicenseUrl(x) => x@,
        WorksFilter::LicenseVersion(x) => x@,
        WorksFilter::LicenseDelay(x) => signed_decimal(x as int),
        WorksFilter::FullTextVersion(x) => x@,
        WorksFilter::FullTextType(x) => x@,
        WorksFilter::FullTextApplication(x) => x@,
        WorksFilter::RelationType(x) => x@,
        WorksFilter::RelationObject(x) => x@,
        WorksFilter::RelationObjectType(x) => x@,
        WorksFilter::FromIndexDate(x) => date_text(x),
        WorksFilter::UntilIndexDate(x) => date_text(x),
        WorksFilter::FromDepositDate(x) => date_text(x),
        WorksFilter::UntilDepositDate(x) => date_text(x),
        WorksFilter::FromUpdateDate(x) => date_text(x),
        WorksFilter::UntilUpdateDate(x) => date_text(x),
        WorksFilter::FromCreatedDate(x) => date_text(x),
        WorksFilter::UntilCreatedDate(x) => date_text(x),
        WorksFilter::FromPubDate(x) => date_text(x),
        WorksFilter::UntilPubDate(x) => date_text(x),
        WorksFilter::FromOnlinePubDate(x) => date_text(x),
        WorksFilter::UntilOnlinePubDate(x) => date_text(x),
        WorksFilter::FromPrintPubDate(x) => date_text(x),
        WorksFilter::UntilPrintPubDate(x) => date_text(x),
        WorksFilter::FromPostedDate(x) => date_text(x),
        WorksFilter::UntilPostedDate(x) => date_text(x),
        WorksFilter::FromAcceptedDate(x) => date_text(x),
        WorksFilter::UntilAcceptedDate(x) => date_text(x),
        WorksFilter::FromApprovedDate(x) => date_text(x),
        WorksFilter::UntilApprovedDate(x) => date_text(x),
        WorksFilter::FromAwardedDate(x) => date_text(x),
        WorksFilter::UntilAwardedDate(x) => date_text(x),
        WorksFilter::FromIssuedDate(x) => date_text(x),
        WorksFilter::UntilIssuedDate(x) => date_text(x),
        WorksFilter::FromEventStartDate(x) => date_text(x),
        WorksFilter::UntilEventStartDate(x) => date_text(x),
        WorksFilter::FromEventEndDate(x) => date_text(x),
        WorksFilter::UntilEventEndDate(x) => date_text(x),
    }
}

impl WorksFilter {
    /// the name crossref knows this filter by
    pub fn name(&self) -> (r: &'static str)
        ensures
            r@ == works_filter_name(*self),
    {
        match self {
            WorksFilter::HasFunder => "has-funder",
            WorksFilter::HasFunderDoi => "has-funder-doi",
            WorksFilter::HasFunderRorId => "has-funder-ror-id",
            WorksFilter::HasAffiliation => "has-affiliation",
            WorksFilter::HasAffiliationRorId => "has-affiliation-ror-id",
            WorksFilter::HasRorId => "has-ror-id",
            WorksFilter::HasLicense => "has-license",
            WorksFilter::HasFullText => "has-full-text",
            WorksFilter::HasReferences => "has-references",
            WorksFilter::HasArchive => "has-archive",
            WorksFilter::HasOrcid => "has-orcid",
            WorksFilter::HasAuthenticatedOrcid => "has-authenticated-orcid",
            WorksFilter::HasAbstract => "has-abstract",
            WorksFilter::HasClinicalTrialNumber => "has-clinical-trial-number",
            WorksFilter::HasContentDomain => "has-content-domain",
            WorksFilter::HasDomainRestriction => "has-domain-restriction",
            WorksFilter::HasRelation => "has-relation",
            WorksFilter::HasUpdate => "has-update",
            WorksFilter::HasUpdatePolicy => "has-update-policy",
            WorksFilter::HasAssertion => "has-assertion",
            WorksFilter::HasAward => "has-award",
            WorksFilter::HasAlias => "has-alias",
            WorksFilter::HasPrimeDoi => "has-prime-doi",
            WorksFilter::HasEvent => "has-event",
            WorksFilter::IsUpdate => "is-update",
            WorksFilter::Funder(_) => "funder",
            WorksFilter::Prefix(_) => "prefix",
            WorksFilter::Member(_) => "member",
            WorksFilter::Doi(_) => "doi",
            WorksFilter::Issn(_) => "issn",
            WorksFilter::Isbn(_) => "isbn",
            WorksFilter::Orcid(_) => "orcid",
            WorksFilter::Archive(_) => "archive",
            WorksFilter::Directory(_) => "directory",
            WorksFilter::Updates(_) => "updates",
            WorksFilter::ContainerTitle(_) => "container-title",
            WorksFilter::CategoryName(_) => "category-name",
            WorksFilter::TypeName(_) => "type-name",
            WorksFilter::Type(_) => "type",
            WorksFilter::GroupTitle(_) => "group-title",
            WorksFilter::ContentDomain(_) => "content-domain",
            WorksFilter::ClinicalTrialNumber(_) => "clinical-trial-number",
            WorksFilter::AlternativeId(_) => "alternative-id",
            WorksFilter::ArticleNumber(_) => "article-number",
            WorksFilter::RorId(_) => "ror-id",
            WorksFilter::UpdateType(_) => "update-type",
            WorksFilter::FunderDoiAssertedBy(_) => "funder-doi-asserted-by",
            WorksFilter::Assertion(_) => "assertion",
            WorksFilter::AssertionGroup(_) => "assertion-group",
            WorksFilter::AwardNumber(_) => "award.number",
            WorksFilter::AwardFunder(_) => "award.funder",
            WorksFilter::GteAwardAmount(_) => "gte-award-amount",
            WorksFilter::LteAwardAmount(_) => "lte-award-amount",
            WorksFilter::LicenseUrl(_) => "license.url",
            WorksFilter::LicenseVersion(_) => "license.version",
            WorksFilter::LicenseDelay(_) => "license.delay",
            WorksFilter::FullTextVersion(_) => "full-text.version",
            WorksFilter::FullTextType(_) => "full-text.type",
            WorksFilter::FullTextApplication(_) => "full-text.application",
            WorksFilter::RelationType(_) => "relation.type",
            WorksFilter::RelationObject(_) => "relation.object",
            WorksFilter::RelationObjectType(_) => "relation.object-type",
            WorksFilter::FromIndexDate(_) => "from-index-date",
            WorksFilter::UntilIndexDate(_) => "until-index-date",
            WorksFilter::FromDepositDate(_) => "from-deposit-date",
            WorksFilter::UntilDepositDate(_) => "until-deposit-date",
            WorksFilter::FromUpdateDate(_) => "from-update-date",
            WorksFilter::UntilUpdateDate(_) => "until-update-date",
            WorksFilter::FromCreatedDate(_) => "from-created-date",
            WorksFilter::UntilCreatedDate(_) => "until-created-date",
            WorksFilter::FromPubDate(_) => "from-pub-date",
            WorksFilter::UntilPubDate(_) => "until-pub-date",
            WorksFilter::FromOnlinePubDate(_) => "from-online-pub-date",
            WorksFilter::UntilOnlinePubDate(_) => "until-online-pub-date",
            WorksFilter::FromPrintPubDate(_) => "from-print-pub-date",
            WorksFilter::UntilPrintPubDate(_) => "until-print-pub-date",
            WorksFilter::FromPostedDate(_) => "from-posted-date",
            WorksFilter::UntilPostedDate(_) => "until-posted-date",
            WorksFilter::FromAcceptedDate(_) => "from-accepted-date",
            WorksFilter::UntilAcceptedDate(_) => "until-accepted-date",
            WorksFilter::FromApprovedDate(_) => "from-approved-date",
            WorksFilter::UntilApprovedDate(_) => "until-approved-date",
            WorksFilter::FromAwardedDate(_) => "from-awarded-date",
            WorksFilter::UntilAwardedDate(_) => "until-awarded-date",
            WorksFilter::FromIssuedDate(_) => "from-issued-date",
            WorksFilter::UntilIssuedDate(_) => "until-issued-date",
            WorksFilter::FromEventStartDate(_) => "from-event-start-date",
            WorksFilter::UntilEventStartDate(_) => "until-event-start-date",
            WorksFilter::FromEventEndDate(_) => "from-event-end-date",
            WorksFilter::UntilEventEndDate(_) => "until-event-end-date",
        }
    }

    /// the value this filter is sent with
    pub fn value_text(&self) -> (r: String)
        ensures
            r@ == works_filter_value(*self),
    {
        match self {
            WorksFilter::HasFunder => owned("true"),
            WorksFilter::HasFunderDoi => owned("true"),
            WorksFilter::HasFunderRorId => owned("true"),
            WorksFilter::HasAffiliation => owned("true"),
            WorksFilter::HasAffiliationRorId => owned("true"),
            WorksFilter::HasRorId => owned("true"),
            WorksFilter::HasLicense => owned("true"),
            WorksFilter::HasFullText => owned("true"),
            WorksFilter::HasReferences => owned("true"),
            WorksFilter::HasArchive => owned("true"),
            WorksFilter::HasOrcid => owned("true"),
            WorksFilter::HasAuthenticatedOrcid => owned("true"),
            WorksFilter::HasAbstract => owned("true"),
            WorksFilter::HasClinicalTrialNumber => owned("true"),
            WorksFilter::HasContentDomain => owned("true"),
            WorksFilter::HasDomainRestriction => owned("true"),
            WorksFilter::HasRelation => owned("true"),
            WorksFilter::HasUpdate => owned("true"),
            WorksFilter::HasUpdatePolicy => owned("true"),
            WorksFilter::HasAssertion => owned("true"),
            WorksFilter::HasAward => owned("true"),
            WorksFilter::HasAlias => owned("true"),
            WorksFilter::HasPrimeDoi => owned("true"),
            WorksFilter::HasEvent => owned("true"),
            WorksFilter::IsUpdate => owned("true"),
            WorksFilter::Funder(x) => x.clone(),
            WorksFilter::Prefix(x) => x.clone(),
            WorksFilter::Member(x) => x.clone(),
            WorksFilter::Doi(x) => x.clone(),
            WorksFilter::Issn(x) => x.clone(),
            WorksFilter::Isbn(x) => x.clone(),
            WorksFilter::Orcid(x) => x.clone(),
            WorksFilter::Archive(x) => x.clone(),
            WorksFilter::Directory(x) => x.clone(),
            WorksFilter::Updates(x) => x.clone(),
            WorksFilter::ContainerTitle(x) => x.clone(),
            WorksFilter::CategoryName(x) => x.clone(),
            WorksFilter::TypeName(x) => x.clone(),
            WorksFilter::Type(x) => owned(x.id()),
            WorksFilter::GroupTitle(x) => x.clone(),
            WorksFilter::ContentDomain(x) => x.clone(),
            WorksFilter::ClinicalTrialNumber(x) => x.clone(),
            WorksFilter::AlternativeId(x) => x.clone(),
            WorksFilter::ArticleNumber(x) => x.clone(),
            WorksFilter::RorId(x) => x.clone(),
            WorksFilter::UpdateType(x) => x.clone(),
            WorksFilter::FunderDoiAssertedBy(x) => x.clone(),
            WorksFilter::Assertion(x) => x.clone(),
            WorksFilter::AssertionGroup(x) => x.clone(),
            WorksFilter::AwardNumber(x) => x.clone(),
            WorksFilter::AwardFunder(x) => x.clone(),
            WorksFilter::GteAwardAmount(x) => u64_text(*x),
            WorksFilter::LteAwardAmount(x) => u64_text(*x),
            WorksFilter::LicenseUrl(x) => x.clone(),
            WorksFilter::LicenseVersion(x) => x.clone(),
            WorksFilter::LicenseDelay(x) => i32_text(*x),
            WorksFilter::FullTextVersion(x) => x.clone(),
            WorksFilter::FullTextType(x) => x.clone(),
            WorksFilter::FullTextApplication(x) => x.clone(),
            WorksFilter::RelationType(x) => x.clone(),
            WorksFilter::RelationObject(x) => x.clone(),
            WorksFilter::RelationObjectType(x) => x.clone(),
            WorksFilter::FromIndexDate(x) => x.to_iso(),
            WorksFilter::UntilIndexDate(x) => x.to_iso(),
            WorksFilter::FromDepositDate(x) => x.to_iso(),
            WorksFilter::UntilDepositDate(x) => x.to_iso(),
            WorksFilter::FromUpdateDate(x) => x.to_iso(),
            WorksFilter::UntilUpdateDate(x) => x.to_iso(),
            WorksFilter::FromCreatedDate(x) => x.to_iso(),
            WorksFilter::UntilCreatedDate(x) => x.to_iso(),
            WorksFilter::FromPubDate(x) => x.to_iso(),
            WorksFilter::UntilPubDate(x) => x.to_iso(),
            WorksFilter::FromOnlinePubDate(x) => x.to_iso(),
            WorksFilter::UntilOnlinePubDate(x) => x.to_iso(),
            WorksFilter::FromPrintPubDate(x) => x.to_iso(),
            WorksFilter::UntilPrintPubDate(x) => x.to_iso(),
            WorksFilter::FromPostedDate(x) => x.to_iso(),
            WorksFilter::UntilPostedDate(x) => x.to_iso(),
            WorksFilter::FromAcceptedDate(x) => x.to_iso(),
            WorksFilter::UntilAcceptedDate(x) => x.to_iso(),
            WorksFilter::FromApprovedDate(x) => x.to_iso(),
            WorksFilter::UntilApprovedDate(x) => x.to_iso(),
            WorksFilter::FromAwardedDate(x) => x.to_iso(),
            WorksFilter::UntilAwardedDate(x) => x.to_iso(),
            WorksFilter::FromIssuedDate(x) => x.to_iso(),
            WorksFilter::UntilIssuedDate(x) => x.to_iso(),
            WorksFilter::FromEventStartDate(x) => x.to_iso(),
            WorksFilter::UntilEventStartDate(x) => x.to_iso(),
            WorksFilter::FromEventEndDate(x) => x.to_iso(),
            WorksFilter::UntilEventEndDate(x) => x.to_iso(),
        }
    }
}

impl ParamFragment for WorksFilter {
    open spec fn key_spec(&self) -> Seq<char> {
        works_filter_name(*self)
    }

    open spec fn value_spec(&self) -> Option<Seq<char>> {
        Some(works_filter_value(*self))
    }

    fn key(&self) -> (r: String) {
        owned(self.name())
    }

    fn value(&self) -> (r: Option<String>) {
        Some(self.value_text())
    }
}

impl Filter for WorksFilter {}

/// Each works filter is sent under the name the crossref API lists for it,
/// a `:`, and its value: `true` for one that asks whether a record has
/// something, the date in ISO form for a date bound, the text or number it
/// carries otherwise. `FromIndexDate(d)` is sent as `from-index-date:` and the
/// date, `UntilIndexDate(d)` as `until-index-date:` and the date.
pub proof fn lemma_works_filter_fragments(f: WorksFilter)
    ensures
        fragment_text(f.key_spec(), f.value_spec()) == match f {
            WorksFilter::HasFunder => "has-funder"@ + seq![':'] + "true"@,
            WorksFilter::HasFunderDoi => "has-funder-doi"@ + seq![':'] + "true"@,
            WorksFilter::HasFunderRorId => "has-funder-ror-id"@ + seq![':'] + "true"@,
            WorksFilter::HasAffiliation => "has-affiliation"@ + seq![':'] + "true"@,
            WorksFilter::HasAffiliationRorId => "has-affiliation-ror-id"@ + seq![':'] + "true"@,
            WorksFilter::HasRorId => "has-ror-id"@ + seq![':'] + "true"@,
            WorksFilter::HasLicense => "has-license"@ + seq![':'] + "true"@,
            WorksFilter::HasFullText => "has-full-text"@ + seq![':'] + "true"@,
            WorksFilter::HasReferences => "has-references"@ + seq![':'] + "true"@,
            WorksFilter::HasArchive => "has-archive"@ + seq![':'] + "true"@,
            WorksFilter::HasOrcid => "has-orcid"@ + seq![':'] + "true"@,
            WorksFilter::HasAuthenticatedOrcid => "has-authenticated-orcid"@ + seq![':'] + "true"@,
            WorksFilter::HasAbstract => "has-abstract"@ + seq![':'] + "true"@,
            WorksFilter::HasClinicalTrialNumber => "has-clinical-trial-number"@ + seq![':'] + "true"@,
            WorksFilter::HasContentDomain => "has-content-domain"@ + seq![':'] + "true"@,
            WorksFilter::HasDomainRestriction => "has-domain-restriction"@ + seq![':'] + "true"@,
            WorksFilter::HasRelation => "has-relation"@ + seq![':'] + "true"@,
            WorksFilter::HasUpdate => "has-update"@ + seq![':'] + "true"@,
            WorksFilter::HasUpdatePolicy => "has-update-policy"@ + seq![':'] + "true"@,
            WorksFilter::HasAssertion => "has-assertion"@ + seq![':'] + "true"@,
            WorksFilter::HasAward => "has-award"@ + seq![':'] + "true"@,
            WorksFilter::HasAlias => "has-alias"@ + seq![':'] + "true"@,
            WorksFilter::HasPrimeDoi => "has-prime-doi"@ + seq![':'] + "true"@,
            WorksFilter::HasEvent => "has-event"@ + seq![':'] + "true"@,
            WorksFilter::IsUpdate => "is-update"@ + seq![':'] + "true"@,
            WorksFilter::Funder(x) => "funder"@ + seq![':'] + x@,
            WorksFilter::Prefix(x) => "prefix"@ + seq![':'] + x@,
            WorksFilter::Member(x) => "member"@ + seq![':'] + x@,
            WorksFilter::Doi(x) => "doi"@ + seq![':'] + x@,
            WorksFilter::Issn(x) => "issn"@ + seq![':'] + x@,
            WorksFilter::Isbn(x) => "isbn"@ + seq![':'] + x@,
            WorksFilter::Orcid(x) => "orcid"@ + seq![':'] + x@,
            WorksFilter::Archive(x) => "archive"@ + seq![':'] + x@,
            WorksFilter::Directory(x) => "directory"@ + seq![':'] + x@,
            WorksFilter::Updates(x) => "updates"@ + seq![':'] + x@,
            WorksFilter::ContainerTitle(x) => "container-title"@ + seq![':'] + x@,
            WorksFilter::CategoryName(x) => "category-name"@ + seq![':'] + x@,
            WorksFilter::TypeName(x) => "type-name"@ + seq![':'] + x@,
            WorksFilter::Type(x) => "type"@ + seq![':'] + type_id_text(x),
            WorksFilter::GroupTitle(x) => "group-title"@ + seq![':'] + x@,
            WorksFilter::ContentDomain(x) => "content-domain"@ + seq![':'] + x@,
            WorksFilter::ClinicalTrialNumber(x) => "clinical-trial-number"@ + seq![':'] + x@,
            WorksFilter::AlternativeId(x) => "alternative-id"@ + seq![':'] + x@,
            WorksFilter::ArticleNumber(x) => "article-number"@ + seq![':'] + x@,
            WorksFilter::RorId(x) => "ror-id"@ + seq![':'] + x@,
            WorksFilter::UpdateType(x) => "update-type"@ + seq![':'] + x@,
            WorksFilter::FunderDoiAssertedBy(x) => "funder-doi-asserted-by"@ + seq![':'] + x@,
            WorksFilter::Assertion(x) => "assertion"@ + seq![':'] + x@,
            WorksFilter::AssertionGroup(x) => "assertion-group"@ + seq![':'] + x@,
            WorksFilter::AwardNumber(x) => "award.number"@ + seq![':'] + x@,
            WorksFilter::AwardFunder(x) => "award.funder"@ + seq![':'] + x@,
            WorksFilter::GteAwardAmount(x) => "gte-award-amount"@ + seq![':'] + decimal(x as nat),
            WorksFilter::LteAwardAmount(x) => "lte-award-amount"@ + seq![':'] + decimal(x as nat),
            WorksFilter::LicenseUrl(x) => "license.url"@ + seq![':'] + x@,
            WorksFilter::LicenseVersion(x) => "license.version"@ + seq![':'] + x@,
            WorksFilter::LicenseDelay(x) => "license.delay"@ + seq![':'] + signed_decimal(x as int),
            WorksFilter::FullTextVersion(x) => "full-text.version"@ + seq![':'] + x@,
            WorksFilter::FullTextType(x) => "full-text.type"@ + seq![':'] + x@,
            WorksFilter::FullTextApplication(x) => "full-text.application"@ + seq![':'] + x@,
            WorksFilter::RelationType(x) => "relation.type"@ + seq![':'] + x@,
            WorksFilter::RelationObject(x) => "relation.object"@ + seq![':'] + x@,
            WorksFilter::RelationObjectType(x) => "relation.object-type"@ + seq![':'] + x@,
            WorksFilter::FromIndexDate(x) => "from-index-date"@ + seq![':'] + date_text(x),
            WorksFilter::UntilIndexDate(x) => "until-index-date"@ + seq![':'] + date_text(x),
            WorksFilter::FromDepositDate(x) => "from-deposit-date"@ + seq![':'] + date_text(x),
            WorksFilter::UntilDepositDate(x) => "until-deposit-date"@ + seq![':'] + date_text(x),
            WorksFilter::FromUpdateDate(x) => "from-update-date"@ + seq![':'] + date_text(x),
            WorksFilter::UntilUpdateDate(x) => "until-update-date"@ + seq![':'] + date_text(x),
            WorksFilter::FromCreatedDate(x) => "from-created-date"@ + seq![':'] + date_text(x),
            WorksFilter::UntilCreatedDate(x) => "until-created-date"@ + seq![':'] + date_text(x),
            WorksFilter::FromPubDate(x) => "from-pub-date"@ + seq![':'] + date_text(x),
            WorksFilter::UntilPubDate(x) => "until-pub-date"@ + seq![':'] + date_text(x),
            WorksFilter::FromOnlinePubDate(x) => "from-online-pub-date"@ + seq![':'] + date_text(x),
            WorksFilter::UntilOnlinePubDate(x) => "until-online-pub-date"@ + seq![':'] + date_text(x),
            WorksFilter::FromPrintPubDate(x) => "from-print-pub-date"@ + seq![':'] + date_text(x),
            WorksFilter::UntilPrintPubDate(x) => "until-print-pub-date"@ + seq![':'] + date_text(x),
            WorksFilter::FromPostedDate(x) => "from-posted-date"@ + seq![':'] + date_text(x),
            WorksFilter::UntilPostedDate(x) => "until-posted-date"@ + seq![':'] + date_text(x),
            WorksFilter::FromAcceptedDate(x) => "from-accepted-date"@ + seq![':'] + date_text(x),
            WorksFilter::UntilAcceptedDate(x) => "until-accepted-date"@ + seq![':'] + date_text(x),
            WorksFilter::FromApprovedDate(x) => "from-approved-date"@ + seq![':'] + date_text(x),
            WorksFilter::UntilApprovedDate(x) => "until-approved-date"@ + seq![':'] + date_text(x),
            WorksFilter::FromAwardedDate(x) => "from-awarded-date"@ + seq![':'] + date_text(x),
            WorksFilter::UntilAwardedDate(x) => "until-awarded-date"@ + seq![':'] + date_text(x),
            WorksFilter::FromIssuedDate(x) => "from-issued-date"@ + seq![':'] + date_text(x),
            WorksFilter::UntilIssuedDate(x) => "until-issued-date"@ + seq![':'] + date_text(x),
            WorksFilter::FromEventStartDate(x) => "from-event-start-date"@ + seq![':'] + date_text(x),
            WorksFilter::UntilEventStartDate(x) => "until-event-start-date"@ + seq![':'] + date_text(x),
            WorksFilter::FromEventEndDate(x) => "from-event-end-date"@ + seq![':'] + date_text(x),
            WorksFilter::UntilEventEndDate(x) => "until-event-end-date"@ + seq![':'] + date_text(x),
        },
{
}

/// Narrows a `/funders` query.
///
/// `location` is the only filter this route accepts.
#[derive(Debug, Clone, PartialEq, Eq)]
pub enum FundersFilter {
    /// funders located in the named country
    Location(String),
}

/// The name crossref knows a filter by.
pub open spec fn funders_filter_name(f: FundersFilter) -> Seq<char> {
    match f {
        FundersFilter::Location(_) => "location"@,
    }
}

/// The value a filter is sent with: `true` for one that only asks whether a
/// record has something, the value it carries otherwise.
pub open spec fn funders_filter_value(f: FundersFilter) -> Seq<char> {
    match f {
        FundersFilter::Location(x) => x@,
    }
}

impl FundersFilter {
    /// the name crossref knows this filter by
    pub fn name(&self) -> (r: &'static str)
        ensures
            r@ == funders_filter_name(*self),
    {
        match self {
            FundersFilter::Location(_) => "location",
        }
    }

    /// the value this filter is sent with
    pub fn value_text(&self) -> (r: String)
        ensures
            r@ == funders_filter_value(*self),
    {
        match self {
            FundersFilter::Location(x) => x.clone(),
        }
    }
}

impl ParamFragment for FundersFilter {
    open spec fn key_spec(&self) -> Seq<char> {
        funders_filter_name(*self)
    }

    open spec fn value_spec(&self) -> Option<Seq<char>> {
        Some(funders_filter_value(*self))
    }

    fn key(&self) -> (r: String) {
        owned(self.name())
    }

    fn value(&self) -> (r: Option<String>) {
        Some(self.value_text())
    }
}

impl Filter for FundersFilter {}

/// Narrows a `/members` query.
#[derive(Debug, Clone, PartialEq, Eq)]
pub enum MembersFilter {
    /// members that own the given DOI prefix
    Prefix(String),
    /// count of DOIs for material published more than two years ago
    BackfileDoiCount(i32),
    /// count of DOIs for material published within the last two years
    CurrentDoiCount(i32),
}

/// The name crossref knows a filter by.
pub open spec fn members_filter_name(f: MembersFilter) -> Seq<char> {
    match f {
        MembersFilter::Prefix(_) => "prefix"@,
        MembersFilter::BackfileDoiCount(_) => "backfile-doi-count"@,
        MembersFilter::CurrentDoiCount(_) => "current-doi-count"@,
    }
}

/// The value a filter is sent with: `true` for one that only asks whether a
/// record has something, the value it carries otherwise.
pub open spec fn members_filter_value(f: MembersFilter) -> Seq<char> {
    match f {
        MembersFilter::Prefix(x) => x@,
        MembersFilter::BackfileDoiCount(x) => signed_decimal(x as int),
        MembersFilter::CurrentDoiCount(x) => signed_decimal(x as int),
    }
}

impl MembersFilter {
    /// the name crossref knows this filter by
    pub fn name(&self) -> (r: &'static str)
        ensures
            r@ == members_filter_name(*self),
    {
        match self {
            MembersFilter::Prefix(_) => "prefix",
            MembersFilter::BackfileDoiCount(_) => "backfile-doi-count",
            MembersFilter::CurrentDoiCount(_) => "current-doi-count",
        }
    }

    /// the value this filter is sent with
    pub fn value_text(&self) -> (r: String)
        ensures
            r@ == members_filter_value(*self),
    {
        match self {
            MembersFilter::Prefix(x) => x.clone(),
            MembersFilter::BackfileDoiCount(x) => i32_text(*x),
            MembersFilter::CurrentDoiCount(x) => i32_text(*x),
        }
    }
}

impl ParamFragment for MembersFilter {
    open spec fn key_spec(&self) -> Seq<char> {
        members_filter_name(*self)
    }

    open spec fn value_spec(&self) -> Option<Seq<char>> {
        Some(members_filter_value(*self))
    }

    fn key(&self) -> (r: String) {
        owned(self.name())
    }

    fn value(&self) -> (r: Option<String>) {
        Some(self.value_text())
    }
}

impl Filter for MembersFilter {}

/// How a filter reads the value written after its name.
#[derive(Debug, Clone, Copy, PartialEq, Eq, Structural)]
pub enum ValueKind {
    /// no value: the filter only asks whether a record has something
    Flag,
    /// any text, taken as it is
    Text,
    /// the identifier of a work type
    TypeId,
    /// a whole number from zero up
    Amount,
    /// a whole number that may be negative
    Count,
    /// a date written `%Y-%m-%d`
    Day,
}

/// Whether `v` is a value of the kind: any text is, a number has to read as
/// one and a date as a day chrono holds.
pub open spec fn reads_as(kind: ValueKind, v: Seq<char>) -> bool {
    match kind {
        ValueKind::Flag => true,
        ValueKind::Text => true,
        ValueKind::TypeId => exists|t: Type| type_id_text(t) == v,
        ValueKind::Amount => parsed_u64(v) is Some,
        ValueKind::Count => parsed_i32(v) is Some,
        ValueKind::Day => chrono_date_parsed(v) is Some,
    }
}

/// Why `name[:value]` is not a filter a route takes.
#[derive(Debug, Clone, PartialEq, Eq)]
pub enum FilterParseError {
    /// the route has no filter of that name
    UnknownName {
        /// the name given
        name: String,
    },
    /// the filter carries a value and none was given
    MissingValue {
        /// the filter's name
        name: String,
    },
    /// the filter only asks whether a record has something, and was given a value
    UnexpectedValue {
        /// the filter's name
        name: String,
        /// the value given
        value: String,
    },
    /// the value is not one the filter can carry
    InvalidValue {
        /// the filter's name
        name: String,
        /// the value given
        value: String,
    },
}

/// How a filter parse error reads.
pub open spec fn filter_error_text(e: FilterParseError) -> Seq<char> {
    match e {
        FilterParseError::UnknownName { name } => "`"@ + name@ + "` is not a filter this route takes"@,
        FilterParseError::MissingValue { name } => "`"@ + name@ + "` needs a value"@,
        FilterParseError::UnexpectedValue { name, value } => "`"@ + name@
            + "` takes no value, but was given `"@ + value@ + "`"@,
        FilterParseError::InvalidValue { name, value } => "`"@ + value@ + "` is not a value `"@
            + name@ + "` can take"@,
    }
}

impl FilterParseError {
    /// How the error reads, e.g. `` `issn` needs a value ``.
    pub fn message(&self) -> (r: String)
        ensures
            r@ == filter_error_text(*self),
    {
        match self {
            FilterParseError::UnknownName { name } => {
                let mut m = owned("`");
                m.append(name.as_str());
                m.append("` is not a filter this route takes");
                m
            },
            FilterParseError::MissingValue { name } => {
                let mut m = owned("`");
                m.append(name.as_str());
                m.append("` needs a value");
                m
            },
            FilterParseError::UnexpectedValue { name, value } => {
                let mut m = owned("`");
                m.append(name.as_str());
                m.append("` takes no value, but was given `");
                m.append(value.as_str());
                m.append("`");
                m
            },
            FilterParseError::InvalidValue { name, value } => {
                let mut m = owned("`");
                m.append(value.as_str());
                m.append("` is not a value `");
                m.append(name.as_str());
                m.append("` can take");
                m
            },
        }
    }
}

/// No value, as a flag takes.
fn flag_value(name: &str, value: Option<&str>) -> (r: core::result::Result<(), FilterParseError>)
    ensures
        match value {
            None => r is Ok,
            Some(v) => r matches Err(FilterParseError::UnexpectedValue { name: n, value: x })
                && n@ == name@ && x@ == v@,
        },
{
    match value {
        None => Ok(()),
        Some(v) => Err(FilterParseError::UnexpectedValue { name: owned(name), value: owned(v) }),
    }
}

/// A value, taken as the text it is.
fn text_value(name: &str, value: Option<&str>) -> (r: core::result::Result<String, FilterParseError>)
    ensures
        match value {
            None => r matches Err(FilterParseError::MissingValue { name: n }) && n@ == name@,
            Some(v) => r matches Ok(s) && s@ == v@,
        },
{
    match value {
        None => Err(FilterParseError::MissingValue { name: owned(name) }),
        Some(v) => Ok(owned(v)),
    }
}

/// A value, read as the identifier of a work type.
fn type_value(name: &str, value: Option<&str>) -> (r: core::result::Result<Type, FilterParseError>)
    ensures
        match value {
            None => r matches Err(FilterParseError::MissingValue { name: n }) && n@ == name@,
            Some(v) => match r {
                Ok(t) => type_id_text(t) == v@,
                Err(FilterParseError::InvalidValue { name: n, value: x }) => n@ == name@ && x@
                    == v@ && !reads_as(ValueKind::TypeId, v@),
                Err(_) => false,
            },
        },
{
    match value {
        None => Err(FilterParseError::MissingValue { name: owned(name) }),
        Some(v) => match Type::lookup(v) {
            Some(t) => Ok(t),
            None => Err(FilterParseError::InvalidValue { name: owned(name), value: owned(v) }),
        },
    }
}

/// A value, read as a whole number from zero up.
fn amount_value(name: &str, value: Option<&str>) -> (r: core::result::Result<u64, FilterParseError>)
    ensures
        match value {
            None => r matches Err(FilterParseError::MissingValue { name: n }) && n@ == name@,
            Some(v) => match r {
                Ok(n) => parsed_u64(v@) == Some(n),
                Err(FilterParseError::InvalidValue { name: n, value: x }) => n@ == name@ && x@
                    == v@ && !reads_as(ValueKind::Amount, v@),
                Err(_) => false,
            },
        },
{
    match value {
        None => Err(FilterParseError::MissingValue { name: owned(name) }),
        Some(v) => match parse_u64(v) {
            Some(n) => Ok(n),
            None => Err(FilterParseError::InvalidValue { name: owned(name), value: owned(v) }),
        },
    }
}

/// A value, read as a whole number that may be negative.
fn count_value(name: &str, value: Option<&str>) -> (r: core::result::Result<i32, FilterParseError>)
    ensures
        match value {
            None => r matches Err(FilterParseError::MissingValue { name: n }) && n@ == name@,
            Some(v) => match r {
                Ok(n) => parsed_i32(v@) == Some(n),
                Err(FilterParseError::InvalidValue { name: n, value: x }) => n@ == name@ && x@
                    == v@ && !reads_as(ValueKind::Count, v@),
                Err(_) => false,
            },
        },
{
    match value {
        None => Err(FilterParseError::MissingValue { name: owned(name) }),
        Some(v) => match parse_i32(v) {
            Some(n) => Ok(n),
            None => Err(FilterParseError::InvalidValue { name: owned(name), value: owned(v) }),
        },
    }
}

/// A value, read as a date written `%Y-%m-%d`.
fn day_value(name: &str, value: Option<&str>) -> (r: core::result::Result<Date, FilterParseError>)
    ensures
        match value {
            None => r matches Err(FilterParseError::MissingValue { name: n }) && n@ == name@,
            Some(v) => match r {
                Ok(d) => chrono_date_parsed(v@) == Some((d.spec_year(), d.spec_month(), d.spec_day())),
                Err(FilterParseError::InvalidValue { name: n, value: x }) => n@ == name@ && x@
                    == v@ && !reads_as(ValueKind::Day, v@),
                Err(_) => false,
            },
        },
{
    match value {
        None => Err(FilterParseError::MissingValue { name: owned(name) }),
        Some(v) => match Date::parse(v) {
            Some(d) => Ok(d),
            None => Err(FilterParseError::InvalidValue { name: owned(name), value: owned(v) }),
        },
    }
}

/// How a filter of [`WorksFilter`] reads its value.
pub open spec fn works_filter_kind(f: WorksFilter) -> ValueKind {
    match f {
        WorksFilter::HasFunder => ValueKind::Flag,
        WorksFilter::HasFunderDoi => ValueKind::Flag,
        WorksFilter::HasFunderRorId => ValueKind::Flag,
        WorksFilter::HasAffiliation => ValueKind::Flag,
        WorksFilter::HasAffiliationRorId => ValueKind::Flag,
        WorksFilter::HasRorId => ValueKind::Flag,
        WorksFilter::HasLicense => ValueKind::Flag,
        WorksFilter::HasFullText => ValueKind::Flag,
        WorksFilter::HasReferences => ValueKind::Flag,
        WorksFilter::HasArchive => ValueKind::Flag,
        WorksFilter::HasOrcid => ValueKind::Flag,
        WorksFilter::HasAuthenticatedOrcid => ValueKind::Flag,
        WorksFilter::HasAbstract => ValueKind::Flag,
        WorksFilter::HasClinicalTrialNumber => ValueKind::Flag,
        WorksFilter::HasContentDomain => ValueKind::Flag,
        WorksFilter::HasDomainRestriction => ValueKind::Flag,
        WorksFilter::HasRelation => ValueKind::Flag,
        WorksFilter::HasUpdate => ValueKind::Flag,
        WorksFilter::HasUpdatePolicy => ValueKind::Flag,
        WorksFilter::HasAssertion => ValueKind::Flag,
        WorksFilter::HasAward => ValueKind::Flag,
        WorksFilter::HasAlias => ValueKind::Flag,
        WorksFilter::HasPrimeDoi => ValueKind::Flag,
        WorksFilter::HasEvent => ValueKind::Flag,
        WorksFilter::IsUpdate => ValueKind::Flag,
        WorksFilter::Funder(_) => ValueKind::Text,
        WorksFilter::Prefix(_) => ValueKind::Text,
        WorksFilter::Member(_) => ValueKind::Text,
        WorksFilter::Doi(_) => ValueKind::Text,
        WorksFilter::Issn(_) => ValueKind::Text,
        WorksFilter::Isbn(_) => ValueKind::Text,
        WorksFilter::Orcid(_) => ValueKind::Text,
        WorksFilter::Archive(_) => ValueKind::Text,
        WorksFilter::Directory(_) => ValueKind::Text,
        WorksFilter::Updates(_) => ValueKind::Text,
        WorksFilter::ContainerTitle(_) => ValueKind::Text,
        WorksFilter::CategoryName(_) => ValueKind::Text,
        WorksFilter::TypeName(_) => ValueKind::Text,
        WorksFilter::Type(_) => ValueKind::TypeId,
        WorksFilter::GroupTitle(_) => ValueKind::Text,
        WorksFilter::ContentDomain(_) => ValueKind::Text,
        WorksFilter::ClinicalTrialNumber(_) => ValueKind::Text,
        WorksFilter::AlternativeId(_) => ValueKind::Text,
        WorksFilter::ArticleNumber(_) => ValueKind::Text,
        WorksFilter::RorId(_) => ValueKind::Text,
        WorksFilter::UpdateType(_) => ValueKind::Text,
        WorksFilter::FunderDoiAssertedBy(_) => ValueKind::Text,
        WorksFilter::Assertion(_) => ValueKind::Text,
        WorksFilter::AssertionGroup(_) => ValueKind::Text,
        WorksFilter::AwardNumber(_) => ValueKind::Text,
        WorksFilter::AwardFunder(_) => ValueKind::Text,
        WorksFilter::GteAwardAmount(_) => ValueKind::Amount,
        WorksFilter::LteAwardAmount(_) => ValueKind::Amount,
        WorksFilter::LicenseUrl(_) => ValueKind::Text,
        WorksFilter::LicenseVersion(_) => ValueKind::Text,
        WorksFilter::LicenseDelay(_) => ValueKind::Count,
        WorksFilter::FullTextVersion(_) => ValueKind::Text,
        WorksFilter::FullTextType(_) => ValueKind::Text,
        WorksFilter::FullTextApplication(_) => ValueKind::Text,
        WorksFilter::RelationType(_) => ValueKind::Text,
        WorksFilter::RelationObject(_) => ValueKind::Text,
        WorksFilter::RelationObjectType(_) => ValueKind::Text,
        WorksFilter::FromIndexDate(_) => ValueKind::Day,
        WorksFilter::UntilIndexDate(_) => ValueKind::Day,
        WorksFilter::FromDepositDate(_) => ValueKind::Day,
        WorksFilter::UntilDepositDate(_) => ValueKind::Day,
        WorksFilter::FromUpdateDate(_) => ValueKind::Day,
        WorksFilter::UntilUpdateDate(_) => ValueKind::Day,
        WorksFilter::FromCreatedDate(_) => ValueKind::Day,
        WorksFilter::UntilCreatedDate(_) => ValueKind::Day,
        WorksFilter::FromPubDate(_) => ValueKind::Day,
        WorksFilter::UntilPubDate(_) => ValueKind::Day,
        WorksFilter::FromOnlinePubDate(_) => ValueKind::Day,
        WorksFilter::UntilOnlinePubDate(_) => ValueKind::Day,
        WorksFilter::FromPrintPubDate(_) => ValueKind::Day,
        WorksFilter::UntilPrintPubDate(_) => ValueKind::Day,
        WorksFilter::FromPostedDate(_) => ValueKind::Day,
        WorksFilter::UntilPostedDate(_) => ValueKind::Day,
        WorksFilter::FromAcceptedDate(_) => ValueKind::Day,
        WorksFilter::UntilAcceptedDate(_) => ValueKind::Day,
        WorksFilter::FromApprovedDate(_) => ValueKind::Day,
        WorksFilter::UntilApprovedDate(_) => ValueKind::Day,
        WorksFilter::FromAwardedDate(_) => ValueKind::Day,
        WorksFilter::UntilAwardedDate(_) => ValueKind::Day,
        WorksFilter::FromIssuedDate(_) => ValueKind::Day,
        WorksFilter::UntilIssuedDate(_) => ValueKind::Day,
        WorksFilter::FromEventStartDate(_) => ValueKind::Day,
        WorksFilter::UntilEventStartDate(_) => ValueKind::Day,
        WorksFilter::FromEventEndDate(_) => ValueKind::Day,
        WorksFilter::UntilEventEndDate(_) => ValueKind::Day,
    }
}

/// Whether the value a filter of [`WorksFilter`] carries is what `v` reads as.
pub open spec fn works_filter_reads(f: WorksFilter, v: Seq<char>) -> bool {
    match f {
        WorksFilter::HasFunder => true,
        WorksFilter::HasFunderDoi => true,
        WorksFilter::HasFunderRorId => true,
        WorksFilter::HasAffiliation => true,
        WorksFilter::HasAffiliationRorId => true,
        WorksFilter::HasRorId => true,
        WorksFilter::HasLicense => true,
        WorksFilter::HasFullText => true,
        WorksFilter::HasReferences => true,
        WorksFilter::HasArchive => true,
        WorksFilter::HasOrcid => true,
        WorksFilter::HasAuthenticatedOrcid => true,
        WorksFilter::HasAbstract => true,
        WorksFilter::HasClinicalTrialNumber => true,
        WorksFilter::HasContentDomain => true,
        WorksFilter::HasDomainRestriction => true,
        WorksFilter::HasRelation => true,
        WorksFilter::HasUpdate => true,
        WorksFilter::HasUpdatePolicy => true,
        WorksFilter::HasAssertion => true,
        WorksFilter::HasAward => true,
        WorksFilter::HasAlias => true,
        WorksFilter::HasPrimeDoi => true,
        WorksFilter::HasEvent => true,
        WorksFilter::IsUpdate => true,
        WorksFilter::Funder(x) => x@ == v,
        WorksFilter::Prefix(x) => x@ == v,
        WorksFilter::Member(x) => x@ == v,
        WorksFilter::Doi(x) => x@ == v,
        WorksFilter::Issn(x) => x@ == v,
        WorksFilter::Isbn(x) => x@ == v,
        WorksFilter::Orcid(x) => x@ == v,
        WorksFilter::Archive(x) => x@ == v,
        WorksFilter::Directory(x) => x@ == v,
        WorksFilter::Updates(x) => x@ == v,
        WorksFilter::ContainerTitle(x) => x@ == v,
        WorksFilter::CategoryName(x) => x@ == v,
        WorksFilter::TypeName(x) => x@ == v,
        WorksFilter::Type(x) => type_id_text(x) == v,
        WorksFilter::GroupTitle(x) => x@ == v,
        WorksFilter::ContentDomain(x) => x@ == v,
        WorksFilter::ClinicalTrialNumber(x) => x@ == v,
        WorksFilter::AlternativeId(x) => x@ == v,
        WorksFilter::ArticleNumber(x) => x@ == v,
        WorksFilter::RorId(x) => x@ == v,
        WorksFilter::UpdateType(x) => x@ == v,
        WorksFilter::FunderDoiAssertedBy(x) => x@ == v,
        WorksFilter::Assertion(x) => x@ == v,
        WorksFilter::AssertionGroup(x) => x@ == v,
        WorksFilter::AwardNumber(x) => x@ == v,
        WorksFilter::AwardFunder(x) => x@ == v,
        WorksFilter::GteAwardAmount(x) => parsed_u64(v) == Some(x),
        WorksFilter::LteAwardAmount(x) => parsed_u64(v) == Some(x),
        WorksFilter::LicenseUrl(x) => x@ == v,
        WorksFilter::LicenseVersion(x) => x@ == v,
        WorksFilter::LicenseDelay(x) => parsed_i32(v) == Some(x),
        WorksFilter::FullTextVersion(x) => x@ == v,
        WorksFilter::FullTextType(x) => x@ == v,
        WorksFilter::FullTextApplication(x) => x@ == v,
        WorksFilter::RelationType(x) => x@ == v,
        WorksFilter::RelationObject(x) => x@ == v,
        WorksFilter::RelationObjectType(x) => x@ == v,
        WorksFilter::FromIndexDate(x) => chrono_date_parsed(v) == Some((x.spec_year(), x.spec_month(), x.spec_day())),
        WorksFilter::UntilIndexDate(x) => chrono_date_parsed(v) == Some((x.spec_year(), x.spec_month(), x.spec_day())),
        WorksFilter::FromDepositDate(x) => chrono_date_parsed(v) == Some((x.spec_year(), x.spec_month(), x.spec_day())),
        WorksFilter::UntilDepositDate(x) => chrono_date_parsed(v) == Some((x.spec_year(), x.spec_month(), x.spec_day())),
        WorksFilter::FromUpdateDate(x) => chrono_date_parsed(v) == Some((x.spec_year(), x.spec_month(), x.spec_day())),
        WorksFilter::UntilUpdateDate(x) => chrono_date_parsed(v) == Some((x.spec_year(), x.spec_month(), x.spec_day())),
        WorksFilter::FromCreatedDate(x) => chrono_date_parsed(v) == Some((x.spec_year(), x.spec_month(), x.spec_day())),
        WorksFilter::UntilCreatedDate(x) => chrono_date_parsed(v) == Some((x.spec_year(), x.spec_month(), x.spec_day())),
        WorksFilter::FromPubDate(x) => chrono_date_parsed(v) == Some((x.spec_year(), x.spec_month(), x.spec_day())),
        WorksFilter::UntilPubDate(x) => chrono_date_parsed(v) == Some((x.spec_year(), x.spec_month(), x.spec_day())),
        WorksFilter::FromOnlinePubDate(x) => chrono_date_parsed(v) == Some((x.spec_year(), x.spec_month(), x.spec_day())),
        WorksFilter::UntilOnlinePubDate(x) => chrono_date_parsed(v) == Some((x.spec_year(), x.spec_month(), x.spec_day())),
        WorksFilter::FromPrintPubDate(x) => chrono_date_parsed(v) == Some((x.spec_year(), x.spec_month(), x.spec_day())),
        WorksFilter::UntilPrintPubDate(x) => chrono_date_parsed(v) == Some((x.spec_year(), x.spec_month(), x.spec_day())),
        WorksFilter::FromPostedDate(x) => chrono_date_parsed(v) == Some((x.spec_year(), x.spec_month(), x.spec_day())),
        WorksFilter::UntilPostedDate(x) => chrono_date_parsed(v) == Some((x.spec_year(), x.spec_month(), x.spec_day())),
        WorksFilter::FromAcceptedDate(x) => chrono_date_parsed(v) == Some((x.spec_year(), x.spec_month(), x.spec_day())),
        WorksFilter::UntilAcceptedDate(x) => chrono_date_parsed(v) == Some((x.spec_year(), x.spec_month(), x.spec_day())),
        WorksFilter::FromApprovedDate(x) => chrono_date_parsed(v) == Some((x.spec_year(), x.spec_month(), x.spec_day())),
        WorksFilter::UntilApprovedDate(x) => chrono_date_parsed(v) == Some((x.spec_year(), x.spec_month(), x.spec_day())),
        WorksFilter::FromAwardedDate(x) => chrono_date_parsed(v) == Some((x.spec_year(), x.spec_month(), x.spec_day())),
        WorksFilter::UntilAwardedDate(x) => chrono_date_parsed(v) == Some((x.spec_year(), x.spec_month(), x.spec_day())),
        WorksFilter::FromIssuedDate(x) => chrono_date_parsed(v) == Some((x.spec_year(), x.spec_month(), x.spec_day())),
        WorksFilter::UntilIssuedDate(x) => chrono_date_parsed(v) == Some((x.spec_year(), x.spec_month(), x.spec_day())),
        WorksFilter::FromEventStartDate(x) => chrono_date_parsed(v) == Some((x.spec_year(), x.spec_month(), x.spec_day())),
        WorksFilter::UntilEventStartDate(x) => chrono_date_parsed(v) == Some((x.spec_year(), x.spec_month(), x.spec_day())),
        WorksFilter::FromEventEndDate(x) => chrono_date_parsed(v) == Some((x.spec_year(), x.spec_month(), x.spec_day())),
        WorksFilter::UntilEventEndDate(x) => chrono_date_parsed(v) == Some((x.spec_year(), x.spec_month(), x.spec_day())),
    }
}

/// The names of every filter of [`WorksFilter`], in the order they are declared.
pub open spec fn works_filter_names() -> Seq<Seq<char>> {
    seq!["has-funder"@, "has-funder-doi"@, "has-funder-ror-id"@, "has-affiliation"@, "has-affiliation-ror-id"@, "has-ror-id"@, "has-license"@, "has-full-text"@, "has-references"@, "has-archive"@, "has-orcid"@, "has-authenticated-orcid"@, "has-abstract"@, "has-clinical-trial-number"@, "has-content-domain"@, "has-domain-restriction"@, "has-relation"@, "has-update"@, "has-update-policy"@, "has-assertion"@, "has-award"@, "has-alias"@, "has-prime-doi"@, "has-event"@, "is-update"@, "funder"@, "prefix"@, "member"@, "doi"@, "issn"@, "isbn"@, "orcid"@, "archive"@, "directory"@, "updates"@, "container-title"@, "category-name"@, "type-name"@, "type"@, "group-title"@, "content-domain"@, "clinical-trial-number"@, "alternative-id"@, "article-number"@, "ror-id"@, "update-type"@, "funder-doi-asserted-by"@, "assertion"@, "assertion-group"@, "award.number"@, "award.funder"@, "gte-award-amount"@, "lte-award-amount"@, "license.url"@, "license.version"@, "license.delay"@, "full-text.version"@, "full-text.type"@, "full-text.application"@, "relation.type"@, "relation.object"@, "relation.object-type"@, "from-index-date"@, "until-index-date"@, "from-deposit-date"@, "until-deposit-date"@, "from-update-date"@, "until-update-date"@, "from-created-date"@, "until-created-date"@, "from-pub-date"@, "until-pub-date"@, "from-online-pub-date"@, "until-online-pub-date"@, "from-print-pub-date"@, "until-print-pub-date"@, "from-posted-date"@, "until-posted-date"@, "from-accepted-date"@, "until-accepted-date"@, "from-approved-date"@, "until-approved-date"@, "from-awarded-date"@, "until-awarded-date"@, "from-issued-date"@, "until-issued-date"@, "from-event-start-date"@, "until-event-start-date"@, "from-event-end-date"@, "until-event-end-date"@]
}

impl WorksFilter {
    /// every filter name the route accepts, in the order they are declared
    pub fn names() -> (r: Vec<&'static str>)
        ensures
            r@.map_values(|s: &str| s@) == works_filter_names(),
    {
        let r = vec!["has-funder", "has-funder-doi", "has-funder-ror-id", "has-affiliation", "has-affiliation-ror-id", "has-ror-id", "has-license", "has-full-text", "has-references", "has-archive", "has-orcid", "has-authenticated-orcid", "has-abstract", "has-clinical-trial-number", "has-content-domain", "has-domain-restriction", "has-relation", "has-update", "has-update-policy", "has-assertion", "has-award", "has-alias", "has-prime-doi", "has-event", "is-update", "funder", "prefix", "member", "doi", "issn", "isbn", "orcid", "archive", "directory", "updates", "container-title", "category-name", "type-name", "type", "group-title", "content-domain", "clinical-trial-number", "alternative-id", "article-number", "ror-id", "update-type", "funder-doi-asserted-by", "assertion", "assertion-group", "award.number", "award.funder", "gte-award-amount", "lte-award-amount", "license.url", "license.version", "license.delay", "full-text.version", "full-text.type", "full-text.application", "relation.type", "relation.object", "relation.object-type", "from-index-date", "until-index-date", "from-deposit-date", "until-deposit-date", "from-update-date", "until-update-date", "from-created-date", "until-created-date", "from-pub-date", "until-pub-date", "from-online-pub-date", "until-online-pub-date", "from-print-pub-date", "until-print-pub-date", "from-posted-date", "until-posted-date", "from-accepted-date", "until-accepted-date", "from-approved-date", "until-approved-date", "from-awarded-date", "until-awarded-date", "from-issued-date", "until-issued-date", "from-event-start-date", "until-event-start-date", "from-event-end-date", "until-event-end-date"];
        assert(r@.map_values(|s: &str| s@) =~= works_filter_names());
        r
    }

    /// The filter named `name` carrying `value`, as a command line writes
    /// `name[:value]`.
    pub fn from_name(name: &str, value: Option<&str>) -> (r: core::result::Result<WorksFilter, FilterParseError>)
        ensures
            match r {
                Ok(f) => works_filter_name(f) == name@ && match works_filter_kind(f) {
                    ValueKind::Flag => value is None,
                    _ => value matches Some(v) && works_filter_reads(f, v@),
                },
                Err(FilterParseError::UnknownName { name: n }) => n@ == name@ && forall|f: WorksFilter|
                    works_filter_name(f) != name@,
                Err(FilterParseError::MissingValue { name: n }) => n@ == name@ && value is None
                    && exists|f: WorksFilter| works_filter_name(f) == name@ && works_filter_kind(f) != ValueKind::Flag,
                Err(FilterParseError::UnexpectedValue { name: n, value: v }) => n@ == name@
                    && (value matches Some(x) && x@ == v@) && exists|f: WorksFilter|
                    works_filter_name(f) == name@ && works_filter_kind(f) == ValueKind::Flag,
                Err(FilterParseError::InvalidValue { name: n, value: v }) => n@ == name@
                    && (value matches Some(x) && x@ == v@) && exists|f: WorksFilter|
                    works_filter_name(f) == name@ && !reads_as(works_filter_kind(f), v@),
            },
    {
        if str_eq(name, "has-funder") {
            assert(works_filter_name(WorksFilter::HasFunder) == name@);
            return match flag_value(name, value) {
                Ok(()) => Ok(WorksFilter::HasFunder),
                Err(e) => Err(e),
            };
        }
        if str_eq(name, "has-funder-doi") {
            assert(works_filter_name(WorksFilter::HasFunderDoi) == name@);
            return match flag_value(name, value) {
                Ok(()) => Ok(WorksFilter::HasFunderDoi),
                Err(e) => Err(e),
            };
        }
        if str_eq(name, "has-funder-ror-id") {
            assert(works_filter_name(WorksFilter::HasFunderRorId) == name@);
            return match flag_value(name, value) {
                Ok(()) => Ok(WorksFilter::HasFunderRorId),
                Err(e) => Err(e),
            };
        }
        if str_eq(name, "has-affiliation") {
            assert(works_filter_name(WorksFilter::HasAffiliation) == name@);
            return match flag_value(name, value) {
                Ok(()) => Ok(WorksFilter::HasAffiliation),
                Err(e) => Err(e),
            };
        }
        if str_eq(name, "has-affiliation-ror-id") {
            assert(works_filter_name(WorksFilter::HasAffiliationRorId) == name@);
            return match flag_value(name, value) {
                Ok(()) => Ok(WorksFilter::HasAffiliationRorId),
                Err(e) => Err(e),
            };
        }
        if str_eq(name, "has-ror-id") {
            assert(works_filter_name(WorksFilter::HasRorId) == name@);
            return match flag_value(name, value) {
                Ok(()) => Ok(WorksFilter::HasRorId),
                Err(e) => Err(e),
            };
        }
        if str_eq(name, "has-license") {
            assert(works_filter_name(WorksFilter::HasLicense) == name@);
            return match flag_value(name, value) {
                Ok(()) => Ok(WorksFilter::HasLicense),
                Err(e) => Err(e),
            };
        }
        if str_eq(name, "has-full-text") {
            assert(works_filter_name(WorksFilter::HasFullText) == name@);
            return match flag_value(name, value) {
                Ok(()) => Ok(WorksFilter::HasFullText),
                Err(e) => Err(e),
            };
        }
        if str_eq(name, "has-references") {
            assert(works_filter_name(WorksFilter::HasReferences) == name@);
            return match flag_value(name, value) {
                Ok(()) => Ok(WorksFilter::HasReferences),
                Err(e) => Err(e),
            };
        }
        if str_eq(name, "has-archive") {
            assert(works_filter_name(WorksFilter::HasArchive) == name@);
            return match flag_value(name, value) {
                Ok(()) => Ok(WorksFilter::HasArchive),
                Err(e) => Err(e),
            };
        }
        if str_eq(name, "has-orcid") {
            assert(works_filter_name(WorksFilter::HasOrcid) == name@);
            return match flag_value(name, value) {
                Ok(()) => Ok(WorksFilter::HasOrcid),
                Err(e) => Err(e),
            };
        }
        if str_eq(name, "has-authenticated-orcid") {
            assert(works_filter_name(WorksFilter::HasAuthenticatedOrcid) == name@);
            return match flag_value(name, value) {
                Ok(()) => Ok(WorksFilter::HasAuthenticatedOrcid),
                Err(e) => Err(e),
            };
        }
        if str_eq(name, "has-abstract") {
            assert(works_filter_name(WorksFilter::HasAbstract) == name@);
            return match flag_value(name, value) {
                Ok(()) => Ok(WorksFilter::HasAbstract),
                Err(e) => Err(e),
            };
        }
        if str_eq(name, "has-clinical-trial-number") {
            assert(works_filter_name(WorksFilter::HasClinicalTrialNumber) == name@);
            return match flag_value(name, value) {
                Ok(()) => Ok(WorksFilter::HasClinicalTrialNumber),
                Err(e) => Err(e),
            };
        }
        if str_eq(name, "has-content-domain") {
            assert(works_filter_name(WorksFilter::HasContentDomain) == name@);
            return match flag_value(name, value) {
                Ok(()) => Ok(WorksFilter::HasContentDomain),
                Err(e) => Err(e),
            };
        }
        if str_eq(name, "has-domain-restriction") {
            assert(works_filter_name(WorksFilter::HasDomainRestriction) == name@);
            return match flag_value(name, value) {
                Ok(()) => Ok(WorksFilter::HasDomainRestriction),
                Err(e) => Err(e),
            };
        }
        if str_eq(name, "has-relation") {
            assert(works_filter_name(WorksFilter::HasRelation) == name@);
            return match flag_value(name, value) {
                Ok(()) => Ok(WorksFilter::HasRelation),
                Err(e) => Err(e),
            };
        }
        if str_eq(name, "has-update") {
            assert(works_filter_name(WorksFilter::HasUpdate) == name@);
            return match flag_value(name, value) {
                Ok(()) => Ok(WorksFilter::HasUpdate),
                Err(e) => Err(e),
            };
        }
        if str_eq(name, "has-update-policy") {
            assert(works_filter_name(WorksFilter::HasUpdatePolicy) == name@);
            return match flag_value(name, value) {
                Ok(()) => Ok(WorksFilter::HasUpdatePolicy),
                Err(e) => Err(e),
            };
        }
        if str_eq(name, "has-assertion") {
            assert(works_filter_name(WorksFilter::HasAssertion) == name@);
            return match flag_value(name, value) {
                Ok(()) => Ok(WorksFilter::HasAssertion),
                Err(e) => Err(e),
            };
        }
        if str_eq(name, "has-award") {
            assert(works_filter_name(WorksFilter::HasAward) == name@);
            return match flag_value(name, value) {
                Ok(()) => Ok(WorksFilter::HasAward),
                Err(e) => Err(e),
            };
        }
        if str_eq(name, "has-alias") {
            assert(works_filter_name(WorksFilter::HasAlias) == name@);
            return match flag_value(name, value) {
                Ok(()) => Ok(WorksFilter::HasAlias),
                Err(e) => Err(e),
            };
        }
        if str_eq(name, "has-prime-doi") {
            assert(works_filter_name(WorksFilter::HasPrimeDoi) == name@);
            return match flag_value(name, value) {
                Ok(()) => Ok(WorksFilter::HasPrimeDoi),
                Err(e) => Err(e),
            };
        }
        if str_eq(name, "has-event") {
            assert(works_filter_name(WorksFilter::HasEvent) == name@);
            return match flag_value(name, value) {
                Ok(()) => Ok(WorksFilter::HasEvent),
                Err(e) => Err(e),
            };
        }
        if str_eq(name, "is-update") {
            assert(works_filter_name(WorksFilter::IsUpdate) == name@);
            return match flag_value(name, value) {
                Ok(()) => Ok(WorksFilter::IsUpdate),
                Err(e) => Err(e),
            };
        }
        if str_eq(name, "funder") {
            assert(works_filter_name(WorksFilter::Funder(vstd::pervasive::arbitrary())) == name@);
            return match text_value(name, value) {
                Ok(x) => Ok(WorksFilter::Funder(x)),
                Err(e) => Err(e),
            };
        }
        if str_eq(name, "prefix") {
            assert(works_filter_name(WorksFilter::Prefix(vstd::pervasive::arbitrary())) == name@);
            return match text_value(name, value) {
                Ok(x) => Ok(WorksFilter::Prefix(x)),
                Err(e) => Err(e),
            };
        }
        if str_eq(name, "member") {
            assert(works_filter_name(WorksFilter::Member(vstd::pervasive::arbitrary())) == name@);
            return match text_value(name, value) {
                Ok(x) => Ok(WorksFilter::Member(x)),
                Err(e) => Err(e),
            };
        }
        if str_eq(name, "doi") {
            assert(works_filter_name(WorksFilter::Doi(vstd::pervasive::arbitrary())) == name@);
            return match text_value(name, value) {
                Ok(x) => Ok(WorksFilter::Doi(x)),
                Err(e) => Err(e),
            };
        }
        if str_eq(name, "issn") {
            assert(works_filter_name(WorksFilter::Issn(vstd::pervasive::arbitrary())) == name@);
            return match text_value(name, value) {
                Ok(x) => Ok(WorksFilter::Issn(x)),
                Err(e) => Err(e),
            };
        }
        if str_eq(name, "isbn") {
            assert(works_filter_name(WorksFilter::Isbn(vstd::pervasive::arbitrary())) == name@);
            return match text_value(name, value) {
                Ok(x) => Ok(WorksFilter::Isbn(x)),
                Err(e) => Err(e),
            };
        }
        if str_eq(name, "orcid") {
            assert(works_filter_name(WorksFilter::Orcid(vstd::pervasive::arbitrary())) == name@);
            return match text_value(name, value) {
                Ok(x) => Ok(WorksFilter::Orcid(x)),
                Err(e) => Err(e),
            };
        }
        if str_eq(name, "archive") {
            assert(works_filter_name(WorksFilter::Archive(vstd::pervasive::arbitrary())) == name@);
            return match text_value(name, value) {
                Ok(x) => Ok(WorksFilter::Archive(x)),
                Err(e) => Err(e),
            };
        }
        if str_eq(name, "directory") {
            assert(works_filter_name(WorksFilter::Directory(vstd::pervasive::arbitrary())) == name@);
            return match text_value(name, value) {
                Ok(x) => Ok(WorksFilter::Directory(x)),
                Err(e) => Err(e),
            };
        }
        if str_eq(name, "updates") {
            assert(works_filter_name(WorksFilter::Updates(vstd::pervasive::arbitrary())) == name@);
            return match text_value(name, value) {
                Ok(x) => Ok(WorksFilter::Updates(x)),
                Err(e) => Err(e),
            };
        }
        if str_eq(name, "container-title") {
            assert(works_filter_name(WorksFilter::ContainerTitle(vstd::pervasive::arbitrary())) == name@);
            return match text_value(name, value) {
                Ok(x) => Ok(WorksFilter::ContainerTitle(x)),
                Err(e) => Err(e),
            };
        }
        if str_eq(name, "category-name") {
            assert(works_filter_name(WorksFilter::CategoryName(vstd::pervasive::arbitrary())) == name@);
            return match text_value(name, value) {
                Ok(x) => Ok(WorksFilter::CategoryName(x)),
                Err(e) => Err(e),
            };
        }
        if str_eq(name, "type-name") {
            assert(works_filter_name(WorksFilter::TypeName(vstd::pervasive::arbitrary())) == name@);
            return match text_value(name, value) {
                Ok(x) => Ok(WorksFilter::TypeName(x)),
                Err(e) => Err(e),
            };
        }
        if str_eq(name, "type") {
            assert(works_filter_name(WorksFilter::Type(vstd::pervasive::arbitrary())) == name@);
            return match type_value(name, value) {
                Ok(x) => Ok(WorksFilter::Type(x)),
                Err(e) => Err(e),
            };
        }
        if str_eq(name, "group-title") {
            assert(works_filter_name(WorksFilter::GroupTitle(vstd::pervasive::arbitrary())) == name@);
            return match text_value(name, value) {
                Ok(x) => Ok(WorksFilter::GroupTitle(x)),
                Err(e) => Err(e),
            };
        }
        if str_eq(name, "content-domain") {
            assert(works_filter_name(WorksFilter::ContentDomain(vstd::pervasive::arbitrary())) == name@);
            return match text_value(name, value) {
                Ok(x) => Ok(WorksFilter::ContentDomain(x)),
                Err(e) => Err(e),
            };
        }
        if str_eq(name, "clinical-trial-number") {
            assert(works_filter_name(WorksFilter::ClinicalTrialNumber(vstd::pervasive::arbitrary())) == name@);
            return match text_value(name, value) {
                Ok(x) => Ok(WorksFilter::ClinicalTrialNumber(x)),
                Err(e) => Err(e),
            };
        }
        if str_eq(name, "alternative-id") {
            assert(works_filter_name(WorksFilter::AlternativeId(vstd::pervasive::arbitrary())) == name@);
            return match text_value(name, value) {
                Ok(x) => Ok(WorksFilter::AlternativeId(x)),
                Err(e) => Err(e),
            };
        }
        if str_eq(name, "article-number") {
            assert(works_filter_name(WorksFilter::ArticleNumber(vstd::pervasive::arbitrary())) == name@);
            return match text_value(name, value) {
                Ok(x) => Ok(WorksFilter::ArticleNumber(x)),
                Err(e) => Err(e),
            };
        }
        if str_eq(name, "ror-id") {
            assert(works_filter_name(WorksFilter::RorId(vstd::pervasive::arbitrary())) == name@);
            return match text_value(name, value) {
                Ok(x) => Ok(WorksFilter::RorId(x)),
                Err(e) => Err(e),
            };
        }
        if str_eq(name, "update-type") {
            assert(works_filter_name(WorksFilter::UpdateType(vstd::pervasive::arbitrary())) == name@);
            return match text_value(name, value) {
                Ok(x) => Ok(WorksFilter::UpdateType(x)),
                Err(e) => Err(e),
            };
        }
        if str_eq(name, "funder-doi-asserted-by") {
            assert(works_filter_name(WorksFilter::FunderDoiAssertedBy(vstd::pervasive::arbitrary())) == name@);
            return match text_value(name, value) {
                Ok(x) => Ok(WorksFilter::FunderDoiAssertedBy(x)),
                Err(e) => Err(e),
            };
        }
        if str_eq(name, "assertion") {
            assert(works_filter_name(WorksFilter::Assertion(vstd::pervasive::arbitrary())) == name@);
            return match text_value(name, value) {
                Ok(x) => Ok(WorksFilter::Assertion(x)),
                Err(e) => Err(e),
            };
        }
        if str_eq(name, "assertion-group") {
            assert(works_filter_name(WorksFilter::AssertionGroup(vstd::pervasive::arbitrary())) == name@);
            return match text_value(name, value) {
                Ok(x) => Ok(WorksFilter::AssertionGroup(x)),
                Err(e) => Err(e),
            };
        }
        if str_eq(name, "award.number") {
            assert(works_filter_name(WorksFilter::AwardNumber(vstd::pervasive::arbitrary())) == name@);
            return match text_value(name, value) {
                Ok(x) => Ok(WorksFilter::AwardNumber(x)),
                Err(e) => Err(e),
            };
        }
        if str_eq(name, "award.funder") {
            assert(works_filter_name(WorksFilter::AwardFunder(vstd::pervasive::arbitrary())) == name@);
            return match text_value(name, value) {
                Ok(x) => Ok(WorksFilter::AwardFunder(x)),
                Err(e) => Err(e),
            };
        }
        if str_eq(name, "gte-award-amount") {
            assert(works_filter_name(WorksFilter::GteAwardAmount(vstd::pervasive::arbitrary())) == name@);
            return match amount_value(name, value) {
                Ok(x) => Ok(WorksFilter::GteAwardAmount(x)),
                Err(e) => Err(e),
            };
        }
        if str_eq(name, "lte-award-amount") {
            assert(works_filter_name(WorksFilter::LteAwardAmount(vstd::pervasive::arbitrary())) == name@);
            return match amount_value(name, value) {
                Ok(x) => Ok(WorksFilter::LteAwardAmount(x)),
                Err(e) => Err(e),
            };
        }
        if str_eq(name, "license.url") {
            assert(works_filter_name(WorksFilter::LicenseUrl(vstd::pervasive::arbitrary())) == name@);
            return match text_value(name, value) {
                Ok(x) => Ok(WorksFilter::LicenseUrl(x)),
                Err(e) => Err(e),
            };
        }
        if str_eq(name, "license.version") {
            assert(works_filter_name(WorksFilter::LicenseVersion(vstd::pervasive::arbitrary())) == name@);
            return match text_value(name, value) {
                Ok(x) => Ok(WorksFilter::LicenseVersion(x)),
                Err(e) => Err(e),
            };
        }
        if str_eq(name, "license.delay") {
            assert(works_filter_name(WorksFilter::LicenseDelay(vstd::pervasive::arbitrary())) == name@);
            return match count_value(name, value) {
                Ok(x) => Ok(WorksFilter::LicenseDelay(x)),
                Err(e) => Err(e),
            };
        }
        if str_eq(name, "full-text.version") {
            assert(works_filter_name(WorksFilter::FullTextVersion(vstd::pervasive::arbitrary())) == name@);
            return match text_value(name, value) {
                Ok(x) => Ok(WorksFilter::FullTextVersion(x)),
                Err(e) => Err(e),
            };
        }
        if str_eq(name, "full-text.type") {
            assert(works_filter_name(WorksFilter::FullTextType(vstd::pervasive::arbitrary())) == name@);
            return match text_value(name, value) {
                Ok(x) => Ok(WorksFilter::FullTextType(x)),
                Err(e) => Err(e),
            };
        }
        if str_eq(name, "full-text.application") {
            assert(works_filter_name(WorksFilter::FullTextApplication(vstd::pervasive::arbitrary())) == name@);
            return match text_value(name, value) {
                Ok(x) => Ok(WorksFilter::FullTextApplication(x)),
                Err(e) => Err(e),
            };
        }
        if str_eq(name, "relation.type") {
            assert(works_filter_name(WorksFilter::RelationType(vstd::pervasive::arbitrary())) == name@);
            return match text_value(name, value) {
                Ok(x) => Ok(WorksFilter::RelationType(x)),
                Err(e) => Err(e),
            };
        }
        if str_eq(name, "relation.object") {
            assert(works_filter_name(WorksFilter::RelationObject(vstd::pervasive::arbitrary())) == name@);
            return match text_value(name, value) {
                Ok(x) => Ok(WorksFilter::RelationObject(x)),
                Err(e) => Err(e),
            };
        }
        if str_eq(name, "relation.object-type") {
            assert(works_filter_name(WorksFilter::RelationObjectType(vstd::pervasive::arbitrary())) == name@);
            return match text_value(name, value) {
                Ok(x) => Ok(WorksFilter::RelationObjectType(x)),
                Err(e) => Err(e),
            };
        }
        if str_eq(name, "from-index-date") {
            assert(works_filter_name(WorksFilter::FromIndexDate(vstd::pervasive::arbitrary())) == name@);
            return match day_value(name, value) {
                Ok(x) => Ok(WorksFilter::FromIndexDate(x)),
                Err(e) => Err(e),
            };
        }
        if str_eq(name, "until-index-date") {
            assert(works_filter_name(WorksFilter::UntilIndexDate(vstd::pervasive::arbitrary())) == name@);
            return match day_value(name, value) {
                Ok(x) => Ok(WorksFilter::UntilIndexDate(x)),
                Err(e) => Err(e),
            };
        }
        if str_eq(name, "from-deposit-date") {
            assert(works_filter_name(WorksFilter::FromDepositDate(vstd::pervasive::arbitrary())) == name@);
            return match day_value(name, value) {
                Ok(x) => Ok(WorksFilter::FromDepositDate(x)),
                Err(e) => Err(e),
            };
        }
        if str_eq(name, "until-deposit-date") {
            assert(works_filter_name(WorksFilter::UntilDepositDate(vstd::pervasive::arbitrary())) == name@);
            return match day_value(name, value) {
                Ok(x) => Ok(WorksFilter::UntilDepositDate(x)),
                Err(e) => Err(e),
            };
        }
        if str_eq(name, "from-update-date") {
            assert(works_filter_name(WorksFilter::FromUpdateDate(vstd::pervasive::arbitrary())) == name@);
            return match day_value(name, value) {
                Ok(x) => Ok(WorksFilter::FromUpdateDate(x)),
                Err(e) => Err(e),
            };
        }
        if str_eq(name, "until-update-date") {
            assert(works_filter_name(WorksFilter::UntilUpdateDate(vstd::pervasive::arbitrary())) == name@);
            return match day_value(name, value) {
                Ok(x) => Ok(WorksFilter::UntilUpdateDate(x)),
                Err(e) => Err(e),
            };
        }
        if str_eq(name, "from-created-date") {
            assert(works_filter_name(WorksFilter::FromCreatedDate(vstd::pervasive::arbitrary())) == name@);
            return match day_value(name, value) {
                Ok(x) => Ok(WorksFilter::FromCreatedDate(x)),
                Err(e) => Err(e),
            };
        }
        if str_eq(name, "until-created-date") {
            assert(works_filter_name(WorksFilter::UntilCreatedDate(vstd::pervasive::arbitrary())) == name@);
            return match day_value(name, value) {
                Ok(x) => Ok(WorksFilter::UntilCreatedDate(x)),
                Err(e) => Err(e),
            };
        }
        if str_eq(name, "from-pub-date") {
            assert(works_filter_name(WorksFilter::FromPubDate(vstd::pervasive::arbitrary())) == name@);
            return match day_value(name, value) {
                Ok(x) => Ok(WorksFilter::FromPubDate(x)),
                Err(e) => Err(e),
            };
        }
        if str_eq(name, "until-pub-date") {
            assert(works_filter_name(WorksFilter::UntilPubDate(vstd::pervasive::arbitrary())) == name@);
            return match day_value(name, value) {
                Ok(x) => Ok(WorksFilter::UntilPubDate(x)),
                Err(e) => Err(e),
            };
        }
        if str_eq(name, "from-online-pub-date") {
            assert(works_filter_name(WorksFilter::FromOnlinePubDate(vstd::pervasive::arbitrary())) == name@);
            return match day_value(name, value) {
                Ok(x) => Ok(WorksFilter::FromOnlinePubDate(x)),
                Err(e) => Err(e),
            };
        }
        if str_eq(name, "until-online-pub-date") {
            assert(works_filter_name(WorksFilter::UntilOnlinePubDate(vstd::pervasive::arbitrary())) == name@);
            return match day_value(name, value) {
                Ok(x) => Ok(WorksFilter::UntilOnlinePubDate(x)),
                Err(e) => Err(e),
            };
        }
        if str_eq(name, "from-print-pub-date") {
            assert(works_filter_name(WorksFilter::FromPrintPubDate(vstd::pervasive::arbitrary())) == name@);
            return match day_value(name, value) {
                Ok(x) => Ok(WorksFilter::FromPrintPubDate(x)),
                Err(e) => Err(e),
            };
        }
        if str_eq(name, "until-print-pub-date") {
            assert(works_filter_name(WorksFilter::UntilPrintPubDate(vstd::pervasive::arbitrary())) == name@);
            return match day_value(name, value) {
                Ok(x) => Ok(WorksFilter::UntilPrintPubDate(x)),
                Err(e) => Err(e),
            };
        }
        if str_eq(name, "from-posted-date") {
            assert(works_filter_name(WorksFilter::FromPostedDate(vstd::pervasive::arbitrary())) == name@);
            return match day_value(name, value) {
                Ok(x) => Ok(WorksFilter::FromPostedDate(x)),
                Err(e) => Err(e),
            };
        }
        if str_eq(name, "until-posted-date") {
            assert(works_filter_name(WorksFilter::UntilPostedDate(vstd::pervasive::arbitrary())) == name@);
            return match day_value(name, value) {
                Ok(x) => Ok(WorksFilter::UntilPostedDate(x)),
                Err(e) => Err(e),
            };
        }
        if str_eq(name, "from-accepted-date") {
            assert(works_filter_name(WorksFilter::FromAcceptedDate(vstd::pervasive::arbitrary())) == name@);
            return match day_value(name, value) {
                Ok(x) => Ok(WorksFilter::FromAcceptedDate(x)),
                Err(e) => Err(e),
            };
        }
        if str_eq(name, "until-accepted-date") {
            assert(works_filter_name(WorksFilter::UntilAcceptedDate(vstd::pervasive::arbitrary())) == name@);
            return match day_value(name, value) {
                Ok(x) => Ok(WorksFilter::UntilAcceptedDate(x)),
                Err(e) => Err(e),
            };
        }
        if str_eq(name, "from-approved-date") {
            assert(works_filter_name(WorksFilter::FromApprovedDate(vstd::pervasive::arbitrary())) == name@);
            return match day_value(name, value) {
                Ok(x) => Ok(WorksFilter::FromApprovedDate(x)),
                Err(e) => Err(e),
            };
        }
        if str_eq(name, "until-approved-date") {
            assert(works_filter_name(WorksFilter::UntilApprovedDate(vstd::pervasive::arbitrary())) == name@);
            return match day_value(name, value) {
                Ok(x) => Ok(WorksFilter::UntilApprovedDate(x)),
                Err(e) => Err(e),
            };
        }
        if str_eq(name, "from-awarded-date") {
            assert(works_filter_name(WorksFilter::FromAwardedDate(vstd::pervasive::arbitrary())) == name@);
            return match day_value(name, value) {
                Ok(x) => Ok(WorksFilter::FromAwardedDate(x)),
                Err(e) => Err(e),
            };
        }
        if str_eq(name, "until-awarded-date") {
            assert(works_filter_name(WorksFilter::UntilAwardedDate(vstd::pervasive::arbitrary())) == name@);
            return match day_value(name, value) {
                Ok(x) => Ok(WorksFilter::UntilAwardedDate(x)),
                Err(e) => Err(e),
            };
        }
        if str_eq(name, "from-issued-date") {
            assert(works_filter_name(WorksFilter::FromIssuedDate(vstd::pervasive::arbitrary())) == name@);
            return match day_value(name, value) {
                Ok(x) => Ok(WorksFilter::FromIssuedDate(x)),
                Err(e) => Err(e),
            };
        }
        if str_eq(name, "until-issued-date") {
            assert(works_filter_name(WorksFilter::UntilIssuedDate(vstd::pervasive::arbitrary())) == name@);
            return match day_value(name, value) {
                Ok(x) => Ok(WorksFilter::UntilIssuedDate(x)),
                Err(e) => Err(e),
            };
        }
        if str_eq(name, "from-event-start-date") {
            assert(works_filter_name(WorksFilter::FromEventStartDate(vstd::pervasive::arbitrary())) == name@);
            return match day_value(name, value) {
                Ok(x) => Ok(WorksFilter::FromEventStartDate(x)),
                Err(e) => Err(e),
            };
        }
        if str_eq(name, "until-event-start-date") {
            assert(works_filter_name(WorksFilter::UntilEventStartDate(vstd::pervasive::arbitrary())) == name@);
            return match day_value(name, value) {
                Ok(x) => Ok(WorksFilter::UntilEventStartDate(x)),
                Err(e) => Err(e),
            };
        }
        if str_eq(name, "from-event-end-date") {
            assert(works_filter_name(WorksFilter::FromEventEndDate(vstd::pervasive::arbitrary())) == name@);
            return match day_value(name, value) {
                Ok(x) => Ok(WorksFilter::FromEventEndDate(x)),
                Err(e) => Err(e),
            };
        }
        if str_eq(name, "until-event-end-date") {
            assert(works_filter_name(WorksFilter::UntilEventEndDate(vstd::pervasive::arbitrary())) == name@);
            return match day_value(name, value) {
                Ok(x) => Ok(WorksFilter::UntilEventEndDate(x)),
                Err(e) => Err(e),
            };
        }
        proof {
            assert forall|f: WorksFilter| works_filter_name(f) != name@ by {
                match f {
                    WorksFilter::HasFunder => {},
                    WorksFilter::HasFunderDoi => {},
                    WorksFilter::HasFunderRorId => {},
                    WorksFilter::HasAffiliation => {},
                    WorksFilter::HasAffiliationRorId => {},
                    WorksFilter::HasRorId => {},
                    WorksFilter::HasLicense => {},
                    WorksFilter::HasFullText => {},
                    WorksFilter::HasReferences => {},
                    WorksFilter::HasArchive => {},
                    WorksFilter::HasOrcid => {},
                    WorksFilter::HasAuthenticatedOrcid => {},
                    WorksFilter::HasAbstract => {},
                    WorksFilter::HasClinicalTrialNumber => {},
                    WorksFilter::HasContentDomain => {},
                    WorksFilter::HasDomainRestriction => {},
                    WorksFilter::HasRelation => {},
                    WorksFilter::HasUpdate => {},
                    WorksFilter::HasUpdatePolicy => {},
                    WorksFilter::HasAssertion => {},
                    WorksFilter::HasAward => {},
                    WorksFilter::HasAlias => {},
                    WorksFilter::HasPrimeDoi => {},
                    WorksFilter::HasEvent => {},
                    WorksFilter::IsUpdate => {},
                    WorksFilter::Funder(_) => {},
                    WorksFilter::Prefix(_) => {},
                    WorksFilter::Member(_) => {},
                    WorksFilter::Doi(_) => {},
                    WorksFilter::Issn(_) => {},
                    WorksFilter::Isbn(_) => {},
                    WorksFilter::Orcid(_) => {},
                    WorksFilter::Archive(_) => {},
                    WorksFilter::Directory(_) => {},
                    WorksFilter::Updates(_) => {},
                    WorksFilter::ContainerTitle(_) => {},
                    WorksFilter::CategoryName(_) => {},
                    WorksFilter::TypeName(_) => {},
                    WorksFilter::Type(_) => {},
                    WorksFilter::GroupTitle(_) => {},
                    WorksFilter::ContentDomain(_) => {},
                    WorksFilter::ClinicalTrialNumber(_) => {},
                    WorksFilter::AlternativeId(_) => {},
                    WorksFilter::ArticleNumber(_) => {},
                    WorksFilter::RorId(_) => {},
                    WorksFilter::UpdateType(_) => {},
                    WorksFilter::FunderDoiAssertedBy(_) => {},
                    WorksFilter::Assertion(_) => {},
                    WorksFilter::AssertionGroup(_) => {},
                    WorksFilter::AwardNumber(_) => {},
                    WorksFilter::AwardFunder(_) => {},
                    WorksFilter::GteAwardAmount(_) => {},
                    WorksFilter::LteAwardAmount(_) => {},
                    WorksFilter::LicenseUrl(_) => {},
                    WorksFilter::LicenseVersion(_) => {},
                    WorksFilter::LicenseDelay(_) => {},
                    WorksFilter::FullTextVersion(_) => {},
                    WorksFilter::FullTextType(_) => {},
                    WorksFilter::FullTextApplication(_) => {},
                    WorksFilter::RelationType(_) => {},
                    WorksFilter::RelationObject(_) => {},
                    WorksFilter::RelationObjectType(_) => {},
                    WorksFilter::FromIndexDate(_) => {},
                    WorksFilter::UntilIndexDate(_) => {},
                    WorksFilter::FromDepositDate(_) => {},
                    WorksFilter::UntilDepositDate(_) => {},
                    WorksFilter::FromUpdateDate(_) => {},
                    WorksFilter::UntilUpdateDate(_) => {},
                    WorksFilter::FromCreatedDate(_) => {},
                    WorksFilter::UntilCreatedDate(_) => {},
                    WorksFilter::FromPubDate(_) => {},
                    WorksFilter::UntilPubDate(_) => {},
                    WorksFilter::FromOnlinePubDate(_) => {},
                    WorksFilter::UntilOnlinePubDate(_) => {},
                    WorksFilter::FromPrintPubDate(_) => {},
                    WorksFilter::UntilPrintPubDate(_) => {},
                    WorksFilter::FromPostedDate(_) => {},
                    WorksFilter::UntilPostedDate(_) => {},
                    WorksFilter::FromAcceptedDate(_) => {},
                    WorksFilter::UntilAcceptedDate(_) => {},
                    WorksFilter::FromApprovedDate(_) => {},
                    WorksFilter::UntilApprovedDate(_) => {},
                    WorksFilter::FromAwardedDate(_) => {},
                    WorksFilter::UntilAwardedDate(_) => {},
                    WorksFilter::FromIssuedDate(_) => {},
                    WorksFilter::UntilIssuedDate(_) => {},
                    WorksFilter::FromEventStartDate(_) => {},
                    WorksFilter::UntilEventStartDate(_) => {},
                    WorksFilter::FromEventEndDate(_) => {},
                    WorksFilter::UntilEventEndDate(_) => {},
                }
            }
        }
        Err(FilterParseError::UnknownName { name: owned(name) })
    }
}

/// How a filter of [`FundersFilter`] reads its value.
pub open spec fn funders_filter_kind(f: FundersFilter) -> ValueKind {
    match f {
        FundersFilter::Location(_) => ValueKind::Text,
    }
}

/// Whether the value a filter of [`FundersFilter`] carries is what `v` reads as.
pub open spec fn funders_filter_reads(f: FundersFilter, v: Seq<char>) -> bool {
    match f {
        FundersFilter::Location(x) => x@ == v,
    }
}

/// The names of every filter of [`FundersFilter`], in the order they are declared.
pub open spec fn funders_filter_names() -> Seq<Seq<char>> {
    seq!["location"@]
}

impl FundersFilter {
    /// every filter name the route accepts, in the order they are declared
    pub fn names() -> (r: Vec<&'static str>)
        ensures
            r@.map_values(|s: &str| s@) == funders_filter_names(),
    {
        let r = vec!["location"];
        assert(r@.map_values(|s: &str| s@) =~= funders_filter_names());
        r
    }

    /// The filter named `name` carrying `value`, as a command line writes
    /// `name[:value]`.
    pub fn from_name(name: &str, value: Option<&str>) -> (r: core::result::Result<FundersFilter, FilterParseError>)
        ensures
            match r {
                Ok(f) => funders_filter_name(f) == name@ && match funders_filter_kind(f) {
                    ValueKind::Flag => value is None,
                    _ => value matches Some(v) && funders_filter_reads(f, v@),
                },
                Err(FilterParseError::UnknownName { name: n }) => n@ == name@ && forall|f: FundersFilter|
                    funders_filter_name(f) != name@,
                Err(FilterParseError::MissingValue { name: n }) => n@ == name@ && value is None
                    && exists|f: FundersFilter| funders_filter_name(f) == name@ && funders_filter_kind(f) != ValueKind::Flag,
                Err(FilterParseError::UnexpectedValue { name: n, value: v }) => n@ == name@
                    && (value matches Some(x) && x@ == v@) && exists|f: FundersFilter|
                    funders_filter_name(f) == name@ && funders_filter_kind(f) == ValueKind::Flag,
                Err(FilterParseError::InvalidValue { name: n, value: v }) => n@ == name@
                    && (value matches Some(x) && x@ == v@) && exists|f: FundersFilter|
                    funders_filter_name(f) == name@ && !reads_as(funders_filter_kind(f), v@),
            },
    {
        if str_eq(name, "location") {
            assert(funders_filter_name(FundersFilter::Location(vstd::pervasive::arbitrary())) == name@);
            return match text_value(name, value) {
                Ok(x) => Ok(FundersFilter::Location(x)),
                Err(e) => Err(e),
            };
        }
        proof {
            assert forall|f: FundersFilter| funders_filter_name(f) != name@ by {
                match f {
                    FundersFilter::Location(_) => {},
                }
            }
        }
        Err(FilterParseError::UnknownName { name: owned(name) })
    }
}

/// How a filter of [`MembersFilter`] reads its value.
pub open spec fn members_filter_kind(f: MembersFilter) -> ValueKind {
    match f {
        MembersFilter::Prefix(_) => ValueKind::Text,
        MembersFilter::BackfileDoiCount(_) => ValueKind::Count,
        MembersFilter::CurrentDoiCount(_) => ValueKind::Count,
    }
}

/// Whether the value a filter of [`MembersFilter`] carries is what `v` reads as.
pub open spec fn members_filter_reads(f: MembersFilter, v: Seq<char>) -> bool {
    match f {
        MembersFilter::Prefix(x) => x@ == v,
        MembersFilter::BackfileDoiCount(x) => parsed_i32(v) == Some(x),
        MembersFilter::CurrentDoiCount(x) => parsed_i32(v) == Some(x),
    }
}

/// The names of every filter of [`MembersFilter`], in the order they are declared.
pub open spec fn members_filter_names() -> Seq<Seq<char>> {
    seq!["prefix"@, "backfile-doi-count"@, "current-doi-count"@]
}

impl MembersFilter {
    /// every filter name the route accepts, in the order they are declared
    pub fn names() -> (r: Vec<&'static str>)
        ensures
            r@.map_values(|s: &str| s@) == members_filter_names(),
    {
        let r = vec!["prefix", "backfile-doi-count", "current-doi-count"];
        assert(r@.map_values(|s: &str| s@) =~= members_filter_names());
        r
    }

    /// The filter named `name` carrying `value`, as a command line writes
    /// `name[:value]`.
    pub fn from_name(name: &str, value: Option<&str>) -> (r: core::result::Result<MembersFilter, FilterParseError>)
        ensures
            match r {
                Ok(f) => members_filter_name(f) == name@ && match members_filter_kind(f) {
                    ValueKind::Flag => value is None,
                    _ => value matches Some(v) && members_filter_reads(f, v@),
                },
                Err(FilterParseError::UnknownName { name: n }) => n@ == name@ && forall|f: MembersFilter|
                    members_filter_name(f) != name@,
                Err(FilterParseError::MissingValue { name: n }) => n@ == name@ && value is None
                    && exists|f: MembersFilter| members_filter_name(f) == name@ && members_filter_kind(f) != ValueKind::Flag,
                Err(FilterParseError::UnexpectedValue { name: n, value: v }) => n@ == name@
                    && (value matches Some(x) && x@ == v@) && exists|f: MembersFilter|
                    members_filter_name(f) == name@ && members_filter_kind(f) == ValueKind::Flag,
                Err(FilterParseError::InvalidValue { name: n, value: v }) => n@ == name@
                    && (value matches Some(x) && x@ == v@) && exists|f: MembersFilter|
                    members_filter_name(f) == name@ && !reads_as(members_filter_kind(f), v@),
            },
    {
        if str_eq(name, "prefix") {
            assert(members_filter_name(MembersFilter::Prefix(vstd::pervasive::arbitrary())) == name@);
            return match text_value(name, value) {
                Ok(x) => Ok(MembersFilter::Prefix(x)),
                Err(e) => Err(e),
            };
        }
        if str_eq(name, "backfile-doi-count") {
            assert(members_filter_name(MembersFilter::BackfileDoiCount(vstd::pervasive::arbitrary())) == name@);
            return match count_value(name, value) {
                Ok(x) => Ok(MembersFilter::BackfileDoiCount(x)),
                Err(e) => Err(e),
            };
        }
        if str_eq(name, "current-doi-count") {
            assert(members_filter_name(MembersFilter::CurrentDoiCount(vstd::pervasive::arbitrary())) == name@);
            return match count_value(name, value) {
                Ok(x) => Ok(MembersFilter::CurrentDoiCount(x)),
                Err(e) => Err(e),
            };
        }
        proof {
            assert forall|f: MembersFilter| members_filter_name(f) != name@ by {
                match f {
                    MembersFilter::Prefix(_) => {},
                    MembersFilter::BackfileDoiCount(_) => {},
                    MembersFilter::CurrentDoiCount(_) => {},
                }
            }
        }
        Err(FilterParseError::UnknownName { name: owned(name) })
    }
}

} // verus!
