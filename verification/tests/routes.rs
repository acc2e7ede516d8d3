use crossref_client::encode::{encode, query_string};
use crossref_client::limit::parse_interval;
use crossref_client::query::{CrossrefQueryParam, ParamFragment};
use crossref_client::{
    CrossrefQuery, CrossrefRoute, Duration, FieldQuery, Funders, FundersFilter, FundersQuery,
    Journals, JournalsQuery, Licenses, LicensesQuery, Order, RateLimit, ResultControl, Sort, Type,
    WorkElement, WorkListQuery, WorkResultControl, Works, WorksFilter, WorksQuery,
};
use std::str::FromStr;

#[test]
fn serialize_works_ident() {
    let works = Works::doi("10.1037/0003-066X.59.1.29");

    assert_eq!("/works/10.1037/0003-066X.59.1.29", &works.route().unwrap())
}

#[test]
fn sample_query_keeps_the_works_route() {
    let route = WorksQuery::random(10).route().unwrap();

    assert_eq!("/works?sample=10", &route);

    let query: WorkListQuery = WorksQuery::random(10).into();
    assert_eq!(
        "https://api.crossref.org/works?sample=10",
        &query.to_url("https://api.crossref.org").unwrap()
    );
}

#[test]
fn filter_names_have_no_stray_whitespace() {
    let route = WorksQuery::empty()
        .filter(WorksFilter::HasClinicalTrialNumber)
        .route()
        .unwrap();

    assert_eq!("/works?filter=has-clinical-trial-number:true", &route);
}

#[test]
fn cursor_with_rows_renders_two_parameters() {
    let query = WorksQuery::empty().result_control(WorkResultControl::Cursor {
        token: Some("abc".to_string()),
        rows: Some(20),
    });

    assert_eq!("/works?cursor=abc&rows=20", &query.route().unwrap());
}

#[test]
fn new_cursor_renders_the_wildcard_token() {
    let query = WorksQuery::empty().new_cursor();

    assert_eq!("/works?cursor=*", &query.route().unwrap());
}

#[test]
fn a_query_term_can_no_longer_inject_a_parameter() {
    assert_eq!(
        "/works?query=R%26D",
        &WorksQuery::new("R&D").route().unwrap()
    );
}

#[test]
fn filter_and_field_query_values_are_encoded_too() {
    let route = WorksQuery::empty()
        .field_query(FieldQuery::container_title("Ecology & Evolution"))
        .filter(WorksFilter::ContainerTitle("Q&A".to_string()))
        .route()
        .unwrap();

    assert_eq!(
        "/works?query.container-title=Ecology%20%26%20Evolution&filter=container-title:Q%26A",
        &route
    );
}

#[test]
fn an_empty_query_targets_the_bare_works_route() {
    assert_eq!("/works", &WorksQuery::empty().route().unwrap());
}

#[test]
fn selected_elements_render_as_one_comma_separated_parameter() {
    let route = WorksQuery::empty()
        .elements(vec![WorkElement::DOI, WorkElement::Title])
        .route()
        .unwrap();

    assert_eq!("/works?select=DOI,title", &route);
}

#[test]
fn rows_offset_renders_two_parameters() {
    let query = WorksQuery::empty().result_control(WorkResultControl::Standard(
        ResultControl::RowsOffset {
            rows: 10,
            offset: 20,
        },
    ));

    assert_eq!("/works?rows=10&offset=20", &query.route().unwrap());
}

#[test]
fn referenced_by_count_uses_the_crossref_spelling() {
    assert_eq!("is-referenced-by-count", Sort::IsReferencedByCount.as_str());
}

#[test]
fn terms_filter_and_paging_render_as_separate_parameters() {
    let query = FundersQuery::new("NSF")
        .filter(FundersFilter::Location("Norway".to_string()))
        .result_control(ResultControl::Rows(10));

    assert_eq!(
        "/funders?query=NSF&filter=location:Norway&rows=10",
        &Funders::Query(query).route().unwrap()
    );
}

#[test]
fn funders_an_empty_query_targets_the_bare_route() {
    assert_eq!(
        "/funders",
        &Funders::Query(FundersQuery::empty()).route().unwrap()
    );
}

#[test]
fn journals_an_empty_query_targets_the_bare_route() {
    assert_eq!(
        "/journals",
        &Journals::Query(JournalsQuery::empty()).route().unwrap()
    );
}

#[test]
fn journals_terms_and_paging_render_as_separate_parameters() {
    let query = JournalsQuery::new("Economic Geography")
        .result_control(ResultControl::RowsOffset { rows: 10, offset: 20 });

    assert_eq!(
        "/journals?query=Economic%20Geography&rows=10&offset=20",
        &Journals::Query(query).route().unwrap()
    );
}

#[test]
fn licenses_an_empty_query_targets_the_bare_route() {
    assert_eq!(
        "/licenses",
        &Licenses::Query(LicensesQuery::empty()).route().unwrap()
    );
}

#[test]
fn licenses_terms_and_paging_render_as_separate_parameters() {
    let query = LicensesQuery::new("creative commons").result_control(ResultControl::Rows(10));

    assert_eq!(
        "/licenses?query=creative%20commons&rows=10",
        &Licenses::Query(query).route().unwrap()
    );
}

#[test]
fn every_type_round_trips_through_from_str() {
    for type_ in Type::all() {
        assert_eq!(type_, Type::from_str(type_.id()).expect("a known type"));
    }
}

#[test]
fn a_type_crossref_no_longer_registers_is_not_a_type() {
    assert!(Type::from_str("standard-series").is_err());
}

const API_SORT_FIELDS: &[&str] = &[
    "score",
    "created",
    "issued",
    "indexed",
    "is-referenced-by-count",
    "relevance",
    "published",
    "published-print",
    "published-online",
    "updated",
    "references-count",
    "deposited",
];

const ALL_SORTS: &[Sort] = &[
    Sort::Score,
    Sort::Updated,
    Sort::Deposited,
    Sort::Indexed,
    Sort::Published,
    Sort::PublishedPrint,
    Sort::PublishedOnline,
    Sort::Issued,
    Sort::IsReferencedByCount,
    Sort::ReferenceCount,
    Sort::Created,
    Sort::Relevance,
];

#[test]
fn every_sort_key_is_accepted_by_the_api() {
    for sort in ALL_SORTS {
        assert!(
            API_SORT_FIELDS.contains(&sort.as_str()),
            "`{:?}` renders as `{}`, which crossref rejects with a 400",
            sort,
            sort.as_str()
        );
    }
}

#[test]
fn sort_round_trips_through_from_str() {
    for sort in ALL_SORTS {
        assert_eq!(Ok(*sort), Sort::from_str(sort.as_str()));
    }
}

#[test]
fn order_round_trips_through_from_str() {
    for order in [Order::Asc, Order::Desc] {
        assert_eq!(Ok(order), Order::from_str(order.as_str()));
    }
}

#[test]
fn ampersand_can_no_longer_terminate_a_parameter() {
    assert_eq!("R%26D", &encode("R&D"));
}

#[test]
fn the_reserved_characters_are_all_encoded() {
    assert_eq!("%26%3D%23%3F%25%2B%20", &encode("&=#?%+ "));
}

#[test]
fn crossrefs_own_syntax_stays_literal() {
    assert_eq!(
        "type:journal-article,has-orcid:true",
        &encode("type:journal-article,has-orcid:true")
    );
    assert_eq!("10.1037/0003-066X.59.1.29", &encode("10.1037/0003-066X.59.1.29"));
    assert_eq!("*", &encode("*"));
}

#[test]
fn non_ascii_terms_are_encoded_as_utf8() {
    assert_eq!("Ol%C3%A9", &encode("Olé"));
}

#[test]
fn an_empty_parameter_list_has_no_question_mark() {
    assert_eq!("", &query_string(&[]));
}

#[test]
fn pairs_are_joined_with_ampersands() {
    let params = [
        ("query".to_string(), "R&D".to_string()),
        ("rows".to_string(), "20".to_string()),
    ];

    assert_eq!("?query=R%26D&rows=20", &query_string(&params));
}

#[test]
fn every_interval_unit_crossref_might_use_parses() {
    assert_eq!(Some(Duration::from_millis(500)), parse_interval("500ms"));
    assert_eq!(Some(Duration::from_secs(1)), parse_interval("1s"));
    assert_eq!(Some(Duration::from_secs(120)), parse_interval("2m"));
    assert_eq!(Some(Duration::from_secs(3_600)), parse_interval("1h"));
    assert_eq!(None, parse_interval("s"));
    assert_eq!(None, parse_interval("12"));
}

#[test]
fn spacing_divides_the_interval_across_the_budget() {
    let rate = RateLimit {
        limit: 50,
        interval: Duration::from_secs(1),
    };
    assert_eq!(Duration::from_millis(20), rate.spacing());
}

#[test]
fn a_zero_budget_does_not_divide_by_zero() {
    let rate = RateLimit {
        limit: 0,
        interval: Duration::from_secs(1),
    };
    assert_eq!(Duration::from_secs(1), rate.spacing());
}

#[test]
fn the_budget_is_read_from_the_headers_crossref_sends() {
    let rate = RateLimit::from_header_values(Some("50"), Some("1s"));

    assert_eq!(
        Some(RateLimit {
            limit: 50,
            interval: Duration::from_secs(1)
        }),
        rate
    );
}

#[test]
fn a_half_reported_budget_is_no_budget() {
    assert_eq!(None, RateLimit::from_header_values(Some("50"), None));
    assert_eq!(
        None,
        RateLimit::from_header_values(Some("50"), Some("1 fortnight"))
    );
}

#[test]
fn retry_after_seconds_are_understood_and_dates_are_not() {
    assert_eq!(
        Some(Duration::from_secs(30)),
        crossref_client::limit::retry_after(Some("30"))
    );
    assert_eq!(
        None,
        crossref_client::limit::retry_after(Some("Wed, 21 Oct 2015 07:28:00 GMT"))
    );
}

#[test]
fn a_filter_value_with_a_comma_cannot_be_sent() {
    let route = WorksQuery::empty()
        .filter(WorksFilter::ContainerTitle("Ecology, Evolution".to_string()))
        .route();

    match route {
        Err(crossref_client::Error::UnsendableFilterValue { filter, value }) => {
            assert_eq!("container-title", filter);
            assert_eq!("Ecology, Evolution", value);
        }
        other => panic!("expected the filter to be refused, got {:?}", other),
    }
}

#[test]
fn a_filter_fragment_joins_name_and_value() {
    assert_eq!("has-orcid:true", WorksFilter::HasOrcid.fragment());
    assert_eq!("type:journal-article", WorksFilter::Type(Type::JournalArticle).fragment());
    assert_eq!("gte-award-amount:1000", WorksFilter::GteAwardAmount(1000).fragment());
    assert_eq!("license.delay:-5", WorksFilter::LicenseDelay(-5).fragment());
    let date = crossref_client::date::Date::from_ymd_opt(2020, 1, 2).unwrap();
    assert_eq!("from-pub-date:2020-01-02", WorksFilter::FromPubDate(date).fragment());
}

#[test]
fn the_cursor_params_default_to_a_wildcard() {
    let params = WorkResultControl::default().params();
    assert_eq!(vec![("cursor".to_string(), "*".to_string())], params);
}

#[test]
fn a_combined_query_routes_through_the_primary_component() {
    let q = WorksQuery::new("kelp").into_combined_query::<Journals>("0013-0095");
    assert_eq!("/journals/0013-0095/works?query=kelp", &q.route().unwrap());
    let f: Funders = WorksQuery::empty().into_combined("100000015");
    assert_eq!("/funders/100000015/works", &f.route().unwrap());
}

#[test]
fn selecting_without_the_doi_still_asks_for_it() {
    let route = WorksQuery::empty()
        .elements(vec![WorkElement::Title])
        .route()
        .unwrap();
    assert_eq!("/works?select=DOI,title", &route);
}

#[test]
fn a_sample_ignores_everything_else() {
    let route = WorksQuery::new("ecology")
        .filter(WorksFilter::HasOrcid)
        .sort(Some(Sort::Score))
        .sample(Some(5))
        .route()
        .unwrap();
    assert_eq!("/works?sample=5", &route);
}

#[test]
fn the_agency_route_ends_in_agency() {
    assert_eq!(
        "/works/10.1037/abc/agency",
        &Works::agency_for_doi("10.1037/abc").route().unwrap()
    );
}

#[test]
fn sample_none_turns_a_random_query_back_into_a_search() {
    let route = WorksQuery::random(5).query("ecology").sample(None).route().unwrap();
    assert_eq!("/works?query=ecology", &route);
    let route = WorksQuery::new("ecology")
        .sort(Some(Sort::Score))
        .order(Some(Order::Desc))
        .sort(None)
        .order(None)
        .route()
        .unwrap();
    assert_eq!("/works?query=ecology", &route);
}
