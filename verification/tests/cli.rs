use crossref_client::citekey::CiteKey;
use crossref_client::cli::{
    attempts, collect_field_queries, filter_complaint, first_time, parse_field_query, paging,
    split_filter_arg, verdict_for, vouched, every_key_matched, Resolver, Verdict,
};
use crossref_client::citekey::Mismatch;
use crossref_client::query::filters::FilterParseError;
use crossref_client::{
    CrossrefRoute, FundersFilter, FundersQuery, Funders, MembersFilter, MembersQuery, Members,
    ResultControl, SearchField, WorkResultControl, WorksFilter, WorksQuery,
};

/// The flags of a `crossref works` command line, as the tests below give them.
#[derive(Default)]
struct WorksFlags<'a> {
    query: Vec<&'a str>,
    bibliographic: Option<&'a str>,
    title: Option<&'a str>,
    author: Option<&'a str>,
    fields: Vec<&'a str>,
    filters: Vec<&'a str>,
    limit: Option<usize>,
}

fn works_filter(arg: &str) -> Result<WorksFilter, String> {
    let (name, value) = split_filter_arg(arg);
    WorksFilter::from_name(&name, value.as_deref())
        .map_err(|err| filter_complaint(&err, &WorksFilter::names()))
}

fn works_route(flags: WorksFlags) -> Result<String, String> {
    let mut others = Vec::new();
    for field in flags.fields {
        others.push(parse_field_query(field)?);
    }
    let field_queries =
        collect_field_queries(flags.bibliographic, flags.title, flags.author, others)?;
    let mut query = WorksQuery::empty()
        .queries(&flags.query)
        .field_queries(field_queries);
    if let Some(rc) = paging(flags.limit, None) {
        query = query.result_control(WorkResultControl::Standard(rc));
    }
    for filter in flags.filters {
        query = query.filter(works_filter(filter)?);
    }
    Ok(query.route().expect("a works query always renders"))
}

#[test]
fn a_bibliographic_query_reaches_crossrefs_reference_matching() {
    let route = works_route(WorksFlags {
        bibliographic: Some("Feynman 1960 There's Plenty of Room at the Bottom"),
        ..Default::default()
    })
    .unwrap();

    assert!(route.contains("query.bibliographic=Feynman%201960"), "{route}");
}

#[test]
fn the_named_field_flags_render_their_own_fields() {
    let route = works_route(WorksFlags {
        title: Some("room at the bottom"),
        author: Some("feynman"),
        ..Default::default()
    })
    .unwrap();

    assert!(route.contains("query.title=room%20at%20the%20bottom"), "{route}");
    assert!(route.contains("query.author=feynman"), "{route}");
}

#[test]
fn a_field_query_can_name_any_field_the_flags_do_not() {
    let route = works_route(WorksFlags {
        fields: vec!["container-title=Nature", "publisher-name=Elsevier"],
        ..Default::default()
    })
    .unwrap();

    assert!(route.contains("query.container-title=Nature"), "{route}");
    assert!(route.contains("query.publisher-name=Elsevier"), "{route}");
}

#[test]
fn field_queries_sit_alongside_the_free_form_terms() {
    let route = works_route(WorksFlags {
        query: vec!["nanotechnology"],
        author: Some("feynman"),
        limit: Some(5),
        ..Default::default()
    })
    .unwrap();

    assert!(route.contains("query=nanotechnology"), "{route}");
    assert!(route.contains("query.author=feynman"), "{route}");
    assert!(route.contains("rows=5"), "{route}");
}

#[test]
fn a_works_query_without_field_flags_sends_none() {
    let route = works_route(WorksFlags {
        query: vec!["nanotechnology"],
        ..Default::default()
    })
    .unwrap();

    assert!(!route.contains("query."), "{route}");
}

#[test]
fn an_unknown_field_is_rejected_with_the_fields_that_do_exist() {
    let err = works_route(WorksFlags {
        fields: vec!["pubisher-name=Elsevier"],
        ..Default::default()
    })
    .unwrap_err();

    assert!(err.contains("pubisher-name"), "{err}");
    assert!(err.contains("publisher-name"), "{err}");
}

#[test]
fn a_field_query_without_a_term_is_rejected() {
    let err = works_route(WorksFlags {
        fields: vec!["author"],
        ..Default::default()
    })
    .unwrap_err();
    assert!(err.contains("`author` is not a `field=term` pair"), "{err}");

    let err = works_route(WorksFlags {
        fields: vec!["author="],
        ..Default::default()
    })
    .unwrap_err();
    assert!(err.contains("no term to match"), "{err}");
}

#[test]
fn one_field_asked_for_twice_is_rejected_rather_than_guessed_at() {
    let err = works_route(WorksFlags {
        author: Some("feynman"),
        fields: vec!["author=gell-mann"],
        ..Default::default()
    })
    .unwrap_err();

    assert!(err.contains("query.author"), "{err}");

    let err = works_route(WorksFlags {
        fields: vec!["editor=hey", "editor=walther"],
        ..Default::default()
    })
    .unwrap_err();

    assert!(err.contains("query.editor"), "{err}");
}

#[test]
fn filters_narrow_a_works_query_and_and_together() {
    let route = works_route(WorksFlags {
        query: vec!["salmon"],
        filters: vec![
            "from-pub-date:2020-01-01",
            "until-pub-date:2021-12-31",
            "has-abstract",
        ],
        ..Default::default()
    })
    .unwrap();

    assert!(route.contains("from-pub-date"), "{route}");
    assert!(route.contains("2020-01-01"), "{route}");
    assert!(route.contains("until-pub-date"), "{route}");
    assert!(route.contains("2021-12-31"), "{route}");
    assert!(route.contains("has-abstract"), "{route}");
    assert!(route.contains("true"), "{route}");
}

#[test]
fn a_filter_the_route_does_not_take_is_rejected_with_the_ones_it_does() {
    let err = works_route(WorksFlags {
        filters: vec!["has-astract"],
        ..Default::default()
    })
    .unwrap_err();

    assert!(err.contains("has-astract"), "{err}");
    assert!(err.contains("has-abstract"), "{err}");
}

#[test]
fn a_filter_value_crossref_could_not_read_is_rejected_before_it_is_sent() {
    let err = works_route(WorksFlags {
        filters: vec!["from-pub-date:2020"],
        ..Default::default()
    })
    .unwrap_err();
    assert!(err.contains("`2020` is not a value"), "{err}");

    let err = works_route(WorksFlags {
        filters: vec!["issn"],
        ..Default::default()
    })
    .unwrap_err();
    assert!(err.contains("needs a value"), "{err}");

    let err = works_route(WorksFlags {
        filters: vec!["has-abstract:false"],
        ..Default::default()
    })
    .unwrap_err();
    assert!(err.contains("takes no value"), "{err}");
}

#[test]
fn a_filter_value_that_cannot_be_sent_is_reported_by_the_query() {
    let filter = works_filter("container-title:a,b").expect("a filter with a comma parses");

    assert!(WorksQuery::empty().filter(filter).route().is_err());
}

#[test]
fn funders_and_members_narrow_by_their_own_filters() {
    let (name, value) = split_filter_arg("location:Norway");
    let funders = Funders::Query(
        FundersQuery::empty()
            .queries(&["research"])
            .filter(FundersFilter::from_name(&name, value.as_deref()).unwrap()),
    )
    .route()
    .unwrap();
    assert!(funders.contains("query=research"), "{funders}");
    assert!(funders.contains("location"), "{funders}");
    assert!(funders.contains("Norway"), "{funders}");

    let mut members = MembersQuery::empty();
    for arg in ["prefix:10.1016", "current-doi-count:1000"] {
        let (name, value) = split_filter_arg(arg);
        members = members.filter(MembersFilter::from_name(&name, value.as_deref()).unwrap());
    }
    let members = Members::Query(members).route().unwrap();
    assert!(members.contains("prefix"), "{members}");
    assert!(members.contains("10.1016"), "{members}");
    assert!(members.contains("current-doi-count"), "{members}");
}

#[test]
fn a_filter_belonging_to_another_route_is_refused_with_this_routes_own() {
    let err = FundersFilter::from_name("has-abstract", None).unwrap_err();
    let err = filter_complaint(&err, &FundersFilter::names());
    assert!(err.contains("has-abstract"), "{err}");
    assert!(err.contains("location"), "{err}");

    let err = works_route(WorksFlags {
        filters: vec!["location:Norway"],
        ..Default::default()
    })
    .unwrap_err();
    assert!(err.contains("not a filter this route takes"), "{err}");

    let err = MembersFilter::from_name("location", Some("Norway")).unwrap_err();
    let err = filter_complaint(&err, &MembersFilter::names());
    assert!(err.contains("backfile-doi-count"), "{err}");
}

#[test]
fn a_members_filter_counts_dois_and_will_not_take_a_word_for_it() {
    let err = MembersFilter::from_name("current-doi-count", Some("many")).unwrap_err();
    let err = filter_complaint(&err, &MembersFilter::names());

    assert!(err.contains("`many` is not a value"), "{err}");
}

fn cite_attempts(key: &str, year_window: u8, spellings: u16) -> Vec<String> {
    let key: CiteKey = key.parse().expect("a cite key");
    attempts(&key, 20, year_window, spellings)
        .into_iter()
        .map(|attempt| attempt.query.route().expect("a works query renders"))
        .collect()
}

#[test]
fn a_key_is_first_asked_for_as_authors_published_around_the_year() {
    let routes = cite_attempts("@LindforsJakobsen2022", 1, 12);

    assert!(
        routes[0].contains("query.author=Lindfors%20Jakobsen"),
        "{}",
        routes[0]
    );
    assert!(routes[0].contains("2021-01-01"), "{}", routes[0]);
    assert!(routes[0].contains("2023-12-31"), "{}", routes[0]);
    assert!(routes[0].contains("rows=20"), "{}", routes[0]);
}

#[test]
fn the_year_window_widens_both_ends_of_the_search() {
    let routes = cite_attempts("@Lindfors2022", 3, 12);

    assert!(routes[0].contains("2019-01-01"), "{}", routes[0]);
    assert!(routes[0].contains("2025-12-31"), "{}", routes[0]);
}

#[test]
fn the_key_is_then_asked_for_as_a_whole_citation() {
    let routes = cite_attempts("@LindforsJakobsen2022", 1, 12);

    assert!(
        routes[1].contains("query.bibliographic=Lindfors%20Jakobsen%202022"),
        "{}",
        routes[1]
    );
    assert!(!routes[1].contains("query.author"), "{}", routes[1]);
}

#[test]
fn the_accented_spellings_are_guessed_at_last_and_likeliest_first() {
    let routes = cite_attempts("@Floysand2021", 1, 12);

    assert_eq!(2 + 12, routes.len());
    assert!(
        routes[2].contains("query.author=Fl%C3%B8ysand"),
        "{}",
        routes[2]
    );
}

#[test]
fn the_guessing_can_be_turned_off() {
    let routes = cite_attempts("@Floysand2021", 1, 0);

    assert_eq!(2, routes.len());
}

#[test]
fn a_key_that_names_no_one_is_rejected_before_a_request_is_spent() {
    let err = "@2022".parse::<CiteKey>().unwrap_err();

    assert!(err.contains("names no author"), "{err}");
}

#[test]
fn every_field_is_reachable_through_query_field() {
    for field in SearchField::all() {
        let arg = format!("{}=term", field.as_str());
        let route = works_route(WorksFlags {
            fields: vec![&arg],
            ..Default::default()
        })
        .unwrap_or_else(|err| panic!("`--query-field {arg}` was rejected: {err}"));
        assert!(
            route.contains(&format!("query.{}=term", field.as_str())),
            "{route}"
        );
    }
}

#[test]
fn the_paging_flags_add_up_to_one_result_control() {
    assert_eq!(None, paging(None, None));
    assert_eq!(Some(ResultControl::Rows(5)), paging(Some(5), None));
    assert_eq!(Some(ResultControl::Offset(7)), paging(None, Some(7)));
    assert_eq!(
        Some(ResultControl::RowsOffset { rows: 5, offset: 7 }),
        paging(Some(5), Some(7))
    );
}

#[test]
fn one_work_vouched_for_is_a_match_and_two_are_ambiguous() {
    let pages = vec![
        vec![Mismatch::Undated],
        Vec::new(),
        vec![Mismatch::NoAuthors],
        Vec::new(),
    ];
    assert_eq!(vec![1, 3], vouched(&pages));
    assert_eq!(Some(Verdict::Ambiguous), verdict_for(2));
    assert_eq!(Some(Verdict::Matched), verdict_for(1));
    assert_eq!(None, verdict_for(0));
}

#[test]
fn a_work_turned_down_twice_is_reported_once() {
    let seen = vec!["10.1/a".to_string()];
    assert!(!first_time(&seen, "10.1/a"));
    assert!(first_time(&seen, "10.1/b"));
}

#[test]
fn an_unknown_filter_lists_the_ones_the_route_takes() {
    let err = FilterParseError::UnknownName {
        name: "x".to_string(),
    };
    assert_eq!(
        "`x` is not a filter this route takes. Try one of: location",
        filter_complaint(&err, &FundersFilter::names())
    );
}

#[test]
fn a_resolver_counts_requests_and_lists_each_near_miss_once() {
    let mut resolver = Resolver::new();
    assert_eq!(0, resolver.requests());
    assert_eq!(0, resolver.near_misses());

    let dois = vec!["10.1/a".to_string(), "10.1/b".to_string(), "10.1/a".to_string()];
    let weighed = vec![vec![Mismatch::Undated], vec![Mismatch::NoAuthors], vec![Mismatch::Undated]];
    let first = resolver.page(&dois, &weighed);
    assert_eq!(None, first.verdict);
    assert!(first.vouched.is_empty());
    assert_eq!(vec![0, 1], first.turned_down);
    assert_eq!(1, resolver.requests());

    let dois = vec!["10.1/b".to_string(), "10.1/c".to_string(), "10.1/d".to_string(), "10.1/e".to_string()];
    let weighed = vec![vec![Mismatch::Undated], vec![Mismatch::Undated], Vec::new(), vec![Mismatch::NoAuthors]];
    let second = resolver.page(&dois, &weighed);
    assert_eq!(Some(Verdict::Matched), second.verdict);
    assert_eq!(vec![2], second.vouched);
    assert_eq!(vec![1, 3], second.turned_down);
    assert_eq!(2, resolver.requests());
    assert_eq!(3, resolver.near_misses());
}

#[test]
fn two_works_the_key_vouches_for_on_one_page_are_ambiguous() {
    let mut resolver = Resolver::new();
    let dois = vec!["10.1/a".to_string(), "10.1/b".to_string()];
    let outcome = resolver.page(&dois, &[Vec::new(), Vec::new()]);
    assert_eq!(Some(Verdict::Ambiguous), outcome.verdict);
    assert_eq!(vec![0, 1], outcome.vouched);
    assert!(outcome.turned_down.is_empty());
    assert_eq!(0, resolver.near_misses());
}

#[test]
fn cite_succeeds_only_when_every_key_matched() {
    assert!(every_key_matched(&[]));
    assert!(every_key_matched(&[Verdict::Matched, Verdict::Matched]));
    assert!(!every_key_matched(&[Verdict::Matched, Verdict::Ambiguous]));
    assert!(!every_key_matched(&[Verdict::Unmatched]));
}
