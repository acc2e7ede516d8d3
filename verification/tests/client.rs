use crossref_client::builder::CrossrefBuilder;
use crossref_client::cn::{styles_url, transform_url, CnFormat};
use crossref_client::journal::{dois_by_issued_year, Breakdowns};
use crossref_client::limit::{after_rate_limited, backoff_times, Pacer};
use crossref_client::query::filters::FilterParseError;
use crossref_client::{
    DeepPager, Duration, Error, FundersFilter, MembersFilter, RateLimit, ResultControl,
    WorkListQuery, WorkResultControl, WorksFilter, WorksQuery,
};

fn one_of_each() -> Vec<CnFormat> {
    vec![
        CnFormat::RdfXml,
        CnFormat::Turtle,
        CnFormat::CiteProcJson,
        CnFormat::CiteProcJsonIsh,
        CnFormat::Ris,
        CnFormat::BibTex,
        CnFormat::CrossrefXml,
        CnFormat::CrossrefTdm,
        CnFormat::bibliography("apa"),
    ]
}

#[test]
fn no_two_formats_ask_for_the_same_thing() {
    let mut accepts: Vec<_> = one_of_each().iter().map(|f| f.accept()).collect();
    let total = accepts.len();
    accepts.sort();
    accepts.dedup();

    assert_eq!(
        total,
        accepts.len(),
        "duplicate `Accept` values: {accepts:?}"
    );
}

#[test]
fn a_style_and_locale_become_accept_parameters() {
    assert_eq!(
        "text/x-bibliography; style=apa",
        CnFormat::bibliography("apa").accept()
    );

    assert_eq!(
        "text/x-bibliography; style=apa; locale=de-DE",
        CnFormat::Bibliography {
            style: "apa".to_string(),
            locale: Some("de-DE".to_string()),
        }
        .accept()
    );
}

#[test]
fn the_builder_fills_in_its_defaults() {
    let settings = CrossrefBuilder::new().settings().unwrap();

    assert_eq!("https://api.crossref.org", settings.base_url);
    assert_eq!(None, settings.user_agent);
    assert_eq!(3, settings.max_retries);
    assert_eq!(RateLimit::conservative(), settings.rate_limit);
}

#[test]
fn a_polite_client_says_who_it_is() {
    let settings = CrossrefBuilder::new()
        .polite(Some("you@example.com"))
        .max_retries(Some(0))
        .base_url(Some("http://localhost:8080"))
        .settings()
        .unwrap();

    assert_eq!(
        Some("crossref-client/0.2.0 (https://github.com/EmilLindfors/crossref-client; mailto:you@example.com)".to_string()),
        settings.user_agent
    );
    assert_eq!(0, settings.max_retries);
    assert_eq!("http://localhost:8080", settings.base_url);
}

#[test]
fn a_user_agent_that_cannot_be_a_header_is_refused() {
    match CrossrefBuilder::new().user_agent(Some("bad\nagent")).settings() {
        Err(crossref_client::Error::Config { msg }) => {
            assert_eq!("failed to create User Agent header for `bad\nagent`", msg)
        }
        other => panic!("expected a config error, got {other:?}"),
    }
}

#[test]
fn a_journals_years_come_out_in_order() {
    let breakdowns = Some(Breakdowns {
        dois_by_issued_year: vec![(2021, 5), (2019, 3), (2020, 7), (2019, 1)],
    });

    assert_eq!(
        vec![(2019, 3), (2019, 1), (2020, 7), (2021, 5)],
        dois_by_issued_year(&breakdowns)
    );
    assert!(dois_by_issued_year(&None).is_empty());
}

#[test]
fn requests_are_spaced_across_the_interval() {
    let mut pacer = Pacer::new(RateLimit {
        limit: 4,
        interval: Duration::from_secs(1),
    });
    let mut last = 0;
    for _ in 0..4 {
        last = pacer.claim(0);
    }

    // the first request leaves immediately, the other three are spaced 250ms
    assert_eq!(750_000_000, last);
}

#[test]
fn a_backoff_holds_back_the_next_request() {
    let mut pacer = Pacer::new(RateLimit::conservative());
    pacer.claim(0);

    pacer.back_off(0, Duration::from_secs(5));

    assert_eq!(5_000_000_000, pacer.claim(0));
}

#[test]
fn observing_a_response_replaces_the_assumed_budget() {
    let mut pacer = Pacer::new(RateLimit::conservative());

    pacer.observe(
        RateLimit::from_header_values(Some("50"), Some("1s")),
        Some("polite".to_string()),
    );

    assert_eq!(50, pacer.rate().limit);
    assert_eq!(Some("polite".to_string()), pacer.pool());

    pacer.observe(None, None);

    assert_eq!(50, pacer.rate().limit);
    assert_eq!(Some("polite".to_string()), pacer.pool());
}

#[test]
fn a_rate_limited_request_backs_off_and_then_gives_up() {
    let rate = RateLimit {
        limit: 1,
        interval: Duration::from_secs(1),
    };
    let (delay, next) = after_rate_limited(0, 1, rate, None);
    assert_eq!(Duration::from_secs(1), delay);
    assert_eq!(1, next.unwrap());

    let (delay, next) = after_rate_limited(1, 1, rate, None);
    assert_eq!(Duration::from_secs(2), delay);
    match next {
        Err(crossref_client::Error::RateLimited { attempts, limit }) => {
            assert_eq!(2, attempts);
            assert_eq!(rate, limit);
        }
        other => panic!("expected to give up, got {other:?}"),
    }

    let (delay, _) = after_rate_limited(0, 3, rate, Some(Duration::from_secs(30)));
    assert_eq!(Duration::from_secs(30), delay);
    assert_eq!(32, backoff_times(9));
}

#[test]
fn deep_paging_threads_the_cursor_from_one_page_into_the_next() {
    // the empty second page ends the crawl, so there is no third request
    let mut pager = DeepPager::new(WorkListQuery::Works(WorksQuery::new("kelp")));
    let mut paths = Vec::new();
    let pages = [(2, Some("cursor-two")), (0, Some("cursor-three"))];
    let mut crawled = 0;

    for (items, cursor) in pages {
        if !pager.prepare() {
            break;
        }
        paths.push(crossref_client::CrossrefRoute::route(pager.query()).unwrap());
        if !pager.received(cursor.map(str::to_string), items == 0) {
            break;
        }
        crawled += items;
    }

    assert_eq!(2, crawled);
    assert_eq!(
        vec![
            "/works?query=kelp&cursor=*".to_string(),
            "/works?query=kelp&cursor=cursor-two".to_string(),
        ],
        paths
    );
}

#[test]
fn a_query_reaches_the_wire_percent_encoded() {
    let query: WorkListQuery = WorksQuery::new("R&D")
        .filter(WorksFilter::HasOrcid)
        .elements(vec![
            crossref_client::WorkElement::DOI,
            crossref_client::WorkElement::Title,
        ])
        .result_control(WorkResultControl::Standard(ResultControl::RowsOffset {
            rows: 10,
            offset: 20,
        }))
        .into();

    assert_eq!(
        "/works?query=R%26D&filter=has-orcid:true&select=DOI,title&rows=10&offset=20",
        crossref_client::CrossrefRoute::route(&query).unwrap()
    );
}

#[test]
fn a_combined_route_carries_the_component_id() {
    let query = crossref_client::Journals::Works(WorksQuery::new("kelp").into_ident("0013-0095"));

    assert_eq!(
        "/journals/0013-0095/works?query=kelp",
        crossref_client::CrossrefRoute::route(&query).unwrap()
    );
}

#[test]
fn the_budget_crossref_reports_replaces_the_assumed_one() {
    let mut pacer = Pacer::new(RateLimit::conservative());

    assert_eq!(5, pacer.rate().limit, "the assumed budget");
    assert_eq!(None, pacer.pool());

    pacer.observe(
        RateLimit::from_header_values(Some("50"), Some("1s")),
        Some("polite".to_string()),
    );

    assert_eq!(50, pacer.rate().limit);
    assert_eq!(Some("polite".to_string()), pacer.pool());
}

/// Sends a request crossref answers with `statuses`, one per send, and says
/// how many sends it took and how it ended.
fn send_through(statuses: &[u16], max_retries: u32) -> (usize, Result<u16, Error>) {
    let mut pacer = Pacer::new(RateLimit::conservative());
    let mut attempt = 0u32;
    let mut sends = 0;
    for status in statuses {
        pacer.claim(0);
        sends += 1;
        if *status != 429 {
            return (sends, Ok(*status));
        }
        let (delay, next) = after_rate_limited(
            attempt,
            max_retries,
            pacer.rate(),
            crossref_client::limit::retry_after(Some("1")),
        );
        pacer.back_off(0, delay);
        match next {
            Ok(next) => attempt = next,
            Err(err) => return (sends, Err(err)),
        }
    }
    panic!("crossref ran out of replies")
}

#[test]
fn a_rate_limited_request_is_retried() {
    let (sends, outcome) = send_through(&[429, 200], 3);

    assert_eq!(Ok(200), outcome.map_err(|_| ()));
    assert_eq!(2, sends);
}

#[test]
fn a_request_rate_limited_past_the_retry_budget_gives_up() {
    let (sends, outcome) = send_through(&[429, 429, 429], 2);

    let Err(crossref_client::Error::RateLimited { attempts, .. }) = outcome else {
        panic!("expected a rate limit error, got {outcome:?}");
    };
    assert_eq!(3, attempts, "the first try plus two retries");
    assert_eq!(3, sends);
}

#[test]
fn a_page_of_a_standard_query_is_the_only_page() {
    let query = WorksQuery::empty()
        .result_control(WorkResultControl::Standard(ResultControl::Rows(5)));
    let mut pager = DeepPager::new(query.into());

    assert!(pager.prepare());
    assert!(pager.received(Some("ignored".to_string()), false));
    assert!(!pager.prepare());
}

#[test]
fn a_failed_page_ends_paging() {
    let mut pager = DeepPager::new(WorksQuery::empty().into());
    assert!(pager.prepare());
    pager.failed();
    assert!(!pager.prepare());
}

#[test]
fn filters_are_read_from_their_names() {
    assert_eq!(
        Ok(WorksFilter::HasAbstract),
        WorksFilter::from_name("has-abstract", None)
    );
    assert_eq!(
        Ok(WorksFilter::Issn("1234-5678".to_string())),
        WorksFilter::from_name("issn", Some("1234-5678"))
    );
    assert_eq!(
        Ok(FundersFilter::Location("Norway".to_string())),
        FundersFilter::from_name("location", Some("Norway"))
    );
    assert_eq!(
        Ok(MembersFilter::CurrentDoiCount(1000)),
        MembersFilter::from_name("current-doi-count", Some("1000"))
    );
    let date = WorksFilter::from_name("from-pub-date", Some("2020-01-01")).unwrap();
    assert_eq!("2020-01-01", date.value_text());
}

#[test]
fn a_filter_that_cannot_be_read_says_why() {
    let err = WorksFilter::from_name("from-pub-date", Some("2020")).unwrap_err();
    assert!(err.message().contains("`2020` is not a value"), "{err:?}");

    let err = WorksFilter::from_name("issn", None).unwrap_err();
    assert!(err.message().contains("needs a value"));

    let err = WorksFilter::from_name("has-abstract", Some("false")).unwrap_err();
    assert!(err.message().contains("takes no value"));

    assert_eq!(
        Err(FilterParseError::UnknownName {
            name: "location".to_string()
        }),
        WorksFilter::from_name("location", Some("Norway"))
    );
    let err = MembersFilter::from_name("current-doi-count", Some("many")).unwrap_err();
    assert!(err.message().contains("`many` is not a value"));
    assert!(MembersFilter::names().contains(&"backfile-doi-count"));
}

#[test]
fn a_transform_goes_to_the_works_route_of_the_doi() {
    assert_eq!(
        "https://api.crossref.org/works/10.5555/12345678/transform",
        transform_url("https://api.crossref.org", "10.5555/12345678")
    );
    assert_eq!("https://api.crossref.org/styles", styles_url("https://api.crossref.org"));
}

#[test]
fn each_error_reads_as_what_went_wrong() {
    assert_eq!(
        "invalid type name: book-chapterx",
        crossref_client::Error::InvalidTypeName { name: "book-chapterx".to_string() }.message()
    );
    assert_eq!(
        "`A, B` cannot be sent as a `container-title` filter: crossref reads the `,` in it as the start of another filter",
        crossref_client::Error::UnsendableFilterValue {
            filter: "container-title".to_string(),
            value: "A, B".to_string(),
        }
        .message()
    );
    assert_eq!("no base url", crossref_client::Error::Config { msg: "no base url".to_string() }.message());
    assert_eq!(
        "crossref rate limited the request; gave up after 11 attempts",
        crossref_client::Error::RateLimited {
            attempts: 11,
            limit: RateLimit { limit: 50, interval: Duration::from_secs(1) },
        }
        .message()
    );
    assert_eq!(
        "Nothing was found for resource `/works/10.1/x`",
        crossref_client::Error::ResourceNotFound {
            resource: Box::new(crossref_client::ResourceComponent::Works(crossref_client::Works::doi("10.1/x"))),
        }
        .message()
    );
}
