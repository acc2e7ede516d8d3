use crossref_client::citekey::{families, fold, published_year, CiteKey, Contributor, Mismatch};

fn key(key: &str) -> CiteKey {
    key.parse().unwrap_or_else(|err| panic!("`{key}`: {err}"))
}

fn people(names: &[&str]) -> Vec<String> {
    names.iter().map(|name| name.to_string()).collect()
}

#[test]
fn a_key_is_read_as_surnames_and_a_year() {
    let parsed = key("@LindforsJakobsen2022");

    assert_eq!(["Lindfors", "Jakobsen"], parsed.surnames());
    assert_eq!(2022, parsed.year());
    assert!(!parsed.et_al());
    assert_eq!("LindforsJakobsen2022", parsed.key());
}

#[test]
fn the_leading_at_is_optional() {
    assert_eq!(key("@Lindfors2022"), key("Lindfors2022"));
}

#[test]
fn an_et_al_is_read_off_the_key_rather_than_taken_for_a_surname() {
    for written in [
        "@FloysandEtAl2021",
        "@Floysand_etal_2021",
        "@floysand:et:al:2021",
    ] {
        let parsed = key(written);
        assert_eq!(1, parsed.surnames().len(), "{written}");
        assert!(parsed.et_al(), "{written}");
        assert_eq!(2021, parsed.year(), "{written}");
    }
}

#[test]
fn the_letter_that_disambiguates_two_keys_is_not_a_name() {
    let parsed = key("@Lindfors2022a");

    assert_eq!(["Lindfors"], parsed.surnames());
    assert_eq!(2022, parsed.year());
}

#[test]
fn separators_split_a_key_the_way_camel_case_does() {
    assert_eq!(
        key("@lindfors_jakobsen_2022").surnames(),
        ["lindfors", "jakobsen"]
    );
    assert_eq!(key("@lindfors:2022:salmon").surnames(), ["lindfors"]);
}

#[test]
fn a_key_that_names_nobody_or_no_year_is_rejected() {
    assert!(
        "@2022"
            .parse::<CiteKey>()
            .unwrap_err()
            .contains("names no author")
    );
    assert!(
        "@Lindfors"
            .parse::<CiteKey>()
            .unwrap_err()
            .contains("four digit year")
    );
    assert!("@".parse::<CiteKey>().is_err());
    assert!("@Lindfors123".parse::<CiteKey>().is_err());
    assert!("@Lindfors12345".parse::<CiteKey>().is_err());
}

#[test]
fn folding_leaves_two_spellings_of_a_name_the_same_name() {
    assert_eq!("floysand", fold("Fløysand"));
    assert_eq!("floysand", fold("Floysand"));
    assert_eq!("floysand", fold("FLØYSAND"));
    assert_eq!("vandijk", fold("van Dijk"));
    assert_eq!("obrien", fold("O'Brien"));
    assert_eq!("gansser", fold("Gansser"));
    assert_eq!("grossmann", fold("Großmann"));
    assert_eq!("nino", fold("Niño"));
}

#[test]
fn the_likeliest_spelling_is_guessed_first() {
    let spellings = key("@Floysand2021").spellings();

    assert_eq!(vec!["Fløysand".to_string()], spellings[0]);
    assert!(spellings.contains(&vec!["Floysånd".to_string()]));
    assert!(spellings.iter().all(|spelling| spelling.len() == 1));
}

#[test]
fn a_guessed_spelling_keeps_the_case_it_replaced() {
    let spellings = key("@Overa2021").spellings();

    assert_eq!(vec!["Øvera".to_string()], spellings[0]);
    assert!(spellings.contains(&vec!["Overå".to_string()]));
}

#[test]
fn every_guess_changes_one_letter_of_one_surname() {
    let spellings = key("@LindforsJakobsen2022").spellings();

    for spelling in &spellings {
        assert_eq!(2, spelling.len());
        let changed = spelling
            .iter()
            .zip(["Lindfors", "Jakobsen"])
            .filter(|(guess, written)| guess.as_str() != *written)
            .count();
        assert_eq!(1, changed, "{spelling:?}");
    }
    assert!(spellings.contains(&vec!["Lindfors".to_string(), "Jakøbsen".to_string()]));
}

#[test]
fn a_surname_that_kept_its_diacritics_is_not_guessed_at() {
    assert!(key("@Fløysand2021").spellings().is_empty());
}

#[test]
fn a_key_vouches_for_the_work_it_names() {
    let mismatches =
        key("@LindforsJakobsen2022").mismatches(&people(&["Lindfors", "Jakobsen"]), Some(2022), 1);

    assert_eq!(Vec::<Mismatch>::new(), mismatches);
}

#[test]
fn a_key_written_without_diacritics_still_vouches_for_the_work() {
    let mismatches = key("@FloysandEtAl2021").mismatches(
        &people(&["Fløysand", "Hidle", "Overå"]),
        Some(2021),
        1,
    );

    assert_eq!(Vec::<Mismatch>::new(), mismatches);
}

#[test]
fn the_key_may_name_fewer_authors_than_the_work_credits() {
    let mismatches =
        key("@Lindfors2022").mismatches(&people(&["Lindfors", "Jakobsen"]), Some(2022), 1);

    assert_eq!(Vec::<Mismatch>::new(), mismatches);
}

#[test]
fn the_surnames_have_to_be_credited_in_the_order_the_key_gives_them() {
    let mismatches =
        key("@LindforsJakobsen2022").mismatches(&people(&["Jakobsen", "Lindfors"]), Some(2022), 1);

    assert_eq!(
        vec![Mismatch::NotFirstAuthor {
            expected: "Lindfors".to_string(),
            found: "Jakobsen".to_string(),
        }],
        mismatches
    );
}

#[test]
fn a_name_the_work_does_not_credit_is_reported_by_name() {
    let mismatches =
        key("@LindforsFeynman2022").mismatches(&people(&["Lindfors", "Jakobsen"]), Some(2022), 1);

    assert_eq!(
        vec![Mismatch::MissingAuthor {
            expected: "Feynman".to_string()
        }],
        mismatches
    );
}

#[test]
fn an_author_may_answer_for_a_surname_camel_case_could_not_keep_together() {
    let mismatches = key("@VanDijk2020").mismatches(&people(&["van Dijk"]), Some(2020), 1);
    assert_eq!(Vec::<Mismatch>::new(), mismatches);

    let mismatches = key("@McDonald2020").mismatches(&people(&["McDonald"]), Some(2020), 1);
    assert_eq!(Vec::<Mismatch>::new(), mismatches);

    let mismatches = key("@LeNguyen2020").mismatches(&people(&["Le", "Nguyen"]), Some(2020), 1);
    assert_eq!(Vec::<Mismatch>::new(), mismatches);
}

#[test]
fn an_et_al_wants_someone_left_over() {
    let mismatches = key("@FloysandEtAl2021").mismatches(&people(&["Fløysand"]), Some(2021), 1);

    assert_eq!(vec![Mismatch::TooFewAuthors { found: 1 }], mismatches);
}

#[test]
fn a_year_either_side_is_the_same_publication_and_two_is_not() {
    let key = key("@Lindfors2022");
    let lindfors = people(&["Lindfors"]);

    assert!(key.mismatches(&lindfors, Some(2021), 1).is_empty());
    assert!(key.mismatches(&lindfors, Some(2023), 1).is_empty());
    assert_eq!(
        vec![Mismatch::Year {
            found: 2024,
            cited: 2022
        }],
        key.mismatches(&lindfors, Some(2024), 1)
    );
    assert!(key.mismatches(&lindfors, Some(2024), 2).is_empty());
}

#[test]
fn every_reason_a_work_is_wrong_is_reported_at_once() {
    let mismatches = key("@LindforsFeynman2022").mismatches(&people(&["Lindfors"]), Some(2019), 1);

    assert_eq!(
        vec![
            Mismatch::Year {
                found: 2019,
                cited: 2022
            },
            Mismatch::MissingAuthor {
                expected: "Feynman".to_string()
            },
        ],
        mismatches
    );
}

#[test]
fn a_work_crossref_carries_no_names_or_dates_for_is_a_mismatch_not_a_match() {
    let mismatches = key("@Lindfors2022").mismatches(&[], None, 1);

    assert!(mismatches.contains(&Mismatch::Undated), "{mismatches:?}");
    assert!(mismatches.contains(&Mismatch::NoAuthors), "{mismatches:?}");
}

#[test]
fn an_edited_volume_is_checked_against_its_editors() {
    let editors = Some(vec![Contributor {
        family: Some("Fløysand".to_string()),
        name: None,
    }]);
    let credited = families(&None, &editors);

    assert!(key("@Floysand2021")
        .mismatches(&credited, Some(2021), 1)
        .is_empty());
}

#[test]
fn the_earliest_date_a_work_carries_is_the_one_it_is_cited_by() {
    let year = published_year(&[None, Some(2021), Some(2022), None]);

    assert_eq!(Some(2021), year);
    assert!(key("@Lindfors2021")
        .mismatches(&people(&["Lindfors"]), year, 0)
        .is_empty());
}

#[test]
fn an_organisation_is_taken_by_its_name() {
    let authors = Some(vec![
        Contributor {
            family: None,
            name: Some("CERN".to_string()),
        },
        Contributor {
            family: None,
            name: None,
        },
    ]);
    assert_eq!(vec!["CERN".to_string()], families(&authors, &None));
}

#[test]
fn a_mismatch_reads_as_what_went_wrong() {
    assert_eq!(
        "published 2019, cited as 2022",
        Mismatch::Year {
            found: 2019,
            cited: 2022
        }
        .message()
    );
    assert_eq!(
        "opens with Jakobsen, not Lindfors",
        Mismatch::NotFirstAuthor {
            expected: "Lindfors".to_string(),
            found: "Jakobsen".to_string()
        }
        .message()
    );
    assert_eq!(
        "credits 1, too few for an `et al`",
        Mismatch::TooFewAuthors { found: 1 }.message()
    );
}

#[test]
fn a_folded_name_is_lower_case_ascii_and_folds_to_itself() {
    for name in ["Fløysand", "FLØYSAND", "van Dijk", "O'Brien", "Großmann", "Niño", "Smith-2"] {
        let folded = fold(name);
        assert!(folded.chars().all(|c| c.is_ascii_lowercase() || c.is_ascii_digit()));
        assert_eq!(folded, fold(&folded));
    }
}

#[test]
fn one_or_more_leading_ats_read_as_the_same_key_or_the_same_error() {
    assert_eq!(
        "Lindfors2022".parse::<CiteKey>(),
        "@@Lindfors2022".parse::<CiteKey>().map(|k| k)
    );
    assert_eq!("2022".parse::<CiteKey>(), "@2022".parse::<CiteKey>());
}

#[test]
fn every_parsed_key_names_someone_in_a_plausible_year() {
    let k = key("  @LindforsJakobsen2022a ");
    assert_eq!("LindforsJakobsen2022a", k.key());
    assert!(!k.surnames().is_empty());
    assert!(k
        .surnames()
        .iter()
        .all(|n| n.chars().count() >= 2 && n.chars().all(char::is_alphanumeric)));
    assert!((1400..=2200).contains(&k.year()));
}
