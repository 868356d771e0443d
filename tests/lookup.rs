use touchdictionary::dictionary::{
    definitions_from_entries, dictionary_outcome, dictionary_url, DefinitionEntry,
    DictionaryEntry, MeaningEntry,
};
use touchdictionary::encyclopedia::{
    is_disambiguation, summary_section, summary_url, wikipedia_outcome, SummaryPage,
};
use touchdictionary::model::{ContentType, LookupError, LookupResult, Reply, SourceError};
use touchdictionary::query::{classify_content, clean_query, content_type_for};
use touchdictionary::session::{get_thesaurus_data, Action, LookupSession, Stage};
use touchdictionary::text::split_paragraphs;

fn hello_entries() -> Vec<DictionaryEntry> {
    vec![DictionaryEntry {
        word: "hello".to_string(),
        meanings: vec![MeaningEntry {
            part_of_speech: "noun".to_string(),
            definitions: vec![DefinitionEntry {
                definition: "A greeting.".to_string(),
                example: Some("Hello, everyone.".to_string()),
            }],
        }],
    }]
}

fn page(extract: &str) -> SummaryPage {
    SummaryPage {
        title: "Hello".to_string(),
        extract: extract.to_string(),
        thumbnail: Some("https://img.example/hello.png".to_string()),
        page_url: "https://en.wikipedia.org/wiki/Hello".to_string(),
    }
}

/// Runs a session to its end against stub sources, counting the fetches.
fn run(
    raw: &str,
    dictionary: Reply<Vec<DictionaryEntry>>,
    encyclopedia: Reply<SummaryPage>,
    counts: &mut (usize, usize),
) -> Result<LookupResult, LookupError> {
    let mut session = LookupSession::begin(raw)?;
    loop {
        match session.next_action() {
            Action::FetchDictionary(_) => {
                counts.0 += 1;
                session.on_dictionary(&dictionary);
            }
            Action::FetchEncyclopedia(_) => {
                counts.1 += 1;
                session.on_encyclopedia(&encyclopedia);
            }
            Action::Finish => return Ok(session.finish()),
        }
    }
}

#[test]
fn normalizes_spacing_and_case() {
    assert_eq!(clean_query("  Hello   World  "), "hello world");
    assert_eq!(clean_query("HELLO"), "hello");
    assert_eq!(clean_query("\ta\u{3000}b\n"), "a b");
}

#[test]
fn blank_query_is_refused() {
    assert_eq!(LookupSession::begin("").unwrap_err(), LookupError::EmptyQuery);
    assert_eq!(LookupSession::begin("   \t\n ").unwrap_err(), LookupError::EmptyQuery);
    let mut counts = (0, 0);
    let r = run("  ", Reply::Unreachable, Reply::Unreachable, &mut counts);
    assert_eq!(r.unwrap_err(), LookupError::EmptyQuery);
    assert_eq!(counts, (0, 0));
}

#[test]
fn classifies_queries() {
    assert_eq!(classify_content("Paris"), ContentType::Entity);
    assert_eq!(classify_content("the quick brown"), ContentType::Entity);
    assert_eq!(classify_content("hello"), ContentType::Word);
    assert_eq!(classify_content("ice cream"), ContentType::Word);
    assert_eq!(classify_content("  Paris"), ContentType::Entity);
    assert_eq!(content_type_for(false, 3), ContentType::Entity);
    assert_eq!(content_type_for(false, 2), ContentType::Word);
    assert_eq!(content_type_for(true, 1), ContentType::Entity);
}

#[test]
fn entity_never_asks_dictionary() {
    let mut counts = (0, 0);
    let r = run(
        "Paris",
        Reply::Answered { status: 200, body: Some(hello_entries()) },
        Reply::Answered { status: 200, body: Some(page("Paris is a city.")) },
        &mut counts,
    )
    .unwrap();
    assert_eq!(counts, (0, 1));
    assert_eq!(r.content_type, ContentType::Entity);
    assert!(r.sections.definitions.is_none());
    assert!(r.sections.wikipedia.is_some());
    let s = LookupSession::begin("the quick brown fox").unwrap();
    assert_eq!(s.stage(), Stage::AwaitEncyclopedia);
}

#[test]
fn dictionary_not_found_keeps_summary() {
    let mut counts = (0, 0);
    let r = run(
        "hello",
        Reply::Answered { status: 404, body: None },
        Reply::Answered { status: 200, body: Some(page("Hello is a greeting.")) },
        &mut counts,
    )
    .unwrap();
    assert_eq!(counts, (1, 1));
    assert!(r.sections.definitions.is_none());
    let w = r.sections.wikipedia.unwrap();
    assert_eq!(w.paragraphs, vec!["Hello is a greeting.".to_string()]);
}

#[test]
fn disambiguation_page_is_dropped() {
    let mut counts = (0, 0);
    let r = run(
        "mercury",
        Reply::Answered { status: 404, body: None },
        Reply::Answered { status: 200, body: Some(page("Mercury MAY Refer To:\nA planet")) },
        &mut counts,
    )
    .unwrap();
    assert!(r.sections.wikipedia.is_none());
    assert!(is_disambiguation("x may refer to y", "x may refer to y"));
    assert!(is_disambiguation("", ""));
    assert!(!is_disambiguation("A planet.", "a planet."));
    assert_eq!(
        summary_section(&page("Mercury may refer to"), "mercury may refer to"),
        Err(SourceError::Disambiguation)
    );
}

#[test]
fn spacing_and_case_give_same_query() {
    let a = LookupSession::begin("Hello").unwrap();
    let b = LookupSession::begin("  hello  ").unwrap();
    assert_eq!(a.query, b.query);
    assert_eq!(a.query, "hello");
    // The kind is read from the raw casing: a capital makes an entity.
    assert_eq!(a.content_type, ContentType::Entity);
    assert_eq!(b.content_type, ContentType::Word);
    let c = LookupSession::begin("hello").unwrap();
    assert_eq!(b.content_type, c.content_type);
    assert_eq!(b.query, c.query);
}

#[test]
fn end_to_end_word_lookup() {
    let mut counts = (0, 0);
    let r = run(
        "hello",
        Reply::Answered { status: 200, body: Some(hello_entries()) },
        Reply::Answered { status: 200, body: Some(page("Hello is a greeting.\n\n  Used since 1826. \n")) },
        &mut counts,
    )
    .unwrap();
    assert_eq!(r.query, "hello");
    assert_eq!(r.content_type, ContentType::Word);
    let defs = r.sections.definitions.unwrap();
    assert_eq!(defs.len(), 1);
    assert_eq!(defs[0].source, "Free Dictionary API");
    assert_eq!(defs[0].definitions.len(), 1);
    let d = &defs[0].definitions[0];
    assert_eq!(d.word, "hello");
    assert_eq!(d.part_of_speech, Some("noun".to_string()));
    assert_eq!(d.definition, "A greeting.");
    assert_eq!(d.example, Some("Hello, everyone.".to_string()));
    let w = r.sections.wikipedia.unwrap();
    assert_eq!(w.title, "Hello");
    assert_eq!(w.paragraphs, vec!["Hello is a greeting.".to_string(), "Used since 1826.".to_string()]);
    assert_eq!(w.image_url, Some("https://img.example/hello.png".to_string()));
    assert_eq!(w.url, "https://en.wikipedia.org/wiki/Hello");
    assert!(r.sections.thesaurus.is_none());
}

#[test]
fn flattens_entries_and_meanings() {
    let entries = vec![
        DictionaryEntry {
            word: "set".to_string(),
            meanings: vec![
                MeaningEntry {
                    part_of_speech: "verb".to_string(),
                    definitions: vec![
                        DefinitionEntry { definition: "To put.".to_string(), example: None },
                        DefinitionEntry { definition: "To fix.".to_string(), example: None },
                    ],
                },
                MeaningEntry {
                    part_of_speech: String::new(),
                    definitions: vec![DefinitionEntry { definition: "A group.".to_string(), example: None }],
                },
            ],
        },
        DictionaryEntry { word: "set".to_string(), meanings: vec![] },
    ];
    let s = definitions_from_entries(&entries);
    assert_eq!(s.len(), 2);
    assert_eq!(s[0].definitions.len(), 3);
    assert_eq!(s[0].definitions[1].definition, "To fix.");
    assert_eq!(s[0].definitions[1].part_of_speech, Some("verb".to_string()));
    assert_eq!(s[0].definitions[2].part_of_speech, Some(String::new()));
    assert!(s[1].definitions.is_empty());
}

#[test]
fn dictionary_reply_errors() {
    assert_eq!(dictionary_outcome(&Reply::Unreachable), Err(SourceError::SourceUnavailable));
    assert_eq!(
        dictionary_outcome(&Reply::Answered { status: 500, body: None }),
        Err(SourceError::UnexpectedStatus(500))
    );
    assert_eq!(
        dictionary_outcome(&Reply::Answered { status: 200, body: None }),
        Err(SourceError::SourceParseError)
    );
    assert_eq!(dictionary_outcome(&Reply::Answered { status: 404, body: None }), Ok(vec![]));
    let mut counts = (0, 0);
    let r = run("hello", Reply::Answered { status: 200, body: Some(vec![]) }, Reply::Unreachable, &mut counts)
        .unwrap();
    assert!(r.sections.definitions.is_none());
    assert!(r.sections.wikipedia.is_none());
}

#[test]
fn encyclopedia_reply_errors() {
    assert_eq!(wikipedia_outcome(&Reply::Unreachable), Err(SourceError::SourceUnavailable));
    assert_eq!(
        wikipedia_outcome(&Reply::Answered { status: 404, body: None }),
        Err(SourceError::NotFound)
    );
    assert_eq!(
        wikipedia_outcome(&Reply::Answered { status: 503, body: None }),
        Err(SourceError::UnexpectedStatus(503))
    );
    assert_eq!(
        wikipedia_outcome(&Reply::Answered { status: 200, body: None }),
        Err(SourceError::SourceParseError)
    );
    assert_eq!(
        wikipedia_outcome(&Reply::Answered { status: 200, body: Some(page("")) }),
        Err(SourceError::Disambiguation)
    );
}

#[test]
fn fetch_addresses() {
    assert_eq!(dictionary_url("hello"), "https://api.dictionaryapi.dev/api/v2/entries/en/hello");
    assert_eq!(
        summary_url("new york city"),
        "https://en.wikipedia.org/api/rest_v1/page/summary/new_york_city"
    );
    let s = LookupSession::begin("New  York").unwrap();
    assert_eq!(
        s.next_action(),
        Action::FetchEncyclopedia("https://en.wikipedia.org/api/rest_v1/page/summary/new_york".to_string())
    );
}

#[test]
fn mixed_asks_both_sources() {
    let mut s = LookupSession::start("hello".to_string(), ContentType::Mixed);
    assert!(matches!(s.next_action(), Action::FetchDictionary(_)));
    s.on_dictionary(&Reply::Answered { status: 200, body: Some(hello_entries()) });
    assert!(matches!(s.next_action(), Action::FetchEncyclopedia(_)));
    s.on_encyclopedia(&Reply::Answered { status: 200, body: Some(page("Hi.")) });
    assert_eq!(s.next_action(), Action::Finish);
    let r = s.finish();
    assert!(r.sections.definitions.is_some());
    assert!(r.sections.wikipedia.is_some());
}

#[test]
fn replies_out_of_turn_are_ignored() {
    let mut s = LookupSession::begin("Paris").unwrap();
    let before = s.clone();
    s.on_dictionary(&Reply::Answered { status: 200, body: Some(hello_entries()) });
    assert_eq!(s, before);
}

#[test]
fn paragraphs_are_trimmed_lines() {
    let text: Vec<char> = "  first line \n\n \t\nsecond\n".chars().collect();
    assert_eq!(split_paragraphs(&text), vec!["first line".to_string(), "second".to_string()]);
    let none: Vec<char> = "\n \n".chars().collect();
    assert!(split_paragraphs(&none).is_empty());
}

#[test]
fn thesaurus_is_empty() {
    let t = get_thesaurus_data("hello").unwrap();
    assert!(t.synonyms.is_empty() && t.antonyms.is_empty() && t.related_terms.is_empty());
}
