use airings::aggregate::AiringError;
use airings::aggregate::SeriesFetch;
use airings::aggregate::airing_line;
use airings::aggregate::get_airings;
use airings::episode::DataNotFoundError;
use airings::episode::Episode;
use airings::episode::Field;
use airings::extract::extract_episode;
use airings::extract::find_episode;
use airings::query::page_within_limit;
use airings::text::trim_str;

fn page(items: &str) -> String {
    format!(
        "<html><body><ul id=\"episode-list\">{}</ul></body></html>",
        items
    )
}

fn item(series: &str, number: &str, title: &str, countdown: &str) -> String {
    format!(
        "<li><span>{}</span> <span>{}</span>\n<span>{}</span> <span>{}</span></li>",
        series, number, title, countdown
    )
}

#[test]
fn empty_run_succeeds() {
    let batch: Vec<SeriesFetch> = Vec::new();
    assert_eq!(get_airings(&batch), Ok(Vec::new()));
}

#[test]
fn no_match_gives_no_episode_line() {
    let html = "<html><body><p>nothing scheduled</p></body></html>";
    assert_eq!(
        airing_line("buffy", html),
        Ok("buffy: no episode scheduled to air".to_string())
    );
}

#[test]
fn no_match_when_only_old_items() {
    let html = page("<li class=\"old\"><span>Z</span><span>Z</span><span>Z</span><span>Z</span></li>");
    assert_eq!(
        airing_line("buffy", &html),
        Ok("buffy: no episode scheduled to air".to_string())
    );
}

#[test]
fn episode_line_trims_ends_only() {
    let html = page(&item("  My  Show ", " S01E02\t", " The  Title ", " 3  days "));
    assert_eq!(
        airing_line("myshow", &html),
        Ok("My  Show S01E02: \"The  Title\" (3  days)".to_string())
    );
}

#[test]
fn field_text_is_recursive_contents() {
    let html = page("<li><span>The <b>Big</b> Show</span><span>7</span><span>A <i>new</i> one</span><span>soon</span></li>");
    assert_eq!(
        airing_line("big", &html),
        Ok("The Big Show 7: \"A new one\" (soon)".to_string())
    );
}

#[test]
fn fields_stored_verbatim() {
    let html = page(&item("  My  Show ", " S01E02\t", " The  Title ", " 3  days "));
    let episode = find_episode(&html).unwrap().unwrap();
    assert_eq!(episode.series, "  My  Show ");
    assert_eq!(episode.number, " S01E02\t");
    assert_eq!(episode.title, " The  Title ");
    assert_eq!(episode.countdown, " 3  days ");
}

#[test]
fn missing_series_named() {
    let html = page("<li></li>");
    assert_eq!(
        find_episode(&html),
        Err(DataNotFoundError {
            field: Field::Series
        })
    );
}

#[test]
fn missing_number_named() {
    let html = page("<li><span>Show</span></li>");
    assert_eq!(
        find_episode(&html),
        Err(DataNotFoundError {
            field: Field::Number
        })
    );
}

#[test]
fn missing_title_named() {
    let html = page("<li><span>Show</span><span>2</span></li>");
    let error = find_episode(&html).unwrap_err();
    assert_eq!(error.field, Field::Title);
    assert_eq!(error.message(), "Missing data: title");
}

#[test]
fn missing_countdown_named() {
    let html = page("<li><span>Show</span><span>2</span><span>Title</span></li>");
    assert_eq!(
        find_episode(&html),
        Err(DataNotFoundError {
            field: Field::Countdown
        })
    );
}

#[test]
fn last_match_wins() {
    let html = page(&format!(
        "{}{}",
        item("First", "1", "Old news", "aired"),
        item("Second", "2", "Next up", "2 days")
    ));
    assert_eq!(
        airing_line("s", &html),
        Ok("Second 2: \"Next up\" (2 days)".to_string())
    );
}

#[test]
fn old_marker_excluded_even_when_last() {
    let html = page(&format!(
        "{}<li class=\"old\"><span>Stale</span><span>9</span><span>Gone</span><span>aired</span></li>",
        item("Fresh", "3", "Soon", "1 day")
    ));
    assert_eq!(
        airing_line("s", &html),
        Ok("Fresh 3: \"Soon\" (1 day)".to_string())
    );
}

#[test]
fn run_emits_one_line_per_identifier_in_order() {
    let batch = vec![
        SeriesFetch {
            series: "alpha".to_string(),
            page: Ok(page(&item("Alpha", "1", "One", "tonight"))),
        },
        SeriesFetch {
            series: "beta".to_string(),
            page: Ok("<html><body></body></html>".to_string()),
        },
    ];
    assert_eq!(
        get_airings(&batch),
        Ok(vec![
            "Alpha 1: \"One\" (tonight)".to_string(),
            "beta: no episode scheduled to air".to_string(),
        ])
    );
}

#[test]
fn fetch_failure_aborts_batch() {
    let batch = vec![
        SeriesFetch {
            series: "A".to_string(),
            page: Ok(page(&item("A", "1", "a", "now"))),
        },
        SeriesFetch {
            series: "B".to_string(),
            page: Err("connection refused".to_string()),
        },
        SeriesFetch {
            series: "C".to_string(),
            page: Ok(page(&item("C", "3", "c", "later"))),
        },
    ];
    let result = get_airings(&batch);
    assert_eq!(
        result,
        Err(AiringError::Fetch {
            series: "B".to_string(),
            cause: "connection refused".to_string(),
        })
    );
    assert_eq!(
        result.unwrap_err().message(),
        "fetch failed for B: connection refused"
    );
}

#[test]
fn extraction_failure_aborts_batch() {
    let batch = vec![
        SeriesFetch {
            series: "A".to_string(),
            page: Ok(page(&item("A", "1", "a", "now"))),
        },
        SeriesFetch {
            series: "B".to_string(),
            page: Ok(page("<li><span>B</span></li>")),
        },
        SeriesFetch {
            series: "C".to_string(),
            page: Ok(page(&item("C", "3", "c", "later"))),
        },
    ];
    let result = get_airings(&batch);
    assert_eq!(
        result,
        Err(AiringError::DataNotFound {
            series: "B".to_string(),
            error: DataNotFoundError {
                field: Field::Number
            },
        })
    );
    assert_eq!(
        result.unwrap_err().message(),
        "extraction failed for B: Missing data: number"
    );
}

#[test]
fn repeat_run_is_identical() {
    let make_batch = || {
        vec![
            SeriesFetch {
                series: "alpha".to_string(),
                page: Ok(page(&item(" Alpha ", "1", "One", "tonight"))),
            },
            SeriesFetch {
                series: "beta".to_string(),
                page: Ok("<html><body></body></html>".to_string()),
            },
        ]
    };
    let first = get_airings(&make_batch());
    let second = get_airings(&make_batch());
    assert_eq!(first, second);
}

#[test]
fn extract_episode_takes_last_node() {
    let nodes = vec![
        vec!["X".to_string(), "Y".to_string()],
        vec![
            "S".to_string(),
            "2".to_string(),
            "T".to_string(),
            "C".to_string(),
        ],
    ];
    let episode = extract_episode(&nodes).unwrap().unwrap();
    assert_eq!(
        episode,
        Episode {
            series: "S".to_string(),
            number: "2".to_string(),
            title: "T".to_string(),
            countdown: "C".to_string(),
        }
    );
}

#[test]
fn extract_episode_empty_is_no_episode() {
    let nodes: Vec<Vec<String>> = Vec::new();
    assert_eq!(extract_episode(&nodes), Ok(None));
}

#[test]
fn display_line_formats_fields() {
    let episode = Episode {
        series: " A ".to_string(),
        number: "2".to_string(),
        title: " t t ".to_string(),
        countdown: "3 h".to_string(),
    };
    assert_eq!(episode.display_line(), "A 2: \"t t\" (3 h)");
}

#[test]
fn ordinary_pages_are_within_the_parser_limit() {
    assert!(page_within_limit(""));
    assert!(page_within_limit(&page(&item("A", "1", "a", "now"))));
}

#[test]
fn trim_removes_unicode_whitespace_at_ends_only() {
    assert_eq!(trim_str("  a  b  "), "a  b");
    assert_eq!(trim_str("\u{3000}x\u{2009}y\u{00A0}"), "x\u{2009}y");
    assert_eq!(trim_str("\t\n  \r"), "");
    assert_eq!(trim_str(""), "");
    assert_eq!(trim_str("plain"), "plain");
}
