use playlist_audio::collector::{
    replay, Collected, Collector, FetchRequest, Fetched, Step, UpstreamError, PAGE_SIZE,
};
use playlist_audio::playlist::{extract_songs, Page, PlaylistItem};

fn item(title: &str, channel: Option<&str>) -> PlaylistItem {
    PlaylistItem { title: title.to_string(), channel: channel.map(|c| c.to_string()) }
}

fn page(items: Vec<PlaylistItem>, cursor: Option<&str>) -> Page {
    Page { items, next_cursor: cursor.map(|c| c.to_string()) }
}

fn failure(message: &str) -> Fetched {
    Fetched::Failure(UpstreamError { message: message.to_string() })
}

fn done(step: Step) -> Collected {
    match step {
        Step::Done(collected) => collected,
        other => panic!("not done: {:?}", other),
    }
}

#[test]
fn extract_songs_appends_eligible_titles() {
    let items = vec![
        item("A", Some("X - Topic")),
        item("B", None),
        item("C", Some("Y")),
    ];
    let mut songs = vec!["first".to_string()];
    extract_songs(&items, &mut songs);
    assert_eq!(songs, vec!["first", "X - A", "C"]);
}

#[test]
fn extract_songs_of_nothing() {
    let mut songs = vec!["first".to_string()];
    extract_songs(&Vec::new(), &mut songs);
    assert_eq!(songs, vec!["first"]);
    extract_songs(&vec![item("gone", None)], &mut songs);
    assert_eq!(songs, vec!["first"]);
}

#[test]
fn first_request_has_no_cursor() {
    let collector = Collector::start("PL123".to_string());
    assert_eq!(
        collector.request(),
        FetchRequest { playlist_id: "PL123".to_string(), cursor: None, max_results: 50 }
    );
    assert_eq!(PAGE_SIZE, 50);
    assert_eq!(collector.pages(), 0);
}

#[test]
fn page_without_cursor_ends_the_collection() {
    let collector = Collector::start("PL".to_string());
    let step = collector.step(Fetched::Page(page(vec![item("C", Some("Y"))], None)));
    assert_eq!(done(step), Collected { songs: vec!["C".to_string()], pages: 1 });
}

#[test]
fn empty_last_page_ends_the_collection() {
    let collector = Collector::start("PL".to_string());
    let step = collector.step(Fetched::Page(page(Vec::new(), None)));
    assert_eq!(done(step), Collected { songs: Vec::new(), pages: 1 });
}

#[test]
fn page_with_cursor_asks_for_the_next() {
    let collector = Collector::start("PL".to_string());
    let step = collector.step(Fetched::Page(page(vec![item("A", Some("X - Topic"))], Some("tok2"))));
    match step {
        Step::Fetch(next) => {
            assert_eq!(
                next.request(),
                FetchRequest {
                    playlist_id: "PL".to_string(),
                    cursor: Some("tok2".to_string()),
                    max_results: 50,
                }
            );
            assert_eq!(next.pages(), 1);
        }
        other => panic!("unexpected: {:?}", other),
    }
}

#[test]
fn two_pages_end_to_end() {
    let answers = vec![
        Fetched::Page(page(vec![item("A", Some("X - Topic")), item("B", None)], Some("tok2"))),
        Fetched::Page(page(vec![item("C", Some("Y"))], None)),
    ];
    let collected = done(replay("PL".to_string(), answers));
    assert_eq!(collected.songs, vec!["X - A", "C"]);
    assert_eq!(collected.pages, 2);
}

#[test]
fn each_cursor_is_used_once_and_in_turn() {
    let pages = vec![
        page(vec![item("1", Some("a"))], Some("t1")),
        page(vec![item("2", None), item("3", Some("b"))], Some("t2")),
        page(Vec::new(), Some("t3")),
        page(vec![item("4", Some("Z - Topic"))], None),
    ];
    let mut cursors: Vec<Option<String>> = Vec::new();
    let mut collector = Collector::start("PL".to_string());
    let mut fetches = 0;
    let mut remaining = pages.into_iter();
    let collected = loop {
        let request = collector.request();
        assert_eq!(request.playlist_id, "PL");
        assert_eq!(request.max_results, 50);
        cursors.push(request.cursor);
        fetches += 1;
        match collector.step(Fetched::Page(remaining.next().unwrap())) {
            Step::Fetch(next) => collector = next,
            Step::Done(collected) => break collected,
            Step::Failed(error) => panic!("failed: {:?}", error),
        }
    };
    assert_eq!(fetches, 4);
    assert_eq!(collected.pages, 4);
    assert_eq!(collected.songs, vec!["1", "3", "Z - 4"]);
    assert_eq!(
        cursors,
        vec![None, Some("t1".to_string()), Some("t2".to_string()), Some("t3".to_string())]
    );
    assert!(remaining.next().is_none());
}

#[test]
fn song_count_is_the_sum_of_eligible_items() {
    let mut answers = Vec::new();
    let mut eligible = 0;
    for p in 0..7 {
        let mut items = Vec::new();
        for i in 0..p {
            if (p + i) % 3 == 0 {
                items.push(item(&format!("{}-{}", p, i), None));
            } else {
                items.push(item(&format!("{}-{}", p, i), Some("ch")));
                eligible += 1;
            }
        }
        let cursor = if p < 6 { Some(format!("tok{}", p + 1)) } else { None };
        answers.push(Fetched::Page(Page { items, next_cursor: cursor }));
    }
    let collected = done(replay("PL".to_string(), answers));
    assert_eq!(collected.pages, 7);
    assert_eq!(collected.songs.len(), eligible);
    assert_eq!(collected.songs[0], "1-0");
    assert_eq!(collected.songs[eligible - 1], "6-5");
}

#[test]
fn answers_behind_the_last_page_are_not_taken_in() {
    let answers = vec![
        Fetched::Page(page(vec![item("A", Some("x"))], None)),
        Fetched::Page(page(vec![item("B", Some("x"))], None)),
        failure("late"),
    ];
    let collected = done(replay("PL".to_string(), answers));
    assert_eq!(collected, Collected { songs: vec!["A".to_string()], pages: 1 });
}

#[test]
fn failure_discards_what_was_collected() {
    let answers = vec![
        Fetched::Page(page(vec![item("A", Some("x"))], Some("t1"))),
        failure("quota exceeded"),
        Fetched::Page(page(vec![item("B", Some("x"))], None)),
    ];
    match replay("PL".to_string(), answers) {
        Step::Failed(error) => assert_eq!(error.message, "quota exceeded"),
        other => panic!("unexpected: {:?}", other),
    }
}

#[test]
fn failure_of_the_first_fetch() {
    let collector = Collector::start("PL".to_string());
    match collector.step(failure("no token")) {
        Step::Failed(error) => assert_eq!(error, UpstreamError { message: "no token".to_string() }),
        other => panic!("unexpected: {:?}", other),
    }
}

#[test]
fn replay_of_too_few_answers_waits_for_more() {
    match replay("PL".to_string(), Vec::new()) {
        Step::Fetch(collector) => {
            assert_eq!(collector.pages(), 0);
            assert_eq!(collector.request().cursor, None);
        }
        other => panic!("unexpected: {:?}", other),
    }
    let answers = vec![Fetched::Page(page(vec![item("A", Some("x"))], Some("t1")))];
    match replay("PL".to_string(), answers) {
        Step::Fetch(collector) => {
            assert_eq!(collector.pages(), 1);
            assert_eq!(collector.request().cursor, Some("t1".to_string()));
        }
        other => panic!("unexpected: {:?}", other),
    }
}

fn raw(title: Option<&str>, channel: Option<&str>) -> playlist_audio::playlist::RawItem {
    playlist_audio::playlist::RawItem {
        title: title.map(|t| t.to_string()),
        channel: channel.map(|c| c.to_string()),
    }
}

#[test]
fn well_formed_raw_page_becomes_a_page() {
    let raw_page = playlist_audio::playlist::RawPage {
        items: Some(vec![raw(Some("A"), Some("X - Topic")), raw(Some("B"), None)]),
        next_cursor: Some("tok2".to_string()),
    };
    let expected = page(vec![item("A", Some("X - Topic")), item("B", None)], Some("tok2"));
    assert_eq!(playlist_audio::playlist::checked_page(raw_page.clone()), Some(expected.clone()));
    assert_eq!(Fetched::from_raw(raw_page), Fetched::Page(expected));
}

#[test]
fn raw_page_without_entries_becomes_an_empty_page() {
    let raw_page = playlist_audio::playlist::RawPage { items: Some(Vec::new()), next_cursor: None };
    assert_eq!(Fetched::from_raw(raw_page), Fetched::Page(page(Vec::new(), None)));
}

#[test]
fn raw_page_without_a_list_is_malformed() {
    let raw_page = playlist_audio::playlist::RawPage { items: None, next_cursor: None };
    assert_eq!(playlist_audio::playlist::checked_page(raw_page.clone()), None);
    assert_eq!(Fetched::from_raw(raw_page), failure("malformed response"));
}

#[test]
fn raw_entry_without_a_title_is_malformed() {
    let raw_page = playlist_audio::playlist::RawPage {
        items: Some(vec![raw(Some("A"), Some("x")), raw(None, Some("y")), raw(Some("C"), None)]),
        next_cursor: Some("t".to_string()),
    };
    assert_eq!(playlist_audio::playlist::checked_page(raw_page.clone()), None);
    assert_eq!(Fetched::from_raw(raw_page), failure("malformed response"));
}

#[test]
fn malformed_page_fails_the_collection() {
    let answers = vec![
        Fetched::Page(page(vec![item("A", Some("x"))], Some("t1"))),
        Fetched::from_raw(playlist_audio::playlist::RawPage { items: None, next_cursor: None }),
    ];
    match replay("PL".to_string(), answers) {
        Step::Failed(error) => assert_eq!(error.message, "malformed response"),
        other => panic!("unexpected: {:?}", other),
    }
}
