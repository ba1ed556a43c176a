use playlist_audio::text::{from_chars, to_chars};
use playlist_audio::title::{
    clean_title, clean_titles, denylist_fragments, normalize_title, remove_fragment,
    trailing_separator,
};

fn chars(s: &str) -> Vec<char> {
    s.chars().collect()
}

fn removed(s: &str, pat: &str) -> String {
    remove_fragment(&chars(s), &chars(pat)).into_iter().collect()
}

#[test]
fn topic_channel_gives_artist_and_title() {
    assert_eq!(normalize_title("A", Some("X - Topic")), Some("X - A".to_string()));
    assert_eq!(
        normalize_title("Blue in Green", Some("Miles Davis - Topic")),
        Some("Miles Davis - Blue in Green".to_string())
    );
}

#[test]
fn other_channel_gives_raw_title() {
    assert_eq!(normalize_title("C", Some("Y")), Some("C".to_string()));
    assert_eq!(
        normalize_title("Song (Official Video)", Some("SomeVEVO")),
        Some("Song (Official Video)".to_string())
    );
}

#[test]
fn absent_channel_gives_nothing() {
    assert_eq!(normalize_title("B", None), None);
    assert_eq!(normalize_title("", None), None);
}

#[test]
fn title_is_not_quoted() {
    let title = normalize_title("Say \"Hi\"", Some("Band - Topic")).unwrap();
    assert_eq!(title, "Band - Say \"Hi\"");
    let plain = normalize_title("Plain", Some("Band - Topic")).unwrap();
    assert!(!plain.contains('"'));
}

#[test]
fn suffix_must_stand_at_the_end() {
    assert_eq!(normalize_title("T", Some("X - Topic Y")), Some("T".to_string()));
    assert_eq!(normalize_title("T", Some("X - topic")), Some("T".to_string()));
    assert_eq!(normalize_title("T", Some("Topic")), Some("T".to_string()));
    assert_eq!(normalize_title("T", Some("")), Some("T".to_string()));
}

#[test]
fn suffix_alone_leaves_an_empty_artist() {
    assert_eq!(normalize_title("T", Some("- Topic")), Some(" - T".to_string()));
}

#[test]
fn only_the_last_suffix_is_cut() {
    assert_eq!(
        normalize_title("T", Some("X - Topic - Topic")),
        Some("X - Topic - T".to_string())
    );
}

#[test]
fn artist_loses_trailing_separators() {
    assert_eq!(normalize_title("T", Some("X  \t- Topic")), Some("X - T".to_string()));
    assert_eq!(normalize_title("T", Some("X - - Topic")), Some("X - T".to_string()));
    assert_eq!(normalize_title("T", Some("X\u{00A0}- Topic")), Some("X - T".to_string()));
    assert_eq!(normalize_title("T", Some("Jay-Z - Topic")), Some("Jay-Z - T".to_string()));
    assert_eq!(normalize_title("T", Some(" X - Topic")), Some(" X - T".to_string()));
}

#[test]
fn artist_keeps_other_characters() {
    assert_eq!(
        normalize_title("Für Elise", Some("Üñí çødé - Topic")),
        Some("Üñí çødé - Für Elise".to_string())
    );
}

#[test]
fn trailing_separator_set() {
    for c in [' ', '\t', '\n', '\r', '\u{0B}', '\u{0C}', '-', '\u{85}', '\u{A0}', '\u{1680}',
        '\u{2000}', '\u{200A}', '\u{2028}', '\u{2029}', '\u{202F}', '\u{205F}', '\u{3000}']
    {
        assert!(trailing_separator(c), "{:?}", c);
    }
    for c in ['a', 'Z', '0', '_', '.', '\u{200B}', '\u{1F}', '\u{2010}', '\u{0E}', '\u{08}'] {
        assert!(!trailing_separator(c), "{:?}", c);
    }
}

#[test]
fn trailing_separator_agrees_with_white_space() {
    let mut code: u32 = 0;
    while code < 0x3100 {
        if let Some(c) = char::from_u32(code) {
            assert_eq!(trailing_separator(c), c.is_whitespace() || c == '-', "{:?}", c);
        }
        code += 1;
    }
}

#[test]
fn cleanup_removes_marker_and_quote() {
    assert_eq!(clean_title("Song Name (Official Video)\""), "Song Name ");
}

#[test]
fn cleanup_removes_each_fragment() {
    for fragment in denylist_fragments() {
        let title = format!("Before {}After", fragment);
        assert_eq!(clean_title(&title), "Before After", "{}", fragment);
    }
}

#[test]
fn denylist_in_order() {
    let expected = vec![
        "\"",
        "(Official Audio)",
        "(Official Music)",
        "(Official Video)",
        "(Official Music Video)",
        "(Free Download on SoundCloud)",
        "[Official Audio]",
        "[Official Video]",
        "[Official Video 2019]",
        "(videoclip)",
        "[OFFICIAL MUSIC VIDEO]",
        ".wmv",
        "(Lyric Video)",
        "(lyrics)",
        "(Music Video)",
    ];
    assert_eq!(denylist_fragments(), expected);
}

#[test]
fn cleanup_removes_every_occurrence() {
    assert_eq!(
        clean_title("\"A\" (lyrics) and (lyrics) again.wmv.wmv"),
        "A  and  again"
    );
}

#[test]
fn cleanup_is_case_sensitive() {
    assert_eq!(clean_title("Song (official audio)"), "Song (official audio)");
    assert_eq!(clean_title("Song [official music video]"), "Song [official music video]");
    assert_eq!(clean_title("Song.WMV"), "Song.WMV");
}

#[test]
fn cleanup_keeps_white_space() {
    assert_eq!(clean_title("  Song  (Official Audio)  "), "  Song    ");
    assert_eq!(clean_title(""), "");
    assert_eq!(clean_title("(videoclip)"), "");
}

#[test]
fn cleanup_goes_by_the_order_of_the_denylist() {
    // The quote goes first, which brings the two halves of a marker together.
    assert_eq!(clean_title("Song (Official \"Audio)"), "Song ");
    // A marker that a later removal brings together stays.
    assert_eq!(clean_title("Song (Official(lyrics) Audio)"), "Song (Official Audio)");
}

#[test]
fn cleanup_of_a_clean_title_changes_nothing() {
    for title in ["Song Name ", "X - A", "C", "", "Artist - Title (Live) [2019]"] {
        assert_eq!(clean_title(title), title);
        assert_eq!(clean_title(&clean_title(title)), title);
    }
    let once = clean_title("Song Name (Official Video)\"");
    assert_eq!(clean_title(&once), once);
}

#[test]
fn cleanup_twice_may_differ_on_nested_markers() {
    let once = clean_title("(Official (Official Audio)Audio)");
    assert_eq!(once, "(Official Audio)");
    assert_eq!(clean_title(&once), "");
}

#[test]
fn fragments_removed_do_not_overlap() {
    assert_eq!(removed("aaa", "aa"), "a");
    assert_eq!(removed("aaaa", "aa"), "");
    assert_eq!(removed("ababa", "aba"), "ba");
    assert_eq!(removed("abcabc", "bc"), "aa");
    assert_eq!(removed("abc", "abcd"), "abc");
    assert_eq!(removed("abc", "abc"), "");
    assert_eq!(removed("", "a"), "");
}

#[test]
fn empty_fragment_removes_nothing() {
    assert_eq!(removed("abc", ""), "abc");
    assert_eq!(removed("", ""), "");
}

#[test]
fn fragment_of_other_characters() {
    assert_eq!(removed("añb→añ", "ñ"), "ab→a");
    assert_eq!(removed("日本語の歌", "の"), "日本語歌");
}

#[test]
fn clean_titles_keeps_order() {
    let songs = vec![
        "X - A (Official Audio)".to_string(),
        "C".to_string(),
        "\"D\" [Official Video]".to_string(),
    ];
    assert_eq!(clean_titles(&songs), vec!["X - A ", "C", "D "]);
    assert_eq!(clean_titles(&Vec::new()), Vec::<String>::new());
}

#[test]
fn characters_round_trip() {
    for text in ["", "abc", "Üñí çødé", "日本語 🎵"] {
        let cs = to_chars(text);
        assert_eq!(cs, chars(text));
        assert_eq!(from_chars(&cs), text);
    }
}
