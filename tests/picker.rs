use emoji_picker::error::PickerError;
use emoji_picker::grid::chunk;
use emoji_picker::picker::{show_content_grid, App, Effect, Message};
use emoji_picker::record::EmojiRecord;
use emoji_picker::search::supported;
use emoji_picker::version::UnicodeVersion;

fn record(glyph: &str, name: &str, major: u32, minor: u32) -> EmojiRecord {
    EmojiRecord::new(glyph, name, UnicodeVersion::new(major, minor))
}

fn sample_catalog() -> Vec<EmojiRecord> {
    vec![
        record("\u{1F680}", "rocket", 12, 0),
        record("\u{1F929}", "star-struck", 12, 0),
        record("\u{1F347}", "grapes", 15, 1),
    ]
}

fn names(records: &[EmojiRecord]) -> Vec<String> {
    records.iter().map(|r| r.name.clone()).collect()
}

fn numbered(n: usize) -> Vec<EmojiRecord> {
    (0..n).map(|i| record("x", &format!("item{}", i), 1, 0)).collect()
}

#[test]
fn version_order_is_major_then_minor() {
    let v13 = UnicodeVersion::new(13, 0);
    assert!(UnicodeVersion::new(12, 9).is_before(&v13));
    assert!(!UnicodeVersion::new(13, 0).is_before(&v13));
    assert!(!UnicodeVersion::new(13, 1).is_before(&v13));
    assert!(UnicodeVersion::new(15, 0).is_before(&UnicodeVersion::new(15, 1)));
    assert!(!UnicodeVersion::new(16, 0).is_before(&UnicodeVersion::new(15, 1)));
}

#[test]
fn supported_keeps_older_versions_in_order() {
    let kept = supported(&sample_catalog(), UnicodeVersion::new(13, 0));
    assert_eq!(names(&kept), vec!["rocket", "star-struck"]);
    let kept = supported(&sample_catalog(), UnicodeVersion::new(15, 1));
    assert_eq!(names(&kept), vec!["rocket", "star-struck"]);
    let kept = supported(&sample_catalog(), UnicodeVersion::new(15, 2));
    assert_eq!(names(&kept), vec!["rocket", "star-struck", "grapes"]);
}

#[test]
fn supported_of_empty_catalog_is_empty() {
    assert!(supported(&Vec::new(), UnicodeVersion::new(13, 0)).is_empty());
}

#[test]
fn matches_keeps_names_containing_query() {
    let catalog = sample_catalog();
    let found = emoji_picker::search::matches(&catalog, "r");
    assert_eq!(names(&found), vec!["rocket", "star-struck", "grapes"]);
    let found = emoji_picker::search::matches(&catalog, "st");
    assert_eq!(names(&found), vec!["star-struck"]);
    for r in &found {
        assert!(r.name.contains("st"));
    }
    let found = emoji_picker::search::matches(&catalog, "ape");
    assert_eq!(names(&found), vec!["grapes"]);
    assert_eq!(found[0].glyph, "\u{1F347}");
}

#[test]
fn matches_is_case_sensitive() {
    let found = emoji_picker::search::matches(&sample_catalog(), "Rocket");
    assert!(found.is_empty());
}

#[test]
fn matches_with_no_hit_is_empty() {
    let found = emoji_picker::search::matches(&sample_catalog(), "zebra");
    assert!(found.is_empty());
}

#[test]
fn empty_query_keeps_whole_catalog() {
    let catalog = supported(&sample_catalog(), UnicodeVersion::new(13, 0));
    let found = emoji_picker::search::matches(&catalog, "");
    assert_eq!(names(&found), names(&catalog));
}

#[test]
fn chunk_rejoins_to_input() {
    let records = numbered(7);
    let rows = chunk(&records, 3).unwrap();
    let lens: Vec<usize> = rows.iter().map(|r| r.len()).collect();
    assert_eq!(lens, vec![3, 3, 1]);
    let joined: Vec<EmojiRecord> = rows.into_iter().flatten().collect();
    assert_eq!(names(&joined), names(&records));
}

#[test]
fn chunk_evenly_divisible_last_row_is_full() {
    let rows = chunk(&numbered(6), 3).unwrap();
    let lens: Vec<usize> = rows.iter().map(|r| r.len()).collect();
    assert_eq!(lens, vec![3, 3]);
}

#[test]
fn chunk_width_one_gives_one_record_per_row() {
    let rows = chunk(&numbered(3), 1).unwrap();
    assert_eq!(rows.len(), 3);
    assert_eq!(rows[2][0].name, "item2");
}

#[test]
fn chunk_wider_than_input_gives_one_row() {
    let rows = chunk(&numbered(2), 10).unwrap();
    assert_eq!(rows.len(), 1);
    assert_eq!(names(&rows[0]), vec!["item0", "item1"]);
}

#[test]
fn chunk_of_empty_is_no_rows() {
    assert!(chunk(&Vec::new(), 5).unwrap().is_empty());
    assert!(chunk(&Vec::new(), 1).unwrap().is_empty());
}

#[test]
fn chunk_width_zero_is_configuration_error() {
    assert_eq!(chunk(&numbered(3), 0).unwrap_err(), PickerError::ConfigurationError);
    assert_eq!(chunk(&Vec::new(), 0).unwrap_err(), PickerError::ConfigurationError);
}

#[test]
fn grid_is_repeatable() {
    let catalog = sample_catalog();
    let max = UnicodeVersion::new(15, 2);
    let first = show_content_grid(&catalog, "r", max, 2).unwrap();
    let second = show_content_grid(&catalog, "r", max, 2).unwrap();
    assert_eq!(first.len(), second.len());
    for (a, b) in first.iter().zip(second.iter()) {
        assert_eq!(names(a), names(b));
    }
}

#[test]
fn scenario_empty_query_one_row_of_two() {
    let catalog = sample_catalog();
    let max = UnicodeVersion::new(13, 0);
    assert_eq!(names(&supported(&catalog, max)), vec!["rocket", "star-struck"]);
    let rows = show_content_grid(&catalog, "", max, 5).unwrap();
    assert_eq!(rows.len(), 1);
    assert_eq!(names(&rows[0]), vec!["rocket", "star-struck"]);
}

#[test]
fn scenario_star_query_one_row_of_one() {
    let catalog = sample_catalog();
    let max = UnicodeVersion::new(13, 0);
    let found = emoji_picker::search::matches(&supported(&catalog, max), "star");
    assert_eq!(names(&found), vec!["star-struck"]);
    let rows = show_content_grid(&catalog, "star", max, 5).unwrap();
    assert_eq!(rows.len(), 1);
    assert_eq!(names(&rows[0]), vec!["star-struck"]);
}

#[test]
fn scenario_selecting_rocket_copies_glyph() {
    let mut app = App::init(UnicodeVersion::new(13, 0), 5).unwrap();
    app.update(Message::SearchInput(String::from("ro")));
    let effect = app.update(Message::EmojiPressed(String::from("\u{1F680}")));
    match effect {
        Effect::CopyToClipboard(text) => assert_eq!(text, "\u{1F680}"),
        Effect::Nothing => panic!("expected a clipboard write"),
    }
    assert_eq!(app.search_val(), "ro");
}

#[test]
fn init_starts_with_empty_search() {
    let app = App::init(UnicodeVersion::new(15, 1), 6).unwrap();
    assert_eq!(app.search_val(), "");
    assert_eq!(app.columns(), 6);
    assert_eq!(app.max_version(), UnicodeVersion::new(15, 1));
}

#[test]
fn init_with_zero_columns_is_configuration_error() {
    assert_eq!(
        App::init(UnicodeVersion::new(13, 0), 0).unwrap_err(),
        PickerError::ConfigurationError
    );
}

#[test]
fn search_input_replaces_query() {
    let mut app = App::init(UnicodeVersion::new(13, 0), 5).unwrap();
    assert!(matches!(app.update(Message::SearchInput(String::from("star"))), Effect::Nothing));
    assert_eq!(app.search_val(), "star");
    app.update(Message::SearchInput(String::from("ro")));
    assert_eq!(app.search_val(), "ro");
    assert!(matches!(app.update(Message::FontLoaded), Effect::Nothing));
    assert_eq!(app.search_val(), "ro");
}

#[test]
fn content_grid_follows_query() {
    let mut app = App::init(UnicodeVersion::new(13, 0), 5).unwrap();
    app.update(Message::SearchInput(String::from("star")));
    let rows = app.content_grid(&sample_catalog());
    assert_eq!(rows.len(), 1);
    assert_eq!(names(&rows[0]), vec!["star-struck"]);
}

#[test]
fn emoji_table_holds_rocket() {
    let mut app = App::init(UnicodeVersion::new(15, 1), 5).unwrap();
    app.update(Message::SearchInput(String::from("rocket")));
    let rows = app.emoji_grid();
    assert!(!rows.is_empty());
    let rocket = rows.iter().flatten().find(|r| r.name == "rocket").unwrap();
    assert_eq!(rocket.glyph, "\u{1F680}");
    for r in rows.iter().flatten() {
        assert!(r.name.contains("rocket"));
        assert!(r.unicode_version.is_before(&UnicodeVersion::new(15, 1)));
    }
}

#[test]
fn emoji_table_respects_version_gate() {
    let app = App::init(UnicodeVersion::new(13, 0), 10).unwrap();
    let rows = app.emoji_grid();
    assert!(rows.len() > 10);
    for (i, row) in rows.iter().enumerate() {
        assert!(!row.is_empty());
        if i + 1 < rows.len() {
            assert_eq!(row.len(), 10);
        }
        for r in row {
            assert!(r.unicode_version.is_before(&UnicodeVersion::new(13, 0)));
        }
    }
}
