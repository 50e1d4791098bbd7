use furtherance::tags::{can_start, duplicate_text, join_tag_list, normalize, normalize_tags};
use furtherance::text::{is_blank, split_ranges, trimmed};

fn pair(a: &str, b: &str) -> (String, String) {
    (a.to_string(), b.to_string())
}

#[test]
fn normalize_dedups_trims_and_drops_empty() {
    assert_eq!(normalize("Write report #Work #work #  "), pair("Write report", "work"));
}

#[test]
fn normalize_without_tags() {
    assert_eq!(normalize("Solo task"), pair("Solo task", ""));
}

#[test]
fn normalize_empty_input() {
    assert_eq!(normalize(""), pair("", ""));
    assert_eq!(normalize("   "), pair("", ""));
    assert_eq!(normalize("#"), pair("", ""));
}

#[test]
fn normalize_keeps_first_seen_order() {
    assert_eq!(
        normalize("  Plan sprint  # Team #urgent#team # Q3 #URGENT"),
        pair("Plan sprint", "team #urgent #q3")
    );
}

#[test]
fn normalize_tags_only_input_has_empty_name() {
    assert_eq!(normalize("#alpha #beta"), pair("", "alpha #beta"));
}

#[test]
fn normalize_handles_non_ascii() {
    assert_eq!(normalize("\u{3000}Caf\u{e9} \u{2003}#\u{c9}T\u{c9} #\u{e9}t\u{e9}"), pair("Caf\u{e9}", "\u{e9}t\u{e9}"));
}

#[test]
fn normalize_single_tag_has_no_separator() {
    assert_eq!(normalize("a #b"), pair("a", "b"));
    assert_eq!(normalize("a #b #c"), pair("a", "b #c"));
}

#[test]
fn normalize_tags_counts_first_piece_as_tag() {
    assert_eq!(normalize_tags("Home #garden # HOME #"), "home #garden");
    assert_eq!(normalize_tags("#one #two"), "one #two");
    assert_eq!(normalize_tags("   "), "");
}

#[test]
fn can_start_needs_a_name() {
    assert!(can_start("Write"));
    assert!(can_start("  x #tag"));
    assert!(!can_start(""));
    assert!(!can_start("   #tag"));
    assert!(!can_start("#"));
}

#[test]
fn duplicate_text_appends_tags() {
    assert_eq!(duplicate_text("Write report", "work #q3"), "Write report #work #q3");
    assert_eq!(duplicate_text("Write report", ""), "Write report");
    assert_eq!(duplicate_text("Write report", "  "), "Write report");
}

#[test]
fn duplicate_text_normalizes_back() {
    let text = duplicate_text("Write report", "work #q3");
    assert_eq!(normalize(&text), pair("Write report", "work #q3"));
}

#[test]
fn split_ranges_gives_one_more_piece_than_delimiters() {
    assert_eq!(split_ranges("", '#'), vec![(0, 0)]);
    assert_eq!(split_ranges("ab", '#'), vec![(0, 2)]);
    assert_eq!(split_ranges("a#bc#", '#'), vec![(0, 1), (2, 4), (5, 5)]);
    assert_eq!(split_ranges("##", '#'), vec![(0, 0), (1, 1), (2, 2)]);
}

#[test]
fn split_ranges_counts_characters_not_bytes() {
    assert_eq!(split_ranges("\u{e9}#\u{e9}\u{e9}", '#'), vec![(0, 1), (2, 4)]);
}

#[test]
fn trimmed_strips_both_ends() {
    assert_eq!(trimmed("  a b \t\n"), "a b");
    assert_eq!(trimmed("\u{a0}x\u{2028}"), "x");
    assert_eq!(trimmed(" \r\n "), "");
    assert_eq!(trimmed("x"), "x");
}

#[test]
fn is_blank_on_white_space_only() {
    assert!(is_blank(""));
    assert!(is_blank(" \t\u{3000}"));
    assert!(!is_blank(" . "));
}

#[test]
fn join_tag_list_separates_with_space_and_hash() {
    assert_eq!(join_tag_list(&vec![]), "");
    assert_eq!(join_tag_list(&vec!["a".to_string()]), "a");
    assert_eq!(join_tag_list(&vec!["a".to_string(), "b c".to_string(), "d".to_string()]), "a #b c #d");
    assert_eq!(join_tag_list(&vec!["".to_string(), "x".to_string()]), " #x");
}
