use sleeptool_rs::settings_gui::list_utils::{add_to_csv, keep_item, parse_csv, remove_from_csv};
use sleeptool_rs::settings_gui::tag_slots;

#[test]
fn parse_csv_empty() {
    assert!(parse_csv("").is_empty());
}

#[test]
fn parse_csv_single() {
    assert_eq!(parse_csv("foo"), vec!["foo"]);
}

#[test]
fn parse_csv_multiple() {
    assert_eq!(parse_csv("a, b, c"), vec!["a", "b", "c"]);
}

#[test]
fn parse_csv_trims_whitespace() {
    assert_eq!(parse_csv("  a  ,b  ,  c"), vec!["a", "b", "c"]);
}

#[test]
fn parse_csv_filters_empty() {
    assert_eq!(parse_csv("a,,b,  ,c"), vec!["a", "b", "c"]);
}

#[test]
fn parse_csv_lowercases() {
    assert_eq!(parse_csv("FOO, Bar"), vec!["foo", "bar"]);
}

#[test]
fn add_to_csv_appends_new() {
    assert_eq!(add_to_csv("", "foo"), "foo");
    assert_eq!(add_to_csv("a", "b"), "a, b");
}

#[test]
fn add_to_csv_dedupes_case_insensitive() {
    assert_eq!(add_to_csv("foo, bar", "FOO"), "foo, bar");
    assert_eq!(add_to_csv("foo", "foo"), "foo");
}

#[test]
fn add_to_csv_trims_input() {
    assert_eq!(add_to_csv("", "  hello  "), "hello");
}

#[test]
fn add_to_csv_ignores_empty() {
    assert_eq!(add_to_csv("a", ""), "a");
    assert_eq!(add_to_csv("a", "   "), "a");
}

#[test]
fn remove_from_csv_by_index() {
    assert_eq!(remove_from_csv("a, b, c", 1), "a, c");
    assert_eq!(remove_from_csv("a, b, c", 0), "b, c");
    assert_eq!(remove_from_csv("a, b, c", 2), "a, b");
}

#[test]
fn remove_from_csv_out_of_bounds() {
    assert_eq!(remove_from_csv("a, b, c", 5), "a, b, c");
}

#[test]
fn remove_from_csv_empty() {
    assert_eq!(remove_from_csv("", 0), "");
}

#[test]
fn roundtrip_parse_csv_add_to_csv() {
    let csv = "alpha.exe, beta.exe, gamma.exe";
    let items = parse_csv(csv);
    let mut reconstructed = String::new();
    for item in items {
        reconstructed = add_to_csv(&reconstructed, &item);
    }
    assert_eq!(reconstructed, csv);
}

#[test]
fn add_to_csv_twice_is_once() {
    let once = add_to_csv(" a ,, B ", " c ");
    assert_eq!(once, "a, B, c");
    assert_eq!(add_to_csv(&once, " c "), once);
}

#[test]
fn remove_after_add_restores_normalized_list() {
    let csv = "x.exe,  y.exe ,";
    let added = add_to_csv(csv, "z.exe");
    assert_eq!(added, "x.exe, y.exe, z.exe");
    assert_eq!(remove_from_csv(&added, 2), "x.exe, y.exe");
}

#[test]
fn add_to_csv_ignores_ascii_case_only() {
    assert_eq!(add_to_csv("Émile", "émile"), "Émile, émile");
    assert_eq!(add_to_csv("ABC.exe", "abc.EXE"), "ABC.exe");
}

#[test]
fn parse_csv_trims_unicode_whitespace() {
    assert_eq!(parse_csv("\u{3000}a\u{A0},\tb\n"), vec!["a", "b"]);
}

#[test]
fn parse_csv_uses_unicode_lowercase() {
    assert_eq!(parse_csv("ÄBC.EXE"), vec!["äbc.exe"]);
}

#[test]
fn tag_slots_fill_and_pad() {
    let (count, slots) = tag_slots("a, b,, c");
    assert_eq!(count, 3);
    assert_eq!(slots.len(), 8);
    assert_eq!(slots[0], "a");
    assert_eq!(slots[2], "c");
    assert_eq!(slots[3], "");
    let many = "1,2,3,4,5,6,7,8,9,10";
    let (count, slots) = tag_slots(many);
    assert_eq!(count, 10);
    assert_eq!(slots[7], "8");
}

#[test]
fn parse_csv_read_twice_is_read_once() {
    let s = " Chrome.EXE ,, Firefox.exe,  ";
    let once = parse_csv(s);
    assert_eq!(once, vec!["chrome.exe".to_string(), "firefox.exe".to_string()]);
    assert_eq!(parse_csv(&once.join(", ")), once);
}

#[test]
fn keep_item_drops_empty() {
    let mut items = vec!["a".to_string()];
    keep_item(&mut items, String::new());
    assert_eq!(items, vec!["a".to_string()]);
    keep_item(&mut items, "b".to_string());
    assert_eq!(items, vec!["a".to_string(), "b".to_string()]);
}
