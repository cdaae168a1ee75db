use sr_plot_rs::text::{chars_of, str_contains, str_eq};

#[test]
fn chars_of_yields_the_characters() {
    assert_eq!(chars_of("abc"), vec!['a', 'b', 'c']);
    assert_eq!(chars_of(""), Vec::<char>::new());
    assert_eq!(chars_of("\u{4F60}\u{597D}"), vec!['\u{4F60}', '\u{597D}']);
}

#[test]
fn str_eq_is_exact() {
    assert!(str_eq("Star Rail", "Star Rail"));
    assert!(!str_eq("Star Rail", "Star Rail "));
    assert!(!str_eq("a", "b"));
    assert!(str_eq("", ""));
}

#[test]
fn str_contains_finds_substrings() {
    assert!(str_contains("Honkai: Star Rail", "Star Rail"));
    assert!(str_contains("Honkai: Star Rail", "Honkai"));
    assert!(str_contains("Honkai: Star Rail", "ai: S"));
    assert!(!str_contains("Honkai: Star Rail", "star rail"));
    assert!(!str_contains("short", "much longer needle"));
}

#[test]
fn every_string_contains_the_empty_needle() {
    assert!(str_contains("anything", ""));
    assert!(str_contains("", ""));
}
