use voidpkg::matcher::{name_relevant, str_matches_query};
use voidpkg::record::PackageRecord;
use voidpkg::resolver::search_filter;

fn record(name: &str) -> PackageRecord {
    PackageRecord::new(name.to_string(), name.to_string(), None)
}

#[test]
fn filter_scenario_foo() {
    let results = vec![record("foobar"), record("barfoo"), record("oo-foo-bar"), record("xyz")];
    let kept = search_filter(&results, "foo");
    assert_eq!(kept.len(), 2);
    assert_eq!(kept[0].name, "foobar");
    assert_eq!(kept[1].name, "oo-foo-bar");
}

#[test]
fn filter_keeps_only_matching_names() {
    let results = vec![
        record("exact"),
        record("prefixed-name"),
        record("has-exact-token"),
        record("unrelated"),
        record("exactish"),
        record("notexact"),
    ];
    let kept = search_filter(&results, "exact");
    let names: Vec<&str> = kept.iter().map(|r| r.name.as_str()).collect();
    assert_eq!(names, vec!["exact", "has-exact-token", "exactish"]);
}

#[test]
fn filter_is_case_insensitive() {
    let results = vec![record("FooBar"), record("BARFOO")];
    let kept = search_filter(&results, "FOO");
    assert_eq!(kept.len(), 1);
    assert_eq!(kept[0].name, "FooBar");
}

#[test]
fn relevance_is_case_insensitive() {
    let mixed = record("YayHelper");
    assert!(name_relevant(&mixed.name, "yayhelper"));
    assert!(name_relevant(&mixed.name, "YAY"));
    assert!(!name_relevant(&mixed.name, "helper"));
}

#[test]
fn exact_match_is_relevant() {
    assert!(str_matches_query("ripgrep", "ripgrep"));
}

#[test]
fn prefix_match_is_relevant() {
    assert!(str_matches_query("ripgrep-all", "ripgrep"));
}

#[test]
fn token_match_needs_boundaries() {
    assert!(str_matches_query("oo-foo-bar", "foo"));
    assert!(str_matches_query("bar-foo", "foo"));
    assert!(!str_matches_query("barfoo", "foo"));
    assert!(!str_matches_query("xfoox", "foo"));
}

#[test]
fn token_match_at_edges() {
    assert!(str_matches_query("-foo", "foo"));
    assert!(str_matches_query("bar.foo", "foo"));
    assert!(!str_matches_query("xyz", "foo"));
}

#[test]
fn query_with_separator_matches_only_literally() {
    assert!(str_matches_query("gtk-theme", "gtk-theme"));
    assert!(str_matches_query("gtk-theme-extra", "gtk-theme"));
    assert!(!str_matches_query("mygtk-theme", "gtk-theme"));
}

#[test]
fn empty_query_matches_everything_by_prefix() {
    assert!(str_matches_query("anything", ""));
    assert!(str_matches_query("", ""));
}

#[test]
fn filter_of_empty_response_is_empty() {
    let kept = search_filter(&Vec::new(), "foo");
    assert!(kept.is_empty());
}
