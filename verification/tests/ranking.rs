use voidpkg::record::PackageRecord;
use voidpkg::suggest::{rank, SUGGESTION_CAP};

fn records(names: &[&str]) -> Vec<PackageRecord> {
    names.iter().map(|n| PackageRecord::new(n.to_string(), n.to_string(), None)).collect()
}

#[test]
fn rank_returns_short_input_unchanged() {
    let input = records(&["a", "b", "c"]);
    let out = rank(&input, 5);
    let names: Vec<&str> = out.iter().map(|r| r.name.as_str()).collect();
    assert_eq!(names, vec!["a", "b", "c"]);
}

#[test]
fn rank_caps_long_input_and_preserves_order() {
    let input = records(&["a", "b", "c", "d", "e", "f"]);
    let out = rank(&input, 4);
    let names: Vec<&str> = out.iter().map(|r| r.name.as_str()).collect();
    assert_eq!(names, vec!["a", "b", "c", "d"]);
}

#[test]
fn rank_at_exact_cap_keeps_everything() {
    let input = records(&["a", "b"]);
    let out = rank(&input, 2);
    assert_eq!(out.len(), 2);
}

#[test]
fn rank_with_zero_cap_is_empty() {
    let input = records(&["a", "b"]);
    assert!(rank(&input, 0).is_empty());
}

#[test]
fn default_cap_bounds_suggestions() {
    let input = records(&["a", "b", "c", "d", "e", "f", "g", "h", "i", "j"]);
    let out = rank(&input, SUGGESTION_CAP);
    assert_eq!(out.len(), 8);
    assert_eq!(out[7].name, "h");
}

#[test]
fn suggestion_path_filters_then_caps() {
    let input = records(&[
        "foo", "foo-a", "foo-b", "foo-c", "foo-d", "foo-e", "foo-f", "foo-g", "foo-h", "nope",
    ]);
    let kept = voidpkg::resolver::search_filter(&input, "foo");
    assert_eq!(kept.len(), 9);
    let shown = rank(&kept, SUGGESTION_CAP);
    assert_eq!(shown.len(), 8);
    assert_eq!(shown[0].name, "foo");
    assert_eq!(shown[7].name, "foo-g");
}
