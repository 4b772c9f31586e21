use voidpkg::pipeline::{plan_after_lookup, ResolutionStep};
use voidpkg::record::PackageRecord;
use voidpkg::resolver::resolve_exact;

fn record(name: &str, base: &str) -> PackageRecord {
    PackageRecord::new(name.to_string(), base.to_string(), Some("a package".to_string()))
}

#[test]
fn resolve_exact_takes_first_record() {
    let a = record("alpha", "alpha-base");
    let b = record("beta", "beta-base");
    let got = resolve_exact(vec![a, b]).expect("first record");
    assert_eq!(got.name, "alpha");
    assert_eq!(got.build_base, "alpha-base");
}

#[test]
fn resolve_exact_of_empty_response_is_none() {
    assert!(resolve_exact(Vec::new()).is_none());
}

#[test]
fn lookup_miss_switches_to_suggestions() {
    let miss = resolve_exact(Vec::new());
    assert!(miss.is_none());
    match plan_after_lookup(miss) {
        ResolutionStep::Suggest => {}
        ResolutionStep::Install(_) => panic!("a miss must take the suggestion path"),
    }
}

#[test]
fn lookup_hit_is_installed() {
    let hit = record("zzz", "zzz-base");
    match plan_after_lookup(Some(hit)) {
        ResolutionStep::Install(r) => {
            assert_eq!(r.name, "zzz");
            assert_eq!(r.build_base, "zzz-base");
        }
        ResolutionStep::Suggest => panic!("a hit must be built"),
    }
}

#[test]
fn record_clone_keeps_all_fields() {
    let r = record("name", "base");
    let c = r.clone();
    assert_eq!(c.name, "name");
    assert_eq!(c.build_base, "base");
    assert_eq!(c.description.as_deref(), Some("a package"));
}
