use crate_change_monitor::snapshot::{
    clone_reverse_deps, is_valid_snapshot, reverse_deps_equal, CrateInfo, ReverseDep, Timestamp,
};
use crate_change_monitor::version::{Identifier, Version};

fn dep(id: usize, name: &str, minor: u64) -> ReverseDep {
    ReverseDep { id, name: name.to_string(), version: Version::new(0, minor, 0) }
}

fn named(name: &str) -> CrateInfo {
    CrateInfo {
        name: name.to_string(),
        current_version: Version::new(1, 0, 0),
        downloads: 1,
        recent_downloads: 1,
        change_in_downloads: Some(1),
        change_in_recent: Some(-1),
        last_checked: Timestamp { secs: 10, nanos: 20 },
        reverse_deps: vec![dep(1, "x", 1)],
    }
}

#[test]
fn dependents_are_equal_when_all_three_parts_are() {
    assert!(dep(1, "x", 1) == dep(1, "x", 1));
    assert!(dep(1, "x", 1) != dep(2, "x", 1));
    assert!(dep(1, "x", 1) != dep(1, "y", 1));
    assert!(dep(1, "x", 1) != dep(1, "x", 2));
    let mut tagged = dep(1, "x", 1);
    tagged.version.build = vec![Identifier::Numeric(1)];
    assert!(tagged == dep(1, "x", 1));
}

#[test]
fn dependent_lists_compare_by_position() {
    let a = vec![dep(1, "x", 1), dep(2, "y", 1)];
    let b = vec![dep(2, "y", 1), dep(1, "x", 1)];
    assert!(reverse_deps_equal(&a, &a));
    assert!(!reverse_deps_equal(&a, &b));
    assert!(!reverse_deps_equal(&a, &vec![dep(1, "x", 1)]));
    assert!(!reverse_deps_equal(&vec![], &a));
    assert!(reverse_deps_equal(&vec![], &vec![]));
    assert!(reverse_deps_equal(&clone_reverse_deps(&b), &b));
}

#[test]
fn record_clone_is_equal_to_the_record() {
    let r = named("a");
    let c = r.clone();
    assert!(c == r);
    assert_eq!(c.name, "a");
    assert_eq!(c.downloads, 1);
    assert_eq!(c.change_in_downloads, Some(1));
    assert_eq!(c.change_in_recent, Some(-1));
    assert_eq!(c.last_checked, Timestamp { secs: 10, nanos: 20 });
    assert_eq!(c.reverse_deps.len(), 1);
}

#[test]
fn records_differ_in_any_field() {
    let base = named("a");
    let mut r = named("a");
    r.name = "b".to_string();
    assert!(r != base);
    let mut r = named("a");
    r.current_version = Version::new(1, 0, 1);
    assert!(r != base);
    let mut r = named("a");
    r.downloads = 2;
    assert!(r != base);
    let mut r = named("a");
    r.recent_downloads = 2;
    assert!(r != base);
    let mut r = named("a");
    r.change_in_downloads = None;
    assert!(r != base);
    let mut r = named("a");
    r.change_in_recent = Some(1);
    assert!(r != base);
    let mut r = named("a");
    r.last_checked = Timestamp { secs: 10, nanos: 21 };
    assert!(r != base);
    let mut r = named("a");
    r.reverse_deps = vec![];
    assert!(r != base);
    assert!(named("a") == base);
}

#[test]
fn timestamps_agree_with_chrono() {
    let text = "2019-09-30T22:17:33.917626900Z";
    let parsed = chrono::DateTime::parse_from_rfc3339(text).unwrap().with_timezone(&chrono::Utc);
    let stamp = Timestamp { secs: parsed.timestamp(), nanos: parsed.timestamp_subsec_nanos() };
    assert_eq!(stamp, Timestamp { secs: 1569881853, nanos: 917626900 });
    let back = chrono::DateTime::from_timestamp(stamp.secs, stamp.nanos).unwrap();
    assert_eq!(back, parsed);
}

#[test]
fn valid_snapshot_has_distinct_names() {
    assert!(is_valid_snapshot(&[]));
    assert!(is_valid_snapshot(&[named("a")]));
    assert!(is_valid_snapshot(&[named("a"), named("b"), named("c")]));
    assert!(!is_valid_snapshot(&[named("a"), named("b"), named("a")]));
    assert!(!is_valid_snapshot(&[named("a"), named("a")]));
    assert!(is_valid_snapshot(&[named("a"), named("A")]));
}

#[test]
fn valid_snapshot_has_no_nameless_record() {
    assert!(!is_valid_snapshot(&[named("")]));
    assert!(!is_valid_snapshot(&[named("a"), named("")]));
    assert!(!is_valid_snapshot(&[named(""), named("a")]));
}
