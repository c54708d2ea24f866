use crate_change_monitor::decimal::append_decimal;
use crate_change_monitor::files::{
    is_record_extension, message_file_name, message_file_name_at, next_message_file_name,
    record_file_name, RECORD_EXTENSION, STAMP_PATTERN, STORE_DIRECTORY,
};
use crate_change_monitor::snapshot::Timestamp;
use crate_change_monitor::registry::{crates_url, rev_deps_url, BASE, OWNER};

fn written(n: usize) -> String {
    let mut out = String::new();
    append_decimal(&mut out, n);
    out
}

#[test]
fn decimal_of_small_and_large_numbers() {
    assert_eq!(written(0), "0");
    assert_eq!(written(7), "7");
    assert_eq!(written(9), "9");
    assert_eq!(written(10), "10");
    assert_eq!(written(11679), "11679");
    assert_eq!(written(1_000_000), "1000000");
    assert_eq!(written(9_081_726_354), "9081726354");
    assert_eq!(written(usize::MAX), usize::MAX.to_string());
}

#[test]
fn decimal_agrees_with_formatting() {
    let mut n: usize = 1;
    for _ in 0..18 {
        assert_eq!(written(n), format!("{}", n));
        assert_eq!(written(n - 1), format!("{}", n - 1));
        assert_eq!(written(n + 1), format!("{}", n + 1));
        n *= 10;
    }
}

#[test]
fn decimal_is_written_at_the_end() {
    let mut out = String::from("id=");
    append_decimal(&mut out, 42);
    assert_eq!(out, "id=42");
    append_decimal(&mut out, 0);
    assert_eq!(out, "id=420");
}

#[test]
fn address_of_a_publishers_packages() {
    assert_eq!(BASE, "https://crates.io");
    assert_eq!(crates_url(OWNER), "https://crates.io/api/v1/crates?user_id=11679");
    assert_eq!(crates_url(0), "https://crates.io/api/v1/crates?user_id=0");
    assert_eq!(crates_url(1), format!("{}/api/v1/crates?user_id={}", BASE, 1));
    assert_eq!(crates_url(usize::MAX), format!("{}/api/v1/crates?user_id={}", BASE, usize::MAX));
}

#[test]
fn address_of_a_packages_dependents() {
    assert_eq!(
        rev_deps_url("/api/v1/crates/ress/reverse_dependencies"),
        "https://crates.io/api/v1/crates/ress/reverse_dependencies"
    );
    assert_eq!(rev_deps_url(""), "https://crates.io");
}

#[test]
fn record_files_are_named_after_the_package() {
    assert_eq!(STORE_DIRECTORY, "crate_change_monitor");
    assert_eq!(RECORD_EXTENSION, "toml");
    assert_eq!(record_file_name("ress"), "ress.toml");
    assert_eq!(record_file_name("mdbook-presentation-preprocessor"), "mdbook-presentation-preprocessor.toml");
    assert_eq!(record_file_name(""), ".toml");
}

#[test]
fn only_record_files_are_read() {
    assert!(is_record_extension("toml"));
    assert!(!is_record_extension("TOML"));
    assert!(!is_record_extension("json"));
    assert!(!is_record_extension(""));
    assert!(!is_record_extension("toml "));
    assert!(!is_record_extension(".toml"));
}

#[test]
fn saved_report_is_named_after_the_time() {
    assert_eq!(message_file_name("20190930221733UTC"), "crate_change_message20190930221733UTC.json");
    assert_eq!(message_file_name(""), "crate_change_message.json");
}

#[test]
fn saved_report_name_for_an_instant() {
    assert_eq!(STAMP_PATTERN, "%Y%m%d%H%M%S%Z");
    assert_eq!(
        message_file_name_at(Timestamp { secs: 1569881853, nanos: 917626900 }),
        Some("crate_change_message20190930221733UTC.json".to_string())
    );
    assert_eq!(
        message_file_name_at(Timestamp { secs: 0, nanos: 0 }),
        Some("crate_change_message19700101000000UTC.json".to_string())
    );
    assert_eq!(
        message_file_name_at(Timestamp { secs: -1, nanos: 999_999_999 }),
        Some("crate_change_message19691231235959UTC.json".to_string())
    );
    assert_eq!(
        message_file_name_at(Timestamp { secs: 1569881853, nanos: 0 }),
        message_file_name_at(Timestamp { secs: 1569881853, nanos: 5 })
    );
}

#[test]
fn saved_report_name_agrees_with_chrono() {
    for secs in [0i64, 59, 86_399, 951_782_400, 1_569_881_853, 4_102_444_800, -86_400] {
        let stamp = chrono::DateTime::from_timestamp(secs, 0).unwrap().format("%Y%m%d%H%M%S%Z").to_string();
        assert_eq!(
            message_file_name_at(Timestamp { secs, nanos: 0 }),
            Some(format!("crate_change_message{}.json", stamp))
        );
    }
}

#[test]
fn no_name_for_an_instant_outside_the_calendar() {
    assert_eq!(message_file_name_at(Timestamp { secs: i64::MAX, nanos: 0 }), None);
    assert_eq!(message_file_name_at(Timestamp { secs: i64::MIN, nanos: 0 }), None);
    assert_eq!(message_file_name_at(Timestamp { secs: 0, nanos: 2_000_000_000 }), None);
    assert_eq!(message_file_name_at(Timestamp { secs: 0, nanos: u32::MAX }), None);
}

#[test]
fn saved_report_name_for_now() {
    let before = chrono::Utc::now().format("%Y%m%d%H%M%S%Z").to_string();
    let name = next_message_file_name().unwrap();
    let after = chrono::Utc::now().format("%Y%m%d%H%M%S%Z").to_string();
    assert_eq!(name.len(), 42);
    assert!(name.starts_with("crate_change_message"));
    assert!(name.ends_with("UTC.json"));
    let stamp = &name[20..37];
    assert!(before.as_str() <= stamp && stamp <= after.as_str());
}
