use pigeon_rs::archive::{archive_file_name, archive_file_name_at, archive_timestamp, staged_file_name};

#[test]
fn archive_names() {
    assert_eq!(staged_file_name("abc"), "abc.eml");
    assert_eq!(archive_file_name("2024-01-01T14:00:00Z", "abc", false), "2024-01-01T14:00:00Z_abc.eml");
    assert_eq!(
        archive_file_name("2024-01-01T14:00:00Z", "abc", true),
        "2024-01-01T14:00:00Z_abc_dry-run.eml"
    );
}

#[test]
fn archive_timestamp_is_rfc3339_to_the_second() {
    let secs = chrono::DateTime::parse_from_rfc3339("2024-01-01T14:00:00Z").unwrap().timestamp();
    assert_eq!(archive_timestamp(secs), Some("2024-01-01T14:00:00Z".to_owned()));
    assert_eq!(archive_timestamp(0), Some("1970-01-01T00:00:00Z".to_owned()));
    assert_eq!(archive_timestamp(i64::MAX), None);
}

#[test]
fn dry_run_archive_name_is_marked() {
    let name = archive_file_name_at(1704117600, "4f1c", true).unwrap();
    assert_eq!(name, "2024-01-01T14:00:00Z_4f1c_dry-run.eml");
    assert!(name.contains("dry-run"));
    let name = archive_file_name_at(1704117600, "4f1c", false).unwrap();
    assert!(!name.contains("dry-run"));
}
