use b2_uploader::checksum::{try_finish_body, LargeFileSha1};
use b2_uploader::is_valid::IsValid;
use b2_uploader::options::FileUploadOptions;

#[test]
fn table_starts_empty_and_fills_slot_by_slot() {
    let mut table = LargeFileSha1::new(3);
    assert!(!table.is_fully_filled());
    table.set_sha1(0, "aa".to_string());
    table.set_sha1(2, "cc".to_string());
    assert!(!table.is_fully_filled());
    table.set_sha1(1, "bb".to_string());
    assert!(table.is_fully_filled());
    assert_eq!(table.slots, vec!["aa", "bb", "cc"]);
}

#[test]
fn record_part_stores_the_digest_of_the_bytes() {
    let mut table = LargeFileSha1::new(2);
    // the digest of "abc" is a fixed, well-known value
    let sha = table.record_part(1, b"abc");
    assert_eq!(sha, "a9993e364706816aba3e25717850c26c9cd0d89d");
    assert_eq!(table.slots[0], "a9993e364706816aba3e25717850c26c9cd0d89d");
    let sha = table.record_part(2, b"");
    assert_eq!(sha, "da39a3ee5e6b4b0d3255bfef95601890afd80709");
    assert!(table.is_fully_filled());
}

#[test]
fn finalize_body_exists_only_for_a_full_table() {
    let mut table = LargeFileSha1::new(2);
    table.set_sha1(0, "aa".to_string());
    // one slot is still empty: no finalize request can be built
    assert!(try_finish_body("file".to_string(), &table).is_none());
    table.set_sha1(1, "bb".to_string());
    let body = try_finish_body("file".to_string(), &table).unwrap();
    assert_eq!(body.file_id, "file");
    assert_eq!(body.part_sha1_array, vec!["aa", "bb"]);
}

#[test]
fn decimal_rendering_backs_validation_messages() {
    let mut options = FileUploadOptions::default();
    options.large_file_cutoff = 42;
    let err = options.is_valid().unwrap_err();
    assert_eq!(err.value_name, "large_file_cutoff");
    assert_eq!(err.value_as_string, "42");
    assert_eq!(err.expected, "5 MiB - 5 GiB");
}
