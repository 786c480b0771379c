use turbo_cdn::constants::{LARGE_FILE_THRESHOLD, MEDIUM_FILE_THRESHOLD, SMALL_FILE_THRESHOLD};

#[test]
fn test_file_thresholds_ordering() {
    let small = SMALL_FILE_THRESHOLD;
    let medium = MEDIUM_FILE_THRESHOLD;
    let large = LARGE_FILE_THRESHOLD;
    assert!(small < medium);
    assert!(medium < large);
}

#[test]
fn file_thresholds_are_one_ten_and_hundred_mib() {
    assert_eq!(SMALL_FILE_THRESHOLD, 1024 * 1024);
    assert_eq!(MEDIUM_FILE_THRESHOLD, 10 * 1024 * 1024);
    assert_eq!(LARGE_FILE_THRESHOLD, 100 * 1024 * 1024);
}
