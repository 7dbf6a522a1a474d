use fov_zoom::scan::find_pattern;

#[test]
fn scanner_ignores_wildcard_bytes() {
    let data = [0x10u8, 0x20, 0x30, 0x20];
    let pattern = [0x10u8, 0xAA, 0x30];
    let mask = [0xFFu8, 0x00, 0xFF];
    assert_eq!(find_pattern(&data, &pattern, &mask), Some(0));
}

#[test]
fn scanner_returns_lowest_match() {
    let data = [0x01u8, 0x02, 0x03, 0x02, 0x03, 0x02, 0x03];
    let pattern = [0x02u8, 0x03];
    let mask = [0xFFu8, 0xFF];
    assert_eq!(find_pattern(&data, &pattern, &mask), Some(1));
}

#[test]
fn scanner_reports_no_match() {
    let data = [0x01u8, 0x02, 0x03];
    let pattern = [0x02u8, 0x04];
    let mask = [0xFFu8, 0xFF];
    assert_eq!(find_pattern(&data, &pattern, &mask), None);
}

#[test]
fn scanner_length_mismatch_is_not_found() {
    let data = [0x10u8, 0x20, 0x30];
    let pattern = [0x10u8, 0x20];
    let mask = [0xFFu8];
    assert_eq!(find_pattern(&data, &pattern, &mask), None);
    let mask_long = [0xFFu8, 0xFF, 0xFF];
    assert_eq!(find_pattern(&data, &pattern, &mask_long), None);
}

#[test]
fn scanner_matches_at_last_position() {
    let data = [0x01u8, 0x02, 0x03];
    let pattern = [0x02u8, 0x03];
    let mask = [0xFFu8, 0xFF];
    assert_eq!(find_pattern(&data, &pattern, &mask), Some(1));
}

#[test]
fn scanner_pattern_longer_than_data() {
    let data = [0x01u8];
    let pattern = [0x01u8, 0x02];
    let mask = [0xFFu8, 0x00];
    assert_eq!(find_pattern(&data, &pattern, &mask), None);
}

#[test]
fn scanner_all_wildcards_match_at_start() {
    let data = [0x05u8, 0x06, 0x07];
    let pattern = [0x00u8, 0x00];
    let mask = [0x00u8, 0x00];
    assert_eq!(find_pattern(&data, &pattern, &mask), Some(0));
}

#[test]
fn scanner_empty_pattern_matches_at_zero() {
    let data: [u8; 0] = [];
    assert_eq!(find_pattern(&data, &[], &[]), Some(0));
}

#[test]
fn scanner_only_ff_marks_exact_bytes() {
    let data = [0x11u8, 0x22, 0x33];
    let pattern = [0x22u8, 0x99];
    let mask = [0xFFu8, 0xFE];
    assert_eq!(find_pattern(&data, &pattern, &mask), Some(1));
}
