use scroll_lock_keeper::version::is_newer;

#[test]
fn later_patch_is_newer() {
    assert!(is_newer("1.2.10", "1.2.9"));
    assert!(!is_newer("1.2.9", "1.2.10"));
}

#[test]
fn same_version_is_not_newer() {
    assert!(!is_newer("1.2.3", "1.2.3"));
    assert!(!is_newer("", ""));
}

#[test]
fn major_and_minor_decide_first() {
    assert!(is_newer("2.0.0", "1.9.9"));
    assert!(is_newer("1.3.0", "1.2.99"));
    assert!(!is_newer("1.2.99", "1.3.0"));
}

#[test]
fn missing_components_count_as_zero() {
    assert!(is_newer("2.0", "1.9.9"));
    assert!(!is_newer("1", "1.0.0"));
    assert!(!is_newer("1.0.0", "1"));
    assert!(is_newer("1.0.1", "1"));
}

#[test]
fn fourth_component_is_ignored() {
    assert!(!is_newer("1.2.3.4", "1.2.3"));
    assert!(!is_newer("1.2.3", "1.2.3.4"));
}

#[test]
fn pieces_that_are_not_numbers_count_as_zero() {
    assert!(!is_newer("1.x.0", "1.0.0"));
    assert!(!is_newer("-1.0.0", "0.0.0"));
    assert!(!is_newer(" 1.0.0", "0.0.0"));
    assert!(!is_newer("1.0.0-beta", "1.0.0"));
    assert!(is_newer("1.0.1", "1.0.0-beta"));
}

#[test]
fn plus_sign_and_leading_zeros_are_read_as_numbers() {
    assert!(is_newer("+1.0.0", "0.9.0"));
    assert!(!is_newer("1.02.0", "1.2.0"));
    assert!(!is_newer("+", "0"));
}

#[test]
fn empty_pieces_count_as_zero() {
    assert!(is_newer("1..2", "1.0.1"));
    assert!(!is_newer(".", "0.0.0"));
}

#[test]
fn numbers_beyond_64_bits_count_as_zero() {
    assert!(is_newer("18446744073709551615.0.0", "1.0.0"));
    assert!(!is_newer("18446744073709551616.0.0", "1.0.0"));
    assert!(!is_newer("99999999999999999999.0.0", "1.0.0"));
}

#[test]
fn non_ascii_text_is_handled() {
    assert!(!is_newer("1.\u{e9}.0", "1.0.0"));
    assert!(is_newer("1.0.1", "\u{2603}"));
}
