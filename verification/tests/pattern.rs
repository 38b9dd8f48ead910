use led_panel::pattern::{get_pattern, parse_pattern};

#[test]
fn plain_numbers_parse() {
    assert_eq!(parse_pattern("0"), Some(0));
    assert_eq!(parse_pattern("2"), Some(2));
    assert_eq!(parse_pattern("10"), Some(10));
    assert_eq!(parse_pattern("255"), Some(255));
}

#[test]
fn a_leading_plus_is_accepted() {
    assert_eq!(parse_pattern("+5"), Some(5));
    assert_eq!(parse_pattern("+255"), Some(255));
    assert_eq!(parse_pattern("+"), None);
    assert_eq!(parse_pattern("++1"), None);
}

#[test]
fn leading_zeros_count_for_nothing() {
    assert_eq!(parse_pattern("007"), Some(7));
    assert_eq!(parse_pattern("000000000000000000000000255"), Some(255));
    assert_eq!(parse_pattern("000000000000000000000000256"), None);
}

#[test]
fn too_large_a_number_is_refused() {
    assert_eq!(parse_pattern("256"), None);
    assert_eq!(parse_pattern("1000"), None);
    assert_eq!(parse_pattern("99999999999999999999999999"), None);
}

#[test]
fn anything_but_digits_is_refused() {
    assert_eq!(parse_pattern(""), None);
    assert_eq!(parse_pattern("-1"), None);
    assert_eq!(parse_pattern("-0"), None);
    assert_eq!(parse_pattern(" 1"), None);
    assert_eq!(parse_pattern("1 "), None);
    assert_eq!(parse_pattern("1_0"), None);
    assert_eq!(parse_pattern("1.0"), None);
    assert_eq!(parse_pattern("abc"), None);
    assert_eq!(parse_pattern("2a"), None);
    assert_eq!(parse_pattern("\u{0968}"), None);
    assert_eq!(parse_pattern("\u{ff11}"), None);
    assert_eq!(parse_pattern("9999x"), None);
}

#[test]
fn parsing_agrees_with_the_standard_library() {
    let samples = [
        "", "+", "-", "0", "+0", "-0", "1", "9", "10", "99", "100", "199", "200", "249", "250",
        "255", "256", "260", "300", "999", "0255", "00256", "+255", "+256", "+-1", "1+", "12a",
        "a12", " 12", "12 ", "1_2", "0x10", "١٢", "１２", "2٣", "25５", "1e2", "\n", "1\n",
    ];
    for s in samples {
        assert_eq!(parse_pattern(s), u8::from_str_radix(s, 10).ok());
    }
}

#[test]
fn every_pattern_is_read_back() {
    for p in 0..=255u8 {
        assert_eq!(parse_pattern(&format!("{}", p)), Some(p));
    }
}

#[test]
fn a_missing_selector_is_pattern_zero() {
    assert_eq!(get_pattern(None), 0);
}

#[test]
fn an_unreadable_selection_is_pattern_zero() {
    assert_eq!(get_pattern(Some("")), 0);
    assert_eq!(get_pattern(Some("rainbow")), 0);
    assert_eq!(get_pattern(Some("256")), 0);
    assert_eq!(get_pattern(Some("-3")), 0);
}

#[test]
fn a_readable_selection_is_its_number() {
    assert_eq!(get_pattern(Some("0")), 0);
    assert_eq!(get_pattern(Some("3")), 3);
    assert_eq!(get_pattern(Some("+12")), 12);
    assert_eq!(get_pattern(Some("255")), 255);
}
