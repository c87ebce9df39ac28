use tray_core::color::parse_hex_color;

#[test]
fn parses_six_digit_hex_with_hash() {
    assert_eq!(parse_hex_color("#FF5733"), Some((255, 87, 51)));
}

#[test]
fn parses_six_digit_hex_without_hash() {
    assert_eq!(parse_hex_color("FF5733"), Some((255, 87, 51)));
}

#[test]
fn parses_lowercase_hex() {
    assert_eq!(parse_hex_color("#ff5733"), Some((255, 87, 51)));
}

#[test]
fn parses_mixed_case_hex() {
    assert_eq!(parse_hex_color("#fF5A3c"), Some((255, 90, 60)));
}

#[test]
fn strips_repeated_hashes() {
    assert_eq!(parse_hex_color("##FF5733"), Some((255, 87, 51)));
}

#[test]
fn parses_black_and_white() {
    assert_eq!(parse_hex_color("#000000"), Some((0, 0, 0)));
    assert_eq!(parse_hex_color("#FFFFFF"), Some((255, 255, 255)));
}

#[test]
fn rejects_wrong_length() {
    assert_eq!(parse_hex_color("12345"), None);
    assert_eq!(parse_hex_color("1234567"), None);
    assert_eq!(parse_hex_color("zzz"), None);
}

#[test]
fn rejects_empty_and_hashes_only() {
    assert_eq!(parse_hex_color(""), None);
    assert_eq!(parse_hex_color("###"), None);
}

#[test]
fn rejects_non_hex_characters() {
    assert_eq!(parse_hex_color("#GGGGGG"), None);
    assert_eq!(parse_hex_color("#12345G"), None);
}
