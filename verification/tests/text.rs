use columnar_source::text::{parse_u64, trim, white_space};

#[test]
fn parse_u64_reads_decimal_numbers() {
    assert_eq!(parse_u64("0"), Some(0));
    assert_eq!(parse_u64("7"), Some(7));
    assert_eq!(parse_u64("007"), Some(7));
    assert_eq!(parse_u64("+5"), Some(5));
    assert_eq!(parse_u64("+0"), Some(0));
    assert_eq!(parse_u64("2401231509"), Some(2_401_231_509));
    assert_eq!(parse_u64("18446744073709551615"), Some(u64::MAX));
    assert_eq!(parse_u64("00018446744073709551615"), Some(u64::MAX));
}

#[test]
fn parse_u64_refuses_what_is_no_number() {
    assert_eq!(parse_u64(""), None);
    assert_eq!(parse_u64("+"), None);
    assert_eq!(parse_u64("-"), None);
    assert_eq!(parse_u64("-0"), None);
    assert_eq!(parse_u64("-5"), None);
    assert_eq!(parse_u64("++5"), None);
    assert_eq!(parse_u64("5+"), None);
    assert_eq!(parse_u64(" 5"), None);
    assert_eq!(parse_u64("5 "), None);
    assert_eq!(parse_u64("1_000"), None);
    assert_eq!(parse_u64("12a"), None);
    assert_eq!(parse_u64("NULL"), None);
    assert_eq!(parse_u64("٣"), None);
    assert_eq!(parse_u64("1.0"), None);
}

#[test]
fn parse_u64_refuses_numbers_that_are_too_large() {
    assert_eq!(parse_u64("18446744073709551616"), None);
    assert_eq!(parse_u64("18446744073709551620"), None);
    assert_eq!(parse_u64("99999999999999999999"), None);
    assert_eq!(parse_u64("184467440737095516150"), None);
    assert_eq!(parse_u64("18446744073709551616x"), None);
}

#[test]
fn parse_u64_agrees_with_the_standard_library() {
    let samples = [
        "", "+", "-", "0", "1", "+1", "-1", "00", "+00", "0+", "10", "4294967295", "4294967296",
        "18446744073709551614", "18446744073709551615", "18446744073709551616",
        "28446744073709551615", "1e3", "0x10", " 1", "1 ", "१", "+-1", "9223372036854775808",
    ];
    for sample in samples {
        assert_eq!(parse_u64(sample), sample.parse::<u64>().ok(), "{:?}", sample);
    }
    for n in [0u64, 1, 9, 10, 99, 100, 12345, u64::MAX / 10, u64::MAX - 1, u64::MAX] {
        assert_eq!(parse_u64(&n.to_string()), Some(n));
    }
}

#[test]
fn trim_removes_white_space_at_both_ends() {
    assert_eq!(trim(" Amsterdam"), "Amsterdam");
    assert_eq!(trim("Amsterdam  "), "Amsterdam");
    assert_eq!(trim("\t New  York \r\n"), "New  York");
    assert_eq!(trim("a"), "a");
    assert_eq!(trim(" a b c "), "a b c");
    assert_eq!(trim("\u{3000}東京\u{2003}"), "東京");
    assert_eq!(trim("\u{a0}x\u{85}"), "x");
}

#[test]
fn trim_of_white_space_alone_is_empty() {
    assert_eq!(trim(""), "");
    assert_eq!(trim(" "), "");
    assert_eq!(trim(" \t\n\r\u{2028}\u{2029} "), "");
}

#[test]
fn trim_leaves_other_characters() {
    assert_eq!(trim("\u{200b}x\u{200b}"), "\u{200b}x\u{200b}");
    assert_eq!(trim("\u{feff}x"), "\u{feff}x");
    assert_eq!(trim("\u{1c}x\u{1f}"), "\u{1c}x\u{1f}");
    assert_eq!(trim("_x_"), "_x_");
}

#[test]
fn trim_agrees_with_the_standard_library() {
    let samples = [
        "", " ", "x", " x", "x ", "  x  y  ", "\n\nx\n\n", "\u{1680}x\u{180e}", "\u{2000}\u{200a}",
        "\u{202f}é\u{205f}", "\u{b}\u{c}z", "é", " é ", "\u{2007}1\u{2008}",
    ];
    for sample in samples {
        assert_eq!(trim(sample), sample.trim(), "{:?}", sample);
    }
}

#[test]
fn white_space_agrees_with_the_standard_library() {
    for code in 0u32..0x3100 {
        if let Some(c) = char::from_u32(code) {
            assert_eq!(white_space(c), c.is_whitespace(), "U+{:04X}", code);
        }
    }
    assert!(!white_space('\u{10000}'));
    assert!(!white_space('\u{e0020}'));
}
