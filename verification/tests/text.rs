use finance_suite::text::{
    char_is_whitespace, chars_of, joined, parse_amount, parse_flag, same_text, text_is_blank,
    to_decimal,
};

#[test]
fn white_space_is_what_the_standard_library_says() {
    let mut code = 0u32;
    while code <= 0x10ffff {
        if let Some(c) = char::from_u32(code) {
            assert_eq!(char_is_whitespace(c), c.is_whitespace(), "U+{:04X}", code);
        }
        code += 1;
    }
}

#[test]
fn blank_is_what_trims_to_nothing() {
    let texts = [
        "",
        " ",
        "\t\r\n",
        "\u{a0}\u{2003}\u{3000}",
        "a",
        " a ",
        "\u{200b}",
        "  .",
        "\u{feff}",
        "\u{85}\u{1680}\u{2028}\u{2029}\u{202f}\u{205f}",
        "\u{180e}",
    ];
    for text in texts {
        assert_eq!(text_is_blank(text), text.trim().is_empty(), "{:?}", text);
    }
    assert!(text_is_blank(""));
    assert!(text_is_blank(" \t"));
    assert!(!text_is_blank(" x "));
}

#[test]
fn chars_are_listed_in_order() {
    assert_eq!(chars_of("a\u{20ac}z"), vec!['a', '\u{20ac}', 'z']);
    assert!(chars_of("").is_empty());
}

#[test]
fn flags_are_true_and_false_only() {
    assert_eq!(parse_flag("true"), Some(true));
    assert_eq!(parse_flag("false"), Some(false));
    for text in ["", "True", "TRUE", "1", "0", "yes", " true", "true ", "truefalse"] {
        assert_eq!(parse_flag(text), None, "{:?}", text);
        assert_eq!(parse_flag(text), text.parse::<bool>().ok(), "{:?}", text);
    }
}

#[test]
fn amounts_are_read_in_hundredths() {
    assert_eq!(parse_amount("0"), Some(0));
    assert_eq!(parse_amount("100"), Some(10_000));
    assert_eq!(parse_amount("12.5"), Some(1_250));
    assert_eq!(parse_amount("12.50"), Some(1_250));
    assert_eq!(parse_amount("12.05"), Some(1_205));
    assert_eq!(parse_amount("0.07"), Some(7));
    assert_eq!(parse_amount("007.10"), Some(710));
    assert_eq!(parse_amount("+3.20"), Some(320));
    assert_eq!(parse_amount("-0.07"), Some(-7));
    assert_eq!(parse_amount("-12"), Some(-1_200));
    assert_eq!(parse_amount("-0"), Some(0));
    assert_eq!(parse_amount("0.0"), Some(0));
}

#[test]
fn texts_that_are_no_amounts_are_refused() {
    for text in [
        "", "+", "-", ".", ".5", "5.", "1.234", "1.2.3", "1,5", "1e3", "0x10", " 1", "1 ", "--1",
        "+-1", "1-", "12a", "a12", "1.a", "1.2a", "inf", "NaN", "\u{0661}", "1._", "1.-5",
    ] {
        assert_eq!(parse_amount(text), None, "{:?}", text);
    }
}

#[test]
fn amounts_at_the_limits_of_the_machine() {
    assert_eq!(parse_amount("92233720368547758.07"), Some(i64::MAX));
    assert_eq!(parse_amount("92233720368547758.08"), None);
    assert_eq!(parse_amount("-92233720368547758.08"), Some(i64::MIN));
    assert_eq!(parse_amount("-92233720368547758.09"), None);
    assert_eq!(parse_amount("92233720368547759"), None);
    assert_eq!(parse_amount("184467440737095516.16"), None);
    assert_eq!(parse_amount("99999999999999999999999999999999999999999999"), None);
    assert_eq!(parse_amount("-99999999999999999999999999999999999999999999.99"), None);
    assert_eq!(parse_amount("000000000000000000000000000000000000000000001"), Some(100));
}

#[test]
fn whole_amounts_agree_with_integer_parsing() {
    for text in ["0", "7", "42", "-42", "+42", "9000000", "-1", "0012", "", "-", "+", "4 2", "x"] {
        let expected = text.parse::<i64>().ok().map(|n| n * 100);
        assert_eq!(parse_amount(text), expected, "{:?}", text);
    }
}

#[test]
fn numbers_are_written_in_base_ten() {
    for n in [0u128, 1, 9, 10, 11, 99, 100, 101, 12_345, u64::MAX as u128, u128::MAX] {
        assert_eq!(to_decimal(n), n.to_string());
    }
}

#[test]
fn texts_are_joined() {
    assert_eq!(joined("ab", "cd"), "abcd");
    assert_eq!(joined("", "cd"), "cd");
    assert_eq!(joined("ab", ""), "ab");
}

#[test]
fn texts_are_the_same_when_each_character_is() {
    let texts = ["", "a", "ab", "ba", "abc", "A", "\u{e9}", "e\u{301}", "a ", " a", "\u{20ac}1"];
    for a in texts {
        for b in texts {
            assert_eq!(same_text(a, b), a == b, "{:?} {:?}", a, b);
        }
    }
}
