use pomodoro::text::characters;
use pomodoro::text::is_space;
use pomodoro::text::parse_number;
use pomodoro::text::trim;

#[test]
fn characters_keeps_order_and_content() {
    assert_eq!(characters("a b"), vec!['a', ' ', 'b']);
    assert_eq!(characters(""), Vec::<char>::new());
    assert_eq!(characters("\u{e9}\u{4e16}"), vec!['\u{e9}', '\u{4e16}']);
}

#[test]
fn is_space_agrees_with_std_on_every_char() {
    let mut code: u32 = 0;
    while code <= 0x10FFFF {
        if let Some(c) = char::from_u32(code) {
            assert_eq!(is_space(c), c.is_whitespace(), "U+{:04X}", code);
        }
        code += 1;
    }
}

#[test]
fn is_space_on_named_characters() {
    assert!(is_space(' '));
    assert!(is_space('\t'));
    assert!(is_space('\n'));
    assert!(is_space('\r'));
    assert!(is_space('\u{A0}'));
    assert!(is_space('\u{3000}'));
    assert!(!is_space('p'));
    assert!(!is_space('0'));
    assert!(!is_space('\u{200B}'));
}

#[test]
fn trim_strips_both_ends() {
    assert_eq!(trim("  p \n"), "p");
    assert_eq!(trim("\t25\r\n"), "25");
    assert_eq!(trim("q"), "q");
}

#[test]
fn trim_keeps_white_space_inside() {
    assert_eq!(trim("  a b  "), "a b");
    assert_eq!(trim("\u{3000}a\u{A0}b\u{2003}"), "a\u{A0}b");
}

#[test]
fn trim_of_blank_is_empty() {
    assert_eq!(trim(""), "");
    assert_eq!(trim("   "), "");
    assert_eq!(trim("\n"), "");
    assert_eq!(trim(" \t\r\n\u{85}\u{2028}"), "");
}

#[test]
fn trim_agrees_with_std() {
    let samples = [
        "",
        " ",
        "p",
        " p",
        "p ",
        "  p  ",
        "\tq\n",
        " a  b ",
        "\u{1680}x\u{205F}",
        "\u{e9}t\u{e9} ",
        " \u{4e16}\u{754c} ",
        "\u{200B}p\u{200B}",
        "\u{FEFF}p",
        "   25   ",
        "\r\n",
    ];
    for s in samples {
        assert_eq!(trim(s), s.trim(), "{:?}", s);
    }
}

#[test]
fn parse_number_reads_plain_digits() {
    assert_eq!(parse_number("25"), Some(25));
    assert_eq!(parse_number("5"), Some(5));
    assert_eq!(parse_number("0"), Some(0));
    assert_eq!(parse_number("1234567890"), Some(1234567890));
}

#[test]
fn parse_number_accepts_plus_sign_and_leading_zeros() {
    assert_eq!(parse_number("+5"), Some(5));
    assert_eq!(parse_number("007"), Some(7));
    assert_eq!(parse_number("+000"), Some(0));
}

#[test]
fn parse_number_rejects_what_is_no_number() {
    assert_eq!(parse_number(""), None);
    assert_eq!(parse_number("+"), None);
    assert_eq!(parse_number("-5"), None);
    assert_eq!(parse_number("++5"), None);
    assert_eq!(parse_number("5+"), None);
    assert_eq!(parse_number("12a"), None);
    assert_eq!(parse_number("a12"), None);
    assert_eq!(parse_number("1 2"), None);
    assert_eq!(parse_number(" 5"), None);
    assert_eq!(parse_number("5 "), None);
    assert_eq!(parse_number("1_000"), None);
    assert_eq!(parse_number("2.5"), None);
    assert_eq!(parse_number("\u{FF15}"), None);
    assert_eq!(parse_number("\u{0665}"), None);
    assert_eq!(parse_number("abc"), None);
}

#[test]
fn parse_number_at_the_limit() {
    assert_eq!(parse_number("18446744073709551615"), Some(u64::MAX));
    assert_eq!(parse_number("18446744073709551616"), None);
    assert_eq!(parse_number("18446744073709551620"), None);
    assert_eq!(parse_number("99999999999999999999"), None);
    assert_eq!(parse_number("184467440737095516150"), None);
    assert_eq!(parse_number("00018446744073709551615"), Some(u64::MAX));
    assert_eq!(parse_number("+18446744073709551615"), Some(u64::MAX));
}

#[test]
fn parse_number_rejects_overflow_before_a_bad_character() {
    assert_eq!(parse_number("99999999999999999999x"), None);
    assert_eq!(parse_number("18446744073709551616 "), None);
}

#[test]
fn parse_number_agrees_with_std() {
    let samples = [
        "", "0", "1", "25", "+25", "-25", "+", "-", "+-1", "00", "0x10", "1e3", " 1", "1 ", "9",
        "18446744073709551615", "18446744073709551616", "18446744073709551614",
        "28446744073709551615", "1844674407370955161", "+0", "12345678901234567890", "a",
        "\u{0663}", "4\u{20e3}", "1,000", "1\n",
    ];
    for s in samples {
        assert_eq!(parse_number(s), s.parse::<u64>().ok(), "{:?}", s);
    }
}
