use deadlockshock::text::{
    decimal_text, has_prefix, is_blank, is_white_space, parse_unsigned, replace, same_text, trim,
};

#[test]
fn white_space_is_that_of_unicode() {
    for code in 0..=0x10_ffff_u32 {
        if let Some(c) = char::from_u32(code) {
            assert_eq!(is_white_space(c), c.is_whitespace());
        }
    }
}

#[test]
fn texts_are_trimmed_on_both_ends() {
    for text in [
        "",
        " ",
        "a",
        " a b ",
        "\t\r\n x\u{2003}",
        "\u{3000}\u{85}ü \u{a0}",
        "no space",
    ] {
        assert_eq!(trim(text), text.trim());
        assert_eq!(is_blank(text), text.trim().is_empty());
    }
}

#[test]
fn every_occurrence_is_replaced_from_the_left() {
    for (text, needle, with) in [
        ("aaa", "aa", "b"),
        ("aaaa", "aa", "b"),
        ("abcabc", "bc", ""),
        ("abc", "", "-"),
        ("", "", "-"),
        ("", "x", "y"),
        ("xyx", "x", "xx"),
        ("→→", "→", "->"),
    ] {
        assert_eq!(replace(text, needle, with), text.replace(needle, with));
    }
}

#[test]
fn texts_compare_by_characters() {
    assert!(same_text("", ""));
    assert!(same_text("…", "…"));
    assert!(!same_text("a", "ab"));
    assert!(!same_text("ab", "aB"));
    assert!(has_prefix("Intensity", "Intens"));
    assert!(has_prefix("Intensity", ""));
    assert!(!has_prefix("Int", "Intensity"));
}

#[test]
fn numerals_are_written_and_read() {
    for value in [0, 1, 9, 10, 99, 100, 12_345, u64::MAX - 1, u64::MAX] {
        assert_eq!(decimal_text(value as u128), value.to_string());
        assert_eq!(parse_unsigned(&value.to_string()), Some(value));
    }
    assert_eq!(decimal_text(u128::MAX), u128::MAX.to_string());
    for text in [
        "",
        "+",
        "-",
        "+1",
        "++1",
        "-1",
        "-0",
        "007",
        " 1",
        "1 ",
        "1_0",
        "٣",
        "a",
        "18446744073709551616",
        "18446744073709551615",
        "+18446744073709551615",
        "000000000000000000000000000000001",
        "99999999999999999999999999",
    ] {
        assert_eq!(parse_unsigned(text), text.parse::<u64>().ok(), "{text:?}");
    }
}
