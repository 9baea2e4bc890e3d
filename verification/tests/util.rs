use rawrcore::util::{join, parse_i64, parse_u16, parse_u32, same_text, split_on_space, text_pair};

fn numerals() -> Vec<&'static str> {
    vec![
        "", "0", "7", "42", "-7", "+5", "-", "+", "--1", "+-1", "-+1", "4x", "x4", " 4", "4 ",
        "1_000", "007", "-0", "+0", "65535", "65536", "4294967295", "4294967296",
        "9223372036854775807", "9223372036854775808", "-9223372036854775808",
        "-9223372036854775809", "18446744073709551615", "18446744073709551616",
        "99999999999999999999999999", "99999999999999999999999999x", "1.5", "0x10", "１２",
        "é", "12é",
    ]
}

#[test]
fn parse_i64_reads_signed_numerals() {
    assert_eq!(parse_i64("42"), Some(42));
    assert_eq!(parse_i64("-7"), Some(-7));
    assert_eq!(parse_i64("+5"), Some(5));
    assert_eq!(parse_i64("-0"), Some(0));
    assert_eq!(parse_i64("9223372036854775807"), Some(i64::MAX));
    assert_eq!(parse_i64("-9223372036854775808"), Some(i64::MIN));
}

#[test]
fn parse_i64_refuses_what_is_no_numeral_or_does_not_fit() {
    assert_eq!(parse_i64(""), None);
    assert_eq!(parse_i64("-"), None);
    assert_eq!(parse_i64("+"), None);
    assert_eq!(parse_i64(" 4"), None);
    assert_eq!(parse_i64("4 "), None);
    assert_eq!(parse_i64("4x"), None);
    assert_eq!(parse_i64("9223372036854775808"), None);
    assert_eq!(parse_i64("-9223372036854775809"), None);
}

#[test]
fn parse_i64_agrees_with_std() {
    for text in numerals() {
        assert_eq!(parse_i64(text), text.parse::<i64>().ok(), "{:?}", text);
    }
}

#[test]
fn parse_u32_agrees_with_std() {
    for text in numerals() {
        assert_eq!(parse_u32(text), text.parse::<u32>().ok(), "{:?}", text);
    }
}

#[test]
fn parse_u16_agrees_with_std() {
    for text in numerals() {
        assert_eq!(parse_u16(text), text.parse::<u16>().ok(), "{:?}", text);
    }
}

#[test]
fn parse_unsigned_refuses_a_minus_sign() {
    assert_eq!(parse_u32("-0"), None);
    assert_eq!(parse_u16("-1"), None);
    assert_eq!(parse_u32("4294967295"), Some(u32::MAX));
    assert_eq!(parse_u32("4294967296"), None);
    assert_eq!(parse_u16("65535"), Some(u16::MAX));
    assert_eq!(parse_u16("65536"), None);
}

#[test]
fn split_on_space_cuts_at_every_space() {
    assert_eq!(split_on_space("read write"), vec!["read".to_string(), "write".to_string()]);
    assert_eq!(split_on_space("read"), vec!["read".to_string()]);
    assert_eq!(split_on_space(""), vec!["".to_string()]);
    assert_eq!(
        split_on_space(" a  b "),
        vec!["".to_string(), "a".to_string(), "".to_string(), "b".to_string(), "".to_string()]
    );
}

#[test]
fn split_on_space_agrees_with_std() {
    for text in ["", " ", "  ", "a", "a b", " a", "a ", "a  b", "identity edit flair", "é ü \t x"] {
        let expected: Vec<String> = text.split(' ').map(|piece| piece.to_string()).collect();
        assert_eq!(split_on_space(text), expected, "{:?}", text);
    }
}

#[test]
fn join_puts_the_separator_between_neighbours() {
    assert_eq!(join(&vec![], " "), "");
    assert_eq!(join(&vec!["read".to_string()], " "), "read");
    assert_eq!(join(&vec!["read".to_string(), "write".to_string()], " "), "read write");
    assert_eq!(join(&vec!["a".to_string(), "".to_string(), "b".to_string()], ", "), "a, , b");
}

#[test]
fn join_undoes_split_on_space() {
    for text in ["", " ", "a b", " a  b ", "identity edit flair"] {
        assert_eq!(join(&split_on_space(text), " "), text);
    }
}

#[test]
fn same_text_compares_characters() {
    assert!(same_text("temporary", "temporary"));
    assert!(!same_text("temporary", "permanent"));
    assert!(!same_text("temporary", "temporar"));
    assert!(same_text("", ""));
}

#[test]
fn text_pair_owns_both_texts() {
    assert_eq!(text_pair("scope", "read write"), ("scope".to_string(), "read write".to_string()));
}
