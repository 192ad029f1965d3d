use grim::gui::views::input::{begins_with, parse_unsigned, same_text};

#[test]
fn digits_are_read_as_their_number() {
    assert_eq!(parse_unsigned("0", u64::MAX), Some(0));
    assert_eq!(parse_unsigned("7", u64::MAX), Some(7));
    assert_eq!(parse_unsigned("500000", u64::MAX), Some(500_000));
    assert_eq!(parse_unsigned("007", u64::MAX), Some(7));
    assert_eq!(parse_unsigned("18446744073709551615", u64::MAX), Some(u64::MAX));
}

#[test]
fn a_plus_sign_may_lead() {
    assert_eq!(parse_unsigned("+12", u64::MAX), Some(12));
    assert_eq!(parse_unsigned("+0", 0), Some(0));
    assert_eq!(parse_unsigned("+", u64::MAX), None);
    assert_eq!(parse_unsigned("++1", u64::MAX), None);
    assert_eq!(parse_unsigned("1+", u64::MAX), None);
}

#[test]
fn text_that_is_no_number_is_refused() {
    for text in ["", " ", "-1", "-0", "1 ", " 1", "1.0", "1e3", "0x10", "1_000", "abc", "٣", "１２"] {
        assert_eq!(parse_unsigned(text, u64::MAX), None, "{:?}", text);
    }
}

#[test]
fn numbers_above_the_limit_are_refused() {
    assert_eq!(parse_unsigned("18446744073709551616", u64::MAX), None);
    assert_eq!(parse_unsigned("99999999999999999999999", u64::MAX), None);
    assert_eq!(parse_unsigned("4294967295", u32::MAX as u64), Some(4_294_967_295));
    assert_eq!(parse_unsigned("4294967296", u32::MAX as u64), None);
    assert_eq!(parse_unsigned("6", 5), None);
    assert_eq!(parse_unsigned("5", 5), Some(5));
    assert_eq!(parse_unsigned("10", 9), None);
    assert_eq!(parse_unsigned("1", 0), None);
}

#[test]
fn the_standard_library_reads_the_same() {
    let texts = [
        "", "+", "-", "0", "+0", "-0", "00", "12", "+12", "-12", "1a", "a1", " 12", "12 ", "1 2",
        "4294967295", "4294967296", "18446744073709551615", "18446744073709551616",
        "000000000000000000000000000001", "+18446744073709551615", "1.5", "١٢", "1\n", "٠",
    ];
    for text in texts {
        assert_eq!(parse_unsigned(text, u64::MAX), text.parse::<u64>().ok(), "{:?}", text);
        assert_eq!(
            parse_unsigned(text, u32::MAX as u64),
            text.parse::<u32>().ok().map(u64::from),
            "{:?}",
            text
        );
        assert_eq!(
            parse_unsigned(text, usize::MAX as u64),
            text.parse::<usize>().ok().map(|n| n as u64),
            "{:?}",
            text
        );
    }
}

#[test]
fn a_text_begins_with_its_prefixes() {
    assert!(begins_with("http://a", "http"));
    assert!(begins_with("https", "http"));
    assert!(begins_with("http", "http"));
    assert!(begins_with("http", ""));
    assert!(begins_with("", ""));
    assert!(!begins_with("htt", "http"));
    assert!(!begins_with("", "http"));
    assert!(!begins_with("xhttp", "http"));
    assert!(!begins_with("Http://a", "http"));
    assert!(begins_with("äöü", "äö"));
    assert!(!begins_with("äöü", "aö"));
    for (text, prefix) in [("grin", "gr"), ("grin", "in"), ("ギリン", "ギ"), ("a", "ab")] {
        assert_eq!(begins_with(text, prefix), text.starts_with(prefix));
    }
}

#[test]
fn texts_are_the_same_when_every_character_is() {
    assert!(same_text("ftl", "ftl"));
    assert!(same_text("", ""));
    assert!(!same_text("ftl", "ftl "));
    assert!(!same_text("ftl", "FTL"));
    assert!(!same_text("", "a"));
}
