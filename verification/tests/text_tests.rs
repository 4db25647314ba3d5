use fhc::text::{chars_of, count_newlines, count_words, parse_u64, split_on_commas, to_decimal};

#[test]
fn decimal_rendering() {
    assert_eq!(to_decimal(0), "0");
    assert_eq!(to_decimal(7), "7");
    assert_eq!(to_decimal(404), "404");
    assert_eq!(to_decimal(1048576), "1048576");
    assert_eq!(to_decimal(u64::MAX), "18446744073709551615");
}

#[test]
fn parse_plain_numbers() {
    assert_eq!(parse_u64("0"), Some(0));
    assert_eq!(parse_u64("42"), Some(42));
    assert_eq!(parse_u64("0042"), Some(42));
    assert_eq!(parse_u64("+7"), Some(7));
    assert_eq!(parse_u64("18446744073709551615"), Some(u64::MAX));
}

#[test]
fn parse_rejects_malformed() {
    assert_eq!(parse_u64(""), None);
    assert_eq!(parse_u64("+"), None);
    assert_eq!(parse_u64("12a"), None);
    assert_eq!(parse_u64("-1"), None);
    assert_eq!(parse_u64(" 5"), None);
    assert_eq!(parse_u64("18446744073709551616"), None);
    assert_eq!(parse_u64("99999999999999999999999999"), None);
}

#[test]
fn parse_of_rendered_value_round_trips() {
    for n in [0u64, 1, 9, 10, 99, 100, 404, 65535, u64::MAX] {
        assert_eq!(parse_u64(&to_decimal(n)), Some(n));
    }
}

#[test]
fn chars_of_keeps_order() {
    assert_eq!(chars_of("abc"), vec!['a', 'b', 'c']);
    assert_eq!(chars_of(""), Vec::<char>::new());
    assert_eq!(chars_of("héllo"), vec!['h', 'é', 'l', 'l', 'o']);
}

#[test]
fn word_counting() {
    assert_eq!(count_words(&chars_of("Hello world")), 2);
    assert_eq!(count_words(&chars_of("")), 0);
    assert_eq!(count_words(&chars_of("   ")), 0);
    assert_eq!(count_words(&chars_of("  a  b ")), 2);
    assert_eq!(count_words(&chars_of("one\ntwo\tthree four")), 4);
    assert_eq!(count_words(&chars_of("solo")), 1);
}

#[test]
fn newline_counting() {
    assert_eq!(count_newlines(&chars_of("")), 0);
    assert_eq!(count_newlines(&chars_of("no newline")), 0);
    assert_eq!(count_newlines(&chars_of("a\nb")), 1);
    assert_eq!(count_newlines(&chars_of("a\nb\n")), 2);
}

#[test]
fn comma_splitting() {
    assert_eq!(split_on_commas("200,301"), vec!["200", "301"]);
    assert_eq!(split_on_commas(""), vec![""]);
    assert_eq!(split_on_commas("404"), vec!["404"]);
    assert_eq!(split_on_commas(",404,"), vec!["", "404", ""]);
}
