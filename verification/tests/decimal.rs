use stockpile::decimal::{concurrency_bound, fmt_u64, parse_usize};

#[test]
fn numbers_render_in_decimal() {
    assert_eq!(fmt_u64(0), "0");
    assert_eq!(fmt_u64(7), "7");
    assert_eq!(fmt_u64(10), "10");
    assert_eq!(fmt_u64(200), "200");
    assert_eq!(fmt_u64(18446744073709551615), "18446744073709551615");
}

#[test]
fn digit_strings_parse_to_their_value() {
    assert_eq!(parse_usize("0"), Some(0));
    assert_eq!(parse_usize("50"), Some(50));
    assert_eq!(parse_usize("007"), Some(7));
    assert_eq!(parse_usize("4294967295"), Some(4294967295));
}

#[test]
fn malformed_numbers_do_not_parse() {
    assert_eq!(parse_usize(""), None);
    assert_eq!(parse_usize("abc"), None);
    assert_eq!(parse_usize("12x"), None);
    assert_eq!(parse_usize("-1"), None);
    assert_eq!(parse_usize(" 5"), None);
}

#[test]
fn oversized_numbers_do_not_parse() {
    assert_eq!(parse_usize("99999999999999999999999999"), None);
}

#[test]
fn parsing_round_trips_rendering() {
    for n in [0u64, 1, 9, 10, 50, 12345] {
        assert_eq!(parse_usize(&fmt_u64(n)), Some(n as usize));
    }
}

#[test]
fn concurrency_bound_defaults_to_fifty() {
    assert_eq!(concurrency_bound(None), 50);
    assert_eq!(concurrency_bound(Some("".to_string())), 50);
    assert_eq!(concurrency_bound(Some("many".to_string())), 50);
    assert_eq!(concurrency_bound(Some("8".to_string())), 8);
    assert_eq!(concurrency_bound(Some("1".to_string())), 1);
}
