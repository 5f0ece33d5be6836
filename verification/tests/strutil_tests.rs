use nautilus::strutil::clean_username;
use nautilus::strutil::format_slug;
use nautilus::strutil::parse_i64;
use nautilus::strutil::u64_to_decimal;

#[test]
fn decimal_rendering_is_exact() {
    assert_eq!(u64_to_decimal(0), "0");
    assert_eq!(u64_to_decimal(7), "7");
    assert_eq!(u64_to_decimal(10), "10");
    assert_eq!(u64_to_decimal(12345), "12345");
    assert_eq!(u64_to_decimal(u64::MAX), "18446744073709551615");
}

#[test]
fn plain_integers_parse() {
    assert_eq!(parse_i64("0"), Some(0));
    assert_eq!(parse_i64("123"), Some(123));
    assert_eq!(parse_i64("-45"), Some(-45));
    assert_eq!(parse_i64("+7"), Some(7));
}

#[test]
fn extreme_values_parse_exactly_to_the_bounds() {
    assert_eq!(parse_i64("9223372036854775807"), Some(i64::MAX));
    assert_eq!(parse_i64("-9223372036854775808"), Some(i64::MIN));
    assert_eq!(parse_i64("9223372036854775808"), None);
    assert_eq!(parse_i64("-9223372036854775809"), None);
}

#[test]
fn garbage_does_not_parse() {
    assert_eq!(parse_i64(""), None);
    assert_eq!(parse_i64("-"), None);
    assert_eq!(parse_i64("+"), None);
    assert_eq!(parse_i64("--1"), None);
    assert_eq!(parse_i64("12a"), None);
    assert_eq!(parse_i64("1 2"), None);
    assert_eq!(parse_i64("1.5"), None);
}

#[test]
fn slugs_keep_letters_digits_and_dashes() {
    assert_eq!(format_slug("Hello World!".to_string()), "hello-world");
    assert_eq!(format_slug("ABC-def 123".to_string()), "abc-def-123");
    assert_eq!(format_slug("".to_string()), "");
    assert_eq!(format_slug("___".to_string()), "");
}

#[test]
fn usernames_are_cleaned_like_slugs() {
    assert_eq!(clean_username("Frank Ocean_99".to_string()), "frank-ocean99");
    assert_eq!(clean_username("JaneDoe42".to_string()), "janedoe42");
}
