use chrono::Datelike;
use fakelake::providers::provider::Value;
use fakelake::providers::strings::{random_alphanumeric, random_characters};
use fakelake::rows::render_value;
use fakelake::text::{
    i64_to_string, parse_i64, parse_u32, remove_char, str_eq, to_ascii_lowercase, u64_to_string,
};

#[test]
fn decimal_rendering_matches_expectations() {
    assert_eq!(u64_to_string(0), "0");
    assert_eq!(u64_to_string(7), "7");
    assert_eq!(u64_to_string(1234567890), "1234567890");
    assert_eq!(u64_to_string(u64::MAX), "18446744073709551615");
    assert_eq!(i64_to_string(-1), "-1");
    assert_eq!(i64_to_string(i64::MIN), "-9223372036854775808");
    assert_eq!(i64_to_string(i64::MAX), "9223372036854775807");
}

#[test]
fn unsigned_parse_accepts_digits_and_rejects_the_rest() {
    assert_eq!(parse_u32("0"), Some(0));
    assert_eq!(parse_u32("+15"), Some(15));
    assert_eq!(parse_u32("4294967295"), Some(u32::MAX));
    assert_eq!(parse_u32("4294967296"), None);
    assert_eq!(parse_u32(""), None);
    assert_eq!(parse_u32("-1"), None);
    assert_eq!(parse_u32("12a"), None);
}

#[test]
fn signed_parse_covers_the_whole_range() {
    assert_eq!(parse_i64("-9223372036854775808"), Some(i64::MIN));
    assert_eq!(parse_i64("9223372036854775807"), Some(i64::MAX));
    assert_eq!(parse_i64("9223372036854775808"), None);
    assert_eq!(parse_i64("-9223372036854775809"), None);
    assert_eq!(parse_i64("+42"), Some(42));
    assert_eq!(parse_i64("--1"), None);
}

#[test]
fn separator_removal_and_case_folding() {
    assert_eq!(remove_char("1_000_000", '_'), "1000000");
    assert_eq!(to_ascii_lowercase("Random.Number.I32"), "random.number.i32");
    assert!(str_eq("abc", "abc"));
    assert!(!str_eq("abc", "abd"));
}

#[test]
fn given_0_random_alphanumeric_should_receive_empty_string() {
    assert_eq!(random_alphanumeric(0), "");
}

#[test]
fn given_0_random_characters_should_receive_empty_string() {
    assert_eq!(random_characters(0), "");
}

#[test]
fn given_x_random_alphanumeric_should_have_string_of_length_x() {
    let values_to_check = [4, 27, 50];
    for length in values_to_check {
        let generated_string = random_alphanumeric(length);
        assert_eq!(generated_string.chars().count(), length as usize);
        assert!(generated_string.chars().all(|c| c.is_ascii_alphanumeric()));
    }
}

#[test]
fn given_x_random_characters_should_have_string_of_length_x() {
    let values_to_check = [4, 27, 50];
    for length in values_to_check {
        let generated_string = random_characters(length);
        assert_eq!(
            generated_string.chars().count(),
            usize::try_from(length).unwrap()
        );
    }
}

#[test]
fn rendering_covers_every_value_kind() {
    assert_eq!(render_value(&Value::Bool(true)), "true");
    assert_eq!(render_value(&Value::Bool(false)), "false");
    assert_eq!(render_value(&Value::Int32(-42)), "-42");
    assert_eq!(render_value(&Value::Str("plain".to_string())), "plain");
    let days = chrono::NaiveDate::parse_from_str("2020-01-14", "%Y-%m-%d")
        .unwrap()
        .num_days_from_ce();
    assert_eq!(
        render_value(&Value::Date(days, "%Y-%m-%d".to_string())),
        "2020-01-14"
    );
    assert_eq!(
        render_value(&Value::Date(days, "%d/%m/%Y".to_string())),
        "14/01/2020"
    );
    let secs = chrono::NaiveDateTime::parse_from_str("2020-01-14 10:11:12", "%Y-%m-%d %H:%M:%S")
        .unwrap()
        .and_utc()
        .timestamp();
    assert_eq!(
        render_value(&Value::Timestamp(secs, "%Y-%m-%d %H:%M:%S".to_string())),
        "2020-01-14 10:11:12"
    );
}
