use card_service::date::{parse_date, Date};
use card_service::text::{concat_strs, contains_str, parse_i64, str_eq};

#[test]
fn parse_date_plain() {
    assert_eq!(parse_date("2024-01-01"), Some(Date { year: 2024, month: 1, day: 1 }));
    assert_eq!(parse_date("1999-12-31"), Some(Date { year: 1999, month: 12, day: 31 }));
    assert_eq!(parse_date("0001-06-15"), Some(Date { year: 1, month: 6, day: 15 }));
}

#[test]
fn parse_date_leap_years() {
    assert_eq!(parse_date("2024-02-29"), Some(Date { year: 2024, month: 2, day: 29 }));
    assert_eq!(parse_date("2023-02-29"), None);
    assert_eq!(parse_date("2000-02-29"), Some(Date { year: 2000, month: 2, day: 29 }));
    assert_eq!(parse_date("1900-02-29"), None);
}

#[test]
fn parse_date_rejects_bad_shapes() {
    assert_eq!(parse_date(""), None);
    assert_eq!(parse_date("2024-1-1"), None);
    assert_eq!(parse_date("2024/01/01"), None);
    assert_eq!(parse_date("abcd-01-01"), None);
    assert_eq!(parse_date("2024-13-01"), None);
    assert_eq!(parse_date("2024-00-10"), None);
    assert_eq!(parse_date("2024-04-31"), None);
    assert_eq!(parse_date("2024-01-00"), None);
    assert_eq!(parse_date("2024-01-012"), None);
}

#[test]
fn date_validity_rules() {
    assert!(Date { year: 2024, month: 2, day: 29 }.is_valid());
    assert!(!Date { year: 2023, month: 2, day: 29 }.is_valid());
    assert!(!Date { year: 2024, month: 0, day: 1 }.is_valid());
    assert!(Date { year: 2024, month: 12, day: 31 }.is_valid());
    assert!(!Date { year: 2024, month: 11, day: 31 }.is_valid());
}

#[test]
fn parse_i64_plain() {
    assert_eq!(parse_i64("0"), Some(0));
    assert_eq!(parse_i64("123"), Some(123));
    assert_eq!(parse_i64("-5"), Some(-5));
    assert_eq!(parse_i64("+7"), Some(7));
    assert_eq!(parse_i64("007"), Some(7));
}

#[test]
fn parse_i64_bounds() {
    assert_eq!(parse_i64("9223372036854775807"), Some(i64::MAX));
    assert_eq!(parse_i64("9223372036854775808"), None);
    assert_eq!(parse_i64("-9223372036854775808"), Some(i64::MIN));
    assert_eq!(parse_i64("-9223372036854775809"), None);
    assert_eq!(parse_i64("99999999999999999999999999"), None);
}

#[test]
fn parse_i64_rejects_junk() {
    assert_eq!(parse_i64(""), None);
    assert_eq!(parse_i64("-"), None);
    assert_eq!(parse_i64("+"), None);
    assert_eq!(parse_i64("12a"), None);
    assert_eq!(parse_i64("1 2"), None);
    assert_eq!(parse_i64("--4"), None);
}

#[test]
fn string_helpers() {
    assert!(str_eq("card", "card"));
    assert!(!str_eq("card", "cart"));
    assert!(!str_eq("card", "cards"));
    assert_eq!(concat_strs("while creating card", ": detail"), "while creating card: detail");
    assert!(contains_str("cause: invalid type at line 1", "invalid type"));
    assert!(!contains_str("cause: missing field", "invalid type"));
    assert!(contains_str("anything", ""));
}
