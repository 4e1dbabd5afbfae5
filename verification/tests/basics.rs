use remux_sync::http::Status;
use remux_sync::json::{
    deserialize_opt_i64_flexible, deserialize_opt_string_or_number, field, string_field, Scalar,
};
use remux_sync::progress::Progress;
use remux_sync::text::{clean_credential, text_eq};
use remux_sync::time::{calendar_year, is_within, to_ticks, Moment, TickUnit, Timestamp};

fn pct(x: f64) -> Progress {
    Progress { bits: x.to_bits() }
}

fn json(text: &str) -> serde_json::Value {
    serde_json::from_str(text).unwrap()
}

#[test]
fn credentials_lose_quotes_and_space() {
    assert_eq!(clean_credential("  \"abc\"  "), "abc");
    assert_eq!(clean_credential("' abc '"), "abc");
    assert_eq!(clean_credential("\"'abc'\""), "abc");
    assert_eq!(clean_credential("\u{a0}abc\u{3000}"), "abc");
    assert_eq!(clean_credential("a \"b\" c"), "a \"b\" c");
    // Quotes are dropped in one order only.
    assert_eq!(clean_credential("'\"abc\"'"), "\"abc\"");
    assert_eq!(clean_credential(" \" ' \" "), "'");
    assert_eq!(clean_credential(" \"'' \" "), "");
    assert_eq!(clean_credential(" \"\" "), "");
}

#[test]
fn texts_are_compared_exactly() {
    assert!(text_eq("", ""));
    assert!(text_eq("na\u{ef}ve", "na\u{ef}ve"));
    assert!(!text_eq("a", "A"));
    assert!(!text_eq("a", "ab"));
    assert!(!text_eq("ab", "a"));
}

#[test]
fn identifiers_may_be_strings_or_numbers() {
    let text = |s: &str| deserialize_opt_string_or_number(Some(&json(s)));
    assert_eq!(text("\"tt1\""), Some("tt1".to_string()));
    assert_eq!(text("\" tt1 \""), Some(" tt1 ".to_string()));
    assert_eq!(text("558449"), Some("558449".to_string()));
    assert_eq!(text("1.5"), Some("1.5".to_string()));
    assert_eq!(text("\"  \""), None);
    assert_eq!(text("null"), None);
    assert_eq!(text("true"), None);
    assert_eq!(text("[1]"), None);
    assert_eq!(deserialize_opt_string_or_number(None), None);
}

#[test]
fn integers_may_be_strings_or_numbers() {
    let int = |s: &str| deserialize_opt_i64_flexible(Some(&json(s)));
    assert_eq!(int("39687"), Some(39687));
    assert_eq!(int("\"39687\""), Some(39687));
    assert_eq!(int("\"-7\""), Some(-7));
    assert_eq!(int("\"+7\""), Some(7));
    assert_eq!(int("\" 7\""), None);
    assert_eq!(int("\"7.0\""), None);
    assert_eq!(int("\"\""), None);
    assert_eq!(int("7.5"), None);
    assert_eq!(int("18446744073709551615"), None);
    assert_eq!(int("\"9223372036854775808\""), None);
    assert_eq!(int("\"-9223372036854775808\""), Some(i64::MIN));
    assert_eq!(int("{}"), None);
    assert_eq!(deserialize_opt_i64_flexible(None), None);
}

#[test]
fn fields_are_found_by_name() {
    let value = json(r#"{"message": "no", "code": 7}"#);
    assert_eq!(string_field(&value, "message"), Some("no".to_string()));
    assert_eq!(string_field(&value, "code"), None);
    assert_eq!(string_field(&value, "other"), None);
    match field(&value, "code") {
        Some(Scalar::Number { notation, integer }) => {
            assert_eq!(notation, "7");
            assert_eq!(integer, Some(7));
        }
        other => panic!("unexpected field: {:?}", other),
    }
    assert!(field(&json("[]"), "code").is_none());
}

#[test]
fn percentages_are_ordered_as_numbers() {
    let numbers = [f64::NEG_INFINITY, -100.0, -0.5, -0.0, 0.0, 1e-300, 50.0, 100.0, 1e300, f64::INFINITY];
    for x in numbers {
        for y in numbers {
            assert_eq!(pct(x).reaches(pct(y)), x >= y);
            assert_eq!(f64::from_bits(pct(x).max(pct(y)).bits), x.max(y));
        }
        assert_eq!(f64::from_bits(pct(x).clamp_percent().bits), x.clamp(0.0, 100.0));
        let once = pct(x).clamp_percent();
        assert_eq!(once.clamp_percent(), once);
        assert!(!pct(f64::NAN).reaches(pct(x)));
        assert!(!pct(x).reaches(pct(f64::NAN)));
        assert_eq!(pct(f64::NAN).max(pct(x)), pct(x));
        assert_eq!(pct(x).max(pct(f64::NAN)), pct(x));
    }
    assert!(f64::from_bits(pct(f64::NAN).clamp_percent().bits).is_nan());
}

#[test]
fn ticks_are_ten_million_to_the_second() {
    assert_eq!(to_ticks(3, TickUnit::Seconds), Some(30_000_000));
    assert_eq!(to_ticks(120, TickUnit::Minutes), Some(72_000_000_000));
    assert_eq!(to_ticks(-1, TickUnit::Minutes), Some(-600_000_000));
    assert_eq!(to_ticks(i64::MAX / 10_000_000 + 1, TickUnit::Seconds), None);
    assert_eq!(to_ticks(i64::MIN, TickUnit::Minutes), None);
}

#[test]
fn timestamps_are_ordered() {
    let at = |secs: i64, nanos: u32| Timestamp { secs, nanos };
    assert!(at(2, 0).is_after(at(1, 999)));
    assert!(at(1, 2).is_after(at(1, 1)));
    assert!(!at(1, 1).is_after(at(1, 1)));
    assert!(!at(-2, 5).is_after(at(-1, 0)));
}

#[test]
fn intervals_end_exactly() {
    let at = |nanos: u64| Moment { nanos };
    assert!(is_within(at(0), at(4_999_999_999), 5));
    assert!(!is_within(at(0), at(5_000_000_000), 5));
    assert!(!is_within(at(0), at(0), 0));
    // A clock that seems to run backwards has not moved.
    assert!(is_within(at(9), at(3), 1));
    assert!(is_within(at(0), at(u64::MAX), u64::MAX));
}

#[test]
fn calendar_years_follow_the_gregorian_calendar() {
    let year = |secs: i64| calendar_year(Timestamp { secs, nanos: 0 });
    assert_eq!(year(0), Some(1970));
    assert_eq!(year(-1), Some(1969));
    assert_eq!(year(31_535_999), Some(1970));
    assert_eq!(year(31_536_000), Some(1971));
    assert_eq!(year(951_782_400), Some(2000)); // 29 February
    assert_eq!(year(820_454_399), Some(1995));
    assert_eq!(year(820_454_400), Some(1996));
    assert_eq!(year(-62_135_596_800), Some(1));
    assert_eq!(year(-62_135_596_801), Some(0));
    assert_eq!(year(8_210_266_876_799), Some(262_142));
    assert_eq!(year(8_210_266_876_800), None);
    assert_eq!(year(-8_334_601_228_800), Some(-262_143));
    assert_eq!(year(-8_334_601_228_801), None);
    assert_eq!(year(i64::MAX), None);
}

#[test]
fn status_codes_have_a_range_and_a_reason() {
    assert!(Status::from_u16(99).is_none());
    assert!(Status::from_u16(1000).is_none());
    let ok = Status::from_u16(200).unwrap();
    assert!(ok.is_success());
    assert_eq!(ok.as_u16(), 200);
    assert_eq!(ok.line(), "200 OK");
    assert!(Status::from_u16(299).unwrap().is_success());
    assert!(!Status::from_u16(300).unwrap().is_success());
    assert!(!Status::from_u16(199).unwrap().is_success());
    assert_eq!(Status::from_u16(401).unwrap().line(), "401 Unauthorized");
    assert_eq!(Status::from_u16(999).unwrap().line(), "999 <unknown status code>");
}
