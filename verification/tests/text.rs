use argon_utils::device::celsius::{tenths_of, to_degrees};
use argon_utils::device::config::ConfigError;
use argon_utils::json::Json;
use argon_utils::text::{
    contains, decimal_of, hex_joined, hex_list_of, hex_of, is_control, is_whitespace,
    join_all, left_aligned, lines_of, padded_of, parse_number, parse_signed, plus_decimal_of,
    right_aligned, rsplit_once, same_ignoring_case, signed_decimal_of, split_once, starts_with,
    strip_prefix, to_lower, trim, trim_matches, words_of,
};
use argon_utils::time::{Duration, SystemTime};

#[test]
fn every_character_is_classified_as_std_does() {
    for n in 0..=0x10_ffff_u32 {
        if let Some(c) = char::from_u32(n) {
            assert_eq!(is_whitespace(c), c.is_whitespace(), "{n:x}");
            assert_eq!(is_control(c), c.is_control(), "{n:x}");
        }
    }
}

#[test]
fn numbers_are_written_and_read() {
    assert_eq!(decimal_of(0), "0");
    assert_eq!(decimal_of(u64::MAX), "18446744073709551615");
    assert_eq!(signed_decimal_of(i64::MIN), "-9223372036854775808");
    assert_eq!(plus_decimal_of(3), "+3");
    assert_eq!(plus_decimal_of(-3), "-3");
    assert_eq!(padded_of(7, 2), "07");
    assert_eq!(padded_of(123, 2), "123");

    assert_eq!(parse_number("+42", 100), Some(42));
    assert_eq!(parse_number("101", 100), None);
    assert_eq!(parse_number("", 100), None);
    assert_eq!(parse_number("-1", 100), None);
    assert_eq!(parse_number("00000000000000000000001", u64::MAX), Some(1));
    assert_eq!(parse_signed("-9223372036854775808"), Some(i64::MIN));
    assert_eq!(parse_signed("9223372036854775808"), None);
    assert_eq!(parse_signed("-"), None);
    for s in ["0", "+0", "-0", "12", "+-1", " 1", "1 ", "0x1"] {
        assert_eq!(parse_number(s, u64::MAX), s.parse::<u64>().ok(), "{s:?}");
        assert_eq!(parse_signed(s), s.parse::<i64>().ok(), "{s:?}");
    }
}

#[test]
fn bytes_are_written_in_hexadecimal() {
    assert_eq!(hex_of(0x0a), "0a");
    assert_eq!(hex_joined(&[0x0a, 0xff], " "), "0a ff");
    assert_eq!(hex_list_of(&[0x0a, 0xff]), format!("{:02x?}", [0x0a_u8, 0xff]));
    assert_eq!(hex_list_of(&[]), "[]");
}

#[test]
fn texts_are_cut_as_std_cuts_them() {
    for s in ["a=b=c", "=", "", "ab", " a = b "] {
        assert_eq!(split_once(s, '='), s.split_once('='), "{s:?}");
        assert_eq!(rsplit_once(s, '='), s.rsplit_once('='), "{s:?}");
        assert_eq!(trim(s), s.trim(), "{s:?}");
        assert_eq!(trim_matches(s, '='), s.trim_matches('='), "{s:?}");
        assert_eq!(starts_with(s, "a"), s.starts_with('a'), "{s:?}");
        assert_eq!(strip_prefix(s, "a="), s.strip_prefix("a="), "{s:?}");
        assert_eq!(contains(s, "b"), s.contains('b'), "{s:?}");
    }
    for s in ["a\nb\r\nc", "\n", "", "a\n\nb", "a\r", "a\n\r\n"] {
        assert_eq!(lines_of(s), s.lines().collect::<Vec<_>>(), "{s:?}");
    }
    for s in ["  a  b\tc\n", "", " ", "\u{a0}x\u{2003}y"] {
        assert_eq!(
            words_of(s),
            s.split_whitespace().collect::<Vec<_>>(),
            "{s:?}"
        );
    }
    assert_eq!(to_lower("ÄbC"), "ÄbC".to_ascii_lowercase());
    assert!(same_ignoring_case("ReadOnly", "readonly"));
    assert!(!same_ignoring_case("Ä", "ä"));
}

#[test]
fn texts_are_padded_and_joined() {
    assert_eq!(left_aligned("ab", 4), "ab  ");
    assert_eq!(right_aligned("ab", 4), "  ab");
    assert_eq!(left_aligned("abcde", 4), "abcde");
    assert_eq!(
        join_all(&vec!["a".to_owned(), "b".to_owned()], ", "),
        "a, b"
    );
    assert_eq!(join_all(&Vec::new(), ", "), "");
}

#[test]
fn a_debug_text_is_quoted_and_escaped() {
    for s in ["plain", "with \"quotes\"", "tab\tand\\", "é\u{7f}\n"] {
        let e = ConfigError::BadValue {
            key: "mode",
            got: s.to_owned(),
            expected: "full",
        };
        assert_eq!(
            e.message(),
            format!("mode: {s:?} is not valid; expected full")
        );
    }
}

#[test]
fn temperatures_are_rounded_towards_zero() {
    assert_eq!(to_degrees(459), 45);
    assert_eq!(to_degrees(-5), 0);
    assert_eq!(to_degrees(-15), -1);
    assert_eq!(tenths_of(475), "47.5");
}

#[test]
fn times_are_compared_on_both_sides_of_the_epoch() {
    let a = SystemTime::before_epoch(Duration::from_secs(2));
    let b = SystemTime::from_unix(3);
    assert_eq!(b.duration_since(a), Some(Duration::from_secs(5)));
    assert_eq!(a.duration_since(b), None);
    assert_eq!(a.elapsed_since(b), Duration::zero());
    assert_eq!(a.unix_secs(), None);
    assert_eq!(b.unix_secs(), Some(3));
    assert_eq!(a.secs_or_zero(), 0);
    assert!(a.is_before(b));
    assert_eq!(a.plus(Duration::from_secs(5)), b);
    assert_eq!(SystemTime::from_unix_micros(3_000_000), b);
    assert_eq!(SystemTime::after_epoch(Duration::from_millis(3_000)), b);
}

#[test]
fn durations_add_up() {
    let d = Duration::from_millis(1_500).plus(Duration::from_micros(500_000));
    assert_eq!(d, Duration::from_secs(2));
    assert_eq!(d.as_nanos(), 2_000_000_000);
    assert_eq!(d.as_secs(), 2);
    assert_eq!(Duration::from_nanos(2_000_000_000), d);
    assert_eq!(
        Duration::from_secs(1).saturating_sub(Duration::from_secs(2)),
        Duration::zero()
    );
}

#[test]
fn a_json_object_is_asked_by_name() {
    assert!(matches!(Json::number_or_null(None), Json::Null));
    assert!(matches!(Json::number_or_null(Some(3)), Json::Number(3)));
    assert!(matches!(Json::text_or_null(&None), Json::Null));
    let list = Json::list(vec![Json::Bool(true)]);
    assert!(list.get("a").is_none());
}
