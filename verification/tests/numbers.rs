use bot_core::double::Double;
use bot_core::failure::Failure;
use bot_core::json::{keys_in_order, parse, read_and_render, Entry, Json, JsonNumber};
use bot_core::text::{
    decimal_i64, decimal_u128, decimal_u64, has, has_any, join, parse_u128, parse_u64, split,
    split_whitespace, trim, truncate_text,
};
use bot_core::uint::Uint256;
use bot_core::utils::logger::{log_cycle_separator, log_error, log_info, log_warn, now_tag};
use bot_core::utils::time::{
    build_window, get_current_window_start_sec, get_market_slug, now_sec, sleep_slice_ms,
};

fn d(value: f64) -> Double {
    Double { bits: value.to_bits() }
}

#[test]
fn doubles_are_ordered_as_numbers() {
    let values = [f64::NEG_INFINITY, -1.5, -0.0, 0.0, 1e-300, 0.75, 1.0, 1e300, f64::INFINITY];
    for a in values {
        for b in values {
            assert_eq!(d(a).lt(d(b)), a < b);
            assert_eq!(d(a).le(d(b)), a <= b);
        }
    }
    assert!(!d(f64::NAN).lt(d(1.0)));
    assert!(!d(1.0).le(d(f64::NAN)));
    assert!(d(f64::NAN).is_nan());
    assert!(!d(f64::INFINITY).is_finite());
    assert!(d(1e-300).is_positive());
    assert!(!d(-0.0).is_positive());
}

#[test]
fn extremes_ignore_what_is_no_number() {
    assert_eq!(d(1.0).max(d(2.0)), d(2.0));
    assert_eq!(d(1.0).min(d(2.0)), d(1.0));
    assert_eq!(d(f64::NAN).max(d(2.0)), d(2.0));
    assert_eq!(d(-3.0).at_least_zero(), d(0.0));
    assert_eq!(d(3.0).negated(), d(-3.0));
}

#[test]
fn texts_are_taken_apart() {
    assert_eq!(trim(" \t a b \u{a0}"), "a b");
    assert_eq!(split("a,,b", ','), vec!["a", "", "b"]);
    assert_eq!(split_whitespace("  a \n b "), vec!["a", "b"]);
    assert_eq!(join(&vec!["a".to_owned(), "b".to_owned()], " | "), "a | b");
    assert_eq!(truncate_text("äöü", 2), "äö");
    assert!(has("abcabd", "abd"));
    assert!(has("abc", ""));
    assert!(!has("ab", "abc"));
    assert!(has_any("rate limited", &["timeout", "limit"]));
}

#[test]
fn numerals_are_read_back() {
    for n in [0u64, 7, 10, 1_000_000, u64::MAX] {
        assert_eq!(parse_u64(&decimal_u64(n)), Some(n));
    }
    assert_eq!(decimal_u128(u128::MAX), "340282366920938463463374607431768211455");
    assert_eq!(parse_u128("340282366920938463463374607431768211455"), Some(u128::MAX));
    assert_eq!(parse_u128("340282366920938463463374607431768211456"), None);
    assert_eq!(parse_u64("18446744073709551616"), None);
    assert_eq!(parse_u64("+5"), Some(5));
    assert_eq!(parse_u64(""), None);
    assert_eq!(decimal_i64(i64::MIN), "-9223372036854775808");
}

#[test]
fn wide_integers_are_ordered_by_value() {
    let low = Uint256 { w0: u64::MAX, w1: 0, w2: 0, w3: 0 };
    let high = Uint256 { w0: 0, w1: 1, w2: 0, w3: 0 };
    assert!(low.lt(high));
    assert!(!high.lt(low));
    assert_eq!(high.to_text(), "18446744073709551616");
    assert!(Uint256::from_u64(0).is_zero());
}

#[test]
fn documents_are_read_and_written() {
    assert!(parse("{").is_none());
    match parse("[1, -2, 0.5, true, null]") {
        Some(Json::Array(items)) => {
            assert!(matches!(items[0], Json::Number(JsonNumber::Unsigned(1))));
            assert!(matches!(items[1], Json::Number(JsonNumber::Negative(-2))));
            assert!(matches!(
                items[2],
                Json::Number(JsonNumber::Decimal(value, _)) if value == d(0.5)
            ));
            assert!(matches!(items[3], Json::Bool(true)));
            assert!(matches!(items[4], Json::Null));
        }
        _ => panic!("a list"),
    }
    match read_and_render(" {\"b\": [1, 2], \"a\": \"x\"} ") {
        Ok((_, rendered)) => assert_eq!(rendered, "{\"a\":\"x\",\"b\":[1,2]}"),
        Err(_) => panic!("valid JSON"),
    }
    match read_and_render("{") {
        Ok(_) => panic!("no JSON"),
        Err(causes) => {
            assert_eq!(causes, vec!["EOF while parsing an object at line 1 column 1".to_owned()])
        }
    }
}

#[test]
fn keys_come_in_order_and_once() {
    let entry = |key: &str| Entry { key: key.to_owned(), value: Json::Null };
    let entries = vec![
        entry("b"),
        entry("\u{e9}"),
        entry("a"),
        entry("b"),
        entry(""),
        entry("ab"),
        entry("B"),
    ];
    assert_eq!(keys_in_order(&entries), vec!["", "B", "a", "ab", "b", "\u{e9}"]);
}

#[test]
fn lines_are_stamped_with_the_time_of_jakarta() {
    assert_eq!(now_tag(0).as_deref(), Some("1970-01-01 07:00:00.000 WIB"));
    assert_eq!(now_tag(1_713_360_000_123).as_deref(), Some("2024-04-17 20:20:00.123 WIB"));
    assert!(now_tag(8_210_266_876_799_999).is_some());
    assert!(now_tag(8_210_266_876_800_000).is_none());
}

#[test]
fn failures_tell_their_causes() {
    let failure = Failure::of("first").behind("second".to_owned()).behind("third".to_owned());
    assert_eq!(failure.message(), "third");
    assert_eq!(failure.format_error_chain(), "third -> second -> first");
    assert_eq!(failure.into_messages(), vec!["third", "second", "first"]);
    assert_eq!(
        Failure::undecoded(vec!["bad".to_owned()]).format_error_chain(),
        "error decoding response body: bad -> bad"
    );
}

#[test]
fn windows_hold_their_times() {
    let now = now_sec();
    let window = build_window(Some(now));
    assert!(window.window_start_sec <= now && now < window.close_time_sec);
    assert_eq!(get_current_window_start_sec(Some(now)), window.window_start_sec);
    assert_eq!(get_market_slug(300), "btc-updown-5m-300");
    assert!(get_market_slug(300) != get_market_slug(600));
    assert_eq!(sleep_slice_ms(10, 10), None);
    assert_eq!(sleep_slice_ms(10, 11), Some(1000));
    assert_eq!(sleep_slice_ms(10, 99), Some(1000));
}

#[test]
fn log_lines_are_laid_out() {
    assert_eq!(log_info("T", "Boot", "go"), "T INFO Boot go");
    assert_eq!(log_warn("T", "Boot", "go"), "T WARN Boot go");
    assert_eq!(log_error("T", "Boot", "go"), "T ERROR Boot go");
    let line = "=".repeat(72);
    assert_eq!(log_cycle_separator("w"), format!("\n{}\nCYCLE w\n{}", line, line));
}
