use msg_q::params::Parameters;
use msg_q::text::{parse_u64, parse_usize, same_text};
use msg_q::time::{Clock, Instant};

#[test]
fn decimal_numbers_are_read() {
    assert_eq!(parse_u64("0"), Some(0));
    assert_eq!(parse_u64("10"), Some(10));
    assert_eq!(parse_u64("+7"), Some(7));
    assert_eq!(parse_u64("007"), Some(7));
    assert_eq!(parse_u64("18446744073709551615"), Some(u64::MAX));
    assert_eq!(parse_u64("00018446744073709551615"), Some(u64::MAX));
    assert_eq!(parse_usize("123456"), Some(123456));
    assert_eq!(parse_usize("+0"), Some(0));
}

#[test]
fn other_text_is_no_number() {
    for text in [
        "", "+", "-", "-1", "++1", "+-1", "1+", " 1", "1 ", "1_0", "1.0", "0x10", "ten", "١٢٣",
        "1e3", "18446744073709551616", "99999999999999999999999",
    ] {
        assert_eq!(parse_u64(text), None, "{:?}", text);
        assert_eq!(parse_usize(text), None, "{:?}", text);
    }
}

#[test]
fn reading_agrees_with_the_standard_library() {
    for text in [
        "0", "1", "+1", "42", "0042", "18446744073709551615", "18446744073709551616", "", "+",
        "-0", "4 2", "٤٢", "42a",
    ] {
        assert_eq!(parse_u64(text), text.parse::<u64>().ok(), "{:?}", text);
        assert_eq!(parse_usize(text), text.parse::<usize>().ok(), "{:?}", text);
    }
}

#[test]
fn texts_are_compared_character_by_character() {
    assert!(same_text("", ""));
    assert!(same_text("peek", "peek"));
    assert!(!same_text("peek", "Peek"));
    assert!(!same_text("peek", "pee"));
    assert!(!same_text("pee", "peek"));
    assert!(same_text("naïve", "naïve"));
    assert!(!same_text("naïve", "naive"));
}

#[test]
fn a_later_entry_replaces_an_earlier_one() {
    let mut params = Parameters::new();
    assert_eq!(params.get("a"), None);
    params.insert("a".to_string(), "1".to_string());
    params.insert("b".to_string(), "2".to_string());
    assert_eq!(params.get("a"), Some(&"1".to_string()));
    assert_eq!(params.get("b"), Some(&"2".to_string()));
    assert_eq!(params.get("c"), None);
    params.insert("a".to_string(), "3".to_string());
    assert_eq!(params.get("a"), Some(&"3".to_string()));
    assert_eq!(params.get("b"), Some(&"2".to_string()));
    assert_eq!(params.get("A"), None);
    assert_eq!(params.get(""), None);
}

#[test]
fn instants_are_counted_in_nanoseconds() {
    let start = Instant::from_nanos(5);
    assert_eq!(start.as_nanos(), 5);
    assert_eq!(start.after_seconds(0), start);
    assert_eq!(start.after_seconds(2).as_nanos(), 2_000_000_005);
    assert_eq!(
        Instant::from_nanos(0).after_seconds(u64::MAX).as_nanos(),
        18_446_744_073_709_551_615_000_000_000
    );
    assert!(Instant::from_nanos(1) < Instant::from_nanos(2));
}

#[test]
fn a_span_is_counted_from_the_origin() {
    assert_eq!(Instant::from_span(0, 0), Instant::from_nanos(0));
    assert_eq!(Instant::from_span(0, 7).as_nanos(), 7);
    assert_eq!(Instant::from_span(3, 500).as_nanos(), 3_000_000_500);
    assert_eq!(
        Instant::from_span(2, 1_500_000_000).as_nanos(),
        3_500_000_000
    );
    assert_eq!(
        Instant::from_span(u64::MAX, u32::MAX).as_nanos(),
        18_446_744_073_709_551_619_294_967_295
    );
    assert_eq!(Instant::from_span(1, 0), Instant::from_nanos(0).after_seconds(1));
}

#[test]
fn the_clock_does_not_run_backwards() {
    let clock = Clock::new();
    let first = clock.now();
    let second = clock.now();
    assert!(first <= second);
    assert!(second.as_nanos() < 60_000_000_000);
}
