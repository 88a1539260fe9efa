use mpd_tui::text::{decimal_text, fmt_duration, padded_left, repeated, signed_decimal_text};
use mpd_tui::time::Span;

#[test]
fn span_new_carries_whole_seconds() {
    let s = Span::new(1, 1_500_000_000);
    assert_eq!(s.as_secs(), 2);
    assert_eq!(s.subsec_nanos(), 500_000_000);
}

#[test]
fn span_from_millis_splits() {
    let s = Span::from_millis(1500);
    assert_eq!(s.as_secs(), 1);
    assert_eq!(s.subsec_nanos(), 500_000_000);
}

#[test]
fn span_from_nanos_splits() {
    let s = Span::from_nanos(100_000_000);
    assert_eq!(s.as_secs(), 0);
    assert_eq!(s.subsec_nanos(), 100_000_000);
}

#[test]
fn span_add_carries() {
    let s = Span::new(1, 700_000_000).add(Span::new(2, 600_000_000));
    assert_eq!(s, Span::new(4, 300_000_000));
}

#[test]
fn span_checked_add_overflows() {
    assert!(Span::new(u64::MAX, 600_000_000).checked_add(Span::new(0, 500_000_000)).is_none());
    assert_eq!(Span::new(1, 0).checked_add(Span::new(2, 0)), Some(Span::from_secs(3)));
}

#[test]
fn span_saturating_sub_stops_at_zero() {
    assert_eq!(Span::from_secs(3).saturating_sub(Span::from_secs(5)), Span::zero());
    assert_eq!(Span::new(3, 100).saturating_sub(Span::new(1, 200)), Span::new(1, 999_999_900));
}

#[test]
fn span_min_and_order() {
    let a = Span::new(2, 5);
    let b = Span::new(2, 7);
    assert!(a.shorter_than(&b));
    assert!(!b.shorter_than(&a));
    assert_eq!(a.min(b), a);
    assert_eq!(b.min(a), a);
    assert!(Span::zero().is_zero());
    assert!(!a.is_zero());
}

#[test]
fn span_mul_and_div() {
    assert_eq!(Span::new(1, 600_000_000).mul(3), Span::new(4, 800_000_000));
    assert_eq!(Span::from_secs(7).div(2), Span::new(3, 500_000_000));
    assert_eq!(Span::from_secs(200).mul(5).div(10), Span::from_secs(100));
}

#[test]
fn decimal_texts() {
    assert_eq!(decimal_text(0), "0");
    assert_eq!(decimal_text(1234), "1234");
    assert_eq!(decimal_text(u64::MAX), "18446744073709551615");
    assert_eq!(signed_decimal_text(-1), "-1");
    assert_eq!(signed_decimal_text(i64::MIN), "-9223372036854775808");
    assert_eq!(padded_left(String::from("7"), 3, " "), "  7");
    assert_eq!(padded_left(String::from("1234"), 3, " "), "1234");
    assert_eq!(repeated("╌", 3), "╌╌╌");
    assert_eq!(repeated("#", 0), "");
}

#[test]
fn fmt_duration_pads_minutes_and_seconds() {
    assert_eq!(fmt_duration(Span::from_secs(0)), "00:00");
    assert_eq!(fmt_duration(Span::from_secs(65)), "01:05");
    assert_eq!(fmt_duration(Span::new(3599, 999_999_999)), "59:59");
    assert_eq!(fmt_duration(Span::from_secs(6000)), "100:00");
}

#[test]
fn fmt_duration_reads_back() {
    for t in [0u64, 9, 59, 60, 61, 600, 3599, 5999] {
        let text = fmt_duration(Span::from_secs(t));
        let chars: Vec<u32> = text.chars().map(|c| c as u32).collect();
        assert_eq!(chars.len(), 5);
        assert_eq!(text.chars().nth(2), Some(':'));
        let v = |i: usize| (chars[i] - 48) as u64;
        assert_eq!((v(0) * 10 + v(1)) * 60 + v(3) * 10 + v(4), t);
    }
}

#[test]
fn fmt_duration_reads_back_at_any_length() {
    for t in [6000u64, 59_999, 600_000, 1_234_567, u64::MAX] {
        let text = fmt_duration(Span::from_secs(t));
        let (m, s) = text.split_once(':').unwrap();
        assert_eq!(s.len(), 2);
        assert!(m.chars().all(|c| c.is_ascii_digit()) && s.chars().all(|c| c.is_ascii_digit()));
        let sv: u128 = s.parse().unwrap();
        let mv: u128 = m.parse().unwrap();
        assert!(sv < 60);
        assert_eq!(mv * 60 + sv, t as u128);
        assert_eq!(text.len() == 5, t < 6000);
    }
}

#[test]
fn fmt_duration_tells_seconds_apart() {
    assert_ne!(fmt_duration(Span::from_secs(60)), fmt_duration(Span::from_secs(6)));
    assert_eq!(fmt_duration(Span::new(61, 5)), fmt_duration(Span::new(61, 999_999_999)));
    assert_eq!(fmt_duration(Span::from_secs(6001)), "100:01");
}
