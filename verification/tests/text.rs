use rebe_core::text::{
    bytes_eq, join, opt_str_eq, push_decimal, push_decimal_int, push_millionths, str_eq, str_less,
    trim_end_matches, trim_start_matches,
};

#[test]
fn equality_of_strings_and_bytes() {
    assert!(str_eq("", ""));
    assert!(str_eq("예산", "예산"));
    assert!(!str_eq("예산", "예상"));
    assert!(!str_eq("a", "ab"));
    assert!(!str_eq("ab", "a"));
    assert!(bytes_eq(&[1, 2, 3], &[1, 2, 3]));
    assert!(!bytes_eq(&[1, 2, 3], &[1, 2, 4]));
    assert!(!bytes_eq(&[], &[0]));
    let a = Some("x".to_string());
    let b = Some("y".to_string());
    assert!(opt_str_eq(&a, &a));
    assert!(!opt_str_eq(&a, &b));
    assert!(!opt_str_eq(&a, &None));
    assert!(!opt_str_eq(&None, &b));
    assert!(opt_str_eq(&None, &None));
}

#[test]
fn lexicographic_order() {
    let samples = ["", "a", "aa", "ab", "b", "B", "0", "예", "에", "\u{7f}", "\u{80}", "\u{10FFFF}"];
    for a in samples {
        for b in samples {
            assert_eq!(str_less(a, b), a < b, "{:?} < {:?}", a, b);
        }
    }
}

#[test]
fn joining() {
    let parts: Vec<String> = vec!["a".to_string(), "b".to_string(), "c".to_string()];
    assert_eq!(join(&parts, ", "), "a, b, c");
    assert_eq!(join(&parts, ""), "abc");
    assert_eq!(join(&parts[..1].to_vec(), "\n"), "a");
    assert_eq!(join(&vec![], "\n"), "");
    assert_eq!(join(&vec![String::new(), String::new()], "-"), "-");
}

#[test]
fn trimming_patterns() {
    for (text, pattern) in [
        ("```json{}", "```json"),
        ("``````x```", "```"),
        ("aaa", "a"),
        ("aaa", "aa"),
        ("abab-ab", "ab"),
        ("x", ""),
        ("", "x"),
        ("가가나", "가"),
        ("xyz", "abc"),
    ] {
        if !pattern.is_empty() {
            assert_eq!(trim_start_matches(text, pattern), text.trim_start_matches(pattern));
            assert_eq!(trim_end_matches(text, pattern), text.trim_end_matches(pattern));
        } else {
            assert_eq!(trim_start_matches(text, pattern), text);
            assert_eq!(trim_end_matches(text, pattern), text);
        }
    }
    assert_eq!(trim_end_matches("x```", "```"), "x");
    assert_eq!(trim_end_matches("x``` ", "```"), "x``` ");
}

#[test]
fn decimal_numbers() {
    for n in [0u64, 7, 10, 99, 100, 12345, u64::MAX] {
        let mut out = String::from("n=");
        push_decimal(&mut out, n);
        assert_eq!(out, format!("n={}", n));
    }
    for n in [0i64, -1, 1, -10, 42, i64::MAX, i64::MIN] {
        let mut out = String::new();
        push_decimal_int(&mut out, n);
        assert_eq!(out, n.to_string());
    }
}

#[test]
fn millionths() {
    for (value, text) in [
        (0i64, "0"),
        (1, "0.000001"),
        (10, "0.00001"),
        (500_000, "0.5"),
        (1_000_000, "1"),
        (4_500_000, "4.5"),
        (3_140_000, "3.14"),
        (123_456_789, "123.456789"),
        (120_000_000, "120"),
        (100_100, "0.1001"),
        (-1, "-0.000001"),
        (-2_500_000, "-2.5"),
        (-7_000_000, "-7"),
        (i64::MAX, "9223372036854.775807"),
        (i64::MIN, "-9223372036854.775808"),
    ] {
        let mut out = String::new();
        push_millionths(&mut out, value);
        assert_eq!(out, text);
    }
    // The same as a float of few digits prints.
    for value in [0.0f64, 0.5, 1.0, 4.5, 3.25, 2.125, 5.0] {
        let mut out = String::new();
        push_millionths(&mut out, (value * 1_000_000.0) as i64);
        assert_eq!(out, format!("{}", value));
    }
}
