use json_template::text::{decimal_text, number_or_none_text, text_after};

#[test]
fn decimal_of_small_numbers() {
    assert_eq!(decimal_text(0), "0");
    assert_eq!(decimal_text(7), "7");
    assert_eq!(decimal_text(9), "9");
    assert_eq!(decimal_text(10), "10");
    assert_eq!(decimal_text(42), "42");
    assert_eq!(decimal_text(100), "100");
    assert_eq!(decimal_text(1234567890), "1234567890");
}

#[test]
fn decimal_of_the_largest_number() {
    assert_eq!(
        decimal_text(u128::MAX),
        "340282366920938463463374607431768211455"
    );
    assert_eq!(
        decimal_text(u128::MAX - 1),
        "340282366920938463463374607431768211454"
    );
}

#[test]
fn decimal_agrees_with_the_standard_library() {
    let mut n: u128 = 1;
    for _ in 0..127 {
        assert_eq!(decimal_text(n), n.to_string());
        assert_eq!(decimal_text(n - 1), (n - 1).to_string());
        assert_eq!(decimal_text(n + 1), (n + 1).to_string());
        n *= 2;
    }
    let mut p: u128 = 1;
    for _ in 0..38 {
        assert_eq!(decimal_text(p), p.to_string());
        assert_eq!(decimal_text(p - 1), (p - 1).to_string());
        p *= 10;
    }
}

#[test]
fn optional_number_as_text() {
    assert_eq!(number_or_none_text(None), "None");
    assert_eq!(number_or_none_text(Some(0)), "0");
    assert_eq!(number_or_none_text(Some(1000000)), "1000000");
}

#[test]
fn order_of_version_strings() {
    assert!(text_after("0.2.0", "0.1.0"));
    assert!(!text_after("0.1.0", "0.2.0"));
    assert!(!text_after("0.1.0", "0.1.0"));
    assert!(text_after("0.1.0-beta", "0.1.0"));
    assert!(!text_after("0.1", "0.1.0"));
    assert!(text_after("1.0.0", "0.9.9"));
    // the order of strings is not the order of versions
    assert!(text_after("0.9.0", "0.10.0"));
    assert!(!text_after("0.10.0", "0.9.0"));
    assert!(text_after("0.10.0", "0.1.0"));
}

#[test]
fn order_with_the_empty_string() {
    assert!(!text_after("", ""));
    assert!(text_after("a", ""));
    assert!(!text_after("", "a"));
}

#[test]
fn order_agrees_with_the_standard_library() {
    let samples = [
        "", "a", "aa", "ab", "b", "B", "0", "0.1.0", "0.1.1", "0.10.0", "1", "10", "2", "é", "e",
        "z", "zz", "ß", "日本", "日", "\u{10FFFF}", "\u{7f}", "\u{80}", "~",
    ];
    for a in samples {
        for b in samples {
            assert_eq!(text_after(a, b), a > b, "{:?} against {:?}", a, b);
        }
    }
}
