use ecdsa_spartan2::text::{contains, join_from, pad_left, starts_with, str_equal, strip_prefix, to_decimal};

#[test]
fn equality_and_prefixes() {
    assert!(str_equal("abc", "abc"));
    assert!(!str_equal("abc", "abd"));
    assert!(!str_equal("ab", "abc"));
    assert!(starts_with("--input=x", "--input="));
    assert!(starts_with("x", ""));
    assert!(!starts_with("--in", "--input"));
    assert_eq!(strip_prefix("--input=a=b", "--input="), Some("a=b"));
    assert_eq!(strip_prefix("--input=", "--input="), Some(""));
    assert_eq!(strip_prefix("-i", "--input="), None);
}

#[test]
fn substring_search() {
    assert!(contains("a::ShapeCS<F>", "ShapeCS"));
    assert!(contains("ShapeCS", "ShapeCS"));
    assert!(contains("anything", ""));
    assert!(!contains("ShapeC", "ShapeCS"));
    assert!(!contains("", "x"));
}

#[test]
fn joining() {
    let parts: Vec<String> = ["a", "b", "c"].iter().map(|s| s.to_string()).collect();
    assert_eq!(join_from(&parts, 0, " "), "a b c");
    assert_eq!(join_from(&parts, 1, ", "), "b, c");
    assert_eq!(join_from(&parts, 3, " "), "");
}

#[test]
fn decimals_and_padding() {
    for n in [0u128, 7, 10, 99, 100, 12345, u64::MAX as u128, u128::MAX] {
        assert_eq!(to_decimal(n), n.to_string());
    }
    for (s, w) in [("12", 10usize), ("1234567890123", 10), ("", 3), ("abc", 3)] {
        assert_eq!(pad_left(s, w), format!("{:>w$}", s, w = w));
    }
}
