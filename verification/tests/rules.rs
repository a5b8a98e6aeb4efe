//! Channel names, hashes, links, substitutions and numbers.

use rsstg::moment::{is_before, nanos_from, Stamp};
use rsstg::rules::{iv_hash_matches, rewrite, username_matches};
use rsstg::text::{cat, cat3, decimal_text, digits_text, same, with_cause};

#[test]
fn usernames_are_recognised() {
    assert!(username_matches("@ab"));
    assert!(username_matches("@News_24"));
    for bad in ["", "@", "@a", "ab", "@1a", "@_a", "@a-b", "@ab ", " @ab", "@ab\n", "@äb", "@a@b"] {
        assert!(!username_matches(bad), "{bad:?}");
    }
}

#[test]
fn hashes_are_recognised() {
    assert!(iv_hash_matches("0123456789abcd"));
    for bad in ["", "0123456789abc", "0123456789abcde", "0123456789abcD", "0123456789abcg", "0123456789abcd\n"] {
        assert!(!iv_hash_matches(bad), "{bad:?}");
    }
}

#[test]
fn links_are_rewritten() {
    assert_eq!(rewrite(&None, "https://a/b"), Ok("https://a/b".to_string()));
    let command = Some("s/a/xx/g".to_string());
    assert_eq!(rewrite(&command, "banana"), Ok("bxxnxxnxx".to_string()));
    assert_eq!(rewrite(&Some("s/a/x/".to_string()), "banana"), Ok("bxnana".to_string()));
    assert!(rewrite(&Some("a/b".to_string()), "banana").is_err());
}

#[test]
fn numbers_are_written() {
    assert_eq!(digits_text(0), "0");
    assert_eq!(digits_text(10), "10");
    assert_eq!(digits_text(u64::MAX), "18446744073709551615");
    assert_eq!(decimal_text(-1), "-1");
    assert_eq!(decimal_text(i32::MIN), "-2147483648");
    assert_eq!(decimal_text(i32::MAX), "2147483647");
}

#[test]
fn texts_are_put_together() {
    assert!(same("ü", "ü"));
    assert!(!same("a", "A"));
    assert_eq!(cat("a", "b"), "ab");
    assert_eq!(cat3("a", "", "c"), "ac");
    assert_eq!(with_cause("what", "why"), "what\nwhy");
}

#[test]
fn moments_are_compared() {
    assert!(is_before((1, 5), (2, 0)));
    assert!(is_before((1, 5), (1, 6)));
    assert!(!is_before((1, 5), (1, 5)));
    assert!(!is_before((2, 0), (1, 9)));
    assert_eq!(nanos_from((1, 5), (3, 2)), 1_999_999_997);
    assert_eq!(nanos_from((3, 2), (1, 5)), -1_999_999_997);
    assert_eq!(nanos_from((i64::MIN, 0), (i64::MAX, 0)), 18_446_744_073_709_551_615_000_000_000);
}

#[test]
fn dates_that_can_be_written() {
    let stamp = |seconds: i64, offset: i32| Stamp { at: (seconds, 0), offset };
    assert!(stamp(0, 0).is_printable());
    assert!(stamp(253_402_300_799, 0).is_printable());
    assert!(!stamp(253_402_300_799, 1).is_printable());
    assert!(stamp(-62_167_219_200, 0).is_printable());
    assert!(!stamp(-62_167_219_200, -1).is_printable());
    assert!(!stamp(0, 86400).is_printable());
    assert!(!stamp(0, -86400).is_printable());
    assert!(stamp(0, 86399).is_printable());
    assert!(!stamp(i64::MAX, 86399).is_printable());
    assert!(!Stamp { at: (59, 1_000_000_000), offset: 0 }.is_printable());
}
