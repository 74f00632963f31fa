//! Numerals and joined lists.
use stake_manager::text::{
    contains, contains_char, copy_list, is_blank, is_text, join, list_contains, list_without, parse_u128,
    parse_u64, split, strip_suffix, u128_to_string, u64_to_string,
};

fn v(items: &[&str]) -> Vec<String> {
    items.iter().map(|x| x.to_string()).collect()
}

#[test]
fn numerals_are_written_without_leading_zeros() {
    assert_eq!(u128_to_string(0), "0");
    assert_eq!(u128_to_string(7), "7");
    assert_eq!(u128_to_string(10), "10");
    assert_eq!(u128_to_string(1_000_000), "1000000");
    assert_eq!(u128_to_string(9_876_543_210), "9876543210");
    assert_eq!(u128_to_string(u128::MAX), "340282366920938463463374607431768211455");
    assert_eq!(u64_to_string(u64::MAX), "18446744073709551615");
    assert_eq!(u64_to_string(42), "42");
}

#[test]
fn numerals_are_read_back() {
    assert_eq!(parse_u128("0"), Some(0));
    assert_eq!(parse_u128("007"), Some(7));
    assert_eq!(parse_u128("340282366920938463463374607431768211455"), Some(u128::MAX));
    assert_eq!(parse_u128("340282366920938463463374607431768211456"), None);
    assert_eq!(parse_u128(""), None);
    assert_eq!(parse_u128("12a"), None);
    assert_eq!(parse_u128("-1"), None);
    assert_eq!(parse_u128("+1"), None);
    assert_eq!(parse_u128(" 1"), None);
    assert_eq!(parse_u64("18446744073709551615"), Some(u64::MAX));
    assert_eq!(parse_u64("18446744073709551616"), None);
    assert_eq!(parse_u64("31"), Some(31));
    for n in [0u128, 1, 9, 10, 99, 100, 12345, u64::MAX as u128, u128::MAX] {
        assert_eq!(parse_u128(&u128_to_string(n)), Some(n));
    }
}

#[test]
fn split_gives_the_pieces_between_separators() {
    assert_eq!(split("a_b_c", '_'), v(&["a", "b", "c"]));
    assert_eq!(split("abc", '_'), v(&["abc"]));
    assert_eq!(split("", '_'), v(&[""]));
    assert_eq!(split("_", '_'), v(&["", ""]));
    assert_eq!(split("a__b", '_'), v(&["a", "", "b"]));
    assert_eq!(split("a_", '_'), v(&["a", ""]));
    assert_eq!(split("ibc/ABC", '/'), v(&["ibc", "ABC"]));
    assert_eq!(split("é_ü", '_'), v(&["é", "ü"]));
}

#[test]
fn join_puts_the_separator_between_neighbours() {
    assert_eq!(join(&v(&[]), "_"), "");
    assert_eq!(join(&v(&["a"]), "_"), "a");
    assert_eq!(join(&v(&["a", "b", "c"]), "_"), "a_b_c");
    assert_eq!(join(&v(&["", ""]), ","), ",");
    assert_eq!(split(&join(&v(&["x", "y"]), "_"), '_'), v(&["x", "y"]));
}

#[test]
fn texts_are_searched() {
    assert!(contains_char("a.b", '.'));
    assert!(!contains_char("ab", '.'));
    assert!(contains("pool-withdraw_addr", "-withdraw_addr"));
    assert!(contains("x-withdraw_addr-y", "-withdraw_addr"));
    assert!(!contains("withdraw_addr", "-withdraw_addr"));
    assert!(contains("abc", ""));
    assert!(!contains("ab", "abc"));
    assert_eq!(strip_suffix("pool1-withdraw_addr", "-withdraw_addr"), Some("pool1".to_string()));
    assert_eq!(strip_suffix("pool1-withdraw_addrx", "-withdraw_addr"), None);
    assert_eq!(strip_suffix("a", "abc"), None);
    assert!(is_text(&"untrn".to_string(), "untrn"));
    assert!(!is_text(&"untrn ".to_string(), "untrn"));
    assert!(is_blank(""));
    assert!(is_blank(" \t\n"));
    assert!(!is_blank(" a "));
}

#[test]
fn lists_of_texts_are_searched_and_filtered() {
    let list = v(&["a", "b", "a", "c"]);
    assert!(list_contains(&list, &"b".to_string()));
    assert!(!list_contains(&list, &"d".to_string()));
    assert_eq!(list_without(&list, &"a".to_string()), v(&["b", "c"]));
    assert_eq!(list_without(&list, &"z".to_string()), list);
    assert_eq!(copy_list(&list), list);
}
