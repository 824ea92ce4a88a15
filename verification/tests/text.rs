use regtest_harness::text::chars_of;
use regtest_harness::text::contains;
use regtest_harness::text::decimal_string;
use regtest_harness::text::first_chars;
use regtest_harness::text::parse_amount;
use regtest_harness::text::push_decimal;

#[test]
fn decimal_of_small_numbers() {
    assert_eq!(decimal_string(0), "0");
    assert_eq!(decimal_string(7), "7");
    assert_eq!(decimal_string(10), "10");
    assert_eq!(decimal_string(18443), "18443");
    assert_eq!(decimal_string(1_000_000), "1000000");
}

#[test]
fn decimal_of_the_largest_number() {
    assert_eq!(decimal_string(u64::MAX), "18446744073709551615");
}

#[test]
fn decimal_agrees_with_the_standard_rendering() {
    let mut n: u64 = 1;
    for _ in 0..64 {
        assert_eq!(decimal_string(n), format!("{}", n));
        assert_eq!(decimal_string(n - 1), format!("{}", n - 1));
        n = n.wrapping_mul(3).wrapping_add(7);
        if n == 0 {
            n = 1;
        }
    }
}

#[test]
fn push_decimal_appends() {
    let mut s = String::from("port ");
    push_decimal(&mut s, 9736);
    assert_eq!(s, "port 9736");
}

#[test]
fn parse_amount_reads_plain_numbers() {
    assert_eq!(parse_amount("0"), Some(0));
    assert_eq!(parse_amount("5000"), Some(5000));
    assert_eq!(parse_amount("007"), Some(7));
    assert_eq!(parse_amount("18446744073709551615"), Some(u64::MAX));
}

#[test]
fn parse_amount_takes_one_plus_sign() {
    assert_eq!(parse_amount("+5"), Some(5));
    assert_eq!(parse_amount("++5"), None);
    assert_eq!(parse_amount("+"), None);
}

#[test]
fn parse_amount_refuses_what_is_no_number() {
    assert_eq!(parse_amount(""), None);
    assert_eq!(parse_amount("-5"), None);
    assert_eq!(parse_amount("12a"), None);
    assert_eq!(parse_amount("5000msat"), None);
    assert_eq!(parse_amount(" 5"), None);
    assert_eq!(parse_amount("5 "), None);
    assert_eq!(parse_amount("1_000"), None);
    assert_eq!(parse_amount("٣"), None);
}

#[test]
fn parse_amount_refuses_what_does_not_fit() {
    assert_eq!(parse_amount("18446744073709551616"), None);
    assert_eq!(parse_amount("99999999999999999999999"), None);
    assert_eq!(parse_amount("000000000000000000000000001"), Some(1));
}

#[test]
fn parse_amount_agrees_with_the_standard_parser() {
    let samples = [
        "", "0", "1", "+1", "-1", "+", "-", "+-1", "42", "4 2", "0x10", "18446744073709551615",
        "18446744073709551616", "+18446744073709551615", "00", "9a", "a9", "1e3", "١٢٣",
    ];
    for s in samples {
        assert_eq!(parse_amount(s), s.parse::<u64>().ok(), "on {:?}", s);
    }
}

#[test]
fn parse_amount_inverts_decimal_string() {
    for n in [0u64, 1, 9, 10, 99, 100, 5000, 123_456_789, u64::MAX - 1, u64::MAX] {
        assert_eq!(parse_amount(&decimal_string(n)), Some(n));
    }
}

#[test]
fn contains_finds_a_run() {
    assert!(contains("Database already exists.", "already exists"));
    assert!(contains("already exists", "already exists"));
    assert!(contains("xxalready loaded", "already loaded"));
    assert!(!contains("already exist", "already exists"));
    assert!(!contains("", "a"));
    assert!(!contains("already  exists", "already exists"));
}

#[test]
fn contains_finds_the_empty_text_everywhere() {
    assert!(contains("", ""));
    assert!(contains("abc", ""));
}

#[test]
fn contains_works_on_characters_not_bytes() {
    assert!(contains("Capacité: 5", "é: 5"));
    assert!(!contains("Capacite", "é"));
}

#[test]
fn contains_agrees_with_the_standard_search() {
    let hays = ["", "a", "aa", "aab", "abab", "baaab", "Wallet \"default\" is already loaded."];
    let needles = ["", "a", "b", "ab", "aab", "aaa", "already loaded", "c"];
    for h in hays {
        for n in needles {
            assert_eq!(contains(h, n), h.contains(n), "{:?} in {:?}", n, h);
        }
    }
}

#[test]
fn first_chars_truncates() {
    assert_eq!(first_chars("0218845781f631c4", 8), "02188457");
    assert_eq!(first_chars("node1", 8), "node1");
    assert_eq!(first_chars("", 8), "");
    assert_eq!(first_chars("abcdefgh", 8), "abcdefgh");
    assert_eq!(first_chars("abc", 0), "");
}

#[test]
fn first_chars_counts_characters() {
    assert_eq!(first_chars("ééééééééé", 8), "éééééééé");
}

#[test]
fn chars_of_lists_characters() {
    assert_eq!(chars_of("aé"), vec!['a', 'é']);
    assert_eq!(chars_of(""), Vec::<char>::new());
}
