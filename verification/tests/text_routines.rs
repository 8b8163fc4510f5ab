use privacy_mesh::text::{chars_of, contains, decimal, hex};

#[test]
fn decimal_writes_plain_numerals() {
    assert_eq!(decimal(0), "0");
    assert_eq!(decimal(7), "7");
    assert_eq!(decimal(10), "10");
    assert_eq!(decimal(1005), "1005");
    assert_eq!(decimal(1700000000), "1700000000");
    assert_eq!(decimal(u64::MAX), "18446744073709551615");
}

#[test]
fn decimal_agrees_with_the_standard_library() {
    for n in [0u64, 1, 9, 10, 11, 99, 100, 101, 999, 4096, 65535, 1 << 40, u64::MAX - 1] {
        assert_eq!(decimal(n), n.to_string());
    }
}

#[test]
fn hex_writes_two_lower_case_digits_per_byte() {
    assert_eq!(hex(&[]), "");
    assert_eq!(hex(&[1, 2, 3, 4]), "01020304");
    assert_eq!(hex(&[0, 15, 16, 171, 255]), "000f10abff");
    assert_eq!(hex(b"Hello world!"), "48656c6c6f20776f726c6421");
}

#[test]
fn contains_finds_a_text_anywhere() {
    assert!(contains("0.005 SOL", "SOL"));
    assert!(contains("SOL 0.005", "SOL"));
    assert!(contains("0.1SOLx", "SOL"));
    assert!(contains("NEAR", "NEAR"));
    assert!(contains("aab", "ab"));
    assert!(contains("\u{e9}SOL\u{2603}", "SOL"));
    assert!(contains("abc", ""));
    assert!(contains("", ""));
}

#[test]
fn contains_misses_what_is_not_there() {
    assert!(!contains("0.005 sol", "SOL"));
    assert!(!contains("SO L", "SOL"));
    assert!(!contains("SO", "SOL"));
    assert!(!contains("", "SOL"));
    assert!(!contains("NEA", "NEAR"));
    assert!(!contains("LOS", "SOL"));
}

#[test]
fn contains_agrees_with_the_standard_library() {
    let texts = ["", "a", "ab", "aba", "abab", "SOLNEAR", "\u{1F980}x\u{e9}"];
    for haystack in texts {
        for needle in texts {
            assert_eq!(contains(haystack, needle), haystack.contains(needle));
        }
    }
}

#[test]
fn chars_of_lists_every_character() {
    assert_eq!(chars_of("a\u{e9}\u{2603}"), vec!['a', '\u{e9}', '\u{2603}']);
    assert_eq!(chars_of(""), Vec::<char>::new());
}
