//! Texts, numbers, tables and sorting.

use lightd::duplicate::Duplicate;
use lightd::number::{decimal_text, parse_u16, parse_u64, signed_decimal_text};
use lightd::table::Table;
use lightd::text::{
    contains_text, first_bytes, is_empty_text, join_from, lines, same_text, split_once, split_word,
    starts_with_text, trim, trim_end,
};

fn strings(words: &[&str]) -> Vec<String> {
    words.iter().map(|w| w.to_string()).collect()
}

#[test]
fn text_operations_agree_with_str() {
    let samples = [
        "",
        " ",
        "a",
        "plain text",
        "  padded \t\n",
        "one\ntwo\r\nthree",
        "trailing\n",
        "\n\n",
        "a\rb\r\n",
        "\u{3000}wide\u{a0}",
        "naïve \u{1f600} text",
    ];
    for s in samples {
        assert_eq!(trim(s), s.trim());
        assert_eq!(trim_end(s), s.trim_end());
        assert_eq!(lines(s), s.lines().map(|l| l.to_string()).collect::<Vec<_>>());
        assert_eq!(is_empty_text(s), s.is_empty());
        assert_eq!(
            split_once(s, ' '),
            s.split_once(' ').map(|(a, b)| (a.to_string(), b.to_string()))
        );
        assert_eq!(split_word(s).map(|(w, _)| w), s.split_whitespace().next().map(|w| w.to_string()));
        for t in samples {
            assert_eq!(contains_text(s, t), s.contains(t));
            assert_eq!(starts_with_text(s, t), s.starts_with(t));
            assert_eq!(same_text(s, t), s == t);
        }
    }
}

#[test]
fn first_bytes_keeps_whole_characters() {
    assert_eq!(first_bytes("0123456789abcdef", 12), "0123456789ab");
    assert_eq!(first_bytes("short", 12), "short");
    assert_eq!(first_bytes("0123456789a\u{e9}", 12), "0123456789a");
    assert_eq!(first_bytes("\u{1f600}\u{1f600}\u{1f600}\u{1f600}", 12), "\u{1f600}\u{1f600}\u{1f600}");
    assert_eq!(first_bytes("\u{20ac}", 2), "");
}

#[test]
fn words_are_joined_from_a_position() {
    let words = strings(&["sh", "-c", "echo", "hi"]);
    assert_eq!(join_from(&words, 0, " "), "sh -c echo hi");
    assert_eq!(join_from(&words, 2, " "), "echo hi");
    assert_eq!(join_from(&words, 4, " "), "");
}

#[test]
fn numbers_are_read_as_the_standard_library_reads_them() {
    let samples = [
        "0", "7", "007", "+5", "-1", "", "+", " 1", "1 ", "65535", "65536", "18446744073709551615",
        "18446744073709551616", "99999999999999999999999", "12a",
    ];
    for s in samples {
        assert_eq!(parse_u64(s), s.parse::<u64>().ok(), "{}", s);
        assert_eq!(parse_u16(s), s.parse::<u16>().ok(), "{}", s);
    }
}

#[test]
fn numbers_are_written_as_the_standard_library_writes_them() {
    for n in [0u64, 9, 10, 101, u64::MAX] {
        assert_eq!(decimal_text(n), n.to_string());
    }
    for n in [0i64, -1, 42, i64::MIN, i64::MAX] {
        assert_eq!(signed_decimal_text(n), n.to_string());
    }
}

#[test]
fn table_holds_one_value_for_each_key() {
    let mut table: Table<String> = Table::new();
    assert!(table.is_empty());
    table.insert("80".to_string(), "9001".to_string());
    table.insert("443".to_string(), "9002".to_string());
    table.insert("80".to_string(), "9003".to_string());
    assert_eq!(table.len(), 2);
    assert_eq!(table.get("80").map(|s| s.as_str()), Some("9003"));
    let copy = table.duplicate();
    table.remove("80");
    assert!(table.get("80").is_none());
    assert!(!table.contains_key("80"));
    assert!(copy.contains_key("80"));
    table.remove("absent");
    assert_eq!(table.len(), 1);
}

#[test]
fn last_pair_of_a_key_counts() {
    let pairs = vec![
        ("a".to_string(), "1".to_string()),
        ("b".to_string(), "2".to_string()),
        ("a".to_string(), "3".to_string()),
    ];
    let table = Table::from_pairs(pairs);
    assert_eq!(table.len(), 2);
    assert_eq!(table.get("a").map(|s| s.as_str()), Some("3"));
    assert_eq!(table.get("b").map(|s| s.as_str()), Some("2"));
}
