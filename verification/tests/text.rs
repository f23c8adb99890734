use smyklot::distance::{levenshtein, suggest};
use smyklot::text::{
    decimal_string, from_chars, is_whitespace, parse_u64, replace_all, same_text, to_chars,
};

#[test]
fn decimal_string_writes_digits() {
    assert_eq!(decimal_string(0), "0");
    assert_eq!(decimal_string(7), "7");
    assert_eq!(decimal_string(30), "30");
    assert_eq!(decimal_string(1005), "1005");
    assert_eq!(decimal_string(u64::MAX), "18446744073709551615");
}

#[test]
fn decimal_string_agrees_with_formatting() {
    for n in [0u64, 9, 10, 11, 99, 100, 12345, 815856883771506768, u64::MAX - 1] {
        assert_eq!(decimal_string(n), format!("{}", n));
    }
}

#[test]
fn parse_u64_reads_what_the_standard_parser_reads() {
    for s in [
        "", "+", "0", "007", "+30", "30", "-1", "3 0", " 30", "30 ", "++3", "3+",
        "18446744073709551615", "18446744073709551616", "99999999999999999999999", "12a", "٣",
        "+0", "1_000",
    ] {
        assert_eq!(parse_u64(s), s.parse::<u64>().ok(), "{:?}", s);
    }
}

#[test]
fn parse_u64_exact_values() {
    assert_eq!(parse_u64("30"), Some(30));
    assert_eq!(parse_u64("+30"), Some(30));
    assert_eq!(parse_u64("18446744073709551615"), Some(u64::MAX));
    assert_eq!(parse_u64("18446744073709551616"), None);
    assert_eq!(parse_u64(""), None);
    assert_eq!(parse_u64("thirty"), None);
}

#[test]
fn whitespace_agrees_with_char() {
    for code in 0u32..0x3100 {
        if let Some(c) = char::from_u32(code) {
            assert_eq!(is_whitespace(c), c.is_whitespace(), "{:x}", code);
        }
    }
}

#[test]
fn chars_round_trip() {
    let s = "¯\\_(ツ)_/¯ zażółć";
    assert_eq!(to_chars(s), s.chars().collect::<Vec<char>>());
    assert_eq!(from_chars(&to_chars(s)), s);
    assert_eq!(from_chars(&Vec::new()), "");
}

#[test]
fn same_text_compares_characters() {
    assert!(same_text("abc", "abc"));
    assert!(!same_text("abc", "abd"));
    assert!(!same_text("abc", "ab"));
    assert!(same_text("", ""));
}

#[test]
fn replace_all_replaces_from_the_left() {
    let r = |s: &str, from: &str, to: &str| {
        from_chars(&replace_all(&to_chars(s), &to_chars(from), &to_chars(to)))
    };
    assert_eq!(r("hello <@1> and <@1>", "<@1>", "ann"), "hello ann and ann");
    assert_eq!(r("aaa", "aa", "b"), "ba");
    assert_eq!(r("abc", "x", "y"), "abc");
    assert_eq!(r("abc", "", "y"), "abc");
    assert_eq!(r("", "a", "b"), "");
    assert_eq!(r("abab", "ab", ""), "");
    for (s, from, to) in [("a<@1><@12>", "<@1>", "x"), ("żżż", "ż", "zz"), ("aXbXc", "X", "--")] {
        assert_eq!(r(s, from, to), s.replace(from, to));
    }
}

#[test]
fn levenshtein_known_distances() {
    assert_eq!(levenshtein("", ""), 0);
    assert_eq!(levenshtein("", "abc"), 3);
    assert_eq!(levenshtein("abc", ""), 3);
    assert_eq!(levenshtein("ping", "ping"), 0);
    assert_eq!(levenshtein("pong", "ping"), 1);
    assert_eq!(levenshtein("kitten", "sitting"), 3);
    assert_eq!(levenshtein("flaw", "lawn"), 2);
    assert_eq!(levenshtein("bakłażan", "baklazan"), 2);
    assert_eq!(levenshtein("sunday", "saturday"), 3);
}

#[test]
fn levenshtein_is_symmetric_on_samples() {
    let words = ["", "a", "ping", "pong", "version", "versoin", "windows xp", "ツ"];
    for a in words {
        for b in words {
            assert_eq!(levenshtein(a, b), levenshtein(b, a));
        }
    }
}

#[test]
fn suggest_picks_the_first_nearest_within_the_limit() {
    let names: Vec<String> = ["ping", "pong", "version", "cat"].iter().map(|s| s.to_string()).collect();
    assert_eq!(suggest("pung", &names, 3), Some(0));
    assert_eq!(suggest("pong", &names, 3), Some(1));
    assert_eq!(suggest("versoin", &names, 3), Some(2));
    assert_eq!(suggest("versoin", &names, 1), None);
    assert_eq!(suggest("versoin", &names, 2), Some(2));
    assert_eq!(suggest("abcdefghij", &names, 3), None);
    assert_eq!(suggest("anything", &Vec::new(), 3), None);
    assert_eq!(suggest("cat", &names, 0), Some(3));
}
