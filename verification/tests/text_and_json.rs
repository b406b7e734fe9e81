use tx_agent::json::{JsonNumber, JsonValue};
use tx_agent::text::{
    chars_of, contains_chars, copy_opt, decimal_text, decimal_two_text, find_from, join2, join3,
    join4, non_blank_lines, parse_u32, parse_u64, parse_usize, replace, same_text,
    starts_with, text_of, to_lower, trim,
};
use tx_agent::time::{delta_ms, UtcTime};

#[test]
fn numbers_are_read_as_std_reads_them() {
    for word in [
        "0", "12", "+7", "007", "18446744073709551615", "18446744073709551616", "", "+", "-1", "1_0",
        " 1", "1 ", "4294967295", "4294967296", "++1", "1+", "\u{661}",
    ] {
        assert_eq!(parse_u64(word), word.parse::<u64>().ok(), "{word:?}");
        assert_eq!(parse_u32(word), word.parse::<u32>().ok(), "{word:?}");
        assert_eq!(parse_usize(word), word.parse::<usize>().ok(), "{word:?}");
    }
}

#[test]
fn printed_numbers_read_back() {
    for n in [0u64, 1, 9, 10, 99, 100, 1_000, 90_071_992, u64::MAX] {
        assert_eq!(decimal_text(n), n.to_string());
        assert_eq!(parse_u64(&decimal_text(n)), Some(n));
        assert_eq!(decimal_two_text(n), format!("{n:02}"));
    }
}

#[test]
fn letters_are_lowered_as_ascii() {
    for word in ["Blockhash NOT Found", "", "\u{c4}\u{130}Z", "already lower"] {
        assert_eq!(text_of(&to_lower(word)), word.to_ascii_lowercase());
        let once = text_of(&to_lower(word));
        assert_eq!(text_of(&to_lower(&once)), once);
    }
}

#[test]
fn phrases_are_found() {
    let words = chars_of("bundle dropped: tip too low");
    assert!(contains_chars(&words, "tip"));
    assert!(contains_chars(&words, ""));
    assert!(!contains_chars(&words, "tips"));
    assert_eq!(find_from(&words, &chars_of("o"), 0), Some(9));
    assert_eq!(find_from(&words, &chars_of("zz"), 0), None);
    assert!(starts_with("https://x", "https://"));
    assert!(!starts_with("http://x", "https://"));
    assert!(same_text("a", "a"));
    assert!(!same_text("a", "A"));
}

#[test]
fn replacement_follows_std() {
    for (words, from, to) in [
        ("aaa", "aa", "b"),
        ("abcabc", "bc", ""),
        ("none", "x", "y"),
        ("", "x", "y"),
        ("xx", "x", "xx"),
        ("k\u{e9}y k\u{e9}y", "k\u{e9}y", "REDACTED"),
    ] {
        assert_eq!(replace(words, from, to), words.replace(from, to));
    }
}

#[test]
fn white_space_is_trimmed_as_std_trims_it() {
    for words in ["  a b \n", "", " \t\r\n", "\u{2003}x\u{a0}", "\u{200b}x", "\u{85}y\u{3000}"] {
        assert_eq!(trim(words), words.trim());
    }
}

#[test]
fn lines_follow_std() {
    for contents in ["", "a", "a\n", "a\r\nb\r", "\n\n a \n\t\n{\"x\":1}\n", "a\n\nb"] {
        let expected: Vec<String> =
            contents.lines().filter(|l| !l.trim().is_empty()).map(|l| l.to_string()).collect();
        assert_eq!(non_blank_lines(contents), expected, "{contents:?}");
    }
}

#[test]
fn texts_are_joined() {
    assert_eq!(join2("a", "b"), "ab");
    assert_eq!(join3("a", "", "c"), "ac");
    assert_eq!(join4("a", "b", "c", "d"), "abcd");
    assert_eq!(copy_opt(&Some("x".to_string())), Some("x".to_string()));
    assert_eq!(copy_opt(&None), None);
}

#[test]
fn delays_are_whole_milliseconds() {
    let start = UtcTime { secs: 10, nanos: 999_999_999 };
    assert_eq!(delta_ms(start, UtcTime { secs: 11, nanos: 0 }), 0);
    assert_eq!(delta_ms(start, UtcTime { secs: 12, nanos: 999_999 }), 1_001);
    assert_eq!(delta_ms(start, UtcTime { secs: 12, nanos: 1_999_999 }), 1_002);
    assert_eq!(delta_ms(start, UtcTime { secs: 1, nanos: 0 }), 0);
    let end = UtcTime { secs: 20, nanos: 5 };
    assert!(delta_ms(UtcTime { secs: 11, nanos: 0 }, end) <= delta_ms(start, end));
    assert_eq!(delta_ms(UtcTime { secs: -1, nanos: 0 }, UtcTime { secs: 0, nanos: 0 }), 1_000);
}

#[test]
fn members_of_documents_are_found() {
    let doc = JsonValue::Object(vec![
        ("a".to_string(), JsonValue::Number(JsonNumber::Unsigned(7))),
        ("b".to_string(), JsonValue::Text("x".to_string())),
        ("c".to_string(), JsonValue::Number(JsonNumber::Other("-1.5".to_string()))),
    ]);
    assert_eq!(doc.u64_member("a"), Some(7));
    assert_eq!(doc.u64_member("b"), None);
    assert_eq!(doc.u64_member("c"), None);
    assert_eq!(doc.text_member("b"), Some("x".to_string()));
    assert_eq!(doc.text_member("z"), None);
    assert!(JsonValue::Null.get("a").is_none());
    assert_eq!(doc.copy().text_member("b"), Some("x".to_string()));
}
