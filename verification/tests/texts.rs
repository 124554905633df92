use minimal::text::{chars_of, decimal_text, find, is_whitespace, trim};

#[test]
fn chars_of_gives_every_character_in_order() {
    assert_eq!(chars_of("abc"), vec!['a', 'b', 'c']);
    assert_eq!(chars_of(""), Vec::<char>::new());
    assert_eq!(chars_of("é ü"), vec!['é', ' ', 'ü']);
}

#[test]
fn find_gives_the_leftmost_position() {
    assert_eq!(find("title big", "big"), Some(6));
    assert_eq!(find("abab", "ab"), Some(0));
    assert_eq!(find("xabab", "ab"), Some(1));
    assert_eq!(find("aab", "ab"), Some(1));
    assert_eq!(find("abc", "c"), Some(2));
    assert_eq!(find("abc", "abc"), Some(0));
}

#[test]
fn find_gives_none_where_nothing_matches() {
    assert_eq!(find("title", "big"), None);
    assert_eq!(find("ab", "abc"), None);
    assert_eq!(find("", "a"), None);
    assert_eq!(find("aaa", "ab"), None);
}

#[test]
fn find_of_the_empty_text_is_at_the_start() {
    assert_eq!(find("abc", ""), Some(0));
    assert_eq!(find("", ""), Some(0));
}

#[test]
fn find_counts_characters() {
    assert_eq!(find("héllo", "llo"), Some(2));
    assert_eq!(find("日本語のテキスト", "テ"), Some(4));
}

#[test]
fn find_agrees_with_the_standard_search() {
    let hays = ["", "a", "ab", "aab", "abab", "title big", "  x  ", "aaaa", "abcabcabd"];
    let needles = ["", "a", "b", "ab", "ba", "abd", "bca", " ", "  ", "title", "aaaaa"];
    for hay in hays {
        for needle in needles {
            assert_eq!(find(hay, needle), hay.find(needle), "{:?} in {:?}", needle, hay);
        }
    }
}

#[test]
fn whitespace_is_what_unicode_calls_white_space() {
    let mut code: u32 = 0;
    while code <= 0x10FFFF {
        if let Some(c) = char::from_u32(code) {
            assert_eq!(is_whitespace(c), c.is_whitespace(), "U+{:04X}", code);
        }
        code += 1;
    }
}

#[test]
fn whitespace_examples() {
    assert!(is_whitespace(' '));
    assert!(is_whitespace('\t'));
    assert!(is_whitespace('\n'));
    assert!(is_whitespace('\u{a0}'));
    assert!(is_whitespace('\u{3000}'));
    assert!(!is_whitespace('a'));
    assert!(!is_whitespace('\u{200b}'));
    assert!(!is_whitespace('\u{8}'));
    assert!(!is_whitespace('\u{e}'));
}

#[test]
fn trim_drops_whitespace_at_both_ends() {
    assert_eq!(trim("  a b  "), "a b");
    assert_eq!(trim("a b"), "a b");
    assert_eq!(trim("\t\na\r\n"), "a");
    assert_eq!(trim(" a"), "a");
    assert_eq!(trim("a "), "a");
}

#[test]
fn trim_of_whitespace_alone_is_empty() {
    assert_eq!(trim(""), "");
    assert_eq!(trim(" "), "");
    assert_eq!(trim(" \t\u{a0} "), "");
}

#[test]
fn trim_keeps_whitespace_inside() {
    assert_eq!(trim(" a  b\tc "), "a  b\tc");
}

#[test]
fn trim_agrees_with_the_standard_trim() {
    let samples = [
        "", " ", "a", " a", "a ", "  a  b  ", "\u{2028}x\u{2029}", "\u{1680}é\u{205f}",
        "\u{200b} a \u{200b}", "\u{feff}a", "日本 語\u{3000}", "\u{85}\u{a0}\u{202f}",
    ];
    for s in samples {
        assert_eq!(trim(s), s.trim(), "{:?}", s);
    }
}

#[test]
fn decimal_text_of_small_numbers() {
    assert_eq!(decimal_text(0), "0");
    assert_eq!(decimal_text(5), "5");
    assert_eq!(decimal_text(9), "9");
    assert_eq!(decimal_text(10), "10");
    assert_eq!(decimal_text(42), "42");
    assert_eq!(decimal_text(100), "100");
    assert_eq!(decimal_text(1009), "1009");
}

#[test]
fn decimal_text_of_the_largest_number() {
    assert_eq!(decimal_text(u32::MAX), "4294967295");
}

#[test]
fn decimal_text_agrees_with_the_standard_rendering() {
    let mut n: u32 = 0;
    while n < 3000 {
        assert_eq!(decimal_text(n), n.to_string());
        n += 1;
    }
    for n in [65535u32, 65536, 999_999_999, 1_000_000_000, 4_000_000_000] {
        assert_eq!(decimal_text(n), n.to_string());
    }
}
