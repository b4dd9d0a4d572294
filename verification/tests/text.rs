use vpn_link_handler::text::{
    chars_of, contains, decimal_text, extract_field, find, starts_with, strip_trailing, trim,
    whitespace,
};

#[test]
fn chars_of_keeps_every_character() {
    assert_eq!(chars_of("a\u{e9}\u{4e2d}!"), vec!['a', '\u{e9}', '\u{4e2d}', '!']);
    assert_eq!(chars_of(""), Vec::<char>::new());
}

#[test]
fn find_gives_leftmost_position() {
    assert_eq!(find("abcabc", "bc"), Some(1));
    assert_eq!(find("abcabc", "abc"), Some(0));
    assert_eq!(find("aaab", "ab"), Some(2));
    assert_eq!(find("abc", "c"), Some(2));
}

#[test]
fn find_counts_characters_not_bytes() {
    assert_eq!(find("\u{e9}\u{e9}x", "x"), Some(2));
}

#[test]
fn find_misses() {
    assert_eq!(find("abc", "abcd"), None);
    assert_eq!(find("abc", "d"), None);
    assert_eq!(find("", "a"), None);
}

#[test]
fn find_empty_needle_is_at_start() {
    assert_eq!(find("abc", ""), Some(0));
    assert_eq!(find("", ""), Some(0));
}

#[test]
fn contains_agrees_with_std() {
    let samples = ["", "a", "Downloads", "/home/u/Downloads/tool", "C:\\Temp\\x", "emp", "Tem"];
    let needles = ["", "Downloads", "Temp", "o", "/"];
    for hay in samples {
        for needle in needles {
            assert_eq!(contains(hay, needle), hay.contains(needle), "{hay:?} {needle:?}");
        }
    }
}

#[test]
fn starts_with_agrees_with_std() {
    let samples = ["", "globalprotect://x", "globalprotect:/", "xglobalprotect://", "g"];
    let prefixes = ["", "globalprotect://", "g", "x"];
    for s in samples {
        for prefix in prefixes {
            assert_eq!(starts_with(s, prefix), s.starts_with(prefix), "{s:?} {prefix:?}");
        }
    }
}

#[test]
fn whitespace_is_the_unicode_property() {
    let mut code: u32 = 0;
    while code <= 0x10FFFF {
        if let Some(c) = char::from_u32(code) {
            assert_eq!(whitespace(c), c.is_whitespace(), "U+{code:04X}");
        }
        code += 1;
    }
}

#[test]
fn trim_removes_whitespace_around() {
    assert_eq!(trim("  http://10.0.0.5:8001 \r\n"), "http://10.0.0.5:8001");
    assert_eq!(trim("\u{a0}\u{3000}a b\t"), "a b");
    assert_eq!(trim("x"), "x");
}

#[test]
fn trim_of_blank_is_empty() {
    assert_eq!(trim(""), "");
    assert_eq!(trim(" \n\t "), "");
}

#[test]
fn trim_agrees_with_std() {
    let samples = ["", " ", "a", " a", "a ", " a b ", "\n1\n", "\u{2003}x\u{2003}", "\u{200b}x"];
    for s in samples {
        assert_eq!(trim(s), s.trim(), "{s:?}");
    }
}

#[test]
fn strip_trailing_removes_the_whole_run() {
    assert_eq!(strip_trailing("http://h:1///", '/'), "http://h:1");
    assert_eq!(strip_trailing("http://h:1", '/'), "http://h:1");
    assert_eq!(strip_trailing("///", '/'), "");
    assert_eq!(strip_trailing("", '/'), "");
    assert_eq!(strip_trailing("/a/b", '/'), "/a/b");
}

#[test]
fn decimal_text_writes_base_ten() {
    assert_eq!(decimal_text(0), "0");
    assert_eq!(decimal_text(7), "7");
    assert_eq!(decimal_text(10), "10");
    assert_eq!(decimal_text(8001), "8001");
    assert_eq!(decimal_text(32800), "32800");
    assert_eq!(decimal_text(u64::MAX), "18446744073709551615");
}

#[test]
fn extract_field_takes_what_stands_between() {
    assert_eq!(extract_field("k=<v>;", "<", ">"), Some("v".to_string()));
    assert_eq!(extract_field("a<><x>", "<", ">"), Some(String::new()));
    assert_eq!(extract_field("<<a>>", "<", ">"), Some("<a".to_string()));
}

#[test]
fn extract_field_needs_marker_and_terminator() {
    assert_eq!(extract_field("abc", "<", ">"), None);
    assert_eq!(extract_field("a<bc", "<", ">"), None);
    assert_eq!(extract_field(">a<", "<", ">"), None);
}
