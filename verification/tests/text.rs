use fleeting::text::{
    chars_of, decimal_string, is_whitespace, join, matches_at, parse_small_decimal, push_decimal,
    replace, same_text, split_on, starts_with, string_of, to_ascii_lowercase, trim,
};

fn chars(s: &str) -> Vec<char> {
    s.chars().collect()
}

#[test]
fn decimal_of_numbers() {
    assert_eq!(decimal_string(0), "0");
    assert_eq!(decimal_string(7), "7");
    assert_eq!(decimal_string(10), "10");
    assert_eq!(decimal_string(2376), "2376");
    assert_eq!(decimal_string(u64::MAX), "18446744073709551615");
}

#[test]
fn push_decimal_appends() {
    let mut out = String::from("pid ");
    push_decimal(&mut out, 4242);
    assert_eq!(out, "pid 4242");
}

#[test]
fn chars_and_back() {
    let text = "héllo → wörld";
    assert_eq!(chars_of(text), chars(text));
    assert_eq!(string_of(&chars(text)), text);
    assert_eq!(chars_of(""), Vec::<char>::new());
}

#[test]
fn same_text_compares_characters() {
    assert!(same_text("abc", "abc"));
    assert!(!same_text("abc", "abd"));
    assert!(!same_text("abc", "ab"));
    assert!(same_text("", ""));
}

#[test]
fn starts_with_prefixes() {
    assert!(starts_with("fleeting-12", "fleeting-"));
    assert!(starts_with("fleeting-", "fleeting-"));
    assert!(starts_with("anything", ""));
    assert!(!starts_with("fleeting", "fleeting-"));
    assert!(!starts_with("xfleeting-1", "fleeting-"));
}

#[test]
fn matches_at_positions() {
    let text = chars("abcabc");
    let pattern = chars("bc");
    assert!(matches_at(&text, 1, &pattern));
    assert!(matches_at(&text, 4, &pattern));
    assert!(!matches_at(&text, 0, &pattern));
    assert!(!matches_at(&text, 5, &pattern));
    assert!(!matches_at(&text, 7, &pattern));
    assert!(matches_at(&text, 6, &chars("")));
}

#[test]
fn white_space_is_unicode_white_space() {
    for c in [' ', '\t', '\n', '\r', '\u{0B}', '\u{0C}', '\u{85}', '\u{A0}', '\u{1680}', '\u{2000}', '\u{200A}', '\u{2028}', '\u{2029}', '\u{202F}', '\u{205F}', '\u{3000}'] {
        assert!(is_whitespace(c), "{:?}", c);
    }
    for c in ['a', '0', '_', '\u{200B}', '\u{180E}', '\u{FEFF}', '\0'] {
        assert!(!is_whitespace(c), "{:?}", c);
    }
}

#[test]
fn white_space_agrees_with_char_is_whitespace() {
    let mut code: u32 = 0;
    while code < 0x3100 {
        if let Some(c) = char::from_u32(code) {
            assert_eq!(is_whitespace(c), c.is_whitespace(), "{:?}", c);
        }
        code += 1;
    }
}

#[test]
fn trim_removes_white_space_at_both_ends() {
    assert_eq!(trim("  abc \n"), "abc");
    assert_eq!(trim("abc"), "abc");
    assert_eq!(trim("\t a b \r\n"), "a b");
    assert_eq!(trim("   "), "");
    assert_eq!(trim(""), "");
    assert_eq!(trim("\u{3000}x\u{A0}"), "x");
}

#[test]
fn trim_agrees_with_str_trim() {
    for text in ["", " ", "a", " a", "a ", " a b ", "\n\n", "x\ty", "\u{2003}wide\u{2003}"] {
        assert_eq!(trim(text), text.trim());
    }
}

#[test]
fn lower_case_of_ascii_letters_only() {
    assert_eq!(to_ascii_lowercase("AArch64"), "aarch64");
    assert_eq!(to_ascii_lowercase("X86_64"), "x86_64");
    assert_eq!(to_ascii_lowercase("ÄÖÜ Az"), "ÄÖÜ az");
    assert_eq!(to_ascii_lowercase("@[`{"), "@[`{");
    assert_eq!(to_ascii_lowercase(""), "");
}

#[test]
fn join_puts_separator_between() {
    let parts = vec![String::from("a"), String::from("b"), String::from("c")];
    assert_eq!(join(&parts, "\n"), "a\nb\nc");
    assert_eq!(join(&parts, ""), "abc");
    assert_eq!(join(&vec![String::from("only")], ", "), "only");
    assert_eq!(join(&Vec::new(), ", "), "");
    assert_eq!(join(&vec![String::new(), String::new()], "-"), "-");
}

#[test]
fn replace_all_occurrences() {
    assert_eq!(replace("a{{x}}b{{x}}c", "{{x}}", "1"), "a1b1c");
    assert_eq!(replace("{{x}}", "{{x}}", ""), "");
    assert_eq!(replace("abc", "{{x}}", "1"), "abc");
    assert_eq!(replace("aaa", "aa", "b"), "ba");
    assert_eq!(replace("abab", "ab", "abab"), "abababab");
    assert_eq!(replace("", "x", "y"), "");
    assert_eq!(replace("{{x}", "{{x}}", "1"), "{{x}");
}

#[test]
fn replace_with_empty_pattern_changes_nothing() {
    assert_eq!(replace("abc", "", "-"), "abc");
}

#[test]
fn replace_agrees_with_str_replace() {
    for (text, pattern, with) in [("xxyxx", "x", "zz"), ("hello world", "o w", "0"), ("aaaa", "aaa", "b"), ("é→é", "→", "->")] {
        assert_eq!(replace(text, pattern, with), text.replace(pattern, with));
    }
}

#[test]
fn split_keeps_empty_pieces() {
    assert_eq!(split_on(&chars("1.2.3"), '.'), vec![chars("1"), chars("2"), chars("3")]);
    assert_eq!(split_on(&chars(""), '.'), vec![chars("")]);
    assert_eq!(split_on(&chars("."), '.'), vec![chars(""), chars("")]);
    assert_eq!(split_on(&chars("a..b."), '.'), vec![chars("a"), chars(""), chars("b"), chars("")]);
    assert_eq!(split_on(&chars("abc"), '.'), vec![chars("abc")]);
}

#[test]
fn small_decimals() {
    assert_eq!(parse_small_decimal(&chars("0")), Some(0));
    assert_eq!(parse_small_decimal(&chars("7")), Some(7));
    assert_eq!(parse_small_decimal(&chars("255")), Some(255));
    assert_eq!(parse_small_decimal(&chars("999")), Some(999));
    assert_eq!(parse_small_decimal(&chars("")), None);
    assert_eq!(parse_small_decimal(&chars("00")), None);
    assert_eq!(parse_small_decimal(&chars("01")), None);
    assert_eq!(parse_small_decimal(&chars("1000")), None);
    assert_eq!(parse_small_decimal(&chars("1a")), None);
    assert_eq!(parse_small_decimal(&chars("-1")), None);
    assert_eq!(parse_small_decimal(&chars("١٢")), None);
}
