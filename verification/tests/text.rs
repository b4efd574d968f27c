use node_agent::text::{
    chars_of, contains_chars, parse_trimmed_u64, parse_u64_chars, str_eq,
    string_from_chars, to_ascii_lower, trim_chars,
};

fn chars(s: &str) -> Vec<char> {
    s.chars().collect()
}

#[test]
fn chars_and_back() {
    let v = chars_of("héllo");
    assert_eq!(v, vec!['h', 'é', 'l', 'l', 'o']);
    assert_eq!(string_from_chars(&v), "héllo");
}

#[test]
fn trim_removes_unicode_white_space_at_both_ends() {
    assert_eq!(trim_chars(&chars(" \t\n ab c \r\n")), chars("ab c"));
    assert_eq!(trim_chars(&chars("\u{a0}\u{3000}x\u{2009}")), chars("x"));
    assert_eq!(trim_chars(&chars("   ")), Vec::<char>::new());
    assert_eq!(trim_chars(&chars("")), Vec::<char>::new());
    for s in ["  a b ", "\u{85}q\u{2028}", "zz", "\u{200b}x"] {
        assert_eq!(trim_chars(&chars(s)), chars(s.trim()));
    }
}

#[test]
fn ascii_lower_case() {
    assert_eq!(to_ascii_lower(&chars("AbC-É9")), chars("abc-É9"));
}

#[test]
fn contains_substrings() {
    assert!(contains_chars(&chars("amd radeon"), &chars("radeon")));
    assert!(!contains_chars(&chars("amd"), &chars("amdx")));
    assert!(contains_chars(&chars("abc"), &chars("")));
}

#[test]
fn string_equality() {
    assert!(str_eq("SetInterval", "SetInterval"));
    assert!(!str_eq("SetInterval", "setinterval"));
    assert!(!str_eq("a", "ab"));
}

#[test]
fn parse_like_u64_from_str() {
    let cases = [
        "0", "42", "+7", "007", "18446744073709551615", "18446744073709551616", "-1", "+", "",
        "++1", "1 2", "12a", "٣",
    ];
    for s in cases {
        assert_eq!(parse_u64_chars(&chars(s)), s.parse::<u64>().ok(), "{s:?}");
    }
    assert_eq!(parse_u64_chars(&chars("18446744073709551615")), Some(u64::MAX));
    assert_eq!(parse_u64_chars(&chars("99999999999999999999")), None);
}

#[test]
fn parse_trimmed_reads_sysfs_numbers() {
    assert_eq!(parse_trimmed_u64("45000\n"), Some(45000));
    assert_eq!(parse_trimmed_u64("  17 \n"), Some(17));
    assert_eq!(parse_trimmed_u64("\n"), None);
    assert_eq!(parse_trimmed_u64("N/A\n"), None);
}

#[test]
fn number_read_back_from_its_digits() {
    for n in [0u64, 7, 10, 12345, u64::MAX] {
        assert_eq!(parse_trimmed_u64(&format!("{n}\n")), Some(n));
    }
}
