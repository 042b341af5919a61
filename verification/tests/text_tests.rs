use todo_app::text::{decimal_string, is_white_space_char, normalize_tag_name, trim};

#[test]
fn trim_removes_surrounding_whitespace() {
    assert_eq!(trim("  a b  "), "a b");
    assert_eq!(trim("\t\n x \r"), "x");
    assert_eq!(trim("abc"), "abc");
}

#[test]
fn trim_of_blank_text_is_empty() {
    assert_eq!(trim(""), "");
    assert_eq!(trim("   "), "");
    assert_eq!(trim("\u{3000}\u{a0}\u{2028}"), "");
}

#[test]
fn trim_handles_unicode_whitespace() {
    assert_eq!(trim("\u{3000}tag\u{2009}"), "tag");
    assert_eq!(trim("\u{85}ümlaut\u{1680}"), "ümlaut");
}

#[test]
fn trim_agrees_with_std() {
    let samples = ["", " ", "x", "  x  ", "\u{200b}x\u{200b}", "\u{feff}y", "a\u{2003}b", "\u{205f}\u{202f}z\u{3000}"];
    for s in samples.iter() {
        assert_eq!(trim(s), s.trim());
    }
}

#[test]
fn trim_twice_is_trim_once() {
    let s = "  \t spaced out \n ";
    assert_eq!(trim(trim(s)), trim(s));
    assert_eq!(trim(trim(s)), "spaced out");
}

#[test]
fn whitespace_matches_std_on_all_chars() {
    for u in 0u32..0x3100 {
        if let Some(c) = char::from_u32(u) {
            assert_eq!(is_white_space_char(c), c.is_whitespace(), "code point {:x}", u);
        }
    }
}

#[test]
fn decimal_string_writes_numbers() {
    assert_eq!(decimal_string(0), "0");
    assert_eq!(decimal_string(7), "7");
    assert_eq!(decimal_string(10), "10");
    assert_eq!(decimal_string(1431648000), "1431648000");
    assert_eq!(decimal_string(u64::MAX), "18446744073709551615");
}

#[test]
fn decimal_string_agrees_with_to_string() {
    for n in [1u64, 9, 99, 100, 101, 65535, 123456789012345, 9223372036854775807] {
        assert_eq!(decimal_string(n), n.to_string());
    }
}

#[test]
fn tag_names_are_trimmed_and_lowercased() {
    assert_eq!(normalize_tag_name("  Work "), "work");
    assert_eq!(normalize_tag_name("HOME"), "home");
    assert_eq!(normalize_tag_name("ÄrgerLICH"), "ärgerlich");
    assert_eq!(normalize_tag_name(" \t "), "");
}
