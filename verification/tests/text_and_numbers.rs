use minecraft_bot::number::decimal_text;
use minecraft_bot::text::{remove_char, rsplit_once, same_text, split_once, starts_with, trim};

#[test]
fn trim_removes_surrounding_white_space() {
    assert_eq!(trim("  \t hello world \n"), "hello world");
    assert_eq!(trim("\u{3000}x\u{a0}"), "x");
    assert_eq!(trim("   "), "");
    assert_eq!(trim(""), "");
    assert_eq!(trim("a b"), "a b");
}

#[test]
fn rsplit_once_splits_at_last_occurrence() {
    assert_eq!(
        rsplit_once("a$b$c", '$'),
        Some(("a$b".to_string(), "c".to_string()))
    );
    assert_eq!(rsplit_once("abc", '$'), None);
    assert_eq!(rsplit_once("$", '$'), Some((String::new(), String::new())));
}

#[test]
fn split_once_splits_at_first_occurrence() {
    assert_eq!(
        split_once("a;b;c", ';'),
        Some(("a".to_string(), "b;c".to_string()))
    );
    assert_eq!(split_once("abc", ';'), None);
}

#[test]
fn remove_char_drops_every_occurrence() {
    assert_eq!(remove_char("1,234,567.5", ','), "1234567.5");
    assert_eq!(remove_char(",,,", ','), "");
    assert_eq!(remove_char("12", ','), "12");
}

#[test]
fn starts_with_and_same_text() {
    assert!(starts_with("Error: no such player", "Error"));
    assert!(!starts_with("Err", "Error"));
    assert!(!starts_with("error: x", "Error"));
    assert!(starts_with("anything", ""));
    assert!(same_text("abc", "abc"));
    assert!(!same_text("abc", "abd"));
    assert!(!same_text("abc", "ab"));
}

#[test]
fn decimal_text_renders_numbers() {
    assert_eq!(decimal_text(0), "0");
    assert_eq!(decimal_text(7), "7");
    assert_eq!(decimal_text(25), "25");
    assert_eq!(decimal_text(1000), "1000");
    assert_eq!(decimal_text(u32::MAX), "4294967295");
}

#[test]
fn white_space_matches_std_for_every_char() {
    for u in 0u32..=0x10FFFF {
        if let Some(c) = char::from_u32(u) {
            assert_eq!(
                minecraft_bot::text::is_whitespace_char(c),
                c.is_whitespace(),
                "U+{u:04X}"
            );
        }
    }
}

#[test]
fn text_helpers_agree_with_std() {
    let samples = [
        "", " ", "$", "a$b", "  Balance of Steve: $1,050.25 \n", "\u{2003}x\u{2003}", ";;", "a;b",
        "Error", "\tError: x ",
    ];
    for s in samples {
        assert_eq!(trim(s), s.trim());
        assert_eq!(
            rsplit_once(s, '$'),
            s.rsplit_once('$').map(|(a, b)| (a.to_string(), b.to_string()))
        );
        assert_eq!(
            split_once(s, ';'),
            s.split_once(';').map(|(a, b)| (a.to_string(), b.to_string()))
        );
        assert_eq!(remove_char(s, ','), s.replace(',', ""));
        assert_eq!(starts_with(s, "Error"), s.starts_with("Error"));
    }
}
