use faf_rust_sdk::text::{chars_of, is_whitespace_char, same_text, trim};
use faf_rust_sdk::StringMap;

#[test]
fn new_map_is_empty() {
    let map = StringMap::new();
    assert!(map.is_empty());
    assert_eq!(map.len(), 0);
    assert_eq!(map.get("a"), None);
}

#[test]
fn insert_adds_at_the_end() {
    let mut map = StringMap::new();
    map.insert("b".to_string(), "1".to_string());
    map.insert("a".to_string(), "2".to_string());
    assert_eq!(map.len(), 2);
    assert!(!map.is_empty());
    assert_eq!(map.key_at(0), "b");
    assert_eq!(map.value_at(0), "1");
    assert_eq!(map.key_at(1), "a");
    assert_eq!(map.value_at(1), "2");
    assert_eq!(map.get("a"), Some("2"));
    assert_eq!(map.get("b"), Some("1"));
    assert_eq!(map.get("c"), None);
}

#[test]
fn insert_replaces_in_place() {
    let mut map = StringMap::new();
    map.insert("a".to_string(), "1".to_string());
    map.insert("b".to_string(), "2".to_string());
    map.insert("a".to_string(), "3".to_string());
    assert_eq!(map.len(), 2);
    assert_eq!(map.key_at(0), "a");
    assert_eq!(map.value_at(0), "3");
    assert_eq!(map.key_at(1), "b");
    assert_eq!(map.get("a"), Some("3"));
}

#[test]
fn keys_are_compared_by_their_characters() {
    let mut map = StringMap::new();
    map.insert("e\u{301}".to_string(), "combining".to_string());
    map.insert("\u{e9}".to_string(), "single".to_string());
    map.insert("".to_string(), "empty".to_string());
    assert_eq!(map.len(), 3);
    assert_eq!(map.get("e\u{301}"), Some("combining"));
    assert_eq!(map.get("\u{e9}"), Some("single"));
    assert_eq!(map.get(""), Some("empty"));
    assert_eq!(map.get("e"), None);
}

#[test]
fn clone_is_equal() {
    let mut map = StringMap::new();
    map.insert("a".to_string(), "1".to_string());
    map.insert("b".to_string(), "2".to_string());
    let copy = map.clone();
    assert_eq!(copy, map);
    assert_eq!(copy.key_at(1), "b");
}

#[test]
fn trim_agrees_with_std() {
    let samples = [
        "",
        " ",
        "a",
        "  a  ",
        "\t\n a b \r\n",
        "\u{a0}x\u{a0}",
        "\u{2003}wide\u{3000}",
        "\u{85}next line\u{85}",
        "\u{1680}\u{2028}\u{2029}\u{202f}\u{205f}mid dle\u{2000}\u{200a}",
        "\u{200b}zero width is no whitespace\u{200b}",
        "\u{feff}bom",
        "x\u{0b}\u{0c}",
        "\u{1c}separator",
        "🦀 crab 🦀",
        "   \n\t\n   ",
    ];
    for s in samples {
        assert_eq!(trim(s), s.trim(), "{:?}", s);
    }
}

#[test]
fn whitespace_agrees_with_std() {
    for code in 0..0x3100u32 {
        if let Some(c) = char::from_u32(code) {
            assert_eq!(is_whitespace_char(c), c.is_whitespace(), "{:x}", code);
        }
    }
    assert!(!is_whitespace_char('\u{1f980}'));
}

#[test]
fn same_text_compares_characters() {
    assert!(same_text("", ""));
    assert!(same_text("abc", "abc"));
    assert!(!same_text("abc", "abd"));
    assert!(!same_text("abc", "ab"));
    assert!(!same_text("", "a"));
    assert!(same_text("日本語🦀", "日本語🦀"));
    assert!(!same_text("e\u{301}", "\u{e9}"));
}

#[test]
fn chars_of_lists_the_characters() {
    assert_eq!(chars_of(""), Vec::<char>::new());
    assert_eq!(chars_of("a🦀b"), vec!['a', '🦀', 'b']);
}
