use clix::{text_matches, trim_text};

#[test]
fn trim_removes_surrounding_spaces() {
    assert_eq!(trim_text("  hello  "), "hello");
}

#[test]
fn trim_keeps_bare_text() {
    assert_eq!(trim_text("hello"), "hello");
}

#[test]
fn trim_keeps_inner_white_space() {
    assert_eq!(trim_text("\thello   brave\tworld\r\n"), "hello   brave\tworld");
}

#[test]
fn trim_of_blank_text_is_empty() {
    assert_eq!(trim_text(" \t\r\n\u{b}\u{c}"), "");
    assert_eq!(trim_text(""), "");
}

#[test]
fn trim_removes_each_white_space_character() {
    let white = [
        '\u{9}', '\u{a}', '\u{b}', '\u{c}', '\u{d}', ' ', '\u{85}', '\u{a0}', '\u{1680}',
        '\u{2000}', '\u{2001}', '\u{2002}', '\u{2003}', '\u{2004}', '\u{2005}', '\u{2006}',
        '\u{2007}', '\u{2008}', '\u{2009}', '\u{200a}', '\u{2028}', '\u{2029}', '\u{202f}',
        '\u{205f}', '\u{3000}',
    ];
    for c in white {
        let text = format!("{}a{}", c, c);
        assert_eq!(trim_text(&text), "a", "U+{:04X}", c as u32);
    }
}

#[test]
fn trim_keeps_characters_next_to_white_space_ranges() {
    let kept = [
        '\u{8}', '\u{e}', '\u{1f}', '!', '\u{84}', '\u{86}', '\u{9f}', '\u{a1}', '\u{167f}',
        '\u{1681}', '\u{180e}', '\u{1fff}', '\u{200b}', '\u{200c}', '\u{2027}', '\u{202a}',
        '\u{202e}', '\u{2030}', '\u{205e}', '\u{2060}', '\u{2fff}', '\u{3001}', '\u{feff}',
    ];
    for c in kept {
        let text = format!("{}a{}", c, c);
        assert_eq!(trim_text(&text), text, "U+{:04X}", c as u32);
    }
}

#[test]
fn equal_texts_match() {
    assert!(text_matches("hello", "hello"));
}

#[test]
fn trailing_white_space_of_output_is_ignored() {
    assert!(text_matches("hello", "hello \r\n"));
    assert!(text_matches("hello", "\u{3000}hello\u{a0}"));
}

#[test]
fn white_space_around_expected_text_is_ignored() {
    assert!(text_matches("  hello\n", "hello"));
}

#[test]
fn matching_is_case_sensitive() {
    assert!(!text_matches("hello", "Hello"));
    assert!(!text_matches("Hello", "hello"));
}

#[test]
fn matching_is_not_by_substring() {
    assert!(!text_matches("hello", "hello world"));
    assert!(!text_matches("hello world", "hello"));
    assert!(!text_matches("hello", "hell"));
}

#[test]
fn inner_white_space_counts() {
    assert!(!text_matches("hello world", "hello  world"));
    assert!(!text_matches("helloworld", "hello world"));
}

#[test]
fn empty_expected_text_matches_blank_output() {
    assert!(text_matches("", ""));
    assert!(text_matches("", "  \r\n"));
    assert!(text_matches(" \t", "\n"));
    assert!(!text_matches("", "x"));
}

#[test]
fn trim_removes_no_other_character() {
    let white = [
        '\u{9}', '\u{a}', '\u{b}', '\u{c}', '\u{d}', ' ', '\u{85}', '\u{a0}', '\u{1680}',
        '\u{2000}', '\u{2001}', '\u{2002}', '\u{2003}', '\u{2004}', '\u{2005}', '\u{2006}',
        '\u{2007}', '\u{2008}', '\u{2009}', '\u{200a}', '\u{2028}', '\u{2029}', '\u{202f}',
        '\u{205f}', '\u{3000}',
    ];
    let mut text = String::new();
    for c in '\u{0}'..=char::MAX {
        text.clear();
        text.push(c);
        text.push('a');
        text.push(c);
        let trimmed = trim_text(&text);
        if white.contains(&c) {
            assert_eq!(trimmed, "a", "U+{:04X}", c as u32);
        } else {
            assert_eq!(trimmed, text, "U+{:04X}", c as u32);
        }
    }
}
