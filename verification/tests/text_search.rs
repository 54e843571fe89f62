use oca_editor::text::{chars_of, contains_chars, is_blank_text};

#[test]
fn contains_finds_a_run_anywhere_and_the_empty_needle_everywhere() {
    let hay = chars_of("timeline");
    assert!(contains_chars(&hay, &chars_of("line")));
    assert!(contains_chars(&hay, &chars_of("time")));
    assert!(contains_chars(&hay, &chars_of("")));
    assert!(!contains_chars(&hay, &chars_of("lines")));
    assert!(!contains_chars(&chars_of(""), &chars_of("a")));
}

#[test]
fn blank_text_is_nothing_but_unicode_white_space() {
    assert!(is_blank_text(""));
    assert!(is_blank_text(" \t\n"));
    assert!(is_blank_text("\u{3000}\u{a0}"));
    assert!(!is_blank_text("  a "));
}

#[test]
fn chars_of_keeps_every_character() {
    assert_eq!(chars_of("Olá"), vec!['O', 'l', 'á']);
}
