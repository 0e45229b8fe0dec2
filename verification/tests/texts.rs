use power_plan_manager::text::{
    has_part, control, cut_end_of, cut_start_of, decimal_of, equals_ignoring_case, join,
    lines, lower_of, trim, white, CharClass,
};

#[test]
fn white_space_and_control_characters_are_those_of_unicode() {
    for code in 0..=0x10ffff_u32 {
        if let Some(c) = char::from_u32(code) {
            assert_eq!(white(c), c.is_whitespace(), "{code:x}");
            assert_eq!(control(c), c.is_control(), "{code:x}");
        }
    }
}

#[test]
fn lower_case_is_for_ascii_alone() {
    assert_eq!(lower_of("AbC \u{c4}\u{130}"), "abc \u{c4}\u{130}");
    assert!(equals_ignoring_case("POW", "pow"));
    assert!(!equals_ignoring_case("\u{c4}", "\u{e4}"));
    assert!(!equals_ignoring_case("pow", "powe"));
}

#[test]
fn texts_are_trimmed_as_std_trims_them() {
    for text in ["", " ", "a", " a b ", "\u{3000}x\u{85}", "\r\n\ty", "z\u{a0} "] {
        assert_eq!(trim(text), text.trim());
        assert_eq!(cut_start_of(text, CharClass::White), text.trim_start());
        assert_eq!(cut_end_of(text, CharClass::White), text.trim_end());
    }
    assert_eq!(cut_start_of(". .a. ", CharClass::DotOrSpace), "a. ");
}

#[test]
fn lines_are_those_of_std() {
    for text in ["", "a", "a\n", "a\r\nb", "\n\nx\r", "a\r\r\n", "one\ntwo\r\nthree\n\n"] {
        let wanted: Vec<String> = text.lines().map(|line| line.to_owned()).collect();
        assert_eq!(lines(text), wanted);
    }
}

#[test]
fn parts_are_found_in_texts() {
    for (text, part) in [("", ""), ("abc", ""), ("abc", "bc"), ("abc", "cb"), ("aab", "ab")] {
        assert_eq!(has_part(text, part), text.contains(part));
    }
}

#[test]
fn texts_are_joined() {
    assert_eq!(join(&vec![], ", "), "");
    assert_eq!(join(&vec!["a".to_owned()], ", "), "a");
    assert_eq!(join(&vec!["a".to_owned(), "b".to_owned()], ", "), "a, b");
}

#[test]
fn numbers_are_shown_in_decimal() {
    for n in [0, 7, 10, 42, 1000, usize::MAX] {
        assert_eq!(decimal_of(n), format!("{n}"));
    }
}
