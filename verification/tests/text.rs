use zecho::text::{
    chars_of, copy_range, fold_char, fold_chars, holds_word, is_whitespace, occurs_here, same_text,
    split_chars, string_of, trim, trim_chars,
};

fn all_chars() -> Vec<char> {
    let mut all: Vec<char> = Vec::new();
    for u in 0..=0x10ffff_u32 {
        if let Some(c) = char::from_u32(u) {
            all.push(c);
        }
    }
    all
}

#[test]
fn whitespace_is_that_of_the_standard_library() {
    for c in all_chars() {
        assert_eq!(is_whitespace(c), c.is_whitespace(), "{:?}", c);
    }
}

#[test]
fn lower_case_agrees_wherever_it_is_ascii() {
    for c in all_chars() {
        let low: String = c.to_lowercase().collect();
        if low.is_ascii() {
            assert_eq!(fold_char(c).to_string(), low, "{:?}", c);
        } else {
            assert_eq!(fold_char(c), c);
            assert!(!c.is_ascii());
        }
    }
    assert_eq!(fold_char('\u{212A}'), 'k');
    assert_eq!(fold_char('\u{130}'), '\u{130}');
}

#[test]
fn trims_as_the_standard_library_does() {
    for s in [
        "", " ", "a", " a", "a ", "\t a b \n", "\u{a0}x\u{3000}", "\u{200b}x", "\u{1680}\u{2028}y\u{85}",
        "  äöü  ", "\u{1c}z\u{1f}",
    ] {
        assert_eq!(trim(s), s.trim(), "{:?}", s);
        assert_eq!(trim(&trim(s)), trim(s));
    }
    assert_eq!(trim_chars(&vec![' ', 'x', ' ']), vec!['x']);
}

#[test]
fn characters_and_strings_convert_both_ways() {
    let v = chars_of("aé→🦀");
    assert_eq!(v, vec!['a', 'é', '→', '🦀']);
    assert_eq!(string_of(&v), "aé→🦀");
    assert_eq!(copy_range(&v, 1, 3), vec!['é', '→']);
    assert_eq!(copy_range(&v, 2, 2), Vec::<char>::new());
}

#[test]
fn compares_texts() {
    assert!(same_text("", ""));
    assert!(same_text("zh", "zh"));
    assert!(!same_text("zh", "z"));
    assert!(!same_text("z", "zh"));
    assert!(!same_text("zh", "ZH"));
    assert!(same_text("né", "né"));
}

#[test]
fn finds_words() {
    let v = chars_of("a <end_of b");
    assert!(holds_word(&v, "<end_of"));
    assert!(!holds_word(&v, "<start_of"));
    assert!(holds_word(&v, ""));
    assert!(holds_word(&chars_of(""), ""));
    assert!(!holds_word(&chars_of(""), "x"));
    assert!(holds_word(&v, "b"));
    assert!(occurs_here(&v, "<end", 2));
    assert!(!occurs_here(&v, "<end", 3));
    assert!(!occurs_here(&v, "b", 11));
    assert!(occurs_here(&v, "", 11));
}

#[test]
fn splits_at_each_separator() {
    for s in ["", "+", "a", "a+b", "+a", "a+", "ctrl++", "ä+ö+ü"] {
        let parts: Vec<String> = split_chars(s, '+').iter().map(|p| string_of(p)).collect();
        let expected: Vec<String> = s.split('+').map(|p| p.to_string()).collect();
        assert_eq!(parts, expected, "{:?}", s);
    }
}

#[test]
fn folds_a_text() {
    assert_eq!(string_of(&fold_chars(&chars_of("CtRl Ä9[`@{"))), "ctrl Ä9[`@{");
}
