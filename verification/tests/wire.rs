use zecho::wire::{escape_newlines, prompt_of_line, unescape_chars, unescape_newlines};

#[test]
fn escapes_newlines_only() {
    assert_eq!(escape_newlines("a\nb\n\nc"), "a\\nb\\n\\nc");
    assert_eq!(escape_newlines(""), "");
    assert_eq!(escape_newlines("\\n"), "\\n");
    assert_eq!(escape_newlines("\r\t"), "\r\t");
}

#[test]
fn unescapes_from_left_to_right() {
    for s in ["", "\\", "n", "\\n", "\\\\n", "a\\nb", "\\n\\n", "\\\\\\n", "é\\né"] {
        assert_eq!(unescape_newlines(s), s.replace("\\n", "\n"), "{:?}", s);
    }
    assert_eq!(unescape_chars(&vec!['\\', 'n']), vec!['\n']);
}

#[test]
fn a_text_without_escapes_comes_back() {
    for s in ["", "a\nb", "\\\n", "n\\", "\n\n", "line\r\nline"] {
        let line = escape_newlines(s);
        assert!(!line.contains('\n'));
        assert!(line.len() >= s.len());
        assert_eq!(unescape_newlines(&line), s);
    }
    assert_ne!(unescape_newlines(&escape_newlines("C:\\new")), "C:\\new");
}

#[test]
fn empty_lines_are_skipped() {
    assert_eq!(prompt_of_line(""), None);
    assert_eq!(prompt_of_line("a\\nb"), Some("a\nb".to_string()));
    assert_eq!(prompt_of_line(" "), Some(" ".to_string()));
}
