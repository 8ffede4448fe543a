use zecho::cleanup::response::{answer_of, is_lone_backtick, ParseResult};
use zecho::cleanup::{parse_response, strip_model_artifacts};
use zecho::wire::escape_newlines;

fn clean(response: &str, raw_text: &str) -> Option<String> {
    match parse_response(response, raw_text) {
        ParseResult::Clean(text) => Some(text),
        _ => None,
    }
}

fn retries(response: &str, raw_text: &str) -> bool {
    matches!(parse_response(response, raw_text), ParseResult::Retry)
}

fn falls_back(response: &str, raw_text: &str) -> bool {
    matches!(parse_response(response, raw_text), ParseResult::Fallback)
}

#[test]
fn strips_one_pair_of_quotes() {
    assert_eq!(strip_model_artifacts("\"hello\""), "hello");
    assert_eq!(strip_model_artifacts("'hello'"), "hello");
    assert_eq!(strip_model_artifacts("\"\"hello\"\""), "\"hello\"");
    assert_eq!(strip_model_artifacts("\"hello'"), "\"hello'");
    assert_eq!(strip_model_artifacts("\""), "\"");
    assert_eq!(strip_model_artifacts("\"\""), "");
    assert_eq!(strip_model_artifacts("  \" x \"  "), "x");
}

#[test]
fn strips_backticks_of_a_single_line() {
    assert_eq!(strip_model_artifacts("`hello`"), "hello");
    assert_eq!(strip_model_artifacts("`a\nb`"), "`a\nb`");
    assert_eq!(strip_model_artifacts("``"), "");
    assert_eq!(strip_model_artifacts("\"`x`\""), "x");
    assert_eq!(strip_model_artifacts("`\"x\"`"), "\"x\"");
}

#[test]
fn strips_bold_marks_around_something() {
    assert_eq!(strip_model_artifacts("**bold**"), "bold");
    assert_eq!(strip_model_artifacts("****"), "****");
    assert_eq!(strip_model_artifacts("***"), "***");
    assert_eq!(strip_model_artifacts("*****"), "*");
    assert_eq!(strip_model_artifacts("**é**"), "é");
}

#[test]
fn strips_announcements_in_any_case() {
    for (text, rest) in [
        ("Here is the cleaned text:\nHi.", "Hi."),
        ("here is the cleaned text: Hi.", "Hi."),
        ("HERE'S THE CLEANED TEXT:\nHi.", "Hi."),
        ("Here's the cleaned text: Hi.", "Hi."),
        ("Cleaned text:\nHi.", "Hi."),
        ("Cleaned text: Hi.", "Hi."),
        ("Cleaned version:\nHi.", "Hi."),
        ("Cleaned version: Hi.", "Hi."),
        ("Cleaned:\nHi.", "Hi."),
        ("Cleaned: Hi.", "Hi."),
        ("Clean:\nHi.", "Hi."),
        ("Clean: Hi.", "Hi."),
        ("Text to clean:\nHi.", "Hi."),
        ("Text to clean: Hi.", "Hi."),
        ("Input:\nHi.", "Hi."),
        ("Input: Hi.", "Hi."),
        ("Input:Hi.", "Input:Hi."),
        ("Clean: Input: Hi.", "Input: Hi."),
        ("\u{130}nput: Hi.", "\u{130}nput: Hi."),
        ("**Cleaned: Hi.**", "Hi."),
    ] {
        assert_eq!(strip_model_artifacts(text), rest, "{:?}", text);
    }
}

#[test]
fn what_is_stripped_is_a_part_of_the_text() {
    for text in ["  'Cleaned: ÄÖ'  ", "**x**y**", "", "   ", "`a", "input: `x`"] {
        assert!(text.contains(&strip_model_artifacts(text)));
    }
}

#[test]
fn knows_the_text_that_cannot_be_stripped() {
    assert!(is_lone_backtick("`"));
    assert!(is_lone_backtick("  '`' "));
    assert!(!is_lone_backtick("``"));
    assert!(!is_lone_backtick(""));
    assert!(!is_lone_backtick("' ` '"));
}

#[test]
fn a_plain_reply_is_taken_word_for_word() {
    let reply = "The thing works.\nReally well.";
    let line = format!("{}\n", escape_newlines(reply));
    assert_eq!(answer_of(&line), reply);
    assert_eq!(clean(&line, "um the thing works really well"), Some(reply.to_string()));
}

#[test]
fn a_response_ends_at_its_first_marker() {
    assert_eq!(clean("Hi.<end_of_turn>more", "hi"), Some("Hi.".to_string()));
    assert_eq!(clean("Hi. <|im_end|><end_of_turn>", "hi"), Some("Hi.".to_string()));
    assert_eq!(clean("A<|endoftext|>B<start_of_turn>", "hi"), Some("A".to_string()));
    assert_eq!(clean("ÄÖÜ<start_of_turn>user", "hi"), Some("ÄÖÜ".to_string()));
    assert!(falls_back("<end_of_turn>Hi.", "hi"));
}

#[test]
fn leaked_tags_ask_for_another_try() {
    for response in ["Hi <start_of", "<end_of x", "a<|im_start|>b", "x <|endo", "<|im_"] {
        assert!(retries(response, "some words here"), "{:?}", response);
    }
    assert!(retries(&format!("<|im_{}", "x".repeat(500)), "short"));
}

#[test]
fn unusable_responses_fall_back() {
    assert!(falls_back("", "raw"));
    assert!(falls_back("  \n", "raw"));
    assert!(falls_back("\"\"", "raw"));
    assert!(falls_back("Cleaned: ", "raw") == false);
    assert_eq!(clean("Cleaned: ", "raw"), Some("Cleaned:".to_string()));
}

#[test]
fn length_is_limited_in_bytes() {
    let raw = "abcd";
    assert_eq!(clean(&"x".repeat(28), raw), Some("x".repeat(28)));
    assert!(falls_back(&"x".repeat(29), raw));
    assert_eq!(clean(&"é".repeat(14), raw), Some("é".repeat(14)));
    assert!(falls_back(&"é".repeat(15), raw));
    assert!(falls_back(&"x".repeat(21), ""));
    assert_eq!(clean(&"x".repeat(24), "é"), Some("x".repeat(24)));
}

#[test]
fn escapes_are_read_before_markers_are_looked_for() {
    assert_eq!(clean("a\\nb", "a b"), Some("a\nb".to_string()));
    assert_eq!(clean("\\n a \\n", "a"), Some("a".to_string()));
}
