use zecho::cleanup::response::answer_of;
use zecho::generation::{context_size, prompt_slot, Generation, MAX_TOKENS};
use zecho::markers::{cut_at_marker, find_marker};
use zecho::text::{chars_of, string_of};
use zecho::wire::escape_newlines;

#[test]
fn the_context_has_room_for_the_reply() {
    assert_eq!(context_size(0), 1024);
    assert_eq!(context_size(768), 1024);
    assert_eq!(context_size(769), 1025);
    assert_eq!(context_size(4000), 4256);
}

#[test]
fn output_is_wanted_for_the_last_token_only() {
    assert_eq!(prompt_slot(0, 3), (0, false));
    assert_eq!(prompt_slot(1, 3), (1, false));
    assert_eq!(prompt_slot(2, 3), (2, true));
    assert_eq!(prompt_slot(0, 1), (0, true));
}

#[test]
fn pieces_are_put_together() {
    let mut generation = Generation::start(10);
    assert!(generation.is_running());
    assert_eq!(generation.take_piece(Some(" Hel")), Some(10));
    assert_eq!(generation.take_piece(Some("lo\n")), Some(11));
    assert_eq!(generation.take_piece(None), None);
    assert!(!generation.is_running());
    assert_eq!(generation.finish(), "Hello");
}

#[test]
fn a_marker_ends_the_reply() {
    let mut generation = Generation::start(5);
    assert_eq!(generation.take_piece(Some("Hi <|im_")), Some(5));
    assert_eq!(generation.take_piece(Some("end|> and more")), None);
    assert!(!generation.is_running());
    assert_eq!(generation.finish(), "Hi");
}

#[test]
fn the_first_of_several_markers_counts() {
    let mut generation = Generation::start(0);
    assert_eq!(generation.take_piece(Some("a<start_of_turn>b<end_of_turn>")), None);
    assert_eq!(generation.finish(), "a");
}

#[test]
fn a_reply_has_no_more_tokens_than_allowed() {
    let mut generation = Generation::start(100);
    let mut position = 100;
    for _ in 0..MAX_TOKENS {
        assert!(generation.is_running());
        assert_eq!(generation.take_piece(Some("x")), Some(position));
        position += 1;
    }
    assert!(!generation.is_running());
    assert_eq!(generation.finish(), "x".repeat(256));
}

#[test]
fn a_token_that_cannot_be_decoded_ends_the_reply() {
    let mut generation = Generation::start(1);
    assert_eq!(generation.take_piece(Some("x")), Some(1));
    generation.stop();
    assert!(!generation.is_running());
    assert_eq!(generation.finish(), "x");
}

#[test]
fn a_reply_arrives_as_it_was_made() {
    let mut generation = Generation::start(1);
    generation.take_piece(Some("\n First.\n\nSecond\\ \t<|endoftext|>"));
    let reply = generation.finish();
    assert_eq!(reply, "First.\n\nSecond\\");
    let line = format!("{}\n", escape_newlines(&reply));
    assert_eq!(answer_of(&line), reply);
}

#[test]
fn markers_are_found() {
    assert_eq!(find_marker(&chars_of("ab<end_of_turn>")), 2);
    assert_eq!(find_marker(&chars_of("<|endoftext|>")), 0);
    assert_eq!(find_marker(&chars_of("ab<end_of_turn")), 14);
    assert_eq!(find_marker(&chars_of("")), 0);
    assert_eq!(find_marker(&chars_of("é<|im_end|><start_of_turn>")), 1);
    assert_eq!(string_of(&cut_at_marker(&chars_of("ab<end_of_turn>cd"))), "ab");
    assert_eq!(string_of(&cut_at_marker(&chars_of("ab"))), "ab");
}

#[test]
fn how_a_reply_comes_in_pieces_does_not_matter() {
    let whole = "One <|im_ two<end_of_turn> three";
    let expected = string_of(&cut_at_marker(&chars_of(whole)));
    assert_eq!(expected, "One <|im_ two");
    for size in 1..=whole.len() {
        let mut generation = Generation::start(0);
        let chars: Vec<char> = whole.chars().collect();
        for piece in chars.chunks(size) {
            let piece: String = piece.iter().collect();
            if generation.take_piece(Some(&piece)).is_none() {
                break;
            }
        }
        assert!(!generation.is_running());
        assert_eq!(generation.finish(), expected);
    }
}
