//! The control markers of the chat formats, and the text in front of them.

use vstd::prelude::*;

use crate::text::{copy_range, occurs_here};

verus! {

/// Whether a marker that ends a model's turn stands in `s` at `i`.
pub open spec fn marker_at(s: Seq<char>, i: int) -> bool {
    ||| crate::text::occurs_at(s, "<end_of_turn>"@, i)
    ||| crate::text::occurs_at(s, "<start_of_turn>"@, i)
    ||| crate::text::occurs_at(s, "<|im_end|>"@, i)
    ||| crate::text::occurs_at(s, "<|endoftext|>"@, i)
}

/// Whether a marker stands anywhere in `s`.
pub open spec fn has_marker(s: Seq<char>) -> bool {
    exists|i: int| #[trigger] marker_at(s, i)
}

/// The first position from `i` on at which a marker stands in `s`, or the
/// length of `s` if there is none.
pub open spec fn first_marker_from(s: Seq<char>, i: int) -> int
    decreases s.len() - i,
{
    if i >= s.len() {
        s.len() as int
    } else if marker_at(s, i) {
        i
    } else {
        first_marker_from(s, i + 1)
    }
}

/// The part of `s` in front of its first marker: all of it if it has none.
pub open spec fn before_marker(s: Seq<char>) -> Seq<char> {
    s.take(first_marker_from(s, 0))
}

fn marker_here(v: &Vec<char>, i: usize) -> (r: bool)
    requires
        i <= v@.len(),
    ensures
        r == marker_at(v@, i as int),
{
    occurs_here(v, "<end_of_turn>", i) || occurs_here(v, "<start_of_turn>", i) || occurs_here(
        v,
        "<|im_end|>",
        i,
    ) || occurs_here(v, "<|endoftext|>", i)
}

/// The position of the first marker in `v`, or its length.
pub fn find_marker(v: &Vec<char>) -> (r: usize)
    ensures
        r == first_marker_from(v@, 0),
        r <= v@.len(),
{
    let mut i: usize = 0;
    while i < v.len()
        invariant
            i <= v@.len(),
            first_marker_from(v@, 0) == first_marker_from(v@, i as int),
        decreases v@.len() - i,
    {
        if marker_here(v, i) {
            return i;
        }
        i = i + 1;
    }
    i
}

/// The part of `v` in front of its first marker.
pub fn cut_at_marker(v: &Vec<char>) -> (r: Vec<char>)
    ensures
        r@ == before_marker(v@),
{
    let end = find_marker(v);
    assert(v@.subrange(0, end as int) == v@.take(end as int));
    copy_range(v, 0, end)
}

/// The marker that a text is cut at is its first: none stands before it, and
/// one stands there unless the whole text is left.
pub proof fn law_first_marker(s: Seq<char>)
    ensures
        ({
            let end = first_marker_from(s, 0);
            &&& 0 <= end <= s.len()
            &&& end < s.len() ==> marker_at(s, end)
            &&& forall|i: int| 0 <= i < end ==> !#[trigger] marker_at(s, i)
        }),
{
    lemma_first_marker_from(s, 0);
}

proof fn lemma_first_marker_from(s: Seq<char>, from: int)
    requires
        0 <= from <= s.len(),
    ensures
        ({
            let end = first_marker_from(s, from);
            &&& from <= end <= s.len()
            &&& end < s.len() ==> marker_at(s, end)
            &&& forall|i: int| from <= i < end ==> !#[trigger] marker_at(s, i)
        }),
    decreases s.len() - from,
{
    if from < s.len() && !marker_at(s, from) {
        lemma_first_marker_from(s, from + 1);
    }
}

/// What stands in front of a text's first marker has no marker in it.
pub proof fn law_before_marker_has_none(s: Seq<char>)
    ensures
        !has_marker(before_marker(s)),
{
    law_first_marker(s);
    let end = first_marker_from(s, 0);
    let head = before_marker(s);
    assert forall|i: int| !#[trigger] marker_at(head, i) by {
        if marker_at(head, i) {
            lemma_marker_in_part(s, 0, end, i);
            reveal_strlit("<end_of_turn>");
            reveal_strlit("<start_of_turn>");
            reveal_strlit("<|im_end|>");
            reveal_strlit("<|endoftext|>");
            assert(0 <= i < end);
        }
    }
}

/// A marker in a part of `s` is one in `s`.
pub proof fn lemma_marker_in_part(s: Seq<char>, from: int, to: int, i: int)
    requires
        0 <= from <= to <= s.len(),
        marker_at(s.subrange(from, to), i),
    ensures
        marker_at(s, from + i),
{
    let part = s.subrange(from, to);
    let word = if crate::text::occurs_at(part, "<end_of_turn>"@, i) {
        "<end_of_turn>"@
    } else if crate::text::occurs_at(part, "<start_of_turn>"@, i) {
        "<start_of_turn>"@
    } else if crate::text::occurs_at(part, "<|im_end|>"@, i) {
        "<|im_end|>"@
    } else {
        "<|endoftext|>"@
    };
    assert(s.subrange(from + i, from + i + word.len()) == part.subrange(i, i + word.len()));
}

/// A text that has a marker is cut at the same place, whatever comes after it.
pub proof fn law_cut_is_final(s: Seq<char>, more: Seq<char>)
    requires
        has_marker(s),
    ensures
        has_marker(s + more),
        before_marker(s + more) == before_marker(s),
{
    let whole = s + more;
    let end = first_marker_from(s, 0);
    law_first_marker(s);
    law_first_marker(whole);
    lemma_marker_shape(s);
    lemma_marker_shape(whole);
    assert(end < s.len());
    assert(whole.subrange(0, s.len() as int) == s);
    lemma_marker_in_part(whole, 0, s.len() as int, end);
    assert forall|i: int| 0 <= i < end implies !#[trigger] marker_at(whole, i) by {
        if marker_at(whole, i) {
            assert(!marker_at(s, i));
            let word = if crate::text::occurs_at(whole, "<end_of_turn>"@, i) {
                "<end_of_turn>"@
            } else if crate::text::occurs_at(whole, "<start_of_turn>"@, i) {
                "<start_of_turn>"@
            } else if crate::text::occurs_at(whole, "<|im_end|>"@, i) {
                "<|im_end|>"@
            } else {
                "<|endoftext|>"@
            };
            if i + word.len() <= s.len() {
                assert(s.subrange(i, i + word.len()) == whole.subrange(i, i + word.len()));
            }
            // The marker at `i` reaches past the one at `end`, whose first character
            // it would hold a second time.
            assert(whole[end] == '<');
            assert(whole.subrange(i, i + word.len())[end - i] == whole[end]);
            lemma_word_shape(word);
        }
    }
    assert(whole.take(end) == s.take(end));
}

/// A marker has a single angle bracket that opens it.
proof fn lemma_word_shape(word: Seq<char>)
    requires
        word == "<end_of_turn>"@ || word == "<start_of_turn>"@ || word == "<|im_end|>"@ || word
            == "<|endoftext|>"@,
    ensures
        word.len() > 0,
        word[0] == '<',
        forall|k: int| 0 < k < word.len() ==> word[k] != '<',
{
    reveal_strlit("<end_of_turn>");
    reveal_strlit("<start_of_turn>");
    reveal_strlit("<|im_end|>");
    reveal_strlit("<|endoftext|>");
}

/// Where a marker stands, an opening angle bracket stands.
pub proof fn lemma_marker_shape(s: Seq<char>)
    ensures
        forall|i: int| #[trigger] marker_at(s, i) ==> 0 <= i < s.len() && s[i] == '<',
{
    assert forall|i: int| #[trigger] marker_at(s, i) implies 0 <= i < s.len() && s[i] == '<' by {
        let word = if crate::text::occurs_at(s, "<end_of_turn>"@, i) {
            "<end_of_turn>"@
        } else if crate::text::occurs_at(s, "<start_of_turn>"@, i) {
            "<start_of_turn>"@
        } else if crate::text::occurs_at(s, "<|im_end|>"@, i) {
            "<|im_end|>"@
        } else {
            "<|endoftext|>"@
        };
        lemma_word_shape(word);
        assert(s.subrange(i, i + word.len())[0] == s[i]);
    }
}

/// A marker stands in a text at a place exactly if the text goes on there with
/// `<end_of_turn>`, `<start_of_turn>`, `<|im_end|>` or `<|endoftext|>`.
pub proof fn law_markers(before: Seq<char>, rest: Seq<char>)
    ensures
        marker_at(before + rest, before.len() as int) <==> {
            ||| "<end_of_turn>"@.is_prefix_of(rest)
            ||| "<start_of_turn>"@.is_prefix_of(rest)
            ||| "<|im_end|>"@.is_prefix_of(rest)
            ||| "<|endoftext|>"@.is_prefix_of(rest)
        },
{
    let s = before + rest;
    let n = before.len() as int;
    assert forall|word: Seq<char>|
        #[trigger] crate::text::occurs_at(s, word, n) <==> word.is_prefix_of(rest) by {
        if word.len() <= rest.len() {
            assert(s.subrange(n, n + word.len()) == rest.subrange(0, word.len() as int));
        }
    }
}

/// A text is cut in front of its first marker: what stands before it is left, whole, if
/// it has no marker itself, and a text without a marker is left as it is.
pub proof fn law_cut(text: Seq<char>, marker: Seq<char>, rest: Seq<char>)
    requires
        !crate::text::occurs_in(text, "<end_of_turn>"@),
        !crate::text::occurs_in(text, "<start_of_turn>"@),
        !crate::text::occurs_in(text, "<|im_end|>"@),
        !crate::text::occurs_in(text, "<|endoftext|>"@),
        marker == "<end_of_turn>"@ || marker == "<start_of_turn>"@ || marker == "<|im_end|>"@
            || marker == "<|endoftext|>"@,
    ensures
        before_marker(text) == text,
        before_marker(text + marker + rest) == text,
{
    let whole = text + marker + rest;
    let n = text.len() as int;
    assert forall|i: int| !#[trigger] marker_at(text, i) by {}
    law_first_marker(text);
    lemma_marker_shape(text);
    assert(first_marker_from(text, 0) == n);
    assert(text.take(n) == text);
    lemma_word_shape(marker);
    assert(whole.subrange(n, n + marker.len()) == marker);
    assert(crate::text::occurs_at(whole, marker, n));
    assert(marker_at(whole, n));
    assert forall|i: int| 0 <= i < n implies !#[trigger] marker_at(whole, i) by {
        if marker_at(whole, i) {
            assert(!marker_at(text, i));
            let word = if crate::text::occurs_at(whole, "<end_of_turn>"@, i) {
                "<end_of_turn>"@
            } else if crate::text::occurs_at(whole, "<start_of_turn>"@, i) {
                "<start_of_turn>"@
            } else if crate::text::occurs_at(whole, "<|im_end|>"@, i) {
                "<|im_end|>"@
            } else {
                "<|endoftext|>"@
            };
            if i + word.len() <= n {
                assert(text.subrange(i, i + word.len()) == whole.subrange(i, i + word.len()));
            }
            assert(whole[n] == marker[0]);
            assert(whole.subrange(i, i + word.len())[n - i] == whole[n]);
            lemma_word_shape(word);
        }
    }
    law_first_marker(whole);
    assert(first_marker_from(whole, 0) == n);
    assert(whole.take(n) == text);
}

} // verus!
