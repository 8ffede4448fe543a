//! What is read out of a model's response to a cleanup prompt.

use vstd::prelude::*;

use crate::markers::cut_at_marker;
use crate::text::{chars_of, copy_range, fold_char, holds_word, string_of, trim_chars};
use crate::wire::unescape_chars;

verus! {

/// The verdict on one response.
pub enum ParseResult {
    /// The cleaned text.
    Clean(String),
    /// Pieces of control markers leaked into the text: ask again.
    Retry,
    /// There is no usable text: keep the transcription as it is.
    Fallback,
}

/// `s` without one pair of double or single quotes around it.
pub open spec fn unquoted(s: Seq<char>) -> Seq<char> {
    if s.len() >= 2 && ((s[0] == '"' && s.last() == '"') || (s[0] == '\'' && s.last() == '\'')) {
        s.subrange(1, s.len() - 1)
    } else {
        s
    }
}

/// `s` without one pair of backticks around it, if it is a single line.
pub open spec fn unticked(s: Seq<char>) -> Seq<char> {
    if s.len() >= 2 && s[0] == '`' && s.last() == '`' && !s.contains('\n') {
        s.subrange(1, s.len() - 1)
    } else {
        s
    }
}

/// `s` without one pair of double asterisks around it, if something is left.
pub open spec fn unbolded(s: Seq<char>) -> Seq<char> {
    if s.len() > 4 && s[0] == '*' && s[1] == '*' && s[s.len() - 2] == '*' && s.last() == '*' {
        s.subrange(2, s.len() - 2)
    } else {
        s
    }
}

/// Whether `s` begins with `words`, in whatever case.
pub open spec fn opens_with(s: Seq<char>, words: Seq<char>) -> bool {
    words.len() <= s.len() && crate::text::folded(s.take(words.len() as int)) == words
}

/// The announcement that `s` begins with, in lower case; empty if none.
pub open spec fn announcement(s: Seq<char>) -> Seq<char> {
    if opens_with(s, "here is the cleaned text:\n"@) {
        "here is the cleaned text:\n"@
    } else if opens_with(s, "here is the cleaned text: "@) {
        "here is the cleaned text: "@
    } else if opens_with(s, "here's the cleaned text:\n"@) {
        "here's the cleaned text:\n"@
    } else if opens_with(s, "here's the cleaned text: "@) {
        "here's the cleaned text: "@
    } else if opens_with(s, "cleaned text:\n"@) {
        "cleaned text:\n"@
    } else if opens_with(s, "cleaned text: "@) {
        "cleaned text: "@
    } else if opens_with(s, "cleaned version:\n"@) {
        "cleaned version:\n"@
    } else if opens_with(s, "cleaned version: "@) {
        "cleaned version: "@
    } else if opens_with(s, "cleaned:\n"@) {
        "cleaned:\n"@
    } else if opens_with(s, "cleaned: "@) {
        "cleaned: "@
    } else if opens_with(s, "clean:\n"@) {
        "clean:\n"@
    } else if opens_with(s, "clean: "@) {
        "clean: "@
    } else if opens_with(s, "text to clean:\n"@) {
        "text to clean:\n"@
    } else if opens_with(s, "text to clean: "@) {
        "text to clean: "@
    } else if opens_with(s, "input:\n"@) {
        "input:\n"@
    } else if opens_with(s, "input: "@) {
        "input: "@
    } else {
        ""@
    }
}

/// `s` without the announcement that it begins with.
pub open spec fn unannounced(s: Seq<char>) -> Seq<char> {
    s.skip(announcement(s).len() as int)
}

/// `text` without the wrapping that models put around an answer.
pub open spec fn stripped(text: Seq<char>) -> Seq<char> {
    crate::text::trimmed(
        unannounced(unbolded(unticked(unquoted(crate::text::trimmed(text))))),
    )
}

/// Whether a single backtick is all that is left of `text` once outer
/// whitespace and quotes are gone. It is the one text that cannot be stripped:
/// the backtick would have to be both ends of a pair.
pub open spec fn lone_backtick(text: Seq<char>) -> bool {
    unquoted(crate::text::trimmed(text)) == seq!['`']
}

/// The part of a response in front of its first control marker.
pub open spec fn answer_part(response: Seq<char>) -> Seq<char> {
    crate::text::trimmed(
        crate::markers::before_marker(crate::wire::unescaped(crate::text::trimmed(response))),
    )
}

/// The text that a response offers.
pub open spec fn offered_text(response: Seq<char>) -> Seq<char> {
    stripped(answer_part(response))
}

/// Whether the beginning of a control marker stands in `text`.
pub open spec fn leaks_tags(text: Seq<char>) -> bool {
    ||| crate::text::occurs_in(text, "<start_of"@)
    ||| crate::text::occurs_in(text, "<end_of"@)
    ||| crate::text::occurs_in(text, "<|im_"@)
    ||| crate::text::occurs_in(text, "<|endo"@)
}

/// Whether `text` is too long for a cleaned form of `raw_text`: more than
/// twenty bytes over twice its size.
pub open spec fn too_long(text: Seq<char>, raw_text: Seq<char>) -> bool {
    crate::text::utf8_len(text) > crate::text::utf8_len(raw_text) * 2 + 20
}

/// Whether `text` may stand for `raw_text`.
pub open spec fn usable(text: Seq<char>, raw_text: Seq<char>) -> bool {
    !leaks_tags(text) && text.len() > 0 && !too_long(text, raw_text)
}

/// Whether `part` is one piece of `whole`.
pub open spec fn is_part_of(part: Seq<char>, whole: Seq<char>) -> bool {
    exists|from: int, to: int|
        0 <= from <= to <= whole.len() && part == #[trigger] whole.subrange(from, to)
}

fn unquote(v: &Vec<char>) -> (r: Vec<char>)
    ensures
        r@ == unquoted(v@),
{
    let n = v.len();
    if n >= 2 && ((v[0] == '"' && v[n - 1] == '"') || (v[0] == '\'' && v[n - 1] == '\'')) {
        copy_range(v, 1, n - 1)
    } else {
        copy_range(v, 0, n)
    }
}

fn has_newline(v: &Vec<char>) -> (r: bool)
    ensures
        r == v@.contains('\n'),
{
    for i in 0..v.len()
        invariant
            forall|j: int| 0 <= j < i ==> v@[j] != '\n',
    {
        if v[i] == '\n' {
            return true;
        }
    }
    false
}

fn untick(v: &Vec<char>) -> (r: Vec<char>)
    ensures
        r@ == unticked(v@),
{
    let n = v.len();
    if n >= 2 && v[0] == '`' && v[n - 1] == '`' && !has_newline(v) {
        copy_range(v, 1, n - 1)
    } else {
        copy_range(v, 0, n)
    }
}

fn unbold(v: &Vec<char>) -> (r: Vec<char>)
    ensures
        r@ == unbolded(v@),
{
    let n = v.len();
    if n > 4 && v[0] == '*' && v[1] == '*' && v[n - 2] == '*' && v[n - 1] == '*' {
        copy_range(v, 2, n - 2)
    } else {
        copy_range(v, 0, n)
    }
}

fn opens_folded(v: &Vec<char>, words: &str) -> (r: bool)
    ensures
        r == opens_with(v@, words@),
{
    let w = chars_of(words);
    if w.len() > v.len() {
        return false;
    }
    let ghost head = crate::text::folded(v@.take(w@.len() as int));
    for i in 0..w.len()
        invariant
            w@ == words@,
            w@.len() <= v@.len(),
            head == crate::text::folded(v@.take(w@.len() as int)),
            forall|j: int| 0 <= j < i ==> head[j] == w@[j],
    {
        if fold_char(v[i]) != w[i] {
            assert(head[i as int] != w@[i as int]);
            return false;
        }
    }
    assert(head == w@);
    true
}

fn find_announcement(v: &Vec<char>) -> (r: &'static str)
    ensures
        r@ == announcement(v@),
{
    if opens_folded(v, "here is the cleaned text:\n") {
        "here is the cleaned text:\n"
    } else if opens_folded(v, "here is the cleaned text: ") {
        "here is the cleaned text: "
    } else if opens_folded(v, "here's the cleaned text:\n") {
        "here's the cleaned text:\n"
    } else if opens_folded(v, "here's the cleaned text: ") {
        "here's the cleaned text: "
    } else if opens_folded(v, "cleaned text:\n") {
        "cleaned text:\n"
    } else if opens_folded(v, "cleaned text: ") {
        "cleaned text: "
    } else if opens_folded(v, "cleaned version:\n") {
        "cleaned version:\n"
    } else if opens_folded(v, "cleaned version: ") {
        "cleaned version: "
    } else if opens_folded(v, "cleaned:\n") {
        "cleaned:\n"
    } else if opens_folded(v, "cleaned: ") {
        "cleaned: "
    } else if opens_folded(v, "clean:\n") {
        "clean:\n"
    } else if opens_folded(v, "clean: ") {
        "clean: "
    } else if opens_folded(v, "text to clean:\n") {
        "text to clean:\n"
    } else if opens_folded(v, "text to clean: ") {
        "text to clean: "
    } else if opens_folded(v, "input:\n") {
        "input:\n"
    } else if opens_folded(v, "input: ") {
        "input: "
    } else {
        ""
    }
}

fn unannounce(v: &Vec<char>) -> (r: Vec<char>)
    ensures
        r@ == unannounced(v@),
{
    let words = chars_of(find_announcement(v));
    proof {
        reveal_strlit("");
    }
    assert(v@.subrange(words@.len() as int, v@.len() as int) == v@.skip(words@.len() as int));
    copy_range(v, words.len(), v.len())
}

fn strip_chars(text: &Vec<char>) -> (r: Vec<char>)
    requires
        !lone_backtick(text@),
    ensures
        r@ == stripped(text@),
{
    let s = unquote(&trim_chars(text));
    let s = unbold(&untick(&s));
    trim_chars(&unannounce(&s))
}

/// Whether `text` is one that `strip_model_artifacts` does not take.
pub fn is_lone_backtick(text: &str) -> (r: bool)
    ensures
        r == lone_backtick(text@),
{
    let s = unquote(&trim_chars(&chars_of(text)));
    let r = s.len() == 1 && s[0] == '`';
    assert(r ==> s@ == seq!['`']);
    r
}

/// Takes off the wrapping that models put around an answer: quotes, backticks,
/// bold marks and an announcement such as `Cleaned text:`.
pub fn strip_model_artifacts(text: &str) -> (r: String)
    requires
        !lone_backtick(text@),
    ensures
        r@ == stripped(text@),
{
    string_of(&strip_chars(&chars_of(text)))
}

fn answer_chars(response: &str) -> (r: Vec<char>)
    ensures
        r@ == answer_part(response@),
{
    trim_chars(&cut_at_marker(&unescape_chars(&trim_chars(&chars_of(response)))))
}

/// The part of a response that `parse_response` strips.
pub fn answer_of(response: &str) -> (r: String)
    ensures
        r@ == answer_part(response@),
{
    string_of(&answer_chars(response))
}

/// Reads the cleaned text out of a model's response to the prompt for `raw_text`.
pub fn parse_response(response: &str, raw_text: &str) -> (r: ParseResult)
    requires
        !lone_backtick(answer_part(response@)),
    ensures
        r is Retry <==> leaks_tags(offered_text(response@)),
        r is Clean <==> usable(offered_text(response@), raw_text@),
        r matches ParseResult::Clean(text) ==> text@ == offered_text(response@),
{
    let result = strip_chars(&answer_chars(response));
    if holds_word(&result, "<start_of") || holds_word(&result, "<end_of") || holds_word(
        &result,
        "<|im_",
    ) || holds_word(&result, "<|endo") {
        return ParseResult::Retry;
    }
    let text = string_of(&result);
    let size = text.as_str().as_bytes().len();
    let raw_size = raw_text.as_bytes().len();
    if result.len() == 0 || size as u128 > raw_size as u128 * 2 + 20 {
        return ParseResult::Fallback;
    }
    ParseResult::Clean(text)
}

/// A text that is accepted is not empty, has no whitespace at its ends and no
/// control marker in it, and is at most twenty bytes over twice the size of
/// what was transcribed.
pub proof fn law_accepted_text(response: Seq<char>, raw_text: Seq<char>)
    requires
        usable(offered_text(response), raw_text),
    ensures
        offered_text(response).len() > 0,
        crate::text::is_trimmed(offered_text(response)),
        !crate::markers::has_marker(offered_text(response)),
        crate::text::utf8_len(offered_text(response)) <= crate::text::utf8_len(raw_text) * 2 + 20,
{
    let text = offered_text(response);
    crate::text::law_trimmed(
        unannounced(unbolded(unticked(unquoted(crate::text::trimmed(answer_part(response)))))),
    );
    assert forall|i: int| !#[trigger] crate::markers::marker_at(text, i) by {
        if crate::markers::marker_at(text, i) {
            lemma_marker_leaks(text, i);
        }
    }
}

proof fn lemma_marker_leaks(text: Seq<char>, i: int)
    requires
        crate::markers::marker_at(text, i),
    ensures
        leaks_tags(text),
{
    reveal_strlit("<end_of_turn>");
    reveal_strlit("<start_of_turn>");
    reveal_strlit("<|im_end|>");
    reveal_strlit("<|endoftext|>");
    reveal_strlit("<start_of");
    reveal_strlit("<end_of");
    reveal_strlit("<|im_");
    reveal_strlit("<|endo");
    if crate::text::occurs_at(text, "<end_of_turn>"@, i) {
        lemma_beginning_occurs(text, "<end_of_turn>"@, "<end_of"@, i);
    } else if crate::text::occurs_at(text, "<start_of_turn>"@, i) {
        lemma_beginning_occurs(text, "<start_of_turn>"@, "<start_of"@, i);
    } else if crate::text::occurs_at(text, "<|im_end|>"@, i) {
        lemma_beginning_occurs(text, "<|im_end|>"@, "<|im_"@, i);
    } else {
        lemma_beginning_occurs(text, "<|endoftext|>"@, "<|endo"@, i);
    }
}

proof fn lemma_beginning_occurs(text: Seq<char>, word: Seq<char>, beginning: Seq<char>, i: int)
    requires
        crate::text::occurs_at(text, word, i),
        beginning.len() <= word.len(),
        word.take(beginning.len() as int) =~= beginning,
    ensures
        crate::text::occurs_at(text, beginning, i),
{
    assert(text.subrange(i, i + beginning.len()) == text.subrange(i, i + word.len()).take(
        beginning.len() as int,
    ));
}

/// What the worker answers is what is read: a trimmed reply without control
/// markers comes over the pipe unchanged, if it has no backslash that an `n`
/// follows.
pub proof fn law_reply_is_read(reply: Seq<char>)
    requires
        crate::text::is_trimmed(reply),
        crate::wire::free_of_escapes(reply),
        !crate::markers::has_marker(reply),
    ensures
        answer_part(crate::wire::line_of(reply)) == reply,
{
    crate::wire::law_line_round_trip(reply);
    crate::markers::law_first_marker(reply);
    let end = crate::markers::first_marker_from(reply, 0);
    assert(end == reply.len());
    assert(reply.take(end) == reply);
    crate::text::law_trim_settles(reply);
}

/// A reply with nothing to take off is offered word for word: trimmed, without
/// wrapping, announcement or leaked tags, and with no backslash that an `n`
/// follows.
pub proof fn law_plain_reply_is_offered(reply: Seq<char>)
    requires
        crate::text::is_trimmed(reply),
        crate::wire::free_of_escapes(reply),
        !leaks_tags(reply),
        unquoted(reply) == reply,
        unticked(reply) == reply,
        unbolded(reply) == reply,
        announcement(reply).len() == 0,
    ensures
        offered_text(crate::wire::line_of(reply)) == reply,
{
    assert forall|i: int| !#[trigger] crate::markers::marker_at(reply, i) by {
        if crate::markers::marker_at(reply, i) {
            lemma_marker_leaks(reply, i);
        }
    }
    law_reply_is_read(reply);
    crate::text::law_trim_settles(reply);
    assert(reply.skip(0) == reply);
}

proof fn lemma_part(whole: Seq<char>, from: int, to: int)
    requires
        0 <= from <= to <= whole.len(),
    ensures
        is_part_of(whole.subrange(from, to), whole),
{
}

proof fn lemma_trimmed_is_part(s: Seq<char>)
    ensures
        is_part_of(crate::text::trimmed(s), s),
{
    crate::text::law_trimmed(s);
}

proof fn lemma_part_of_part(a: Seq<char>, b: Seq<char>, c: Seq<char>)
    requires
        is_part_of(a, b),
        is_part_of(b, c),
    ensures
        is_part_of(a, c),
{
    let (f, t) = choose|f: int, t: int|
        0 <= f <= t <= b.len() && a == #[trigger] b.subrange(f, t);
    let (g, u) = choose|g: int, u: int|
        0 <= g <= u <= c.len() && b == #[trigger] c.subrange(g, u);
    assert(a == c.subrange(g + f, g + t));
}

/// Stripping only takes off at the ends: what is left is one piece of the text.
pub proof fn law_stripped_is_a_part(text: Seq<char>)
    ensures
        is_part_of(stripped(text), text),
{
    let trimmed = crate::text::trimmed(text);
    let bare = unquoted(trimmed);
    let plain = unbolded(unticked(bare));
    let rest = unannounced(plain);
    lemma_trimmed_is_part(text);
    assert(is_part_of(bare, trimmed)) by {
        lemma_part(trimmed, 0, trimmed.len() as int);
        assert(trimmed.subrange(0, trimmed.len() as int) == trimmed);
    }
    assert(is_part_of(unticked(bare), bare)) by {
        lemma_part(bare, 0, bare.len() as int);
        assert(bare.subrange(0, bare.len() as int) == bare);
    }
    assert(is_part_of(plain, unticked(bare))) by {
        let s = unticked(bare);
        lemma_part(s, 0, s.len() as int);
        assert(s.subrange(0, s.len() as int) == s);
    }
    reveal_strlit("");
    assert(is_part_of(rest, plain)) by {
        let n = announcement(plain).len() as int;
        assert(plain.skip(n) == plain.subrange(n, plain.len() as int));
        lemma_part(plain, n, plain.len() as int);
    }
    lemma_trimmed_is_part(rest);
    lemma_part_of_part(stripped(text), rest, plain);
    lemma_part_of_part(stripped(text), plain, unticked(bare));
    lemma_part_of_part(stripped(text), unticked(bare), bare);
    lemma_part_of_part(stripped(text), bare, trimmed);
    lemma_part_of_part(stripped(text), trimmed, text);
}

/// A pair of quotes around a text is taken off, and nothing else: two double ones or two
/// single ones, just one pair, whatever the text is.
pub proof fn law_quotes(text: Seq<char>, s: Seq<char>)
    ensures
        unquoted(seq!['"'] + text + seq!['"']) == text,
        unquoted(seq!['\''] + text + seq!['\'']) == text,
        unquoted(s) != s ==> s == seq!['"'] + unquoted(s) + seq!['"'] || s == seq!['\''] + unquoted(
            s,
        ) + seq!['\''],
{
    let double = seq!['"'] + text + seq!['"'];
    let single = seq!['\''] + text + seq!['\''];
    assert(double.subrange(1, double.len() - 1) == text);
    assert(single.subrange(1, single.len() - 1) == text);
    if unquoted(s) != s {
        assert(s == seq![s[0]] + s.subrange(1, s.len() - 1) + seq![s.last()]);
    }
}

/// A pair of backticks around a text of one line is taken off, and nothing else.
pub proof fn law_backticks(text: Seq<char>, s: Seq<char>)
    ensures
        !text.contains('\n') ==> unticked(seq!['`'] + text + seq!['`']) == text,
        s.contains('\n') ==> unticked(s) == s,
        unticked(s) != s ==> s == seq!['`'] + unticked(s) + seq!['`'],
{
    let ticked = seq!['`'] + text + seq!['`'];
    assert(ticked.subrange(1, ticked.len() - 1) == text);
    if !text.contains('\n') {
        assert forall|i: int| 0 <= i < ticked.len() implies ticked[i] != '\n' by {
            if 0 < i < ticked.len() - 1 {
                assert(ticked[i] == text[i - 1]);
                assert(text.contains(text[i - 1]));
            }
        }
        assert(!ticked.contains('\n'));
    }
    if unticked(s) != s {
        assert(s == seq![s[0]] + s.subrange(1, s.len() - 1) + seq![s.last()]);
    }
}

/// A pair of double asterisks around something is taken off, and nothing else.
pub proof fn law_bold(text: Seq<char>, s: Seq<char>)
    ensures
        text.len() > 0 ==> unbolded(seq!['*', '*'] + text + seq!['*', '*']) == text,
        unbolded(s) != s ==> s == seq!['*', '*'] + unbolded(s) + seq!['*', '*'] && unbolded(s).len()
            > 0,
{
    let bold = seq!['*', '*'] + text + seq!['*', '*'];
    assert(bold.subrange(2, bold.len() - 2) == text);
    if unbolded(s) != s {
        assert(s == seq!['*', '*'] + s.subrange(2, s.len() - 2) + seq!['*', '*']);
    }
}

/// Whether `head` is one of the announcements that models put in front of an answer, in
/// whatever case.
pub open spec fn announces(head: Seq<char>) -> bool {
    let words = crate::text::folded(head);
    ||| words == "here is the cleaned text:\n"@
    ||| words == "here is the cleaned text: "@
    ||| words == "here's the cleaned text:\n"@
    ||| words == "here's the cleaned text: "@
    ||| words == "cleaned text:\n"@
    ||| words == "cleaned text: "@
    ||| words == "cleaned version:\n"@
    ||| words == "cleaned version: "@
    ||| words == "cleaned:\n"@
    ||| words == "cleaned: "@
    ||| words == "clean:\n"@
    ||| words == "clean: "@
    ||| words == "text to clean:\n"@
    ||| words == "text to clean: "@
    ||| words == "input:\n"@
    ||| words == "input: "@
}

proof fn lemma_opens_with(s: Seq<char>, words: Seq<char>)
    ensures
        opens_with(s, words) <==> words.is_prefix_of(crate::text::folded(s)),
{
    let low = crate::text::folded(s);
    if words.len() <= s.len() {
        assert(crate::text::folded(s.take(words.len() as int)) == low.subrange(
            0,
            words.len() as int,
        ));
    }
}

/// No announcement begins another.
proof fn lemma_one_announcement(s: Seq<char>, words: Seq<char>)
    requires
        opens_with(s, words),
        words == "here is the cleaned text:\n"@ || words == "here is the cleaned text: "@ || words == "here's the cleaned text:\n"@ || words == "here's the cleaned text: "@ || words == "cleaned text:\n"@ || words == "cleaned text: "@ || words == "cleaned version:\n"@ || words == "cleaned version: "@ || words == "cleaned:\n"@ || words == "cleaned: "@ || words == "clean:\n"@ || words == "clean: "@ || words == "text to clean:\n"@ || words == "text to clean: "@ || words == "input:\n"@ || words == "input: "@,
    ensures
        announcement(s) == words,
{
    let low = crate::text::folded(s);
    reveal_strlit("here is the cleaned text:\n");
    reveal_strlit("here is the cleaned text: ");
    reveal_strlit("here's the cleaned text:\n");
    reveal_strlit("here's the cleaned text: ");
    reveal_strlit("cleaned text:\n");
    reveal_strlit("cleaned text: ");
    reveal_strlit("cleaned version:\n");
    reveal_strlit("cleaned version: ");
    reveal_strlit("cleaned:\n");
    reveal_strlit("cleaned: ");
    reveal_strlit("clean:\n");
    reveal_strlit("clean: ");
    reveal_strlit("text to clean:\n");
    reveal_strlit("text to clean: ");
    reveal_strlit("input:\n");
    reveal_strlit("input: ");
    lemma_opens_with(s, "here is the cleaned text:\n"@);
    lemma_opens_with(s, "here is the cleaned text: "@);
    lemma_opens_with(s, "here's the cleaned text:\n"@);
    lemma_opens_with(s, "here's the cleaned text: "@);
    lemma_opens_with(s, "cleaned text:\n"@);
    lemma_opens_with(s, "cleaned text: "@);
    lemma_opens_with(s, "cleaned version:\n"@);
    lemma_opens_with(s, "cleaned version: "@);
    lemma_opens_with(s, "cleaned:\n"@);
    lemma_opens_with(s, "cleaned: "@);
    lemma_opens_with(s, "clean:\n"@);
    lemma_opens_with(s, "clean: "@);
    lemma_opens_with(s, "text to clean:\n"@);
    lemma_opens_with(s, "text to clean: "@);
    lemma_opens_with(s, "input:\n"@);
    lemma_opens_with(s, "input: "@);
    if "here is the cleaned text:\n"@.is_prefix_of(low) {
        assert(low.subrange(0, 26) == "here is the cleaned text:\n"@);
        assert(low.subrange(0, 26)[0] == 'h' && low.subrange(0, 26)[4] == ' ' && low.subrange(0, 26)[5] == 'i' && low.subrange(0, 26)[7] == ' ' && low.subrange(0, 26)[8] == 't' && low.subrange(0, 26)[25] == '\n');
        assert(low[0] == 'h' && low[4] == ' ' && low[5] == 'i' && low[7] == ' ' && low[8] == 't' && low[25] == '\n');
    }
    if "here is the cleaned text: "@.is_prefix_of(low) {
        assert(low.subrange(0, 26) == "here is the cleaned text: "@);
        assert(low.subrange(0, 26)[0] == 'h' && low.subrange(0, 26)[4] == ' ' && low.subrange(0, 26)[5] == 'i' && low.subrange(0, 26)[7] == ' ' && low.subrange(0, 26)[8] == 't' && low.subrange(0, 26)[25] == ' ');
        assert(low[0] == 'h' && low[4] == ' ' && low[5] == 'i' && low[7] == ' ' && low[8] == 't' && low[25] == ' ');
    }
    if "here's the cleaned text:\n"@.is_prefix_of(low) {
        assert(low.subrange(0, 25) == "here's the cleaned text:\n"@);
        assert(low.subrange(0, 25)[0] == 'h' && low.subrange(0, 25)[4] == '\'' && low.subrange(0, 25)[5] == 's' && low.subrange(0, 25)[7] == 't' && low.subrange(0, 25)[8] == 'h' && low.subrange(0, 25)[24] == '\n');
        assert(low[0] == 'h' && low[4] == '\'' && low[5] == 's' && low[7] == 't' && low[8] == 'h' && low[24] == '\n');
    }
    if "here's the cleaned text: "@.is_prefix_of(low) {
        assert(low.subrange(0, 25) == "here's the cleaned text: "@);
        assert(low.subrange(0, 25)[0] == 'h' && low.subrange(0, 25)[4] == '\'' && low.subrange(0, 25)[5] == 's' && low.subrange(0, 25)[7] == 't' && low.subrange(0, 25)[8] == 'h' && low.subrange(0, 25)[24] == ' ');
        assert(low[0] == 'h' && low[4] == '\'' && low[5] == 's' && low[7] == 't' && low[8] == 'h' && low[24] == ' ');
    }
    if "cleaned text:\n"@.is_prefix_of(low) {
        assert(low.subrange(0, 14) == "cleaned text:\n"@);
        assert(low.subrange(0, 14)[0] == 'c' && low.subrange(0, 14)[4] == 'n' && low.subrange(0, 14)[5] == 'e' && low.subrange(0, 14)[7] == ' ' && low.subrange(0, 14)[8] == 't' && low.subrange(0, 14)[13] == '\n');
        assert(low[0] == 'c' && low[4] == 'n' && low[5] == 'e' && low[7] == ' ' && low[8] == 't' && low[13] == '\n');
    }
    if "cleaned text: "@.is_prefix_of(low) {
        assert(low.subrange(0, 14) == "cleaned text: "@);
        assert(low.subrange(0, 14)[0] == 'c' && low.subrange(0, 14)[4] == 'n' && low.subrange(0, 14)[5] == 'e' && low.subrange(0, 14)[7] == ' ' && low.subrange(0, 14)[8] == 't' && low.subrange(0, 14)[13] == ' ');
        assert(low[0] == 'c' && low[4] == 'n' && low[5] == 'e' && low[7] == ' ' && low[8] == 't' && low[13] == ' ');
    }
    if "cleaned version:\n"@.is_prefix_of(low) {
        assert(low.subrange(0, 17) == "cleaned version:\n"@);
        assert(low.subrange(0, 17)[0] == 'c' && low.subrange(0, 17)[4] == 'n' && low.subrange(0, 17)[5] == 'e' && low.subrange(0, 17)[7] == ' ' && low.subrange(0, 17)[8] == 'v' && low.subrange(0, 17)[16] == '\n');
        assert(low[0] == 'c' && low[4] == 'n' && low[5] == 'e' && low[7] == ' ' && low[8] == 'v' && low[16] == '\n');
    }
    if "cleaned version: "@.is_prefix_of(low) {
        assert(low.subrange(0, 17) == "cleaned version: "@);
        assert(low.subrange(0, 17)[0] == 'c' && low.subrange(0, 17)[4] == 'n' && low.subrange(0, 17)[5] == 'e' && low.subrange(0, 17)[7] == ' ' && low.subrange(0, 17)[8] == 'v' && low.subrange(0, 17)[16] == ' ');
        assert(low[0] == 'c' && low[4] == 'n' && low[5] == 'e' && low[7] == ' ' && low[8] == 'v' && low[16] == ' ');
    }
    if "cleaned:\n"@.is_prefix_of(low) {
        assert(low.subrange(0, 9) == "cleaned:\n"@);
        assert(low.subrange(0, 9)[0] == 'c' && low.subrange(0, 9)[4] == 'n' && low.subrange(0, 9)[5] == 'e' && low.subrange(0, 9)[7] == ':' && low.subrange(0, 9)[8] == '\n');
        assert(low[0] == 'c' && low[4] == 'n' && low[5] == 'e' && low[7] == ':' && low[8] == '\n');
    }
    if "cleaned: "@.is_prefix_of(low) {
        assert(low.subrange(0, 9) == "cleaned: "@);
        assert(low.subrange(0, 9)[0] == 'c' && low.subrange(0, 9)[4] == 'n' && low.subrange(0, 9)[5] == 'e' && low.subrange(0, 9)[7] == ':' && low.subrange(0, 9)[8] == ' ');
        assert(low[0] == 'c' && low[4] == 'n' && low[5] == 'e' && low[7] == ':' && low[8] == ' ');
    }
    if "clean:\n"@.is_prefix_of(low) {
        assert(low.subrange(0, 7) == "clean:\n"@);
        assert(low.subrange(0, 7)[0] == 'c' && low.subrange(0, 7)[4] == 'n' && low.subrange(0, 7)[5] == ':' && low.subrange(0, 7)[6] == '\n');
        assert(low[0] == 'c' && low[4] == 'n' && low[5] == ':' && low[6] == '\n');
    }
    if "clean: "@.is_prefix_of(low) {
        assert(low.subrange(0, 7) == "clean: "@);
        assert(low.subrange(0, 7)[0] == 'c' && low.subrange(0, 7)[4] == 'n' && low.subrange(0, 7)[5] == ':' && low.subrange(0, 7)[6] == ' ');
        assert(low[0] == 'c' && low[4] == 'n' && low[5] == ':' && low[6] == ' ');
    }
    if "text to clean:\n"@.is_prefix_of(low) {
        assert(low.subrange(0, 15) == "text to clean:\n"@);
        assert(low.subrange(0, 15)[0] == 't' && low.subrange(0, 15)[4] == ' ' && low.subrange(0, 15)[5] == 't' && low.subrange(0, 15)[7] == ' ' && low.subrange(0, 15)[8] == 'c' && low.subrange(0, 15)[14] == '\n');
        assert(low[0] == 't' && low[4] == ' ' && low[5] == 't' && low[7] == ' ' && low[8] == 'c' && low[14] == '\n');
    }
    if "text to clean: "@.is_prefix_of(low) {
        assert(low.subrange(0, 15) == "text to clean: "@);
        assert(low.subrange(0, 15)[0] == 't' && low.subrange(0, 15)[4] == ' ' && low.subrange(0, 15)[5] == 't' && low.subrange(0, 15)[7] == ' ' && low.subrange(0, 15)[8] == 'c' && low.subrange(0, 15)[14] == ' ');
        assert(low[0] == 't' && low[4] == ' ' && low[5] == 't' && low[7] == ' ' && low[8] == 'c' && low[14] == ' ');
    }
    if "input:\n"@.is_prefix_of(low) {
        assert(low.subrange(0, 7) == "input:\n"@);
        assert(low.subrange(0, 7)[0] == 'i' && low.subrange(0, 7)[4] == 't' && low.subrange(0, 7)[5] == ':' && low.subrange(0, 7)[6] == '\n');
        assert(low[0] == 'i' && low[4] == 't' && low[5] == ':' && low[6] == '\n');
    }
    if "input: "@.is_prefix_of(low) {
        assert(low.subrange(0, 7) == "input: "@);
        assert(low.subrange(0, 7)[0] == 'i' && low.subrange(0, 7)[4] == 't' && low.subrange(0, 7)[5] == ':' && low.subrange(0, 7)[6] == ' ');
        assert(low[0] == 'i' && low[4] == 't' && low[5] == ':' && low[6] == ' ');
    }
}

/// An announcement in front of a text is taken off, and nothing else: what is taken off
/// a text is all of one announcement, in whatever case it is written.
pub proof fn law_announcements(head: Seq<char>, text: Seq<char>, s: Seq<char>)
    ensures
        announces(head) ==> unannounced(head + text) == text,
        unannounced(s) != s ==> {
            &&& announces(s.take(s.len() - unannounced(s).len()))
            &&& s == s.take(s.len() - unannounced(s).len()) + unannounced(s)
        },
{
    let whole = head + text;
    let words = crate::text::folded(head);
    if announces(head) {
        assert(words.len() == head.len());
        assert(whole.take(words.len() as int) == head);
        assert(opens_with(whole, words));
        lemma_one_announcement(whole, words);
        assert(whole.skip(head.len() as int) == text);
    }
    reveal_strlit("");
    if unannounced(s) != s {
        let n = announcement(s).len() as int;
        if n == 0 {
            assert(s.skip(0) == s);
        }
        assert(opens_with(s, announcement(s)));
        assert(s.len() - unannounced(s).len() == n);
        assert(s == s.take(n) + s.skip(n));
    }
}

/// Whether `mark` is nothing or one of the two kinds of quotes.
pub open spec fn may_quote(mark: Seq<char>) -> bool {
    mark.len() == 0 || mark == seq!['"'] || mark == seq!['\'']
}

/// `text` with `mark` on both sides.
pub open spec fn between(mark: Seq<char>, text: Seq<char>) -> Seq<char> {
    mark + text + mark
}

/// An answer is found under all that models put around it, each of it there or not: blanks
/// outside, then quotes, then backticks if it is a single line, then bold marks, then an
/// announcement and the blanks behind it. It is left whole.
pub proof fn law_answer_is_unwrapped(
    before: Seq<char>,
    behind: Seq<char>,
    quote: Seq<char>,
    tick: Seq<char>,
    bold: Seq<char>,
    head: Seq<char>,
    gap: Seq<char>,
    answer: Seq<char>,
)
    requires
        forall|i: int| 0 <= i < before.len() ==> crate::text::whitespace(#[trigger] before[i]),
        forall|i: int| 0 <= i < behind.len() ==> crate::text::whitespace(#[trigger] behind[i]),
        forall|i: int| 0 <= i < gap.len() ==> crate::text::whitespace(#[trigger] gap[i]),
        may_quote(quote),
        tick.len() == 0 || tick == seq!['`'],
        bold.len() == 0 || bold == seq!['*', '*'],
        if head.len() == 0 {
            gap.len() == 0
        } else {
            announces(head)
        },
        tick.len() > 0 ==> !(head + gap + answer).contains('\n'),
        answer.len() > 0,
        !crate::text::whitespace(answer[0]),
        !crate::text::whitespace(answer[answer.len() - 1]),
        answer[0] != '"' && answer[0] != '\'' && answer[0] != '`' && answer[0] != '*',
        unannounced(answer) == answer,
    ensures
        stripped(
            before + between(quote, between(tick, between(bold, head + gap + answer))) + behind,
        ) == answer,
{
    let inner = head + gap + answer;
    let b = between(bold, inner);
    let t = between(tick, b);
    let q = between(quote, t);
    if head.len() > 0 {
        lemma_announcement_start(head);
        assert(inner[0] == head[0]);
    } else {
        assert(inner == answer);
    }
    let c = inner[0];
    assert(c != '"' && c != '\'' && c != '`' && c != '*' && !crate::text::whitespace(c));
    assert(inner.last() == answer[answer.len() - 1]);
    assert(inner.len() > 0);
    if bold.len() == 0 {
        assert(b == inner);
        assert(unbolded(b) == inner);
    } else {
        law_bold(inner, b);
        assert(b[0] == '*' && b.last() == '*');
    }
    assert(b[0] == c || b[0] == '*');
    if tick.len() == 0 {
        assert(t == b);
        assert(unticked(t) == b);
    } else {
        assert forall|i: int| 0 <= i < b.len() implies b[i] != '\n' by {
            if bold.len() == 0 {
                assert(inner.contains(inner[i]));
            } else if 2 <= i < b.len() - 2 {
                assert(b[i] == inner[i - 2]);
                assert(inner.contains(inner[i - 2]));
            }
        }
        assert(!b.contains('\n'));
        law_backticks(b, t);
        assert(t[0] == '`' && t.last() == '`');
    }
    assert(t[0] == c || t[0] == '*' || t[0] == '`');
    if quote.len() == 0 {
        assert(q == t);
        assert(unquoted(q) == t);
    } else {
        law_quotes(t, q);
        assert(q[0] == quote[0] && q.last() == quote[0]);
    }
    assert(!crate::text::whitespace(q[0]) && !crate::text::whitespace(q.last()));
    crate::text::law_trim_takes_the_ends(before, q, behind);
    if head.len() == 0 {
        assert(unannounced(inner) == answer);
        crate::text::law_trim_settles(answer);
    } else {
        law_announcements(head, gap + answer, inner);
        assert(head + (gap + answer) == inner);
        crate::text::law_trim_takes_the_ends(gap, answer, Seq::empty());
        assert(gap + answer + Seq::<char>::empty() == gap + answer);
    }
}

/// An announcement begins with a letter.
proof fn lemma_announcement_start(head: Seq<char>)
    requires
        announces(head),
    ensures
        head.len() > 0,
        !crate::text::whitespace(head[0]),
        head[0] != '"' && head[0] != '\'' && head[0] != '`' && head[0] != '*',
{
    let words = crate::text::folded(head);
    reveal_strlit("here is the cleaned text:\n");
    reveal_strlit("here is the cleaned text: ");
    reveal_strlit("here's the cleaned text:\n");
    reveal_strlit("here's the cleaned text: ");
    reveal_strlit("cleaned text:\n");
    reveal_strlit("cleaned text: ");
    reveal_strlit("cleaned version:\n");
    reveal_strlit("cleaned version: ");
    reveal_strlit("cleaned:\n");
    reveal_strlit("cleaned: ");
    reveal_strlit("clean:\n");
    reveal_strlit("clean: ");
    reveal_strlit("text to clean:\n");
    reveal_strlit("text to clean: ");
    reveal_strlit("input:\n");
    reveal_strlit("input: ");
    assert("here is the cleaned text:\n"@[0] == 'h' && "here is the cleaned text:\n"@.len() > 0);
    assert("here is the cleaned text: "@[0] == 'h' && "here is the cleaned text: "@.len() > 0);
    assert("here's the cleaned text:\n"@[0] == 'h' && "here's the cleaned text:\n"@.len() > 0);
    assert("here's the cleaned text: "@[0] == 'h' && "here's the cleaned text: "@.len() > 0);
    assert("cleaned text:\n"@[0] == 'c' && "cleaned text:\n"@.len() > 0);
    assert("cleaned text: "@[0] == 'c' && "cleaned text: "@.len() > 0);
    assert("cleaned version:\n"@[0] == 'c' && "cleaned version:\n"@.len() > 0);
    assert("cleaned version: "@[0] == 'c' && "cleaned version: "@.len() > 0);
    assert("cleaned:\n"@[0] == 'c' && "cleaned:\n"@.len() > 0);
    assert("cleaned: "@[0] == 'c' && "cleaned: "@.len() > 0);
    assert("clean:\n"@[0] == 'c' && "clean:\n"@.len() > 0);
    assert("clean: "@[0] == 'c' && "clean: "@.len() > 0);
    assert("text to clean:\n"@[0] == 't' && "text to clean:\n"@.len() > 0);
    assert("text to clean: "@[0] == 't' && "text to clean: "@.len() > 0);
    assert("input:\n"@[0] == 'i' && "input:\n"@.len() > 0);
    assert("input: "@[0] == 'i' && "input: "@.len() > 0);
    assert(words.len() == head.len());
    assert(words[0] == crate::text::folded_char(head[0]));
}

/// What a response offers is its answer, unwrapped.
pub proof fn law_offer_is_the_answer(response: Seq<char>)
    ensures
        offered_text(response) == stripped(answer_part(response)),
{
}

/// An answer ends where a control marker begins: whatever a model goes on to say behind
/// the marker, and whatever stands behind that, the answer is what stands in front of it,
/// with its escapes read.
pub proof fn law_answer_ends_at_marker(answer: Seq<char>, marker: Seq<char>, rest: Seq<char>)
    requires
        answer.len() > 0,
        crate::text::is_trimmed(answer),
        crate::wire::free_of_escapes(answer),
        !crate::markers::has_marker(answer),
        marker == "<end_of_turn>"@ || marker == "<start_of_turn>"@ || marker == "<|im_end|>"@
            || marker == "<|endoftext|>"@,
    ensures
        answer_part(crate::wire::escaped(answer) + marker + rest) == answer,
{
    let line = crate::wire::escaped(answer);
    let head = line + marker;
    let response = line + marker + rest;
    reveal_strlit("<end_of_turn>");
    reveal_strlit("<start_of_turn>");
    reveal_strlit("<|im_end|>");
    reveal_strlit("<|endoftext|>");
    assert(marker[0] == '<' && marker.last() == '>' && marker.len() > 0);
    crate::wire::law_escaped(seq![answer[0]], answer.skip(1), answer[0]);
    assert(answer == seq![answer[0]] + answer.skip(1));
    assert(line[0] == answer[0]);
    assert(response[0] == answer[0]);
    assert(crate::text::trim_start(response) == response);
    lemma_trim_end_keeps(head, rest);
    assert(head.last() == marker.last());
    let kept = choose|kept: Seq<char>|
        crate::text::trim_end(head + rest) == #[trigger] (head + kept);
    assert(crate::text::trimmed(response) == line + (marker + kept));
    crate::wire::law_unescaped_in_parts(line, marker + kept);
    crate::wire::law_unescaped_in_parts(marker, kept);
    crate::wire::law_escape_round_trip(answer);
    assert forall|i: int| 0 <= i < marker.len() - 1 implies !(#[trigger] marker[i] == '\\'
        && marker[i + 1] == 'n') by {}
    crate::wire::law_unescaped(marker, kept);
    let read = crate::wire::unescaped(kept);
    assert(crate::wire::unescaped(crate::text::trimmed(response)) == answer + marker + read);
    assert forall|i: int| !crate::text::occurs_at(answer, "<end_of_turn>"@, i) by {
        assert(!crate::markers::marker_at(answer, i));
    }
    assert forall|i: int| !crate::text::occurs_at(answer, "<start_of_turn>"@, i) by {
        assert(!crate::markers::marker_at(answer, i));
    }
    assert forall|i: int| !crate::text::occurs_at(answer, "<|im_end|>"@, i) by {
        assert(!crate::markers::marker_at(answer, i));
    }
    assert forall|i: int| !crate::text::occurs_at(answer, "<|endoftext|>"@, i) by {
        assert(!crate::markers::marker_at(answer, i));
    }
    crate::markers::law_cut(answer, marker, read);
    crate::text::law_trim_settles(answer);
}

proof fn lemma_trim_end_keeps(head: Seq<char>, rest: Seq<char>)
    requires
        head.len() > 0,
        !crate::text::whitespace(head.last()),
    ensures
        exists|kept: Seq<char>| crate::text::trim_end(head + rest) == #[trigger] (head + kept),
    decreases rest.len(),
{
    let whole = head + rest;
    if rest.len() == 0 {
        assert(whole == head);
        assert(crate::text::trim_end(whole) == head + Seq::<char>::empty());
    } else if crate::text::whitespace(rest.last()) {
        lemma_trim_end_keeps(head, rest.drop_last());
        assert(whole.drop_last() == head + rest.drop_last());
    } else {
        assert(crate::text::trim_end(whole) == head + rest);
    }
}

/// Tags have leaked exactly if `<start_of`, `<end_of`, `<|im_` or `<|endo` stands in the
/// text, wherever it stands.
pub proof fn law_leaked_tags(text: Seq<char>, before: Seq<char>, behind: Seq<char>)
    ensures
        leaks_tags(text) <==> crate::text::occurs_in(text, "<start_of"@) || crate::text::occurs_in(
            text,
            "<end_of"@,
        ) || crate::text::occurs_in(text, "<|im_"@) || crate::text::occurs_in(text, "<|endo"@),
        leaks_tags(before + "<start_of"@ + behind),
        leaks_tags(before + "<end_of"@ + behind),
        leaks_tags(before + "<|im_"@ + behind),
        leaks_tags(before + "<|endo"@ + behind),
{
    crate::text::law_occurs(before + "<start_of"@ + behind, "<start_of"@);
    crate::text::law_occurs(before + "<end_of"@ + behind, "<end_of"@);
    crate::text::law_occurs(before + "<|im_"@ + behind, "<|im_"@);
    crate::text::law_occurs(before + "<|endo"@ + behind, "<|endo"@);
}

/// A text is accepted exactly if it is not empty, has no leaked tags, and takes at most
/// twenty bytes more than twice what the transcription takes, however much that is.
pub proof fn law_what_is_accepted(text: Seq<char>, raw_text: Seq<char>)
    ensures
        usable(text, raw_text) <==> {
            &&& text.len() > 0
            &&& !crate::text::occurs_in(text, "<start_of"@)
            &&& !crate::text::occurs_in(text, "<end_of"@)
            &&& !crate::text::occurs_in(text, "<|im_"@)
            &&& !crate::text::occurs_in(text, "<|endo"@)
            &&& vstd::utf8::encode_utf8(text).len() <= 2 * vstd::utf8::encode_utf8(raw_text).len()
                + 20
        },
{
}

/// A longer transcription never has a text refused that a shorter one would have accepted,
/// and a text that is no longer than the transcription is never too long.
pub proof fn law_longer_transcriptions_accept_more(
    text: Seq<char>,
    shorter: Seq<char>,
    longer: Seq<char>,
)
    requires
        vstd::utf8::encode_utf8(shorter).len() <= vstd::utf8::encode_utf8(longer).len(),
    ensures
        usable(text, shorter) ==> usable(text, longer),
        text.len() > 0 && !leaks_tags(text) && vstd::utf8::encode_utf8(text).len()
            <= vstd::utf8::encode_utf8(longer).len() ==> usable(text, longer),
{
}

/// The texts that cannot be stripped are a backtick alone and a backtick in quotes, with
/// whitespace around them or not.
pub proof fn law_lone_backtick(text: Seq<char>)
    ensures
        lone_backtick(text) <==> crate::text::trimmed(text) == seq!['`'] || crate::text::trimmed(
            text,
        ) == seq!['"', '`', '"'] || crate::text::trimmed(text) == seq!['\'', '`', '\''],
{
    let core = crate::text::trimmed(text);
    law_quotes(seq!['`'], core);
    assert(seq!['"'] + seq!['`'] + seq!['"'] == seq!['"', '`', '"']);
    assert(seq!['\''] + seq!['`'] + seq!['\''] == seq!['\'', '`', '\'']);
    assert(unquoted(seq!['`']) == seq!['`']);
}

/// What `parse_response` comes to: the text that the response offers, whole, exactly if
/// that is not empty, has no leaked tags and takes at most twenty bytes more than twice what
/// the transcription takes; to ask again exactly if tags have leaked.
pub proof fn law_response_is_judged(response: &str, raw_text: &str, r: ParseResult)
    requires
        call_ensures(parse_response, (response, raw_text), r),
    ensures
        ({
            let text = offered_text(response@);
            let leaked = crate::text::occurs_in(text, "<start_of"@) || crate::text::occurs_in(
                text,
                "<end_of"@,
            ) || crate::text::occurs_in(text, "<|im_"@) || crate::text::occurs_in(text, "<|endo"@);
            let fits = vstd::utf8::encode_utf8(text).len() <= 2 * vstd::utf8::encode_utf8(
                raw_text@,
            ).len() + 20;
            &&& text.len() > 0 && !leaked && fits ==> (r matches ParseResult::Clean(t) && t@
                == text)
            &&& leaked ==> r is Retry
            &&& !leaked && (text.len() == 0 || !fits) ==> r is Fallback
        }),
{
    law_what_is_accepted(offered_text(response@), raw_text@);
}

/// The order in which a response is taken apart: its ends are trimmed, its escapes read, it
/// is cut at the first marker and trimmed again; then one pair of quotes, one of backticks,
/// one of bold marks and one announcement are taken off, in this order, and it is trimmed.
/// Nothing else is done to it.
pub proof fn law_order_of_stripping(response: Seq<char>, text: Seq<char>)
    ensures
        answer_part(response) == crate::text::trimmed(
            crate::markers::before_marker(crate::wire::unescaped(crate::text::trimmed(response))),
        ),
        stripped(text) == crate::text::trimmed(
            unannounced(unbolded(unticked(unquoted(crate::text::trimmed(text))))),
        ),
{
}

} // verus!
