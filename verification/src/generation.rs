//! Generation of a reply, token by token.

use vstd::prelude::*;

use crate::markers::find_marker;
use crate::text::{chars_of, copy_range, string_of, trim_chars};

verus! {

/// How many tokens a reply has at most.
pub const MAX_TOKENS: u32 = 256;

/// The size of the context for a prompt of `n_tokens` tokens: room for the
/// prompt and the longest reply, and never less than 1024.
pub fn context_size(n_tokens: usize) -> (r: u32)
    requires
        (n_tokens as u32) + MAX_TOKENS <= u32::MAX,
    ensures
        (n_tokens as u32) + MAX_TOKENS >= 1024 ==> r == (n_tokens as u32) + MAX_TOKENS,
        (n_tokens as u32) + MAX_TOKENS < 1024 ==> r == 1024,
{
    let needed = n_tokens as u32 + MAX_TOKENS;
    if needed > 1024 {
        needed
    } else {
        1024
    }
}

/// The position of the token `i` of a prompt of `n_tokens` tokens, and whether
/// the model's output for it is wanted: only for the last.
pub fn prompt_slot(i: usize, n_tokens: usize) -> (r: (i32, bool))
    requires
        i < n_tokens,
    ensures
        r.0 == i as i32,
        r.1 == (i == n_tokens - 1),
{
    (i as i32, i == n_tokens - 1)
}

/// A reply in the making.
pub struct Generation {
    text: Vec<char>,
    sampled: u32,
    position: i32,
    ended: bool,
}

impl Generation {
    /// What was generated so far.
    pub closed spec fn text(&self) -> Seq<char> {
        self.text@
    }

    /// How many tokens were sampled.
    pub closed spec fn sampled(&self) -> int {
        self.sampled as int
    }

    /// The position of the next token.
    pub closed spec fn position(&self) -> int {
        self.position as int
    }

    /// Whether the reply has ended.
    pub closed spec fn ended(&self) -> bool {
        self.ended
    }

    /// Whether another token is to be sampled.
    pub open spec fn wants_more(&self) -> bool {
        !self.ended() && self.sampled() < MAX_TOKENS
    }

    /// No more tokens than allowed were sampled, no control marker was generated,
    /// and there is a position for each token that may still come.
    pub open spec fn well_formed(&self) -> bool {
        &&& 0 <= self.sampled() <= MAX_TOKENS
        &&& i32::MIN <= self.position() <= i32::MAX - (MAX_TOKENS - self.sampled())
        &&& !crate::markers::has_marker(self.text())
    }

    /// The beginning of the reply to a prompt of `n_tokens` tokens.
    pub fn start(n_tokens: usize) -> (r: Self)
        requires
            (n_tokens as i32) + MAX_TOKENS <= i32::MAX,
        ensures
            r.well_formed(),
            r.text() == Seq::<char>::empty(),
            r.sampled() == 0,
            r.position() == n_tokens as i32,
            !r.ended(),
    {
        let r = Generation {
            text: Vec::new(),
            sampled: 0,
            position: n_tokens as i32,
            ended: false,
        };
        proof {
            crate::markers::law_before_marker_has_none(r.text@);
            assert(crate::markers::before_marker(r.text@) == r.text@);
        }
        r
    }

    /// Whether another token is to be sampled.
    pub fn is_running(&self) -> (r: bool)
        requires
            self.well_formed(),
        ensures
            r == self.wants_more(),
    {
        !self.ended && self.sampled < MAX_TOKENS
    }

    /// Takes in the token that was sampled, by its text; none if the token ends
    /// the reply or has no text. Returns the position at which the token is to be
    /// decoded, or none if the reply has ended: there was no text, or a control
    /// marker came up, which is cut off with all that follows.
    pub fn take_piece(&mut self, piece: Option<&str>) -> (r: Option<i32>)
        requires
            old(self).well_formed(),
            old(self).wants_more(),
        ensures
            final(self).well_formed(),
            final(self).sampled() == old(self).sampled() + 1,
            final(self).ended() == (r is None),
            match piece {
                None => {
                    &&& r is None
                    &&& final(self).text() == old(self).text()
                    &&& final(self).position() == old(self).position()
                },
                Some(p) => {
                    let grown = old(self).text() + p@;
                    &&& final(self).text() == crate::markers::before_marker(grown)
                    &&& match r {
                        Some(at) => {
                            &&& !crate::markers::has_marker(grown)
                            &&& at == old(self).position()
                            &&& final(self).position() == old(self).position() + 1
                        },
                        None => {
                            &&& crate::markers::has_marker(grown)
                            &&& final(self).position() == old(self).position()
                        },
                    }
                },
            },
    {
        self.sampled = self.sampled + 1;
        let piece = match piece {
            Some(p) => p,
            None => {
                self.ended = true;
                return None;
            },
        };
        let mut grown = copy_range(&self.text, 0, self.text.len());
        let mut added = chars_of(piece);
        grown.append(&mut added);
        assert(grown@ == old(self).text@ + piece@);
        let end = find_marker(&grown);
        let ghost whole = grown@;
        proof {
            crate::markers::law_first_marker(whole);
            crate::markers::law_before_marker_has_none(whole);
            assert(whole.subrange(0, end as int) == whole.take(end as int));
            crate::markers::lemma_marker_shape(whole);
        }
        if end < grown.len() {
            self.text = copy_range(&grown, 0, end);
            self.ended = true;
            return None;
        }
        assert(whole.take(end as int) == whole);
        self.text = grown;
        let at = self.position;
        self.position = at + 1;
        Some(at)
    }

    /// Ends the reply because the token could not be decoded.
    pub fn stop(&mut self)
        requires
            old(self).well_formed(),
        ensures
            final(self).well_formed(),
            final(self).ended(),
            final(self).text() == old(self).text(),
            final(self).sampled() == old(self).sampled(),
            final(self).position() == old(self).position(),
    {
        self.ended = true;
    }

    /// The reply: what was generated, without the whitespace at its ends.
    pub fn finish(self) -> (r: String)
        requires
            self.well_formed(),
        ensures
            r@ == crate::text::trimmed(self.text()),
    {
        string_of(&trim_chars(&self.text))
    }
}

/// The pieces put together.
pub open spec fn joined(pieces: Seq<Seq<char>>) -> Seq<char>
    decreases pieces.len(),
{
    if pieces.len() == 0 {
        Seq::<char>::empty()
    } else {
        joined(pieces.drop_last()) + pieces.last()
    }
}

/// What `take_piece` makes of the pieces, one after the other, until one completes a
/// control marker; and whether one did.
pub open spec fn generated(pieces: Seq<Seq<char>>) -> (Seq<char>, bool)
    decreases pieces.len(),
{
    if pieces.len() == 0 {
        (Seq::<char>::empty(), false)
    } else {
        let (text, ended) = generated(pieces.drop_last());
        let grown = text + pieces.last();
        if ended {
            (text, true)
        } else {
            (crate::markers::before_marker(grown), crate::markers::has_marker(grown))
        }
    }
}

/// How a reply comes in pieces does not matter: it is what stands before the first
/// control marker of all the pieces put together, and it ends early exactly if there
/// is one.
pub proof fn law_pieces_do_not_matter(pieces: Seq<Seq<char>>)
    ensures
        generated(pieces).0 == crate::markers::before_marker(joined(pieces)),
        generated(pieces).1 == crate::markers::has_marker(joined(pieces)),
    decreases pieces.len(),
{
    if pieces.len() == 0 {
        crate::markers::lemma_marker_shape(joined(pieces));
        crate::markers::law_first_marker(joined(pieces));
        assert(crate::markers::before_marker(joined(pieces)) == joined(pieces));
    } else {
        let before = joined(pieces.drop_last());
        law_pieces_do_not_matter(pieces.drop_last());
        if crate::markers::has_marker(before) {
            crate::markers::law_cut_is_final(before, pieces.last());
        } else {
            crate::markers::law_first_marker(before);
            assert(crate::markers::before_marker(before) == before);
        }
    }
}

/// A reply has no whitespace at its ends and no control marker in it.
pub proof fn law_reply_is_plain(generation: Generation)
    requires
        generation.well_formed(),
    ensures
        crate::text::is_trimmed(crate::text::trimmed(generation.text())),
        !crate::markers::has_marker(crate::text::trimmed(generation.text())),
{
    let text = generation.text();
    let reply = crate::text::trimmed(text);
    crate::text::law_trimmed(text);
    let (from, to) = choose|from: int, to: int|
        0 <= from <= to <= text.len() && reply == #[trigger] text.subrange(from, to);
    assert forall|i: int| !#[trigger] crate::markers::marker_at(reply, i) by {
        if crate::markers::marker_at(reply, i) {
            crate::markers::lemma_marker_in_part(text, from, to, i);
        }
    }
}

/// The worker's reply reaches the application unchanged, if it has no backslash
/// that an `n` follows.
pub proof fn law_reply_arrives(generation: Generation)
    requires
        generation.well_formed(),
        crate::wire::free_of_escapes(crate::text::trimmed(generation.text())),
    ensures
        crate::cleanup::response::answer_part(
            crate::wire::line_of(crate::text::trimmed(generation.text())),
        ) == crate::text::trimmed(generation.text()),
{
    law_reply_is_plain(generation);
    crate::cleanup::response::law_reply_is_read(crate::text::trimmed(generation.text()));
}

/// Tokens are sampled until the reply ends, and never more than 256 of them.
pub proof fn law_tokens_are_counted(generation: Generation)
    ensures
        generation.wants_more() <==> !generation.ended() && generation.sampled() < 256,
        generation.well_formed() ==> generation.sampled() <= 256 && !crate::markers::has_marker(
            generation.text(),
        ),
{
}

/// A reply of any text can be in the making, at any count of tokens that is allowed and any
/// position that leaves room for the rest, as long as no marker is in it.
pub proof fn law_what_is_well_formed(generation: Generation)
    requires
        !crate::markers::has_marker(generation.text()),
        0 <= generation.sampled() <= 256,
        i32::MIN <= generation.position(),
        generation.position() + (256 - generation.sampled()) <= i32::MAX,
    ensures
        generation.well_formed(),
{
}

/// The context has room for the prompt and 256 tokens more, is never under 1024, and is no
/// larger than that takes.
pub proof fn law_context_size(n_tokens: usize, r: u32)
    requires
        call_ensures(context_size, (n_tokens,), r),
        n_tokens <= 0xffff_0000,
    ensures
        r >= n_tokens + 256,
        r >= 1024,
        r == n_tokens + 256 || r == 1024,
{
}

/// The tokens of a prompt stand at their own places, and only the last has its output taken.
pub proof fn law_prompt_slot(i: usize, n_tokens: usize, r: (i32, bool))
    requires
        call_ensures(prompt_slot, (i, n_tokens), r),
        i < n_tokens <= 0x7fff_ffff,
    ensures
        r.0 == i,
        r.1 <==> i + 1 == n_tokens,
{
}

} // verus!
