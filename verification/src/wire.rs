//! The line format between the application and its inference worker: one
//! prompt or reply per line, with each newline inside it written as a
//! backslash and an `n`.

use vstd::prelude::*;

use crate::text::{chars_of, string_of};

verus! {

/// `s` with each newline written as a backslash and an `n`.
pub open spec fn escaped(s: Seq<char>) -> Seq<char>
    decreases s.len(),
{
    if s.len() == 0 {
        s
    } else if s[0] == '\n' {
        seq!['\\', 'n'] + escaped(s.skip(1))
    } else {
        seq![s[0]] + escaped(s.skip(1))
    }
}

/// `s` with each backslash that an `n` follows, and that `n`, read as a newline.
pub open spec fn unescaped(s: Seq<char>) -> Seq<char>
    decreases s.len(),
{
    if s.len() == 0 {
        s
    } else if s.len() >= 2 && s[0] == '\\' && s[1] == 'n' {
        seq!['\n'] + unescaped(s.skip(2))
    } else {
        seq![s[0]] + unescaped(s.skip(1))
    }
}

/// Whether a backslash that an `n` follows stands nowhere in `s`.
pub open spec fn free_of_escapes(s: Seq<char>) -> bool {
    forall|i: int| 0 <= i < s.len() - 1 && #[trigger] s[i] == '\\' ==> s[i + 1] != 'n'
}

/// Writes each newline of `s` as a backslash and an `n`.
pub fn escape_newlines(s: &str) -> (r: String)
    ensures
        r@ == escaped(s@),
{
    let v = chars_of(s);
    let mut r = String::new();
    assert(v@.skip(0) == v@);
    for i in 0..v.len()
        invariant
            v@ == s@,
            escaped(s@) == r@ + escaped(v@.skip(i as int)),
    {
        let ghost rest = v@.skip(i as int);
        assert(rest.skip(1) == v@.skip(i + 1));
        let ghost before = r@;
        if v[i] == '\n' {
            r.push('\\');
            r.push('n');
            assert(r@ == before + seq!['\\', 'n']);
        } else {
            r.push(v[i]);
            assert(r@ == before + seq![rest[0]]);
        }
        assert(escaped(s@) == r@ + escaped(v@.skip(i + 1)));
    }
    assert(r@ + escaped(v@.skip(v@.len() as int)) == r@);
    r
}

/// Reads each backslash that an `n` follows, and that `n`, as a newline.
pub fn unescape_chars(v: &Vec<char>) -> (r: Vec<char>)
    ensures
        r@ == unescaped(v@),
{
    let mut r: Vec<char> = Vec::new();
    let mut i: usize = 0;
    assert(v@.skip(0) == v@);
    while i < v.len()
        invariant
            i <= v@.len(),
            unescaped(v@) == r@ + unescaped(v@.skip(i as int)),
        decreases v@.len() - i,
    {
        let ghost rest = v@.skip(i as int);
        let ghost before = r@;
        if v.len() - i >= 2 && v[i] == '\\' && v[i + 1] == 'n' {
            assert(rest.skip(2) == v@.skip(i + 2));
            r.push('\n');
            assert(r@ == before + seq!['\n']);
            i = i + 2;
        } else {
            assert(rest.skip(1) == v@.skip(i + 1));
            r.push(v[i]);
            assert(r@ == before + seq![rest[0]]);
            i = i + 1;
        }
        assert(unescaped(v@) == r@ + unescaped(v@.skip(i as int)));
    }
    assert(r@ + unescaped(v@.skip(i as int)) == r@);
    r
}

/// Reads each backslash that an `n` follows, and that `n`, as a newline.
pub fn unescape_newlines(s: &str) -> (r: String)
    ensures
        r@ == unescaped(s@),
{
    string_of(&unescape_chars(&chars_of(s)))
}

/// The prompt that a line asks the worker to answer; none for an empty line,
/// which the worker skips without a reply.
pub fn prompt_of_line(line: &str) -> (r: Option<String>)
    ensures
        r is None <==> line@.len() == 0,
        r matches Some(prompt) ==> prompt@ == unescaped(line@),
{
    if line.is_empty() {
        None
    } else {
        Some(unescape_newlines(line))
    }
}

/// An escaped text has no newline in it, so that it is one line of the pipe.
pub proof fn law_escaped_is_one_line(s: Seq<char>)
    ensures
        !escaped(s).contains('\n'),
    decreases s.len(),
{
    if s.len() > 0 {
        law_escaped_is_one_line(s.skip(1));
        let rest = escaped(s.skip(1));
        assert forall|i: int| 0 <= i < escaped(s).len() implies escaped(s)[i] != '\n' by {
            if s[0] == '\n' {
                if i >= 2 {
                    assert(escaped(s)[i] == rest[i - 2]);
                    assert(rest.contains(rest[i - 2]));
                }
            } else if i >= 1 {
                assert(escaped(s)[i] == rest[i - 1]);
                assert(rest.contains(rest[i - 1]));
            }
        }
    }
}

/// An escaped text is empty only if the text is, so that the worker skips no
/// prompt that has something in it.
pub proof fn law_escaped_keeps_something(s: Seq<char>)
    ensures
        escaped(s).len() >= s.len(),
    decreases s.len(),
{
    if s.len() > 0 {
        law_escaped_keeps_something(s.skip(1));
    }
}

/// Reading back an escaped text gives the text if, and only if, it had no
/// backslash that an `n` follows to begin with.
pub proof fn law_escape_round_trip(s: Seq<char>)
    ensures
        unescaped(escaped(s)) == s <==> free_of_escapes(s),
{
    if free_of_escapes(s) {
        lemma_round_trip(s);
    } else {
        lemma_escapes_shrink(s);
    }
}

/// The line that carries `s` over the pipe, with the newline that ends it.
pub open spec fn line_of(s: Seq<char>) -> Seq<char> {
    escaped(s).push('\n')
}

/// A trimmed text survives the pipe: trimming its line and reading the escapes
/// gives it back, if it had no backslash that an `n` follows.
pub proof fn law_line_round_trip(s: Seq<char>)
    requires
        crate::text::is_trimmed(s),
        free_of_escapes(s),
    ensures
        unescaped(crate::text::trimmed(line_of(s))) == s,
{
    let line = line_of(s);
    let core = escaped(s);
    lemma_round_trip(s);
    assert(line.drop_last() == core);
    if s.len() > 0 {
        lemma_escaped_ends(s);
        assert(line[0] == s[0]);
        assert(core.last() == s.last());
        assert(crate::text::trim_end(line) == crate::text::trim_end(core));
    } else {
        assert(line.skip(1) == core);
        assert(crate::text::trim_start(line) == crate::text::trim_start(core));
    }
}

proof fn lemma_escaped_ends(s: Seq<char>)
    requires
        s.len() > 0,
    ensures
        escaped(s).len() > 0,
        s[0] != '\n' ==> escaped(s)[0] == s[0],
        s.last() != '\n' ==> escaped(s).last() == s.last(),
    decreases s.len(),
{
    if s.len() > 1 {
        lemma_escaped_ends(s.skip(1));
        assert(s.skip(1).last() == s.last());
    } else {
        assert(escaped(s.skip(1)).len() == 0);
    }
}

proof fn lemma_round_trip(s: Seq<char>)
    requires
        free_of_escapes(s),
    ensures
        unescaped(escaped(s)) == s,
    decreases s.len(),
{
    if s.len() > 0 {
        let tail = s.skip(1);
        let rest = escaped(tail);
        assert(free_of_escapes(tail)) by {
            assert forall|i: int| 0 <= i < tail.len() - 1 && #[trigger] tail[i] == '\\' implies tail[i
                + 1] != 'n' by {
                assert(s[i + 1] == '\\');
            }
        }
        lemma_round_trip(tail);
        let line = escaped(s);
        if s[0] == '\n' {
            assert(line.skip(2) == rest);
            assert(unescaped(line) == seq!['\n'] + unescaped(rest));
        } else {
            assert(line.skip(1) == rest);
            if line.len() >= 2 {
                assert(line[1] == rest[0]);
                if tail[0] != '\n' {
                    assert(rest[0] == tail[0]);
                }
            }
            assert(unescaped(line) == seq![s[0]] + unescaped(rest));
        }
        assert(seq![s[0]] + tail == s);
    }
}

proof fn lemma_escapes_shrink(s: Seq<char>)
    ensures
        unescaped(escaped(s)).len() <= s.len(),
        !free_of_escapes(s) ==> unescaped(escaped(s)).len() < s.len(),
    decreases s.len(),
{
    if s.len() > 0 {
        let tail = s.skip(1);
        let rest = escaped(tail);
        let line = escaped(s);
        lemma_escapes_shrink(tail);
        if s.len() >= 2 && s[0] == '\\' && s[1] == 'n' {
            let after = s.skip(2);
            lemma_escapes_shrink(after);
            assert(tail.skip(1) == after);
            assert(line == seq!['\\', 'n'] + escaped(after));
            assert(line.skip(2) == escaped(after));
        } else {
            if !free_of_escapes(s) {
                let i = choose|i: int|
                    0 <= i < s.len() - 1 && #[trigger] s[i] == '\\' && s[i + 1] == 'n';
                assert(tail[i - 1] == '\\' && tail[i] == 'n');
            }
            if s[0] == '\n' {
                assert(line.skip(2) == rest);
            } else {
                assert(line.skip(1) == rest);
                if line.len() >= 2 {
                    assert(line[1] == rest[0]);
                    if tail[0] != '\n' {
                        assert(rest[0] == tail[0]);
                    }
                }
                assert(unescaped(line) == seq![s[0]] + unescaped(rest));
            }
        }
    }
}

/// Escaping goes character by character: a newline becomes a backslash and an `n`, and
/// every other character stays as it is, a backslash too.
pub proof fn law_escaped(a: Seq<char>, b: Seq<char>, c: char)
    ensures
        escaped(a + b) == escaped(a) + escaped(b),
        escaped(seq!['\n']) == seq!['\\', 'n'],
        c != '\n' ==> escaped(seq![c]) == seq![c],
    decreases a.len(),
{
    if a.len() == 0 {
        assert(a + b == b);
        assert(escaped(a) + escaped(b) == escaped(b));
    } else {
        law_escaped(a.skip(1), b, c);
        assert((a + b).skip(1) == a.skip(1) + b);
        assert(escaped(a + b) == escaped(a) + escaped(b));
    }
    assert(seq!['\n'].skip(1) == Seq::<char>::empty());
    assert(seq![c].skip(1) == Seq::<char>::empty());
    assert(escaped(Seq::<char>::empty()) == Seq::<char>::empty());
    assert(escaped(seq!['\n']) == seq!['\\', 'n']);
    if c != '\n' {
        assert(escaped(seq![c]) == seq![c]);
    }
}

/// A backslash and an `n` are read as a newline wherever they stand, and a text in which
/// they stand nowhere is read as it is.
pub proof fn law_unescaped(a: Seq<char>, b: Seq<char>)
    ensures
        unescaped(a + seq!['\\', 'n'] + b) == unescaped(a) + seq!['\n'] + unescaped(b),
        (forall|i: int| 0 <= i < a.len() - 1 ==> !(#[trigger] a[i] == '\\' && a[i + 1] == 'n'))
            ==> unescaped(a) == a,
    decreases a.len(),
{
    let whole = a + seq!['\\', 'n'] + b;
    if a.len() == 0 {
        assert(whole.skip(2) == b);
        assert(unescaped(a) == a);
        assert(unescaped(whole) == unescaped(a) + seq!['\n'] + unescaped(b));
    } else if a.len() >= 2 && a[0] == '\\' && a[1] == 'n' {
        law_unescaped(a.skip(2), b);
        assert(whole.skip(2) == a.skip(2) + seq!['\\', 'n'] + b);
        assert(unescaped(whole) == unescaped(a) + seq!['\n'] + unescaped(b));
    } else {
        law_unescaped(a.skip(1), b);
        assert(whole.skip(1) == a.skip(1) + seq!['\\', 'n'] + b);
        if a.len() >= 2 {
            assert(whole[1] == a[1]);
        } else {
            assert(whole[1] == '\\');
        }
        assert(unescaped(whole) == unescaped(a) + seq!['\n'] + unescaped(b));
        if forall|i: int| 0 <= i < a.len() - 1 ==> !(#[trigger] a[i] == '\\' && a[i + 1] == 'n') {
            let tail = a.skip(1);
            assert forall|i: int| 0 <= i < tail.len() - 1 implies !(#[trigger] tail[i] == '\\'
                && tail[i + 1] == 'n') by {
                assert(!(a[i + 1] == '\\' && a[i + 2] == 'n'));
            }
            assert(seq![a[0]] + tail == a);
        }
    }
}

/// A text is free of escapes exactly if the pair of a backslash and an `n` stands nowhere
/// in it: putting the pair between two texts never gives one that is.
pub proof fn law_free_of_escapes(s: Seq<char>, a: Seq<char>, b: Seq<char>)
    ensures
        free_of_escapes(s) <==> !crate::text::occurs_in(s, seq!['\\', 'n']),
        !free_of_escapes(a + seq!['\\', 'n'] + b),
{
    let pair = seq!['\\', 'n'];
    if !free_of_escapes(s) {
        let i = choose|i: int| 0 <= i < s.len() - 1 && #[trigger] s[i] == '\\' && s[i + 1] == 'n';
        assert(s.subrange(i, i + 2) == pair);
        assert(crate::text::occurs_at(s, pair, i));
    }
    if crate::text::occurs_in(s, pair) {
        let i = choose|i: int| crate::text::occurs_at(s, pair, i);
        assert(s.subrange(i, i + 2)[0] == s[i] && s.subrange(i, i + 2)[1] == s[i + 1]);
    }
    let whole = a + pair + b;
    let n = a.len() as int;
    assert(whole[n] == '\\' && whole[n + 1] == 'n');
}

/// A line that has no newline in it asks for just the prompt whose newlines were
/// escaped to make it, and for no other: a prompt that is put is the prompt that is
/// answered, if it has no backslash that an `n` follows.
pub proof fn law_line_asks_for_its_prompt(one: Seq<char>, other: Seq<char>)
    requires
        free_of_escapes(one),
        free_of_escapes(other),
        escaped(one) == escaped(other),
    ensures
        one == other,
{
    law_escape_round_trip(one);
    law_escape_round_trip(other);
}

/// Two texts in a row are read one after the other, unless the first ends in a backslash
/// and the second begins with an `n`.
pub proof fn law_unescaped_in_parts(a: Seq<char>, b: Seq<char>)
    requires
        a.len() > 0 && b.len() > 0 ==> !(a[a.len() - 1] == '\\' && b[0] == 'n'),
    ensures
        unescaped(a + b) == unescaped(a) + unescaped(b),
    decreases a.len(),
{
    let whole = a + b;
    if a.len() == 0 {
        assert(whole == b);
        assert(unescaped(a) + unescaped(b) == unescaped(b));
    } else if a.len() >= 2 && a[0] == '\\' && a[1] == 'n' {
        law_unescaped_in_parts(a.skip(2), b);
        assert(whole.skip(2) == a.skip(2) + b);
        assert(unescaped(whole) == unescaped(a) + unescaped(b));
    } else {
        law_unescaped_in_parts(a.skip(1), b);
        assert(whole.skip(1) == a.skip(1) + b);
        if a.len() >= 2 {
            assert(whole[1] == a[1]);
        } else if b.len() > 0 {
            assert(whole[1] == b[0]);
        }
        assert(unescaped(whole) == unescaped(a) + unescaped(b));
    }
}

/// The worker answers every line but an empty one, with the prompt that was put: what
/// `prompt_of_line` reads of a line that `escape_newlines` wrote is what was written, if
/// that has something in it and no backslash that an `n` follows.
pub proof fn law_prompt_comes_over(prompt: &str, line: String, sent: &str, r: Option<String>)
    requires
        call_ensures(escape_newlines, (prompt,), line),
        sent@ == line@,
        call_ensures(prompt_of_line, (sent,), r),
        free_of_escapes(prompt@),
    ensures
        !sent@.contains('\n'),
        r is None <==> prompt@.len() == 0,
        r matches Some(p) ==> p@ == prompt@,
{
    law_escaped_is_one_line(prompt@);
    law_escaped_keeps_something(prompt@);
    law_escape_round_trip(prompt@);
}

} // verus!
