//! Text as sequences of characters: trimming, searching, splitting and
//! comparing, each stated over `Seq<char>`.

use vstd::prelude::*;

verus! {

/// What `String::push` does: one character more at the end.
pub assume_specification[ String::push ](s: &mut String, ch: char)
    ensures
        final(s)@ == old(s)@.push(ch),
;

/// What `String::push_str` does: the characters of `string` more at the end.
pub assume_specification[ String::push_str ](s: &mut String, string: &str)
    ensures
        final(s)@ == old(s)@ + string@,
;

/// The characters with the Unicode property `White_Space`.
pub open spec fn whitespace(c: char) -> bool {
    let u = c as u32;
    ||| 0x9 <= u <= 0xd
    ||| u == 0x20
    ||| u == 0x85
    ||| u == 0xa0
    ||| u == 0x1680
    ||| 0x2000 <= u <= 0x200a
    ||| u == 0x2028
    ||| u == 0x2029
    ||| u == 0x202f
    ||| u == 0x205f
    ||| u == 0x3000
}

/// `s` without the whitespace it begins with.
pub open spec fn trim_start(s: Seq<char>) -> Seq<char>
    decreases s.len(),
{
    if s.len() > 0 && whitespace(s[0]) {
        trim_start(s.skip(1))
    } else {
        s
    }
}

/// `s` without the whitespace it ends with.
pub open spec fn trim_end(s: Seq<char>) -> Seq<char>
    decreases s.len(),
{
    if s.len() > 0 && whitespace(s.last()) {
        trim_end(s.drop_last())
    } else {
        s
    }
}

/// `s` without the whitespace at either end.
pub open spec fn trimmed(s: Seq<char>) -> Seq<char> {
    trim_end(trim_start(s))
}

/// Whether neither end of `s` is whitespace.
pub open spec fn is_trimmed(s: Seq<char>) -> bool {
    s.len() > 0 ==> !whitespace(s[0]) && !whitespace(s.last())
}

/// Whether `word` stands in `s` from position `i` on.
pub open spec fn occurs_at(s: Seq<char>, word: Seq<char>, i: int) -> bool {
    0 <= i <= s.len() - word.len() && s.subrange(i, i + word.len()) == word
}

/// Whether `word` stands anywhere in `s`.
pub open spec fn occurs_in(s: Seq<char>, word: Seq<char>) -> bool {
    exists|i: int| #[trigger] occurs_at(s, word, i)
}

/// The lower-case form of `c`, for text that is compared with words made of
/// ASCII characters. Outside ASCII only the Kelvin sign has a lower-case form
/// that is one ASCII character; every other character stands for itself here,
/// and so never equals one of such a word.
pub open spec fn folded_char(c: char) -> char {
    if 'A' <= c && c <= 'Z' {
        (c as u8 + 32) as u8 as char
    } else if c == '\u{212A}' {
        'k'
    } else {
        c
    }
}

/// `s` with each character in its lower-case form.
pub open spec fn folded(s: Seq<char>) -> Seq<char> {
    s.map_values(|c: char| folded_char(c))
}

/// The pieces of `s` between the separators `sep`; one more than separators.
pub open spec fn split_on(s: Seq<char>, sep: char) -> Seq<Seq<char>>
    decreases s.len(),
{
    if s.len() == 0 {
        seq![Seq::empty()]
    } else {
        let rest = split_on(s.drop_last(), sep);
        if s.last() == sep {
            rest.push(Seq::empty())
        } else {
            rest.drop_last().push(rest.last().push(s.last()))
        }
    }
}

/// How many bytes `s` takes in UTF-8.
pub open spec fn utf8_len(s: Seq<char>) -> nat {
    vstd::utf8::encode_utf8(s).len()
}

/// The characters of `s`.
pub fn chars_of(s: &str) -> (v: Vec<char>)
    ensures
        v@ == s@,
{
    let mut v: Vec<char> = Vec::new();
    for c in it: s.chars()
        invariant
            v@ == it.seq().take(it.index() as int),
            it.seq() == s@,
    {
        v.push(c);
    }
    v
}

/// The string made of the characters of `v`.
pub fn string_of(v: &Vec<char>) -> (s: String)
    ensures
        s@ == v@,
{
    let mut s = String::new();
    for i in 0..v.len()
        invariant
            s@ == v@.take(i as int),
    {
        s.push(v[i]);
    }
    assert(v@.take(v@.len() as int) == v@);
    s
}

/// The characters of `v` from `from` up to `to`.
pub fn copy_range(v: &Vec<char>, from: usize, to: usize) -> (r: Vec<char>)
    requires
        from <= to <= v@.len(),
    ensures
        r@ == v@.subrange(from as int, to as int),
{
    let mut r: Vec<char> = Vec::new();
    for i in from..to
        invariant
            from <= i <= to <= v@.len(),
            r@ == v@.subrange(from as int, i as int),
    {
        r.push(v[i]);
    }
    r
}

/// Whether `a` and `b` hold the same characters.
pub fn same_text(a: &str, b: &str) -> (r: bool)
    ensures
        r == (a@ == b@),
{
    let mut left = a.chars();
    let mut right = b.chars();
    let ghost mut n: int = 0;
    assert(a@.skip(0) == a@ && b@.skip(0) == b@);
    loop
        invariant
            0 <= n <= a@.len(),
            n <= b@.len(),
            a@.take(n) == b@.take(n),
            vstd::std_specs::iter::IteratorSpec::remaining(&left) == a@.skip(n),
            vstd::std_specs::iter::IteratorSpec::remaining(&right) == b@.skip(n),
        decreases a@.len() - n,
    {
        match (left.next(), right.next()) {
            (Some(x), Some(y)) => {
                assert(x == a@[n] && y == b@[n]);
                if x != y {
                    return false;
                }
                assert(a@.skip(n).skip(1) == a@.skip(n + 1));
                assert(b@.skip(n).skip(1) == b@.skip(n + 1));
                assert(a@.take(n + 1) == a@.take(n).push(x));
                assert(b@.take(n + 1) == b@.take(n).push(y));
                proof {
                    n = n + 1;
                }
            },
            (None, None) => {
                assert(a@.take(n) == a@ && b@.take(n) == b@);
                return true;
            },
            _ => {
                return false;
            },
        }
    }
}

/// Whether `c` is whitespace.
pub fn is_whitespace(c: char) -> (r: bool)
    ensures
        r == whitespace(c),
{
    let u = c as u32;
    (0x9 <= u && u <= 0xd) || u == 0x20 || u == 0x85 || u == 0xa0 || u == 0x1680 || (0x2000 <= u
        && u <= 0x200a) || u == 0x2028 || u == 0x2029 || u == 0x202f || u == 0x205f || u == 0x3000
}

/// `v` without the whitespace at either end.
pub fn trim_chars(v: &Vec<char>) -> (r: Vec<char>)
    ensures
        r@ == trimmed(v@),
{
    let mut from: usize = 0;
    assert(v@.skip(0) == v@);
    while from < v.len() && is_whitespace(v[from])
        invariant
            from <= v@.len(),
            trim_start(v@) == trim_start(v@.skip(from as int)),
        decreases v@.len() - from,
    {
        assert(v@.skip(from as int).skip(1) == v@.skip(from + 1));
        from = from + 1;
    }
    let ghost tail = v@.skip(from as int);
    assert(trim_start(v@) == tail);
    let mut to: usize = v.len();
    assert(v@.subrange(from as int, to as int) == tail);
    while to > from && is_whitespace(v[to - 1])
        invariant
            from <= to <= v@.len(),
            trim_end(tail) == trim_end(v@.subrange(from as int, to as int)),
        decreases to,
    {
        assert(v@.subrange(from as int, to as int).drop_last() == v@.subrange(
            from as int,
            to - 1,
        ));
        to = to - 1;
    }
    copy_range(v, from, to)
}

/// `s` without the whitespace at either end.
pub fn trim(s: &str) -> (r: String)
    ensures
        r@ == trimmed(s@),
{
    string_of(&trim_chars(&chars_of(s)))
}

/// Whether `word` stands in `v` from position `i` on.
pub fn occurs_here(v: &Vec<char>, word: &str, i: usize) -> (r: bool)
    requires
        i <= v@.len(),
    ensures
        r == occurs_at(v@, word@, i as int),
{
    let w = chars_of(word);
    if w.len() > v.len() - i {
        return false;
    }
    for k in 0..w.len()
        invariant
            w@ == word@,
            i + w@.len() <= v@.len() <= usize::MAX,
            forall|j: int| 0 <= j < k ==> v@[i + j] == w@[j],
    {
        if v[i + k] != w[k] {
            assert(v@.subrange(i as int, i + w@.len())[k as int] != w@[k as int]);
            return false;
        }
    }
    assert(v@.subrange(i as int, i + w@.len()) == w@);
    true
}

/// Whether `word` stands anywhere in `v`.
pub fn holds_word(v: &Vec<char>, word: &str) -> (r: bool)
    ensures
        r == occurs_in(v@, word@),
{
    for i in 0..v.len()
        invariant
            forall|j: int| 0 <= j < i ==> !#[trigger] occurs_at(v@, word@, j),
    {
        if occurs_here(v, word, i) {
            return true;
        }
    }
    occurs_here(v, word, v.len())
}

/// The lower-case form of `c`.
pub fn fold_char(c: char) -> (r: char)
    ensures
        r == folded_char(c),
{
    if 'A' <= c && c <= 'Z' {
        (c as u8 + 32) as char
    } else if c == '\u{212A}' {
        'k'
    } else {
        c
    }
}

/// `v` with each character in its lower-case form.
pub fn fold_chars(v: &Vec<char>) -> (r: Vec<char>)
    ensures
        r@ == folded(v@),
{
    let mut r: Vec<char> = Vec::new();
    for i in 0..v.len()
        invariant
            r@ == folded(v@).take(i as int),
    {
        r.push(fold_char(v[i]));
    }
    assert(folded(v@).take(v@.len() as int) == folded(v@));
    r
}

/// The pieces of `s` between the separators `sep`.
pub fn split_chars(s: &str, sep: char) -> (parts: Vec<Vec<char>>)
    ensures
        parts@.map_values(|p: Vec<char>| p@) == split_on(s@, sep),
        parts@.len() > 0,
{
    let v = chars_of(s);
    let mut parts: Vec<Vec<char>> = Vec::new();
    let mut current: Vec<char> = Vec::new();
    for i in 0..v.len()
        invariant
            v@ == s@,
            parts@.map_values(|p: Vec<char>| p@).push(current@) == split_on(v@.take(i as int), sep),
    {
        let ghost before = parts@.map_values(|p: Vec<char>| p@);
        assert(v@.take(i + 1).drop_last() == v@.take(i as int));
        if v[i] == sep {
            let ghost done = current@;
            parts.push(current);
            current = Vec::new();
            assert(parts@.map_values(|p: Vec<char>| p@) == before.push(done));
        } else {
            let ghost done = current@;
            current.push(v[i]);
            assert(before.push(done).drop_last() == before);
        }
    }
    assert(v@.take(v@.len() as int) == v@);
    let ghost before = parts@.map_values(|p: Vec<char>| p@);
    let ghost last = current@;
    parts.push(current);
    assert(parts@.map_values(|p: Vec<char>| p@) == before.push(last));
    parts
}

/// A trimmed text has no whitespace at its ends, and it is a part of the text.
pub proof fn law_trimmed(s: Seq<char>)
    ensures
        is_trimmed(trimmed(s)),
        exists|from: int, to: int|
            0 <= from <= to <= s.len() && trimmed(s) == #[trigger] s.subrange(from, to),
{
    lemma_trim_start(s);
    let tail = trim_start(s);
    let from = choose|from: int| 0 <= from <= s.len() && tail == #[trigger] s.skip(from);
    lemma_trim_end(tail);
    let n = choose|n: int| 0 <= n <= tail.len() && trim_end(tail) == #[trigger] tail.take(n);
    assert(trimmed(s) == s.subrange(from, from + n));
}

/// Trimming leaves a text alone that has no whitespace at its ends; in
/// particular one that was trimmed before.
pub proof fn law_trim_settles(s: Seq<char>)
    ensures
        is_trimmed(s) ==> trimmed(s) == s,
        trimmed(trimmed(s)) == trimmed(s),
{
    law_trimmed(s);
}

proof fn lemma_trim_start(s: Seq<char>)
    ensures
        exists|from: int| 0 <= from <= s.len() && trim_start(s) == #[trigger] s.skip(from),
        trim_start(s).len() > 0 ==> !whitespace(trim_start(s)[0]),
    decreases s.len(),
{
    if s.len() > 0 && whitespace(s[0]) {
        lemma_trim_start(s.skip(1));
        let from = choose|from: int|
            0 <= from <= s.len() - 1 && trim_start(s.skip(1)) == #[trigger] s.skip(1).skip(from);
        assert(s.skip(1).skip(from) == s.skip(from + 1));
    } else {
        assert(s.skip(0) == s);
    }
}

proof fn lemma_trim_end(s: Seq<char>)
    ensures
        exists|n: int| 0 <= n <= s.len() && trim_end(s) == #[trigger] s.take(n),
        trim_end(s).len() > 0 ==> !whitespace(trim_end(s).last()),
    decreases s.len(),
{
    if s.len() > 0 && whitespace(s.last()) {
        lemma_trim_end(s.drop_last());
        let n = choose|n: int|
            0 <= n <= s.len() - 1 && trim_end(s.drop_last()) == #[trigger] s.drop_last().take(n);
        assert(s.drop_last().take(n) == s.take(n));
    } else {
        assert(s.take(s.len() as int) == s);
    }
}

/// There is one piece more than there are separators.
pub proof fn lemma_split_len(s: Seq<char>, sep: char)
    ensures
        split_on(s, sep).len() >= 1,
        split_on(s, sep).len() == 1 <==> !s.contains(sep),
    decreases s.len(),
{
    if s.len() > 0 {
        let head = s.drop_last();
        lemma_split_len(head, sep);
        assert(s == head.push(s.last()));
        if head.contains(sep) {
            let i = choose|i: int| 0 <= i < head.len() && head[i] == sep;
            assert(s[i] == sep);
        }
        if s.last() == sep {
            assert(s[s.len() - 1] == sep);
        }
        if s.contains(sep) && s.last() != sep {
            let i = choose|i: int| 0 <= i < s.len() && s[i] == sep;
            assert(head[i] == sep);
        }
    }
}

/// Lower case can be taken before the split or after, where the separator has no
/// case.
pub proof fn lemma_split_folded(s: Seq<char>, sep: char)
    requires
        forall|c: char| #[trigger] folded_char(c) == sep <==> c == sep,
    ensures
        split_on(folded(s), sep) == split_on(s, sep).map_values(|p: Seq<char>| folded(p)),
    decreases s.len(),
{
    let low = folded(s);
    let f = |p: Seq<char>| folded(p);
    if s.len() == 0 {
        assert(low == s);
        assert(folded(Seq::<char>::empty()) == Seq::<char>::empty());
        assert(split_on(s, sep).map_values(f) == split_on(low, sep));
    } else {
        let head = s.drop_last();
        lemma_split_folded(head, sep);
        lemma_split_len(head, sep);
        assert(low.drop_last() == folded(head));
        let rest = split_on(head, sep);
        let low_rest = split_on(folded(head), sep);
        assert(low_rest == rest.map_values(f));
        if s.last() == sep {
            assert(low.last() == sep);
            assert(folded(Seq::<char>::empty()) == Seq::<char>::empty());
            assert(rest.push(Seq::empty()).map_values(f) == low_rest.push(Seq::empty()));
        } else {
            assert(low.last() == folded_char(s.last()));
            let grown = rest.last().push(s.last());
            assert(folded(grown) == folded(rest.last()).push(folded_char(s.last())));
            assert(rest.drop_last().push(grown).map_values(f) == low_rest.drop_last().push(
                low_rest.last().push(low.last()),
            ));
        }
    }
}

/// Lower case of lower case is lower case.
pub proof fn lemma_folded_twice(s: Seq<char>)
    ensures
        folded(folded(s)) == folded(s),
{
}

/// Trimming and lower case do not get in each other's way.
pub proof fn lemma_trim_folded(s: Seq<char>)
    ensures
        trimmed(folded(s)) == folded(trimmed(s)),
{
    lemma_trim_start_folded(s);
    lemma_trim_end_folded(trim_start(s));
}

proof fn lemma_trim_start_folded(s: Seq<char>)
    ensures
        trim_start(folded(s)) == folded(trim_start(s)),
    decreases s.len(),
{
    if s.len() > 0 && whitespace(s[0]) {
        lemma_trim_start_folded(s.skip(1));
        assert(folded(s).skip(1) == folded(s.skip(1)));
    }
}

proof fn lemma_trim_end_folded(s: Seq<char>)
    ensures
        trim_end(folded(s)) == folded(trim_end(s)),
    decreases s.len(),
{
    if s.len() > 0 && whitespace(s.last()) {
        lemma_trim_end_folded(s.drop_last());
        assert(folded(s).drop_last() == folded(s.drop_last()));
    }
}

/// Whitespace is the tab, the line breaks, the space and the other blanks of Unicode,
/// and nothing else.
pub proof fn law_whitespace(c: char)
    ensures
        whitespace(c) <==> {
            ||| c == '\t' || c == '\n' || c == '\u{b}' || c == '\u{c}' || c == '\r' || c == ' '
            ||| c == '\u{85}' || c == '\u{a0}' || c == '\u{1680}'
            ||| '\u{2000}' <= c && c <= '\u{200a}'
            ||| c == '\u{2028}' || c == '\u{2029}' || c == '\u{202f}' || c == '\u{205f}'
            ||| c == '\u{3000}'
        },
{
}

/// Trimming takes off all the whitespace in front of a text and behind it, and nothing
/// of the text itself, whatever is inside it.
pub proof fn law_trim_takes_the_ends(before: Seq<char>, core: Seq<char>, behind: Seq<char>)
    requires
        forall|i: int| 0 <= i < before.len() ==> whitespace(#[trigger] before[i]),
        forall|i: int| 0 <= i < behind.len() ==> whitespace(#[trigger] behind[i]),
        core.len() > 0 ==> !whitespace(core[0]) && !whitespace(core[core.len() - 1]),
    ensures
        trimmed(before + core + behind) == core,
{
    if core.len() > 0 {
        lemma_trim_start_takes(before, core + behind);
        assert(before + (core + behind) == before + core + behind);
        lemma_trim_end_takes(core, behind);
    } else {
        let all = before + core + behind;
        assert(all == before + behind);
        assert forall|i: int| 0 <= i < all.len() implies whitespace(#[trigger] all[i]) by {
            if i >= before.len() {
                assert(all[i] == behind[i - before.len()]);
            }
        }
        lemma_trim_start_takes(all, Seq::empty());
        assert(all + Seq::<char>::empty() == all);
        assert(core == Seq::<char>::empty());
    }
}

proof fn lemma_trim_start_takes(before: Seq<char>, rest: Seq<char>)
    requires
        forall|i: int| 0 <= i < before.len() ==> whitespace(#[trigger] before[i]),
        rest.len() > 0 ==> !whitespace(rest[0]),
    ensures
        trim_start(before + rest) == rest,
    decreases before.len(),
{
    if before.len() == 0 {
        assert(before + rest == rest);
    } else {
        assert((before + rest).skip(1) == before.skip(1) + rest);
        assert(whitespace(before[0]));
        lemma_trim_start_takes(before.skip(1), rest);
    }
}

proof fn lemma_trim_end_takes(rest: Seq<char>, behind: Seq<char>)
    requires
        forall|i: int| 0 <= i < behind.len() ==> whitespace(#[trigger] behind[i]),
        rest.len() > 0,
        !whitespace(rest.last()),
    ensures
        trim_end(rest + behind) == rest,
    decreases behind.len(),
{
    if behind.len() == 0 {
        assert(rest + behind == rest);
    } else {
        assert((rest + behind).drop_last() == rest + behind.drop_last());
        assert(whitespace(behind[behind.len() - 1]));
        lemma_trim_end_takes(rest, behind.drop_last());
    }
}

/// A word stands in a text exactly if the text is the word with something, or nothing,
/// in front of it and behind it.
pub proof fn law_occurs(s: Seq<char>, word: Seq<char>)
    ensures
        occurs_in(s, word) <==> exists|before: Seq<char>, behind: Seq<char>|
            s == #[trigger] (before + word + behind),
{
    if occurs_in(s, word) {
        let i = choose|i: int| occurs_at(s, word, i);
        assert(s == s.take(i) + word + s.skip(i + word.len()));
    }
    assert forall|before: Seq<char>, behind: Seq<char>|
        s == #[trigger] (before + word + behind) implies occurs_in(s, word) by {
        let i = before.len() as int;
        assert(s.subrange(i, i + word.len()) == word);
        assert(occurs_at(s, word, i));
    }
}

/// Lower case turns each of the letters from `A` to `Z` into the one at the same place
/// from `a` to `z`, and the Kelvin sign into `k`. It leaves every other character, and
/// the number and order of the characters, as they are.
pub proof fn law_folded(s: Seq<char>, i: int)
    requires
        0 <= i < s.len(),
    ensures
        folded(s).len() == s.len(),
        'A' <= s[i] && s[i] <= 'Z' ==> {
            &&& 'a' <= folded(s)[i] && folded(s)[i] <= 'z'
            &&& folded(s)[i] as int - 'a' as int == s[i] as int - 'A' as int
        },
        s[i] == '\u{212A}' ==> folded(s)[i] == 'k',
        !('A' <= s[i] && s[i] <= 'Z') && s[i] != '\u{212A}' ==> folded(s)[i] == s[i],
{
}

/// A text without the separator is its own only piece, and the pieces of two texts with
/// the separator between them are the pieces of the one and then those of the other.
pub proof fn law_split(a: Seq<char>, b: Seq<char>, sep: char)
    ensures
        !a.contains(sep) ==> split_on(a, sep) == seq![a],
        split_on(a + seq![sep] + b, sep) == split_on(a, sep) + split_on(b, sep),
    decreases a.len() + b.len(),
{
    if a.len() > 0 {
        law_split(a.drop_last(), Seq::empty(), sep);
        if !a.contains(sep) {
            assert(a == a.drop_last().push(a.last()));
            assert(a[a.len() - 1] == a.last());
            assert forall|i: int| 0 <= i < a.drop_last().len() implies a.drop_last()[i] != sep by {
                assert(a[i] != sep);
            }
            assert(split_on(a, sep) == seq![a]);
        }
    } else {
        assert(a == Seq::<char>::empty());
        assert(split_on(a, sep) == seq![a]);
    }
    let whole = a + seq![sep] + b;
    if b.len() == 0 {
        assert(whole.drop_last() == a);
        assert(whole.last() == sep);
        assert(split_on(b, sep) == seq![Seq::<char>::empty()]);
        assert(split_on(whole, sep) == split_on(a, sep) + split_on(b, sep));
    } else {
        law_split(a, b.drop_last(), sep);
        lemma_split_len(b.drop_last(), sep);
        assert(whole.drop_last() == a + seq![sep] + b.drop_last());
        assert(whole.last() == b.last());
        let left = split_on(a, sep);
        let right = split_on(b.drop_last(), sep);
        assert((left + right).last() == right.last());
        assert((left + right).drop_last() == left + right.drop_last());
        assert(split_on(whole, sep) == left + split_on(b, sep));
    }
}

/// The bytes of two texts together are those of the one and those of the other. A
/// character takes one byte up to the code point 0x7f, two up to 0x7ff, three up to
/// 0xffff, and four beyond.
pub proof fn law_utf8_len(a: Seq<char>, b: Seq<char>, c: char)
    ensures
        utf8_len(a + b) == utf8_len(a) + utf8_len(b),
        utf8_len(seq![c]) == if c as u32 <= 0x7f {
            1nat
        } else if c as u32 <= 0x7ff {
            2nat
        } else if c as u32 <= 0xffff {
            3nat
        } else {
            4nat
        },
    decreases a.len(),
{
    if a.len() == 0 {
        assert(a + b == b);
    } else {
        law_utf8_len(a.drop_first(), b, c);
        assert((a + b).drop_first() == a.drop_first() + b);
    }
    assert(seq![c].drop_first() == Seq::<char>::empty());
    assert(utf8_len(Seq::<char>::empty()) == 0);
    assert(vstd::utf8::encode_utf8(seq![c]) == vstd::utf8::encode_scalar(c as u32)
        + vstd::utf8::encode_utf8(Seq::<char>::empty()));
}

} // verus!
