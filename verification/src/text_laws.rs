//! What the string operations promise, said of their results.

use vstd::prelude::*;

use crate::text::{
    after_char, after_last, before_char, contains, join, joined, last_part, occurs_at, place_of,
    split_first, take_chars, texts_view, trim, trim_end, trim_start, trimmed, trimmed_end,
    trimmed_start, white,
};

verus! {

/// Nothing but white space.
pub open spec fn blank(s: Seq<char>) -> bool {
    forall|i: int| 0 <= i < s.len() ==> white(#[trigger] s[i])
}

/// `inner` is `s` with white space around it taken off, all of it.
pub open spec fn stripped(s: Seq<char>, inner: Seq<char>) -> bool {
    &&& inner.len() > 0 ==> !white(inner[0]) && !white(inner.last())
    &&& exists|a: Seq<char>, b: Seq<char>| s == #[trigger] (a + inner + b) && blank(a) && blank(b)
}

/// The white space of plain text: the blank, the tab and the line ends; no letter, no
/// digit, no punctuation.
pub proof fn law_white_space_of_plain_text(c: char)
    requires
        c < '\u{80}',
    ensures
        white(c) == (c == ' ' || c == '\t' || c == '\n' || c == '\r' || c == '\u{b}' || c
            == '\u{c}'),
{
}

pub proof fn lemma_trimmed(s: Seq<char>)
    ensures
        stripped(s, trimmed(s)),
    decreases s.len(),
{
    let t = trimmed(s);
    if s.len() == 0 {
        assert(s =~= seq![] + t + seq![]);
    } else if white(s[0]) {
        let rest = s.drop_first();
        lemma_trimmed(rest);
        let (a, b) = choose|a: Seq<char>, b: Seq<char>|
            rest == #[trigger] (a + t + b) && blank(a) && blank(b);
        let front = seq![s[0]] + a;
        assert(s =~= seq![s[0]] + rest);
        assert(s =~= front + t + b);
        assert(blank(front));
    } else if white(s.last()) {
        let rest = s.drop_last();
        lemma_trimmed(rest);
        let (a, b) = choose|a: Seq<char>, b: Seq<char>|
            rest == #[trigger] (a + t + b) && blank(a) && blank(b);
        let back = b.push(s.last());
        assert(s =~= rest.push(s.last()));
        assert(s =~= a + t + back);
        assert(blank(back));
    } else {
        assert(s =~= seq![] + s + seq![]);
    }
}

/// There is only one such text: what is stripped is the trimmed text.
pub proof fn lemma_stripped_is_trimmed(s: Seq<char>, inner: Seq<char>)
    requires
        stripped(s, inner),
    ensures
        inner == trimmed(s),
    decreases s.len(),
{
    let (a, b) = choose|a: Seq<char>, b: Seq<char>|
        s == #[trigger] (a + inner + b) && blank(a) && blank(b);
    if s.len() > 0 {
        if a.len() > 0 {
            assert(white(a[0]));
            assert(s[0] == a[0]);
            assert(s.drop_first() =~= a.drop_first() + inner + b);
            assert(blank(a.drop_first()));
            lemma_stripped_is_trimmed(s.drop_first(), inner);
        } else if inner.len() > 0 {
            assert(s[0] == inner[0]);
            if b.len() > 0 {
                assert(white(b[b.len() - 1]));
                assert(s.last() == b.last());
                assert(s.drop_last() =~= a + inner + b.drop_last());
                assert(blank(b.drop_last()));
                lemma_stripped_is_trimmed(s.drop_last(), inner);
            } else {
                assert(s.last() == inner.last());
                assert(s =~= inner);
            }
        } else {
            assert(white(b[0]));
            assert(s[0] == b[0]);
            assert(s.drop_first() =~= a + inner + b.drop_first());
            assert(blank(b.drop_first()));
            lemma_stripped_is_trimmed(s.drop_first(), inner);
        }
    } else {
        assert(inner =~= s);
    }
}

/// Trimming takes off the white space at both ends, all of it and nothing else.
pub proof fn law_trim_takes_off_white_space(s: &str, r: &str)
    requires
        call_ensures(trim, (s,), r),
    ensures
        stripped(s@, r@),
        forall|t: Seq<char>| #[trigger] stripped(s@, t) ==> t == r@,
{
    lemma_trimmed(s@);
    assert forall|t: Seq<char>| #[trigger] stripped(s@, t) implies t == r@ by {
        lemma_stripped_is_trimmed(s@, t);
    }
}

proof fn lemma_trimmed_start(s: Seq<char>)
    ensures
        trimmed_start(s).len() > 0 ==> !white(trimmed_start(s)[0]),
        exists|a: Seq<char>| s == #[trigger] (a + trimmed_start(s)) && blank(a),
    decreases s.len(),
{
    let t = trimmed_start(s);
    if s.len() > 0 && white(s[0]) {
        lemma_trimmed_start(s.drop_first());
        let a = choose|a: Seq<char>| s.drop_first() == #[trigger] (a + t) && blank(a);
        let front = seq![s[0]] + a;
        assert(s =~= seq![s[0]] + s.drop_first());
        assert(s =~= front + t);
        assert(blank(front));
    } else {
        assert(s =~= seq![] + s);
        assert(blank(seq![]));
    }
}

/// Trimming the start takes off the white space there and leaves the end alone.
pub proof fn law_trim_start_keeps_the_end(s: &str, r: &str)
    requires
        call_ensures(trim_start, (s,), r),
    ensures
        r@.len() > 0 ==> !white(r@[0]),
        exists|a: Seq<char>| s@ == #[trigger] (a + r@) && blank(a),
{
    lemma_trimmed_start(s@);
}

pub proof fn lemma_trimmed_end(s: Seq<char>)
    ensures
        trimmed_end(s).len() > 0 ==> !white(trimmed_end(s).last()),
        exists|b: Seq<char>| s == #[trigger] (trimmed_end(s) + b) && blank(b),
    decreases s.len(),
{
    let t = trimmed_end(s);
    if s.len() > 0 && white(s.last()) {
        lemma_trimmed_end(s.drop_last());
        let b = choose|b: Seq<char>| s.drop_last() == #[trigger] (t + b) && blank(b);
        let back = b.push(s.last());
        assert(s =~= s.drop_last().push(s.last()));
        assert(s =~= t + back);
        assert(blank(back));
    } else {
        assert(s =~= s + seq![]);
        assert(blank(seq![]));
    }
}

pub proof fn lemma_trimmed_end_is_unique(s: Seq<char>, x: Seq<char>, b: Seq<char>)
    requires
        s == x + b,
        blank(b),
        x.len() > 0 ==> !white(x.last()),
    ensures
        trimmed_end(s) == x,
    decreases b.len(),
{
    if b.len() > 0 {
        assert(white(b[b.len() - 1]));
        assert(s.last() == b.last());
        assert(s.drop_last() =~= x + b.drop_last());
        assert(blank(b.drop_last()));
        lemma_trimmed_end_is_unique(s.drop_last(), x, b.drop_last());
    } else {
        assert(s =~= x);
    }
}

/// Trimming the end takes off the white space there and leaves the start alone.
pub proof fn law_trim_end_keeps_the_start(s: &str, r: &str)
    requires
        call_ensures(trim_end, (s,), r),
    ensures
        r@.len() > 0 ==> !white(r@.last()),
        exists|b: Seq<char>| s@ == #[trigger] (r@ + b) && blank(b),
{
    lemma_trimmed_end(s@);
}

proof fn lemma_place(s: Seq<char>, c: char)
    ensures
        0 <= place_of(s, c) <= s.len(),
        place_of(s, c) < s.len() ==> s[place_of(s, c)] == c,
        forall|i: int| 0 <= i < place_of(s, c) ==> (#[trigger] s[i]) != c,
    decreases s.len(),
{
    if s.len() > 0 && s[0] != c {
        let rest = s.drop_first();
        lemma_place(rest, c);
        assert forall|i: int| 0 <= i < place_of(s, c) implies (#[trigger] s[i]) != c by {
            if i > 0 {
                assert(rest[i - 1] == s[i]);
            }
        }
    }
}

pub proof fn lemma_split(s: Seq<char>, c: char)
    ensures
        !before_char(s, c).contains(c),
        s.contains(c) ==> s == before_char(s, c) + seq![c] + after_char(s, c),
        !s.contains(c) ==> s == before_char(s, c) && after_char(s, c).len() == 0,
{
    lemma_place(s, c);
    let p = place_of(s, c);
    if p < s.len() {
        assert(s.contains(s[p]));
        assert(s =~= before_char(s, c) + seq![c] + after_char(s, c));
    } else {
        assert(s.take(p) =~= s);
    }
}

/// A split at the first `c` loses nothing but that `c`, and none stands before it.
pub proof fn law_split_is_at_the_first(s: &str, c: char, r: (&str, &str))
    requires
        call_ensures(split_first, (s, c), r),
    ensures
        !r.0@.contains(c),
        s@.contains(c) ==> s@ == r.0@ + seq![c] + r.1@,
        !s@.contains(c) ==> s@ == r.0@ && r.1@.len() == 0,
{
    lemma_split(s@, c);
}

proof fn lemma_after_last(s: Seq<char>, c: char)
    ensures
        !after_last(s, c).contains(c),
        s.contains(c) ==> exists|a: Seq<char>| s == #[trigger] (a + seq![c] + after_last(s, c)),
        !s.contains(c) ==> s == after_last(s, c),
    decreases s.len(),
{
    let t = after_last(s, c);
    if s.len() > 0 && s.last() == c {
        assert(s =~= s.drop_last() + seq![c] + t);
    } else if s.len() > 0 {
        let p = s.drop_last();
        lemma_after_last(p, c);
        assert forall|i: int| 0 <= i < t.len() implies t[i] != c by {
            if i < after_last(p, c).len() {
                assert(after_last(p, c)[i] == t[i]);
                assert(after_last(p, c).contains(t[i]));
            }
        }
        if p.contains(c) {
            let a = choose|a: Seq<char>| p == #[trigger] (a + seq![c] + after_last(p, c));
            assert(s =~= p.push(s.last()));
            assert(s =~= a + seq![c] + t);
        } else {
            assert(s =~= t);
            assert forall|i: int| 0 <= i < s.len() implies s[i] != c by {
                if i < p.len() {
                    assert(p[i] == s[i]);
                    assert(p.contains(p[i]));
                }
            }
        }
        if s.contains(c) {
            let i = choose|i: int| 0 <= i < s.len() && s[i] == c;
            assert(p[i] == c);
            assert(p.contains(c));
        }
    }
}

/// What stands behind the last `c` holds none, and is the end of the text.
pub proof fn law_last_part_is_the_end(s: &str, c: char, r: &str)
    requires
        call_ensures(last_part, (s, c), r),
    ensures
        !r@.contains(c),
        s@.contains(c) ==> exists|a: Seq<char>| s@ == #[trigger] (a + seq![c] + r@),
        !s@.contains(c) ==> s@ == r@,
{
    lemma_after_last(s@, c);
}

/// A cut keeps the start, as much of it as is asked for and there.
pub proof fn law_take_chars_keeps_the_start(s: &str, n: usize, r: String)
    requires
        call_ensures(take_chars, (s, n), r),
    ensures
        r@.len() == (if s@.len() < n {
            s@.len()
        } else {
            n as nat
        }),
        forall|i: int| 0 <= i < r@.len() ==> (#[trigger] r@[i]) == s@[i],
{
}

/// A text is found in another exactly where that one can be taken apart around it.
pub proof fn law_contains_finds_a_place(s: &str, needle: &str, r: bool)
    requires
        call_ensures(contains, (s, needle), r),
    ensures
        r == exists|a: Seq<char>, b: Seq<char>| s@ == #[trigger] (a + needle@ + b),
{
    if r {
        let i = choose|i: int| occurs_at(s@, needle@, i);
        let (a, b) = (s@.take(i), s@.skip(i + needle@.len()));
        assert(s@ =~= a + needle@ + b);
    }
    if exists|a: Seq<char>, b: Seq<char>| s@ == #[trigger] (a + needle@ + b) {
        let (a, b) = choose|a: Seq<char>, b: Seq<char>| s@ == #[trigger] (a + needle@ + b);
        assert(s@.subrange(a.len() as int, (a.len() + needle@.len()) as int) =~= needle@);
        assert(occurs_at(s@, needle@, a.len() as int));
    }
}

/// Joining a list is joining its two halves.
pub proof fn lemma_joined_halves(a: Seq<Seq<char>>, b: Seq<Seq<char>>, sep: Seq<char>)
    requires
        a.len() > 0,
        b.len() > 0,
    ensures
        joined(a + b, sep) == joined(a, sep) + sep + joined(b, sep),
    decreases b.len(),
{
    let all = a + b;
    assert(all.last() == b.last());
    if b.len() == 1 {
        assert(all.drop_last() =~= a);
    } else {
        lemma_joined_halves(a, b.drop_last(), sep);
        assert(all.drop_last() =~= a + b.drop_last());
        assert(joined(all, sep) =~= joined(a, sep) + sep + joined(b, sep));
    }
}

/// Joining keeps every part whole and in its place: one part is itself, and a list is
/// its two halves with the separator between them.
pub proof fn law_join_keeps_the_parts(
    left: Vec<String>,
    right: Vec<String>,
    all: Vec<String>,
    sep: &str,
    l: String,
    r: String,
    whole: String,
)
    requires
        texts_view(all@) == texts_view(left@) + texts_view(right@),
        call_ensures(join, (&left, sep), l),
        call_ensures(join, (&right, sep), r),
        call_ensures(join, (&all, sep), whole),
    ensures
        left@.len() == 0 ==> l@.len() == 0,
        left@.len() == 1 ==> l@ == left@[0]@,
        left@.len() > 0 && right@.len() > 0 ==> whole@ == l@ + sep@ + r@,
        left@.len() == 0 ==> whole@ == r@,
{
    if left@.len() > 0 && right@.len() > 0 {
        lemma_joined_halves(texts_view(left@), texts_view(right@), sep@);
    }
    if left@.len() == 0 {
        assert(texts_view(all@) =~= texts_view(right@));
    }
}

/// The white space beyond plain text: the next line, the no-break and the other spaces
/// that set words apart, and the separators of lines and paragraphs.
pub proof fn law_white_space_of_any_text(c: char)
    requires
        c >= '\u{80}',
    ensures
        white(c) == (c == '\u{85}' || c == '\u{a0}' || c == '\u{1680}' || ('\u{2000}' <= c && c
            <= '\u{200a}') || c == '\u{2028}' || c == '\u{2029}' || c == '\u{202f}' || c
            == '\u{205f}' || c == '\u{3000}'),
{
}

} // verus!
