//! Text as a sequence of characters: the few string operations the chat engine
//! is built from, each with an exact statement over `Seq<char>`.

use vstd::prelude::*;

verus! {

/// The characters with the Unicode `White_Space` property.
pub open spec fn white(c: char) -> bool {
    ||| '\u{9}' <= c <= '\u{d}'
    ||| c == ' '
    ||| c == '\u{85}'
    ||| c == '\u{a0}'
    ||| c == '\u{1680}'
    ||| '\u{2000}' <= c <= '\u{200a}'
    ||| c == '\u{2028}'
    ||| c == '\u{2029}'
    ||| c == '\u{202f}'
    ||| c == '\u{205f}'
    ||| c == '\u{3000}'
}

/// `s` without its leading and trailing white space.
pub open spec fn trimmed(s: Seq<char>) -> Seq<char>
    decreases s.len(),
{
    if s.len() == 0 {
        s
    } else if white(s[0]) {
        trimmed(s.drop_first())
    } else if white(s.last()) {
        trimmed(s.drop_last())
    } else {
        s
    }
}

/// `s` without its leading white space.
pub open spec fn trimmed_start(s: Seq<char>) -> Seq<char>
    decreases s.len(),
{
    if s.len() > 0 && white(s[0]) {
        trimmed_start(s.drop_first())
    } else {
        s
    }
}

/// The first place of `c` in `s`; the length of `s` when it does not occur.
pub open spec fn place_of(s: Seq<char>, c: char) -> int
    decreases s.len(),
{
    if s.len() == 0 || s[0] == c {
        0
    } else {
        1 + place_of(s.drop_first(), c)
    }
}

/// What stands before the first `c` (all of `s` when it does not occur).
pub open spec fn before_char(s: Seq<char>, c: char) -> Seq<char> {
    s.take(place_of(s, c))
}

/// What stands behind the first `c` (nothing when it does not occur).
pub open spec fn after_char(s: Seq<char>, c: char) -> Seq<char> {
    if place_of(s, c) < s.len() {
        s.skip(place_of(s, c) + 1)
    } else {
        seq![]
    }
}

/// What stands behind the last `c` (all of `s` when it does not occur).
pub open spec fn after_last(s: Seq<char>, c: char) -> Seq<char>
    decreases s.len(),
{
    if s.len() == 0 || s.last() == c {
        seq![]
    } else {
        after_last(s.drop_last(), c).push(s.last())
    }
}

/// `s` without its trailing white space.
pub open spec fn trimmed_end(s: Seq<char>) -> Seq<char>
    decreases s.len(),
{
    if s.len() > 0 && white(s.last()) {
        trimmed_end(s.drop_last())
    } else {
        s
    }
}

/// The first `n` characters of `s` (all of it when it is shorter).
pub open spec fn head(s: Seq<char>, n: nat) -> Seq<char> {
    if s.len() <= n {
        s
    } else {
        s.take(n as int)
    }
}

/// `needle` occurs somewhere in `s`.
pub open spec fn occurs(s: Seq<char>, needle: Seq<char>) -> bool {
    exists|i: int| occurs_at(s, needle, i)
}

/// `needle` occurs in `s` at position `i`.
pub open spec fn occurs_at(s: Seq<char>, needle: Seq<char>, i: int) -> bool {
    0 <= i && i + needle.len() <= s.len() && s.subrange(i, i + needle.len()) == needle
}

/// The parts, in order, with `sep` between neighbours.
pub open spec fn joined(parts: Seq<Seq<char>>, sep: Seq<char>) -> Seq<char>
    decreases parts.len(),
{
    if parts.len() == 0 {
        seq![]
    } else if parts.len() == 1 {
        parts[0]
    } else {
        joined(parts.drop_last(), sep) + sep + parts.last()
    }
}

/// The characters of each string of a sequence.
pub open spec fn texts_view(v: Seq<String>) -> Seq<Seq<char>> {
    v.map_values(|s: String| s@)
}

/// The characters of an optional string.
pub open spec fn opt_view(o: Option<String>) -> Option<Seq<char>> {
    match o {
        Some(s) => Some(s@),
        None => None,
    }
}

/// The characters of an optional borrowed string.
pub open spec fn opt_str_view(o: Option<&str>) -> Option<Seq<char>> {
    match o {
        Some(s) => Some(s@),
        None => None,
    }
}

/// Equality of two texts, as `str`'s `==` decides it: they hold the same characters.
#[verifier::external_body]
pub(crate) fn same(a: &str, b: &str) -> (r: bool)
    ensures
        r == (a@ == b@),
{
    a == b
}

pub fn is_white(c: char) -> (r: bool)
    ensures
        r == white(c),
{
    ('\u{9}' <= c && c <= '\u{d}') || c == ' ' || c == '\u{85}' || c == '\u{a0}' || c == '\u{1680}'
        || ('\u{2000}' <= c && c <= '\u{200a}') || c == '\u{2028}' || c == '\u{2029}' || c
        == '\u{202f}' || c == '\u{205f}' || c == '\u{3000}'
}

proof fn lemma_trimmed_step(s: Seq<char>, i: int, j: int)
    requires
        0 <= i <= j <= s.len(),
    ensures
        i < j && white(s[i]) ==> trimmed(s.subrange(i, j)) == trimmed(s.subrange(i + 1, j)),
        i < j && !white(s[i]) && white(s[j - 1]) ==> trimmed(s.subrange(i, j)) == trimmed(
            s.subrange(i, j - 1),
        ),
        i < j && !white(s[i]) && !white(s[j - 1]) ==> trimmed(s.subrange(i, j)) == s.subrange(i, j),
        i == j ==> trimmed(s.subrange(i, j)) == s.subrange(i, j),
{
    let t = s.subrange(i, j);
    if i < j {
        assert(t[0] == s[i]);
        assert(t.last() == s[j - 1]);
        assert(t.drop_first() =~= s.subrange(i + 1, j));
        assert(t.drop_last() =~= s.subrange(i, j - 1));
    }
}

/// `str::trim`.
pub fn trim<'a>(s: &'a str) -> (r: &'a str)
    ensures
        r@ == trimmed(s@),
{
    let n: usize = s.unicode_len();
    let mut i: usize = 0;
    assert(s@.subrange(0, n as int) =~= s@);
    while i < n && is_white(s.get_char(i))
        invariant
            i <= n,
            n == s@.len(),
            trimmed(s@) == trimmed(s@.subrange(i as int, n as int)),
        decreases n - i,
    {
        proof {
            lemma_trimmed_step(s@, i as int, n as int);
        }
        i = i + 1;
    }
    let mut j: usize = n;
    while j > i && is_white(s.get_char(j - 1))
        invariant
            i <= j <= n,
            n == s@.len(),
            i < n ==> !white(s@[i as int]),
            trimmed(s@) == trimmed(s@.subrange(i as int, j as int)),
        decreases j - i,
    {
        proof {
            lemma_trimmed_step(s@, i as int, j as int);
        }
        j = j - 1;
    }
    proof {
        lemma_trimmed_step(s@, i as int, j as int);
    }
    s.substring_char(i, j)
}

/// `str::trim_start`.
pub fn trim_start<'a>(s: &'a str) -> (r: &'a str)
    ensures
        r@ == trimmed_start(s@),
{
    let n: usize = s.unicode_len();
    let mut i: usize = 0;
    assert(s@.subrange(0, n as int) =~= s@);
    while i < n && is_white(s.get_char(i))
        invariant
            i <= n,
            n == s@.len(),
            trimmed_start(s@) == trimmed_start(s@.subrange(i as int, n as int)),
        decreases n - i,
    {
        assert(s@.subrange(i as int, n as int)[0] == s@[i as int]);
        assert(s@.subrange(i as int, n as int).drop_first() =~= s@.subrange(i + 1, n as int));
        i = i + 1;
    }
    proof {
        if i < n {
            assert(s@.subrange(i as int, n as int)[0] == s@[i as int]);
        }
    }
    s.substring_char(i, n)
}

/// The text before and behind the first `c`, as `splitn` with two parts gives it.
pub fn split_first<'a>(s: &'a str, c: char) -> (r: (&'a str, &'a str))
    ensures
        r.0@ == before_char(s@, c),
        r.1@ == after_char(s@, c),
{
    let n: usize = s.unicode_len();
    let mut i: usize = 0;
    assert(s@.skip(0) =~= s@);
    while i < n && s.get_char(i) != c
        invariant
            i <= n,
            n == s@.len(),
            place_of(s@, c) == i + place_of(s@.skip(i as int), c),
        decreases n - i,
    {
        assert(s@.skip(i as int)[0] == s@[i as int]);
        assert(s@.skip(i as int).drop_first() =~= s@.skip(i + 1));
        i = i + 1;
    }
    proof {
        if i < n {
            assert(s@.skip(i as int)[0] == s@[i as int]);
        }
        assert(place_of(s@, c) == i);
    }
    let head = s.substring_char(0, i);
    assert(head@ =~= s@.take(i as int));
    if i < n {
        let tail = s.substring_char(i + 1, n);
        assert(tail@ =~= s@.skip(i + 1));
        (head, tail)
    } else {
        let tail = s.substring_char(n, n);
        assert(tail@ =~= seq![]);
        (head, tail)
    }
}

/// The text behind the last `c`, as the first part of `rsplit` gives it.
pub fn last_part<'a>(s: &'a str, c: char) -> (r: &'a str)
    ensures
        r@ == after_last(s@, c),
{
    let n: usize = s.unicode_len();
    let mut i: usize = n;
    assert(s@.take(n as int) =~= s@);
    assert(s@.skip(n as int) =~= seq![]);
    assert(after_last(s@, c) =~= after_last(s@.take(n as int), c) + s@.skip(n as int));
    while i > 0 && s.get_char(i - 1) != c
        invariant
            i <= n,
            n == s@.len(),
            after_last(s@, c) == after_last(s@.take(i as int), c) + s@.skip(i as int),
        decreases i,
    {
        proof {
            let t = s@.take(i as int);
            assert(t.last() == s@[i - 1]);
            assert(t.drop_last() =~= s@.take(i - 1));
            assert(s@.skip(i - 1) =~= seq![s@[i - 1]] + s@.skip(i as int));
            assert(after_last(t, c) + s@.skip(i as int) =~= after_last(s@.take(i - 1), c)
                + s@.skip(i - 1));
        }
        i = i - 1;
    }
    proof {
        let t = s@.take(i as int);
        if i > 0 {
            assert(t.last() == s@[i - 1]);
        }
        assert(after_last(t, c) =~= seq![]);
        assert(after_last(s@, c) =~= s@.skip(i as int));
    }
    let r = s.substring_char(i, n);
    assert(r@ =~= s@.skip(i as int));
    r
}

/// `str::trim_end`.
pub fn trim_end<'a>(s: &'a str) -> (r: &'a str)
    ensures
        r@ == trimmed_end(s@),
{
    let n: usize = s.unicode_len();
    let mut j: usize = n;
    assert(s@.subrange(0, n as int) =~= s@);
    while j > 0 && is_white(s.get_char(j - 1))
        invariant
            j <= n,
            n == s@.len(),
            trimmed_end(s@) == trimmed_end(s@.subrange(0, j as int)),
        decreases j,
    {
        assert(s@.subrange(0, j as int).last() == s@[j - 1]);
        assert(s@.subrange(0, j as int).drop_last() =~= s@.subrange(0, j - 1));
        j = j - 1;
    }
    proof {
        if j > 0 {
            assert(s@.subrange(0, j as int).last() == s@[j - 1]);
        }
    }
    s.substring_char(0, j)
}

/// `str::ends_with`.
pub fn has_suffix(s: &str, suffix: &str) -> (r: bool)
    ensures
        r == suffix@.is_suffix_of(s@),
{
    let n: usize = s.unicode_len();
    let m: usize = suffix.unicode_len();
    if n < m {
        return false;
    }
    let t = s.substring_char(n - m, n);
    let r = same(t, suffix);
    proof {
        if r {
            assert(suffix@ =~= s@.subrange(n - m, n as int));
        }
    }
    r
}

/// The first `n` characters, as a new string.
pub fn take_chars(s: &str, n: usize) -> (r: String)
    ensures
        r@ == head(s@, n as nat),
{
    let len: usize = s.unicode_len();
    if len <= n {
        s.to_owned()
    } else {
        let h = s.substring_char(0, n);
        assert(h@ =~= s@.take(n as int));
        h.to_owned()
    }
}

/// `str::starts_with`.
pub fn has_prefix(s: &str, prefix: &str) -> (r: bool)
    ensures
        r == prefix@.is_prefix_of(s@),
{
    let n: usize = prefix.unicode_len();
    if s.unicode_len() < n {
        return false;
    }
    let h = s.substring_char(0, n);
    let r = same(h, prefix);
    proof {
        if r {
            assert(prefix@ =~= s@.subrange(0, n as int));
        }
    }
    r
}

/// `str::contains`.
pub fn contains(s: &str, needle: &str) -> (r: bool)
    ensures
        r == occurs(s@, needle@),
{
    let n: usize = s.unicode_len();
    let m: usize = needle.unicode_len();
    if n < m {
        return false;
    }
    let mut i: usize = 0;
    while !same(s.substring_char(i, i + m), needle)
        invariant
            n == s@.len(),
            m == needle@.len(),
            m <= n,
            i <= n - m,
            forall|j: int| 0 <= j < i ==> !occurs_at(s@, needle@, j),
        decreases n - i,
    {
        assert(!occurs_at(s@, needle@, i as int));
        if i == n - m {
            assert forall|j: int| !occurs_at(s@, needle@, j) by {
                if occurs_at(s@, needle@, j) {
                    assert(j <= n - m);
                }
            }
            return false;
        }
        i = i + 1;
    }
    assert(occurs_at(s@, needle@, i as int));
    true
}

/// Two texts, one after the other.
pub fn cat(a: &str, b: &str) -> (r: String)
    ensures
        r@ == a@ + b@,
{
    let mut out = a.to_owned();
    out.append(b);
    out
}

/// Three texts, one after the other.
pub fn cat3(a: &str, b: &str, c: &str) -> (r: String)
    ensures
        r@ == a@ + b@ + c@,
{
    let mut out = cat(a, b);
    out.append(c);
    out
}

/// The strings joined by `sep`.
pub fn join(parts: &Vec<String>, sep: &str) -> (r: String)
    ensures
        r@ == joined(texts_view(parts@), sep@),
{
    let mut out = String::new();
    let mut i: usize = 0;
    assert(texts_view(parts@.take(0)) =~= seq![]);
    while i < parts.len()
        invariant
            i <= parts.len(),
            out@ == joined(texts_view(parts@.take(i as int)), sep@),
        decreases parts.len() - i,
    {
        proof {
            let before = texts_view(parts@.take(i as int));
            let after = texts_view(parts@.take(i + 1));
            assert(after.drop_last() =~= before);
            assert(after.last() == parts@[i as int]@);
            if i == 0 {
                assert(after[0] == parts@[0]@);
                assert(out@ + parts@[0]@ =~= parts@[0]@);
            }
        }
        if i > 0 {
            out.append(sep);
        }
        out.append(parts[i].as_str());
        i = i + 1;
    }
    assert(parts@.take(parts.len() as int) =~= parts@);
    out
}

/// Equality of two optional texts.
pub fn same_opt(a: Option<&str>, b: Option<&str>) -> (r: bool)
    ensures
        r == (opt_str_view(a) == opt_str_view(b)),
{
    match (a, b) {
        (Some(x), Some(y)) => same(x, y),
        (None, None) => true,
        _ => false,
    }
}

/// The optional string holds exactly this text.
pub fn opt_is(a: Option<&str>, text: &str) -> (r: bool)
    ensures
        r == (opt_str_view(a) == Some(text@)),
{
    match a {
        Some(x) => same(x, text),
        None => false,
    }
}

/// A copy of an optional string.
pub fn opt_clone(o: &Option<String>) -> (r: Option<String>)
    ensures
        r == *o,
        opt_view(r) == opt_view(*o),
{
    match o {
        Some(s) => Some(s.clone()),
        None => None,
    }
}

/// An optional string, borrowed.
pub fn opt_ref<'a>(o: &'a Option<String>) -> (r: Option<&'a str>)
    ensures
        opt_str_view(r) == opt_view(*o),
{
    match o {
        Some(s) => Some(s.as_str()),
        None => None,
    }
}

} // verus!
