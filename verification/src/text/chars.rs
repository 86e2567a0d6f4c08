//! Character-level text functions.
//!
//! Texts are modelled by the sequence of their characters.

use vstd::prelude::*;
use vstd::string::*;

verus! {

/// Specifies `std`'s `String::push`: the character goes behind the text.
pub assume_specification[ String::push ](s: &mut String, c: char)
    ensures
        final(s)@ == old(s)@.push(c),
;

/// The characters of a text, in order.
pub fn chars_of(s: &str) -> (r: Vec<char>)
    ensures
        r@ == s@,
{
    let mut out: Vec<char> = Vec::new();
    for c in it: s.chars()
        invariant
            it.seq() == s@,
            out@ == s@.take(it.index()),
    {
        out.push(c);
        assert(s@.take(it.index() + 1) =~= s@.take(it.index()).push(c));
    }
    assert(s@.take(s@.len() as int) =~= s@);
    out
}

/// A copy of a text that may be missing.
pub fn copy_text(s: &Option<String>) -> (r: Option<String>)
    ensures
        r == *s,
{
    match s {
        Some(x) => Some(x.clone()),
        None => None,
    }
}

/// Whether two texts are the same.
pub fn same_text(a: &str, b: &str) -> (r: bool)
    ensures
        r == (a@ == b@),
{
    a.to_owned() == b.to_owned()
}

/// The first `n` elements, or all of them where there are fewer.
pub open spec fn prefix_of<T>(s: Seq<T>, n: int) -> Seq<T> {
    if s.len() <= n {
        s
    } else {
        s.take(n)
    }
}

/// The first `n` characters of a text.
pub fn take_chars(s: &str, n: usize) -> (r: String)
    ensures
        r@ == prefix_of(s@, n as int),
{
    let chars = chars_of(s);
    let mut out = String::new();
    let mut i: usize = 0;
    while i < chars.len() && i < n
        invariant
            i <= chars.len(),
            i <= n,
            chars@ == s@,
            out@ == s@.take(i as int),
        decreases chars.len() - i,
    {
        out.push(chars[i]);
        assert(s@.take(i + 1) =~= s@.take(i as int).push(s@[i as int]));
        i = i + 1;
    }
    assert(s@.take(i as int) =~= prefix_of(s@, n as int));
    out
}

/// A prefix is no longer than it should be, and what it holds is where it was in the text; a text
/// that is short enough is kept whole.
pub proof fn law_prefix_is_bounded<T>(s: Seq<T>, n: int)
    requires
        n >= 0,
    ensures
        prefix_of(s, n).len() <= n,
        forall|i: int| 0 <= i < prefix_of(s, n).len() ==> prefix_of(s, n)[i] == s[i],
        s.len() <= n ==> prefix_of(s, n) == s,
{
}

/// What is left of a text when its first `n` characters are dropped.
pub fn skip_chars(s: &str, n: usize) -> (r: String)
    requires
        n <= s@.len(),
    ensures
        r@ == s@.skip(n as int),
{
    let chars = chars_of(s);
    let mut out = String::new();
    let mut i: usize = n;
    while i < chars.len()
        invariant
            n <= i <= chars.len(),
            chars@ == s@,
            out@ == s@.subrange(n as int, i as int),
        decreases chars.len() - i,
    {
        out.push(chars[i]);
        assert(s@.subrange(n as int, i + 1) =~= s@.subrange(n as int, i as int).push(s@[i as int]));
        i = i + 1;
    }
    assert(s@.subrange(n as int, s@.len() as int) =~= s@.skip(n as int));
    out
}

/// The lower-case form of an ASCII letter; every other character stands for itself.
pub open spec fn ascii_lower(c: char) -> char {
    if 'A' <= c && c <= 'Z' {
        (c as u32 + 32) as char
    } else {
        c
    }
}

fn lower_char(c: char) -> (r: char)
    ensures
        r == ascii_lower(c),
{
    if c >= 'A' && c <= 'Z' {
        (c as u8 + 32u8) as char
    } else {
        c
    }
}

/// A text with its ASCII letters in lower case.
pub open spec fn ascii_lowercase(s: Seq<char>) -> Seq<char> {
    s.map_values(|c: char| ascii_lower(c))
}

/// Puts the ASCII letters of a text in lower case.
pub fn to_ascii_lowercase(s: &str) -> (r: String)
    ensures
        r@ == ascii_lowercase(s@),
{
    let chars = chars_of(s);
    let mut out = String::new();
    let mut i: usize = 0;
    while i < chars.len()
        invariant
            i <= chars.len(),
            chars@ == s@,
            out@ == ascii_lowercase(s@).take(i as int),
        decreases chars.len() - i,
    {
        out.push(lower_char(chars[i]));
        assert(ascii_lowercase(s@).take(i + 1) =~= ascii_lowercase(s@).take(i as int).push(
            ascii_lower(s@[i as int]),
        ));
        i = i + 1;
    }
    assert(ascii_lowercase(s@).take(s@.len() as int) =~= ascii_lowercase(s@));
    out
}

/// Whether a text starts with another.
pub open spec fn has_prefix(s: Seq<char>, p: Seq<char>) -> bool {
    p.len() <= s.len() && s.take(p.len() as int) == p
}

/// Whether `s` starts with `p`.
pub fn starts_with(s: &str, p: &str) -> (r: bool)
    ensures
        r == has_prefix(s@, p@),
{
    let chars = chars_of(s);
    let wanted = chars_of(p);
    if wanted.len() > chars.len() {
        return false;
    }
    let mut i: usize = 0;
    while i < wanted.len()
        invariant
            i <= wanted.len() <= chars.len(),
            chars@ == s@,
            wanted@ == p@,
            forall|k: int| 0 <= k < i ==> s@[k] == p@[k],
        decreases wanted.len() - i,
    {
        if chars[i] != wanted[i] {
            assert(s@.take(p@.len() as int)[i as int] != p@[i as int]);
            return false;
        }
        i = i + 1;
    }
    assert(s@.take(p@.len() as int) =~= p@);
    true
}

/// The characters with the Unicode property `White_Space`.
pub open spec fn white_space(c: char) -> bool {
    ||| '\u{9}' <= c && c <= '\u{d}'
    ||| c == '\u{20}'
    ||| c == '\u{85}'
    ||| c == '\u{a0}'
    ||| c == '\u{1680}'
    ||| '\u{2000}' <= c && c <= '\u{200a}'
    ||| c == '\u{2028}'
    ||| c == '\u{2029}'
    ||| c == '\u{202f}'
    ||| c == '\u{205f}'
    ||| c == '\u{3000}'
}

fn is_white_space(c: char) -> (r: bool)
    ensures
        r == white_space(c),
{
    (c >= '\u{9}' && c <= '\u{d}') || c == '\u{20}' || c == '\u{85}' || c == '\u{a0}' || c
        == '\u{1680}' || (c >= '\u{2000}' && c <= '\u{200a}') || c == '\u{2028}' || c == '\u{2029}'
        || c == '\u{202f}' || c == '\u{205f}' || c == '\u{3000}'
}

/// Whether `inner` is `s` without its leading and trailing white space.
pub open spec fn is_trim_of(s: Seq<char>, inner: Seq<char>) -> bool {
    exists|a: int, b: int|
        {
            &&& 0 <= a <= b <= s.len()
            &&& inner == #[trigger] s.subrange(a, b)
            &&& forall|k: int| 0 <= k < a ==> white_space(#[trigger] s[k])
            &&& forall|k: int| b <= k < s.len() ==> white_space(#[trigger] s[k])
            &&& a < b ==> !white_space(s[a]) && !white_space(s[b - 1])
        }
}

/// Removes the leading and trailing white space of a text.
pub fn trim(s: &str) -> (r: String)
    ensures
        is_trim_of(s@, r@),
{
    let chars = chars_of(s);
    let mut a: usize = 0;
    while a < chars.len() && is_white_space(chars[a])
        invariant
            a <= chars.len(),
            chars@ == s@,
            forall|k: int| 0 <= k < a ==> white_space(#[trigger] s@[k]),
        decreases chars.len() - a,
    {
        a = a + 1;
    }
    let mut b: usize = chars.len();
    while b > a && is_white_space(chars[b - 1])
        invariant
            a <= b <= chars.len(),
            chars@ == s@,
            forall|k: int| b <= k < s@.len() ==> white_space(#[trigger] s@[k]),
        decreases b - a,
    {
        b = b - 1;
    }
    let mut out = String::new();
    let mut i: usize = a;
    while i < b
        invariant
            a <= i <= b <= chars.len(),
            chars@ == s@,
            out@ == s@.subrange(a as int, i as int),
        decreases b - i,
    {
        out.push(chars[i]);
        assert(s@.subrange(a as int, i + 1) =~= s@.subrange(a as int, i as int).push(s@[i as int]));
        i = i + 1;
    }
    out
}

/// A text has only one trimmed form.
pub proof fn law_trim_is_unique(s: Seq<char>, x: Seq<char>, y: Seq<char>)
    requires
        is_trim_of(s, x),
        is_trim_of(s, y),
    ensures
        x == y,
{
    let (a, b) = choose|a: int, b: int|
        {
            &&& 0 <= a <= b <= s.len()
            &&& x == #[trigger] s.subrange(a, b)
            &&& forall|k: int| 0 <= k < a ==> white_space(#[trigger] s[k])
            &&& forall|k: int| b <= k < s.len() ==> white_space(#[trigger] s[k])
            &&& a < b ==> !white_space(s[a]) && !white_space(s[b - 1])
        };
    let (c, d) = choose|a: int, b: int|
        {
            &&& 0 <= a <= b <= s.len()
            &&& y == #[trigger] s.subrange(a, b)
            &&& forall|k: int| 0 <= k < a ==> white_space(#[trigger] s[k])
            &&& forall|k: int| b <= k < s.len() ==> white_space(#[trigger] s[k])
            &&& a < b ==> !white_space(s[a]) && !white_space(s[b - 1])
        };
    if a < b {
        if c == d {
            assert(white_space(s[a]));
        } else {
            assert(a == c) by {
                if a < c {
                    assert(white_space(s[a]));
                }
                if c < a {
                    assert(white_space(s[c]));
                }
            }
            assert(b == d) by {
                if b < d {
                    assert(white_space(s[d - 1]));
                }
                if d < b {
                    assert(white_space(s[b - 1]));
                }
            }
        }
    } else if c < d {
        assert(white_space(s[c]));
    } else {
        assert(x =~= y);
    }
}

/// The pieces of a text between the occurrences of a separator.
///
/// There is always one piece more than there are separators; an empty text
/// has one empty piece.
pub open spec fn split_on(s: Seq<char>, sep: char) -> Seq<Seq<char>>
    decreases s.len(),
{
    if s.len() == 0 {
        seq![Seq::<char>::empty()]
    } else {
        let before = split_on(s.drop_last(), sep);
        if s.last() == sep {
            before.push(Seq::empty())
        } else {
            before.drop_last().push(before.last().push(s.last()))
        }
    }
}

/// The views of a list of texts.
pub open spec fn views(parts: Seq<String>) -> Seq<Seq<char>> {
    parts.map_values(|p: String| p@)
}

/// Cuts a text at every occurrence of a separator.
pub fn split(s: &str, sep: char) -> (r: Vec<String>)
    ensures
        views(r@) == split_on(s@, sep),
        r@.len() >= 1,
{
    let chars = chars_of(s);
    let mut done: Vec<String> = Vec::new();
    let mut current = String::new();
    let mut i: usize = 0;
    assert(views(done@).push(current@) =~= split_on(s@.take(0), sep));
    while i < chars.len()
        invariant
            i <= chars.len(),
            chars@ == s@,
            views(done@).push(current@) == split_on(s@.take(i as int), sep),
        decreases chars.len() - i,
    {
        let ghost before = views(done@).push(current@);
        let c = chars[i];
        assert(s@.take(i + 1).drop_last() =~= s@.take(i as int));
        assert(s@.take(i + 1).last() == c);
        assert(before.drop_last() =~= views(done@));
        if c == sep {
            done.push(current);
            current = String::new();
            assert(views(done@) =~= before);
        } else {
            current.push(c);
        }
        assert(views(done@).push(current@) =~= split_on(s@.take(i + 1), sep));
        i = i + 1;
    }
    assert(s@.take(s@.len() as int) =~= s@);
    let ghost head = done@;
    let ghost tail = current@;
    done.push(current);
    assert(views(done@) =~= views(head).push(tail));
    done
}

/// Splitting always gives at least one piece.
pub proof fn lemma_split_nonempty(s: Seq<char>, sep: char)
    ensures
        split_on(s, sep).len() >= 1,
    decreases s.len(),
{
    if s.len() > 0 {
        lemma_split_nonempty(s.drop_last(), sep);
    }
}

/// A text without the separator is its own only piece.
pub proof fn law_split_whole(s: Seq<char>, sep: char)
    requires
        !s.contains(sep),
    ensures
        split_on(s, sep) == seq![s],
    decreases s.len(),
{
    if s.len() > 0 {
        assert forall|k: int| 0 <= k < s.drop_last().len() implies s.drop_last()[k] != sep by {
            assert(s.contains(s[k]));
        }
        law_split_whole(s.drop_last(), sep);
        assert(s.contains(s.last()));
        assert(s.drop_last().push(s.last()) =~= s);
        assert(split_on(s, sep) =~= seq![s]);
    } else {
        assert(s =~= Seq::<char>::empty());
    }
}

/// A piece and a separator in front of a text come back as the first piece.
pub proof fn law_split_joined(a: Seq<char>, sep: char, b: Seq<char>)
    requires
        !a.contains(sep),
    ensures
        split_on(a.push(sep) + b, sep) == seq![a] + split_on(b, sep),
    decreases b.len(),
{
    if b.len() == 0 {
        assert(a.push(sep) + b =~= a.push(sep));
        assert(a.push(sep).drop_last() =~= a);
        law_split_whole(a, sep);
        assert(b =~= Seq::<char>::empty());
        assert(split_on(a.push(sep), sep) =~= seq![a] + split_on(b, sep));
    } else {
        let whole = a.push(sep) + b;
        assert(whole.drop_last() =~= a.push(sep) + b.drop_last());
        assert(whole.last() == b.last());
        law_split_joined(a, sep, b.drop_last());
        lemma_split_nonempty(b.drop_last(), sep);
        assert(split_on(whole, sep) =~= seq![a] + split_on(b, sep));
    }
}

} // verus!
