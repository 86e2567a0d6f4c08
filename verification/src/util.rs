//! Cleaning up text that comes from GitHub.

use vstd::prelude::*;

verus! {

/// What marks an HTML comment.
pub const HTML_COMMENT_REGEX: &'static str = "<!--([\\S\\s]*?)-->";

/// Whether `p` stands in `s` at position `i`.
pub open spec fn occurs_at(s: Seq<char>, p: Seq<char>, i: int) -> bool {
    0 <= i && i + p.len() <= s.len() && s.subrange(i, i + p.len()) == p
}

/// Whether `i` is the first position, from `from` on, at which `p` stands in `s`.
pub open spec fn first_occurrence(s: Seq<char>, p: Seq<char>, from: int, i: int) -> bool {
    from <= i && occurs_at(s, p, i) && forall|k: int| from <= k < i ==> !occurs_at(s, p, k)
}

/// Whether the first HTML comment of `s` reaches from `i` up to `j`: it opens at the first
/// `<!--`, and ends behind the first `-->` that comes after it.
pub open spec fn first_comment(s: Seq<char>, i: int, j: int) -> bool {
    first_occurrence(s, "<!--"@, 0, i) && first_occurrence(s, "-->"@, i + 4, j - 3)
}

/// A text without its HTML comments.
///
/// The first comment is taken out, then those of what follows it. A `<!--` that is never closed
/// is no comment.
pub open spec fn without_html_comments(s: Seq<char>) -> Seq<char>
    decreases s.len(),
{
    if exists|i: int, j: int| 0 <= i < j <= s.len() && first_comment(s, i, j) {
        let (i, j) = choose|i: int, j: int| 0 <= i < j <= s.len() && first_comment(s, i, j);
        if 0 <= i < j <= s.len() {
            s.take(i) + without_html_comments(s.skip(j))
        } else {
            s
        }
    } else {
        s
    }
}

/// Calls `regex::Regex::new` and `regex::Regex::replace_all`.
///
/// The contract claims, for the pattern of an HTML comment and an empty replacement, that the
/// pattern compiles and that every leftmost, shortest match, one after the other, is taken out
/// of the text.
#[verifier::external_body]
fn regex_replace_all(pattern: &str, text: &str, replacement: &str) -> (r: String)
    requires
        pattern@ == HTML_COMMENT_REGEX@,
        replacement@ == ""@,
    ensures
        r@ == without_html_comments(text@),
{
    regex::Regex::new(pattern).unwrap().replace_all(text, replacement).to_string()
}

/// Takes the HTML comments out of a text.
pub fn remove_html_comments(value: &str) -> (r: String)
    ensures
        r@ == without_html_comments(value@),
{
    regex_replace_all(HTML_COMMENT_REGEX, value, "")
}

/// A text that nowhere opens a comment stays as it is.
pub proof fn law_uncommented_text_is_kept(s: Seq<char>)
    requires
        forall|i: int| !occurs_at(s, "<!--"@, i),
    ensures
        without_html_comments(s) == s,
{
}

/// Where the first comment stands in a text, it goes; what follows it is cleaned the same way.
pub proof fn law_found_comment_is_removed(s: Seq<char>, i: int, j: int)
    requires
        0 <= i < j <= s.len(),
        first_comment(s, i, j),
    ensures
        without_html_comments(s) == s.take(i) + without_html_comments(s.skip(j)),
{
    reveal_strlit("<!--");
    reveal_strlit("-->");
    let (a, b) = choose|a: int, b: int| 0 <= a < b <= s.len() && first_comment(s, a, b);
    assert(first_comment(s, a, b));
    assert(a == i);
    assert(b == j) by {
        if b < j {
            assert(occurs_at(s, "-->"@, b - 3));
        }
        if j < b {
            assert(occurs_at(s, "-->"@, j - 3));
        }
    }
}

/// A comment goes, wherever it stands: what comes before it stays as it is, and what follows is
/// cleaned the same way.
pub proof fn law_first_comment_is_removed(a: Seq<char>, b: Seq<char>, c: Seq<char>)
    requires
        forall|i: int| !occurs_at(a, "<!--"@, i),
        forall|i: int| !occurs_at(b, "-->"@, i),
    ensures
        without_html_comments(a + "<!--"@ + b + "-->"@ + c) == a + without_html_comments(c),
{
    reveal_strlit("<!--");
    reveal_strlit("-->");
    let open = "<!--"@;
    let close = "-->"@;
    let s = a + open + b + close + c;
    let i = a.len() as int;
    let j = i + 4 + b.len() + 3;
    assert(s.subrange(i, i + 4) =~= open);
    assert forall|k: int| 0 <= k < i implies !occurs_at(s, open, k) by {
        if occurs_at(s, open, k) {
            let at = s.subrange(k, k + 4);
            if k + 4 <= i {
                assert(a.subrange(k, k + 4) =~= at);
                assert(occurs_at(a, open, k));
            } else {
                assert(at[i - k] == s[i]);
                assert(s[i] == open[0]);
            }
        }
    }
    assert(s.subrange(j - 3, j) =~= close);
    assert forall|k: int| i + 4 <= k < j - 3 implies !occurs_at(s, close, k) by {
        if occurs_at(s, close, k) {
            let at = s.subrange(k, k + 3);
            let from = k - (i + 4);
            if from + 3 <= b.len() {
                assert(b.subrange(from, from + 3) =~= at);
                assert(occurs_at(b, close, from));
            } else {
                assert(at[2] == s[k + 2]);
                assert(s[k + 2] == close[k + 2 - (j - 3)]);
            }
        }
    }
    law_found_comment_is_removed(s, i, j);
    assert(s.take(i) =~= a);
    assert(s.skip(j) =~= c);
}

/// Removing comments never makes a text longer.
pub proof fn law_removal_never_lengthens(s: Seq<char>)
    ensures
        without_html_comments(s).len() <= s.len(),
    decreases s.len(),
{
    if exists|i: int, j: int| 0 <= i < j <= s.len() && first_comment(s, i, j) {
        let (i, j) = choose|i: int, j: int| 0 <= i < j <= s.len() && first_comment(s, i, j);
        law_removal_never_lengthens(s.skip(j));
    }
}

/// Whether `places` are places in `s`, one behind the other, at which `r` stands.
pub open spec fn picks(s: Seq<char>, r: Seq<char>, places: Seq<int>) -> bool {
    &&& places.len() == r.len()
    &&& forall|k: int| 0 <= k < r.len() ==> 0 <= #[trigger] places[k] < s.len() && s[places[k]] == r[k]
    &&& forall|k: int, l: int| 0 <= k < l < r.len() ==> #[trigger] places[k] < #[trigger] places[l]
}

/// Whether `r` is `s` with some of its characters left out.
pub open spec fn is_part_of(s: Seq<char>, r: Seq<char>) -> bool {
    exists|places: Seq<int>| picks(s, r, places)
}

/// Removing comments only leaves characters out: the rest stays, in its order.
pub proof fn law_removal_only_leaves_out(s: Seq<char>)
    ensures
        is_part_of(s, without_html_comments(s)),
    decreases s.len(),
{
    if exists|i: int, j: int| 0 <= i < j <= s.len() && first_comment(s, i, j) {
        let (i, j) = choose|i: int, j: int| 0 <= i < j <= s.len() && first_comment(s, i, j);
        let rest = s.skip(j);
        let clean = without_html_comments(rest);
        law_removal_only_leaves_out(rest);
        let behind = choose|places: Seq<int>| picks(rest, clean, places);
        let places = Seq::new(
            (i + clean.len()) as nat,
            |k: int|
                if k < i {
                    k
                } else {
                    j + behind[k - i]
                },
        );
        assert(picks(s, s.take(i) + clean, places));
    } else {
        assert(picks(s, s, Seq::new(s.len(), |k: int| k)));
    }
}

} // verus!
