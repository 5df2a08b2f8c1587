//! Matching of observed text against expected text.
//!
//! Text is compared exactly and case-sensitively, after the white space that
//! surrounds it on either side has been removed.

use vstd::prelude::*;

verus! {

/// Whether `c` is white space: one of the code points that carry the Unicode
/// property `White_Space`.
pub open spec fn is_white_space(c: char) -> bool {
    ||| '\u{9}' <= c <= '\u{d}'
    ||| c == ' '
    ||| c == '\u{85}'
    ||| c == '\u{a0}'
    ||| c == '\u{1680}'
    ||| '\u{2000}' <= c <= '\u{200a}'
    ||| c == '\u{2028}'
    ||| c == '\u{2029}'
    ||| c == '\u{202f}'
    ||| c == '\u{205f}'
    ||| c == '\u{3000}'
}

/// `s` without the white space it begins with.
pub open spec fn trimmed_start(s: Seq<char>) -> Seq<char>
    decreases s.len(),
{
    if s.len() > 0 && is_white_space(s.first()) {
        trimmed_start(s.drop_first())
    } else {
        s
    }
}

/// `s` without the white space it ends with.
pub open spec fn trimmed_end(s: Seq<char>) -> Seq<char>
    decreases s.len(),
{
    if s.len() > 0 && is_white_space(s.last()) {
        trimmed_end(s.drop_last())
    } else {
        s
    }
}

/// `s` without the white space that surrounds it.
pub open spec fn trimmed(s: Seq<char>) -> Seq<char> {
    trimmed_end(trimmed_start(s))
}

/// Whether observed text satisfies expected text: both are trimmed, and what
/// is left must be the same, character for character.
pub open spec fn text_agrees(expected: Seq<char>, observed: Seq<char>) -> bool {
    trimmed(observed) == trimmed(expected)
}

/// `str::trim` of the standard library, taken on trust: nothing here proves
/// it. Its documentation says that it returns the slice with leading and
/// trailing white space removed, white space being what the Unicode property
/// `White_Space` says; [`is_white_space`] lists the code points that have
/// that property.
pub assume_specification[ str::trim ](s: &str) -> (r: &str)
    ensures
        r@ == trimmed(s@),
;

/// The trimmed form of `s`, as a string of its own.
pub fn trim_text(s: &str) -> (r: String)
    ensures
        r@ == trimmed(s@),
{
    s.trim().to_owned()
}

/// Decides whether `observed` satisfies `expected`.
pub fn text_matches(expected: &str, observed: &str) -> (b: bool)
    ensures
        b == text_agrees(expected@, observed@),
{
    let e = trim_text(expected);
    let o = trim_text(observed);
    o == e
}

/// Whether `s` is made of white space alone.
pub open spec fn is_blank(s: Seq<char>) -> bool {
    forall|i: int| 0 <= i < s.len() ==> is_white_space(#[trigger] s[i])
}

/// Whether `s` neither begins nor ends with white space.
pub open spec fn is_bare(s: Seq<char>) -> bool {
    s.len() > 0 ==> !is_white_space(s.first()) && !is_white_space(s.last())
}

proof fn lemma_trimmed_start_begins_bare(s: Seq<char>)
    ensures
        trimmed_start(s).len() > 0 ==> !is_white_space(trimmed_start(s).first()),
        trimmed_start(s).len() == 0 ==> is_blank(s),
    decreases s.len(),
{
    if s.len() > 0 && is_white_space(s.first()) {
        lemma_trimmed_start_begins_bare(s.drop_first());
        if trimmed_start(s).len() == 0 {
            assert forall|i: int| 0 <= i < s.len() implies is_white_space(#[trigger] s[i]) by {
                if i > 0 {
                    assert(s[i] == s.drop_first()[i - 1]);
                }
            }
        }
    }
}

proof fn lemma_trimmed_end_ends_bare(s: Seq<char>)
    ensures
        trimmed_end(s).len() > 0 ==> !is_white_space(trimmed_end(s).last()),
        s.len() > 0 && !is_white_space(s.first()) ==> trimmed_end(s).len() > 0 && trimmed_end(
            s,
        ).first() == s.first(),
    decreases s.len(),
{
    if s.len() > 0 && is_white_space(s.last()) {
        lemma_trimmed_end_ends_bare(s.drop_last());
    }
}

proof fn lemma_blank_start_is_dropped(blank: Seq<char>, s: Seq<char>)
    requires
        is_blank(blank),
    ensures
        trimmed_start(blank + s) == trimmed_start(s),
    decreases blank.len(),
{
    if blank.len() > 0 {
        assert((blank + s).drop_first() =~= blank.drop_first() + s);
        assert(is_blank(blank.drop_first()));
        lemma_blank_start_is_dropped(blank.drop_first(), s);
    }
}

proof fn lemma_blank_end_is_dropped(s: Seq<char>, blank: Seq<char>)
    requires
        is_blank(blank),
    ensures
        trimmed_end(s + blank) == trimmed_end(s),
    decreases blank.len(),
{
    if blank.len() > 0 {
        assert((s + blank).drop_last() =~= s + blank.drop_last());
        assert(is_blank(blank.drop_last()));
        lemma_blank_end_is_dropped(s, blank.drop_last());
    }
}

proof fn lemma_trimmed_start_keeps_the_end(s: Seq<char>, tail: Seq<char>)
    requires
        trimmed_start(s).len() > 0,
    ensures
        trimmed_start(s + tail) == trimmed_start(s) + tail,
    decreases s.len(),
{
    if s.len() > 0 && is_white_space(s.first()) {
        assert((s + tail).drop_first() =~= s.drop_first() + tail);
        lemma_trimmed_start_keeps_the_end(s.drop_first(), tail);
    }
}

/// Trimmed text neither begins nor ends with white space.
pub proof fn lemma_trimmed_text_is_bare(s: Seq<char>)
    ensures
        is_bare(trimmed(s)),
{
    lemma_trimmed_start_begins_bare(s);
    lemma_trimmed_end_ends_bare(trimmed_start(s));
}

/// Text that neither begins nor ends with white space is its own trimmed
/// form. So trimming twice is trimming once.
pub proof fn lemma_bare_text_is_kept(s: Seq<char>)
    ensures
        is_bare(s) ==> trimmed(s) == s,
        trimmed(trimmed(s)) == trimmed(s),
{
    lemma_trimmed_text_is_bare(s);
}

/// White space around a text, and only that, is ignored: however much of it
/// stands before and after, the trimmed form is the same.
pub proof fn lemma_surrounding_white_space_is_ignored(
    before: Seq<char>,
    s: Seq<char>,
    after: Seq<char>,
)
    requires
        is_blank(before),
        is_blank(after),
    ensures
        trimmed(before + s + after) == trimmed(s),
        text_agrees(s, before + s + after),
{
    let inner = before + s;
    lemma_blank_start_is_dropped(before, s);
    lemma_trimmed_start_begins_bare(inner);
    if trimmed_start(inner).len() > 0 {
        lemma_trimmed_start_keeps_the_end(inner, after);
        lemma_blank_end_is_dropped(trimmed_start(inner), after);
    } else {
        assert(is_blank(inner + after));
        lemma_blank_start_is_dropped(inner + after, Seq::empty());
    }
}

/// Between texts that neither begin nor end with white space, agreement is
/// equality: a difference in a single character, be it only in case, is a
/// mismatch.
pub proof fn lemma_bare_texts_agree_only_when_equal(expected: Seq<char>, observed: Seq<char>)
    requires
        is_bare(expected),
        is_bare(observed),
    ensures
        text_agrees(expected, observed) <==> observed == expected,
{
    lemma_bare_text_is_kept(expected);
    lemma_bare_text_is_kept(observed);
}

} // verus!
