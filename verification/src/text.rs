//! Text helpers: whitespace, trimming and suffixes.

use vstd::prelude::*;
use vstd::std_specs::iter::IteratorSpec;
use vstd::string::StrSliceExecFns;

verus! {

/// Whether `std` counts the character as whitespace: the result of
/// `char::is_whitespace`.
pub uninterp spec fn is_whitespace(c: char) -> bool;

/// Calls `char::is_whitespace`, which tells whether the character has the
/// Unicode property `White_Space`. The contract names the answer
/// [`is_whitespace`]: it depends on the character alone.
#[verifier::external_body]
fn char_is_whitespace(c: char) -> (white: bool)
    ensures
        white == is_whitespace(c),
{
    c.is_whitespace()
}

/// Calls `str::ends_with` with a string pattern, which tells whether the
/// pattern matches the end of the text.
#[verifier::external_body]
pub(crate) fn str_ends_with(text: &str, suffix: &str) -> (ends: bool)
    ensures
        ends == suffix@.is_suffix_of(text@),
{
    text.ends_with(suffix)
}

/// Whether the text is empty or consists of whitespace only.
pub open spec fn is_blank(text: Seq<char>) -> bool {
    forall|i: int| 0 <= i < text.len() ==> is_whitespace(#[trigger] text[i])
}

/// The number of whitespace characters before the first other character.
pub open spec fn blank_prefix(text: Seq<char>) -> nat
    decreases text.len(),
{
    if text.len() > 0 && is_whitespace(text.first()) {
        1 + blank_prefix(text.drop_first())
    } else {
        0
    }
}

/// The number of whitespace characters after the last other character.
pub open spec fn blank_suffix(text: Seq<char>) -> nat
    decreases text.len(),
{
    if text.len() > 0 && is_whitespace(text.last()) {
        1 + blank_suffix(text.drop_last())
    } else {
        0
    }
}

/// The text without the whitespace at its start and at its end.
pub open spec fn trimmed(text: Seq<char>) -> Seq<char> {
    let start = blank_prefix(text) as int;
    let end = text.len() - blank_suffix(text);
    if start < end {
        text.subrange(start, end)
    } else {
        Seq::empty()
    }
}

/// The whitespace at the start ends at the first character that is none.
pub proof fn lemma_blank_prefix(text: Seq<char>, start: int)
    requires
        0 <= start <= text.len(),
        forall|i: int| 0 <= i < start ==> is_whitespace(#[trigger] text[i]),
        start < text.len() ==> !is_whitespace(text[start]),
    ensures
        blank_prefix(text) == start,
    decreases start,
{
    if start > 0 {
        let rest = text.drop_first();
        assert forall|i: int| 0 <= i < start - 1 implies is_whitespace(#[trigger] rest[i]) by {
            assert(rest[i] == text[i + 1]);
        }
        lemma_blank_prefix(rest, start - 1);
    }
}

/// The whitespace at the end begins behind the last character that is none.
pub proof fn lemma_blank_suffix(text: Seq<char>, end: int)
    requires
        0 <= end <= text.len(),
        forall|i: int| end <= i < text.len() ==> is_whitespace(#[trigger] text[i]),
        end > 0 ==> !is_whitespace(text[end - 1]),
    ensures
        blank_suffix(text) == text.len() - end,
    decreases text.len() - end,
{
    if end < text.len() {
        let rest = text.drop_last();
        assert forall|i: int| end <= i < rest.len() implies is_whitespace(#[trigger] rest[i]) by {
            assert(rest[i] == text[i]);
        }
        lemma_blank_suffix(rest, end);
    }
}

/// A text is blank exactly if nothing is left of it after trimming.
pub proof fn lemma_trimmed_blank(text: Seq<char>)
    ensures
        is_blank(text) <==> trimmed(text).len() == 0,
        !is_blank(trimmed(text)) || trimmed(text).len() == 0,
{
    lemma_blank_prefix_bounds(text);
    lemma_blank_suffix_bounds(text);
    let start = blank_prefix(text) as int;
    let end = text.len() - blank_suffix(text);
    if is_blank(text) {
        lemma_blank_prefix(text, text.len() as int);
    } else {
        let i = choose|i: int| 0 <= i < text.len() && !is_whitespace(#[trigger] text[i]);
        assert(start <= i);
        assert(i < end);
        assert(trimmed(text)[0] == text[start]);
    }
}

/// The whitespace at the start is whitespace, and what follows it is not.
pub proof fn lemma_blank_prefix_bounds(text: Seq<char>)
    ensures
        blank_prefix(text) <= text.len(),
        forall|i: int| 0 <= i < blank_prefix(text) ==> is_whitespace(#[trigger] text[i]),
        blank_prefix(text) < text.len() ==> !is_whitespace(text[blank_prefix(text) as int]),
    decreases text.len(),
{
    if text.len() > 0 && is_whitespace(text.first()) {
        let rest = text.drop_first();
        lemma_blank_prefix_bounds(rest);
        assert forall|i: int| 0 <= i < blank_prefix(text) implies is_whitespace(
            #[trigger] text[i],
        ) by {
            if i > 0 {
                assert(text[i] == rest[i - 1]);
            }
        }
        if blank_prefix(text) < text.len() {
            assert(text[blank_prefix(text) as int] == rest[blank_prefix(rest) as int]);
        }
    }
}

/// The whitespace at the end is whitespace, and what precedes it is not.
pub proof fn lemma_blank_suffix_bounds(text: Seq<char>)
    ensures
        blank_suffix(text) <= text.len(),
        forall|i: int|
            text.len() - blank_suffix(text) <= i < text.len() ==> is_whitespace(#[trigger] text[i]),
        blank_suffix(text) < text.len() ==> !is_whitespace(
            text[text.len() - blank_suffix(text) - 1],
        ),
    decreases text.len(),
{
    if text.len() > 0 && is_whitespace(text.last()) {
        let rest = text.drop_last();
        lemma_blank_suffix_bounds(rest);
        assert forall|i: int| text.len() - blank_suffix(text) <= i < text.len() implies is_whitespace(
            #[trigger] text[i],
        ) by {
            if i < text.len() - 1 {
                assert(text[i] == rest[i]);
            }
        }
        if blank_suffix(text) < text.len() {
            assert(text[text.len() - blank_suffix(text) - 1] == rest[rest.len() - blank_suffix(rest)
                - 1]);
        }
    }
}

/// The text without the whitespace at its start and at its end.
pub fn trim(text: &str) -> (inner: String)
    ensures
        inner@ == trimmed(text@),
{
    broadcast use vstd::string::group_string_axioms;

    let n = text.unicode_len();
    let mut start: usize = 0;
    let mut end: usize = 0;
    let mut found = false;
    let mut i: usize = 0;
    let mut rest = text.chars();
    loop
        invariant_except_break
            rest.remaining() == text@.skip(i as int),
        invariant
            n == text@.len(),
            i <= n,
            !found ==> forall|j: int| 0 <= j < i ==> is_whitespace(#[trigger] text@[j]),
            found ==> start < end <= i,
            found ==> forall|j: int| 0 <= j < start ==> is_whitespace(#[trigger] text@[j]),
            found ==> !is_whitespace(text@[start as int]),
            found ==> !is_whitespace(text@[end - 1]),
            found ==> forall|j: int| end <= j < i ==> is_whitespace(#[trigger] text@[j]),
        ensures
            i == n,
        decreases n - i,
    {
        let ghost before = rest.remaining();
        match rest.next() {
            Some(c) => {
                assert(before.len() > 0);
                assert(c == text@[i as int]);
                assert(rest.remaining() =~= text@.skip(i + 1));
                if !char_is_whitespace(c) {
                    if !found {
                        start = i;
                        found = true;
                    }
                    end = i + 1;
                }
                i = i + 1;
            },
            None => {
                assert(before.len() == 0);
                break ;
            },
        }
    }
    if found {
        proof {
            lemma_blank_prefix(text@, start as int);
            lemma_blank_suffix(text@, end as int);
        }
        text.substring_char(start, end).to_owned()
    } else {
        proof {
            lemma_blank_prefix(text@, n as int);
            lemma_blank_suffix_bounds(text@);
        }
        String::new()
    }
}

} // verus!
