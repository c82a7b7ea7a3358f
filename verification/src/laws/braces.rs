//! Braces in generated code: as many close as open, and none stands next to its like.

use vstd::prelude::*;
use crate::search::occurs_at;
use super::containing::contains_text;
use super::counting::{count_where, lemma_count_listed, lemma_count_none, lemma_count_split};

verus! {

/// Whether `c` stands at position `i` of `text`.
pub open spec fn stands_at(text: Seq<char>, c: char, i: int) -> bool {
    text[i] == c
}

/// How often `c` stands in `text`.
pub open spec fn occurrences(text: Seq<char>, c: char) -> nat {
    count_where(text.len(), |i: int| stands_at(text, c, i))
}

/// Whether as many braces close as open.
pub open spec fn balanced(text: Seq<char>) -> bool {
    occurrences(text, '{') == occurrences(text, '}')
}

/// Whether `c` is a brace.
pub open spec fn is_brace(c: char) -> bool {
    c == '{' || c == '}'
}

/// Whether no brace stands in `text`.
pub open spec fn braceless(text: Seq<char>) -> bool {
    forall|i: int| 0 <= i < text.len() ==> !is_brace(#[trigger] text[i])
}

/// Whether no brace stands next to its like, nor at either end of `text`.
#[verifier::opaque]
pub open spec fn neat(text: Seq<char>) -> bool {
    &&& forall|i: int|
        1 <= i < text.len() && is_brace(text[i - 1]) ==> #[trigger] text[i] != text[i - 1]
    &&& text.len() > 0 ==> !is_brace(text[0]) && !is_brace(text.last())
}

/// Listing the positions of a character counts them.
pub proof fn lemma_occurrences_listed(text: Seq<char>, c: char, listed: Set<int>)
    requires
        listed.finite(),
        forall|i: int| #[trigger] listed.contains(i) <==> 0 <= i < text.len() && text[i] == c,
    ensures
        occurrences(text, c) == listed.len(),
{
    lemma_count_listed(text.len(), |i: int| stands_at(text, c, i), listed);
}

/// Without braces there are none to count.
pub broadcast proof fn lemma_braceless(text: Seq<char>, c: char)
    requires
        braceless(text),
        is_brace(c),
    ensures
        #[trigger] occurrences(text, c) == 0,
{
    lemma_count_none(text.len(), |i: int| stands_at(text, c, i));
}

/// What is appended adds what stands in it.
pub broadcast proof fn lemma_occurrences_append(text: Seq<char>, more: Seq<char>, c: char)
    ensures
        #[trigger] occurrences(text + more, c) == occurrences(text, c) + occurrences(more, c),
{
    let all = text + more;
    lemma_count_split(
        text.len(),
        more.len(),
        |i: int| stands_at(all, c, i),
        |i: int| stands_at(text, c, i),
        |j: int| stands_at(more, c, j),
    );
}

/// Neat texts one after the other are neat.
pub broadcast proof fn lemma_neat_append(text: Seq<char>, more: Seq<char>)
    requires
        neat(text),
        neat(more),
    ensures
        #[trigger] neat(text + more),
{
    reveal(neat);
    let all = text + more;
    assert forall|i: int| 1 <= i < all.len() && is_brace(all[i - 1]) implies #[trigger] all[i]
        != all[i - 1] by {
        if i < text.len() {
            assert(all[i] == text[i]);
        } else if i > text.len() {
            assert(all[i] == more[i - text.len()]);
            assert(all[i - 1] == more[i - text.len() - 1]);
        } else {
            assert(all[i - 1] == text.last());
        }
    }
}

/// A text without braces is neat.
pub broadcast proof fn lemma_braceless_neat(text: Seq<char>)
    requires
        braceless(text),
    ensures
        #[trigger] neat(text),
{
    reveal(neat);
}

/// Nowhere in a neat text does a brace stand twice in a row.
pub proof fn lemma_neat(text: Seq<char>)
    requires
        neat(text),
    ensures
        !contains_text(text, "{{"@),
        !contains_text(text, "}}"@),
{
    reveal(neat);
    reveal_strlit("{{");
    reveal_strlit("}}");
    assert forall|i: int| !occurs_at(text, "{{"@, i) && !occurs_at(text, "}}"@, i) by {
        if 0 <= i && i + 2 <= text.len() {
            let part = text.subrange(i, i + 2);
            assert(part[0] == text[i]);
            assert(part[1] == text[i + 1]);
        }
    }
}

pub broadcast group group_braces {
    lemma_braceless,
    lemma_occurrences_append,
    lemma_neat_append,
    lemma_braceless_neat,
}

} // verus!
