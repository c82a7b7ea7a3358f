//! One text as a part of another.

use vstd::prelude::*;
use crate::search::occurs_at;
use crate::text::{concat_map, lemma_concat_map_step};

verus! {

/// Whether `part` stands somewhere in `text`.
pub open spec fn contains_text(text: Seq<char>, part: Seq<char>) -> bool {
    exists|i: int| occurs_at(text, part, i)
}

/// What stands in a text still stands in it when more is appended.
pub broadcast proof fn lemma_contains_before(text: Seq<char>, more: Seq<char>, part: Seq<char>)
    requires
        contains_text(text, part),
    ensures
        #[trigger] contains_text(text + more, part),
{
    let i = choose|i: int| occurs_at(text, part, i);
    assert((text + more).subrange(i, i + part.len()) =~= text.subrange(i, i + part.len()));
    assert(occurs_at(text + more, part, i));
}

/// What stands in a text still stands in it when it is appended to something.
pub proof fn lemma_contains_after(before: Seq<char>, text: Seq<char>, part: Seq<char>)
    requires
        contains_text(text, part),
    ensures
        contains_text(before + text, part),
{
    let i = choose|i: int| occurs_at(text, part, i);
    let at = before.len() + i;
    assert((before + text).subrange(at, at + part.len()) =~= text.subrange(i, i + part.len()));
    assert(occurs_at(before + text, part, at));
}

/// A text stands in itself.
pub proof fn lemma_contains_itself(text: Seq<char>)
    ensures
        contains_text(text, text),
{
    assert(text.subrange(0, text.len() as int) =~= text);
    assert(occurs_at(text, text, 0));
}

/// What is appended to something stands in it.
pub broadcast proof fn lemma_contains_last(before: Seq<char>, text: Seq<char>)
    ensures
        #[trigger] contains_text(before + text, text),
{
    lemma_contains_itself(text);
    lemma_contains_after(before, text, text);
}

/// What stands in a part of a text stands in the text.
pub proof fn lemma_contains_within(text: Seq<char>, part: Seq<char>, inner: Seq<char>)
    requires
        contains_text(text, part),
        contains_text(part, inner),
    ensures
        contains_text(text, inner),
{
    let i = choose|i: int| occurs_at(text, part, i);
    let j = choose|j: int| occurs_at(part, inner, j);
    assert(text.subrange(i + j, i + j + inner.len()) =~= part.subrange(j, j + inner.len()));
    assert(occurs_at(text, inner, i + j));
}

/// The text of every item stands in the texts of all of them.
pub proof fn lemma_concat_map_contains<T>(items: Seq<T>, i: int, text: spec_fn(T) -> Seq<char>)
    requires
        0 <= i < items.len(),
    ensures
        contains_text(concat_map(items, text), text(items[i])),
    decreases items.len(),
{
    let last = items.len() - 1;
    let shorter = items.take(last);
    lemma_concat_map_step(items, last, text);
    assert(items.take(items.len() as int) =~= items);
    if i == last {
        lemma_contains_last(concat_map(shorter, text), text(items[i]));
    } else {
        lemma_concat_map_contains(shorter, i, text);
        lemma_contains_before(concat_map(shorter, text), text(items[last]), text(items[i]));
    }
}

} // verus!
