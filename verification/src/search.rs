//! Finding one text in another.

use vstd::prelude::*;

verus! {

/// Whether `pattern` stands in `text` at position `i`.
pub open spec fn occurs_at(text: Seq<char>, pattern: Seq<char>, i: int) -> bool {
    0 <= i && i + pattern.len() <= text.len() && text.subrange(i, i + pattern.len()) == pattern
}

/// Whether `i` is the first position at which `pattern` stands in `text`.
pub open spec fn occurs_first_at(text: Seq<char>, pattern: Seq<char>, i: int) -> bool {
    occurs_at(text, pattern, i) && forall|j: int| 0 <= j < i ==> !#[trigger] occurs_at(
        text,
        pattern,
        j,
    )
}

/// The first position at which `pattern` stands in `text`, if there is any.
pub open spec fn first_occurrence(text: Seq<char>, pattern: Seq<char>) -> Option<int> {
    if exists|i: int| occurs_at(text, pattern, i) {
        Some(choose|i: int| occurs_first_at(text, pattern, i))
    } else {
        None
    }
}

/// Where there is a position, there is a first one.
pub proof fn lemma_first_exists(text: Seq<char>, pattern: Seq<char>, i: int)
    requires
        occurs_at(text, pattern, i),
    ensures
        first_occurrence(text, pattern) is Some,
        occurs_first_at(text, pattern, first_occurrence(text, pattern)->0),
    decreases i,
{
    if exists|j: int| 0 <= j < i && #[trigger] occurs_at(text, pattern, j) {
        let j = choose|j: int| 0 <= j < i && #[trigger] occurs_at(text, pattern, j);
        lemma_first_exists(text, pattern, j);
    } else {
        assert(occurs_first_at(text, pattern, i));
    }
}

/// There is one first position at most.
pub proof fn lemma_first_occurrence(text: Seq<char>, pattern: Seq<char>, i: int)
    requires
        occurs_first_at(text, pattern, i),
    ensures
        first_occurrence(text, pattern) == Some(i),
{
    let k = choose|k: int| occurs_first_at(text, pattern, k);
    assert(occurs_at(text, pattern, i));
    assert(occurs_at(text, pattern, k));
}

/// The characters of `text`.
fn chars_of(text: &str) -> (chars: Vec<char>)
    ensures
        chars@ == text@,
{
    broadcast use vstd::string::axiom_spec_iter;

    let mut chars: Vec<char> = Vec::new();
    for c in it: text.chars()
        invariant
            it.seq() == text@,
            chars@ == text@.take(it.index()),
    {
        chars.push(c);
    }
    assert(text@.take(text@.len() as int) =~= text@);
    chars
}

/// Whether `pattern` stands in `text` at position `i`.
fn matches_at(text: &Vec<char>, pattern: &Vec<char>, i: usize) -> (matches: bool)
    requires
        i <= text@.len(),
    ensures
        matches == occurs_at(text@, pattern@, i as int),
{
    if pattern.len() > text.len() - i {
        return false;
    }
    let ghost part = text@.subrange(i as int, i + pattern@.len());
    for j in 0..pattern.len()
        invariant
            i + pattern@.len() <= text.len(),
            part == text@.subrange(i as int, i + pattern@.len()),
            forall|k: int| 0 <= k < j ==> part[k] == pattern@[k],
    {
        if text[i + j] != pattern[j] {
            assert(part[j as int] != pattern@[j as int]);
            return false;
        }
    }
    assert(part =~= pattern@);
    true
}

/// Finds the first position, counted in characters, at which `pattern` stands in `text`.
pub fn find(text: &str, pattern: &str) -> (found: Option<usize>)
    ensures
        match found {
            Some(i) => occurs_first_at(text@, pattern@, i as int) && first_occurrence(
                text@,
                pattern@,
            ) == Some(i as int),
            None => first_occurrence(text@, pattern@) is None,
        },
{
    let text_chars = chars_of(text);
    let pattern_chars = chars_of(pattern);
    let mut i: usize = 0;
    loop
        invariant
            text_chars@ == text@,
            pattern_chars@ == pattern@,
            i <= text_chars@.len(),
            forall|j: int| 0 <= j < i ==> !#[trigger] occurs_at(text@, pattern@, j),
        decreases text_chars@.len() - i,
    {
        if matches_at(&text_chars, &pattern_chars, i) {
            proof {
                lemma_first_occurrence(text@, pattern@, i as int);
            }
            return Some(i);
        }
        if i == text_chars.len() {
            return None;
        }
        i = i + 1;
    }
}

} // verus!
