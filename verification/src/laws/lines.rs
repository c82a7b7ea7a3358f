//! The lines of a text, and those of them that start a hook.

use vstd::prelude::*;
use crate::search::occurs_at;
use super::counting::{count_where, lemma_count_listed, lemma_count_none, lemma_count_split};

verus! {

/// How the line starts that opens the function of a hook.
pub const HOOK_START: &'static str = "pub fn use_";

/// Whether a line of `text` starts at position `i`.
pub open spec fn starts_line(text: Seq<char>, i: int) -> bool {
    i == 0 || text[i - 1] == '\n'
}

/// Whether a line that opens the function of a hook starts at position `i` of `text`.
pub open spec fn hook_line_at(text: Seq<char>, i: int) -> bool {
    starts_line(text, i) && occurs_at(text, HOOK_START@, i)
}

/// How many lines of `text` open the function of a hook.
pub open spec fn hook_lines(text: Seq<char>) -> nat {
    count_where(text.len(), |i: int| hook_line_at(text, i))
}

/// Whether no line ends in `text`.
pub open spec fn unbroken(text: Seq<char>) -> bool {
    forall|i: int| 0 <= i < text.len() ==> text[i] != '\n'
}

/// Whether what is appended to `text` starts a line.
pub open spec fn ends_line(text: Seq<char>) -> bool {
    text.len() == 0 || text.last() == '\n'
}

/// Whether `text` is made of whole lines, at least one.
pub open spec fn whole_lines(text: Seq<char>) -> bool {
    text.len() > 0 && text.last() == '\n'
}

/// Whether `text` ends one line, and only that.
pub open spec fn line_end(text: Seq<char>) -> bool {
    text.len() > 0 && text.last() == '\n' && unbroken(text.drop_last())
}

/// Whether a line that starts with `text` opens a hook is settled, whatever follows in that line.
pub open spec fn line_opening(text: Seq<char>) -> bool {
    text.len() > 0 && unbroken(text) && (text.len() >= HOOK_START@.len() || text[0]
        != HOOK_START@[0])
}

/// Whether `text` ends within a line of which it is settled whether it opens a hook.
pub open spec fn within_line(text: Seq<char>) -> bool {
    exists|k: int| #[trigger] opening_at(text, k)
}

/// Whether the last line of `text` starts at `k`, and it is settled whether it opens a hook.
pub open spec fn opening_at(text: Seq<char>, k: int) -> bool {
    0 <= k < text.len() && starts_line(text, k) && line_opening(text.skip(k))
}

/// What a line that opens a hook has to hold where it starts.
pub proof fn lemma_hook_start()
    ensures
        HOOK_START@.len() == 11,
        unbroken(HOOK_START@),
        HOOK_START@[0] == 'p',
        HOOK_START@[4] == 'f',
{
    reveal_strlit("pub fn use_");
}

/// Where a line opens a hook, it starts as one does.
pub proof fn lemma_hook_line_chars(text: Seq<char>)
    ensures
        forall|i: int| #[trigger]
            hook_line_at(text, i) ==> 0 <= i && i + 11 <= text.len() && text[i] == 'p' && text[i
                + 4] == 'f',
{
    lemma_hook_start();
    assert forall|i: int| #[trigger] hook_line_at(text, i) implies 0 <= i && i + 11 <= text.len()
        && text[i] == 'p' && text[i + 4] == 'f' by {
        let part = text.subrange(i, i + HOOK_START@.len());
        assert(part[0] == text[i]);
        assert(part[4] == text[i + 4]);
    }
}

/// A text in which no line opens a hook.
pub proof fn lemma_no_hook_lines(text: Seq<char>)
    requires
        forall|i: int|
            0 <= i && i + 11 <= text.len() && #[trigger] text[i] == 'p' && starts_line(text, i)
                ==> text[i + 4] != 'f',
    ensures
        hook_lines(text) == 0,
{
    lemma_hook_line_chars(text);
    lemma_count_none(text.len(), |i: int| hook_line_at(text, i));
}

/// Listing the positions at which hooks are opened counts them.
pub proof fn lemma_hook_lines_listed(text: Seq<char>, listed: Set<int>)
    requires
        listed.finite(),
        forall|i: int| #[trigger]
            listed.contains(i) <==> 0 <= i < text.len() && hook_line_at(text, i),
    ensures
        hook_lines(text) == listed.len(),
{
    lemma_count_listed(text.len(), |i: int| hook_line_at(text, i), listed);
}

/// Whole lines none of which opens a hook.
pub proof fn lemma_plain_lines(text: Seq<char>)
    requires
        text.len() > 0,
        text.last() == '\n',
        forall|i: int|
            0 <= i && i + 11 <= text.len() && #[trigger] text[i] == 'p' && starts_line(text, i)
                ==> text[i + 4] != 'f',
    ensures
        whole_lines(text),
        hook_lines(text) == 0,
{
    lemma_no_hook_lines(text);
}

/// The start of a line that opens no hook.
pub proof fn lemma_plain_opening(text: Seq<char>)
    requires
        text.len() > 0,
        text[0] != 'p',
        unbroken(text),
    ensures
        line_opening(text),
        hook_lines(text) == 0,
{
    lemma_hook_start();
    assert forall|i: int|
        0 <= i && i + 11 <= text.len() && #[trigger] text[i] == 'p' && starts_line(
            text,
            i,
        ) implies text[i + 4] != 'f' by {
        if i > 0 {
            assert(text[i - 1] != '\n');
        }
    }
    lemma_no_hook_lines(text);
}

/// The start of a line that opens a hook.
pub proof fn lemma_hook_opening(text: Seq<char>)
    requires
        text.len() >= 11,
        text.take(11) =~= HOOK_START@,
        unbroken(text),
    ensures
        line_opening(text),
        hook_lines(text) == 1,
{
    lemma_hook_start();
    assert(text.subrange(0, 11) =~= text.take(11));
    assert forall|i: int| #[trigger] set![0int].contains(i) <==> 0 <= i < text.len()
        && hook_line_at(text, i) by {
        if 0 < i < text.len() {
            assert(text[i - 1] != '\n');
        }
    }
    lemma_count_listed(text.len(), |i: int| hook_line_at(text, i), set![0int]);
}

/// Appending to whole lines adds the hooks that are opened in what is appended.
pub proof fn lemma_append_at_line_start(text: Seq<char>, more: Seq<char>)
    requires
        ends_line(text),
    ensures
        hook_lines(text + more) == hook_lines(text) + hook_lines(more),
{
    lemma_hook_start();
    let all = text + more;
    let n = HOOK_START@.len() as int;
    assert forall|i: int| 0 <= i < text.len() implies #[trigger] hook_line_at(text, i)
        == hook_line_at(all, i) by {
        if i + n <= text.len() {
            assert(all.subrange(i, i + n) =~= text.subrange(i, i + n));
        } else if occurs_at(all, HOOK_START@, i) {
            let part = all.subrange(i, i + n);
            assert(part[text.len() - 1 - i] == text.last());
        }
    }
    assert forall|j: int| 0 <= j < more.len() implies #[trigger] hook_line_at(more, j)
        == hook_line_at(all, text.len() + j) by {
        let i = text.len() + j;
        if j + n <= more.len() {
            assert(all.subrange(i, i + n) =~= more.subrange(j, j + n));
        }
        if j > 0 {
            assert(all[i - 1] == more[j - 1]);
        }
    }
    lemma_count_split(
        text.len(),
        more.len(),
        |i: int| hook_line_at(all, i),
        |i: int| hook_line_at(text, i),
        |j: int| hook_line_at(more, j),
    );
}

/// Appending the rest of a line opens no hook.
pub proof fn lemma_append_within_line(text: Seq<char>, more: Seq<char>)
    requires
        within_line(text),
        unbroken(more) || line_end(more),
    ensures
        hook_lines(text + more) == hook_lines(text),
{
    lemma_hook_start();
    let k = choose|k: int| #[trigger] opening_at(text, k);
    let all = text + more;
    let last = text.skip(k);
    let n = HOOK_START@.len() as int;
    assert forall|i: int| 0 <= i < text.len() implies #[trigger] hook_line_at(text, i)
        == hook_line_at(all, i) by {
        if i + n <= text.len() {
            assert(all.subrange(i, i + n) =~= text.subrange(i, i + n));
        } else if starts_line(all, i) && occurs_at(all, HOOK_START@, i) {
            if i > k {
                assert(last[i - 1 - k] == text[i - 1]);
            } else if i < k {
                let part = all.subrange(i, i + n);
                assert(part[k - 1 - i] == text[k - 1]);
            } else {
                assert(all.subrange(i, i + n)[0] == text[i]);
                assert(last[0] == text[i]);
            }
        }
    }
    let none = |j: int| false;
    assert forall|j: int| 0 <= j < more.len() implies #[trigger] none(j) == hook_line_at(
        all,
        text.len() + j,
    ) by {
        if j == 0 {
            assert(last[last.len() - 1] == text.last());
            assert(all[text.len() - 1] == text.last());
        } else {
            assert(all[text.len() + j - 1] == more[j - 1]);
            if line_end(more) {
                assert(more.drop_last()[j - 1] == more[j - 1]);
            }
        }
    }
    lemma_count_split(
        text.len(),
        more.len(),
        |i: int| hook_line_at(all, i),
        |i: int| hook_line_at(text, i),
        none,
    );
    lemma_count_none(more.len(), none);
}

/// Whole lines after whole lines.
pub broadcast proof fn lemma_add_lines(text: Seq<char>, more: Seq<char>)
    requires
        ends_line(text),
        ends_line(more),
    ensures
        #[trigger] hook_lines(text + more) == hook_lines(text) + hook_lines(more),
{
    lemma_append_at_line_start(text, more);
}

/// A line opened after whole lines.
pub broadcast proof fn lemma_add_opening(text: Seq<char>, more: Seq<char>)
    requires
        ends_line(text),
        line_opening(more),
    ensures
        #[trigger] hook_lines(text + more) == hook_lines(text) + hook_lines(more),
{
    lemma_append_at_line_start(text, more);
}

/// More of a line.
pub broadcast proof fn lemma_add_within(text: Seq<char>, more: Seq<char>)
    requires
        within_line(text),
        unbroken(more) || line_end(more),
    ensures
        #[trigger] hook_lines(text + more) == hook_lines(text),
{
    lemma_append_within_line(text, more);
}

/// What ends in a line break ends a line, whatever it is appended to.
pub broadcast proof fn lemma_ends_line(text: Seq<char>, more: Seq<char>)
    requires
        whole_lines(more) || line_end(more),
    ensures
        #[trigger] ends_line(text + more),
{
}

/// Whole lines after whole lines end a line.
pub broadcast proof fn lemma_both_end_line(text: Seq<char>, more: Seq<char>)
    requires
        ends_line(text),
        ends_line(more),
    ensures
        #[trigger] ends_line(text + more),
{
    if more.len() == 0 {
        assert(text + more =~= text);
    }
}

/// What ends in a line break is made of whole lines, whatever it is appended to.
pub broadcast proof fn lemma_whole_lines(text: Seq<char>, more: Seq<char>)
    requires
        whole_lines(more) || line_end(more),
    ensures
        #[trigger] whole_lines(text + more),
{
}

/// A line opened after whole lines is within a line.
pub broadcast proof fn lemma_opening_is_within(text: Seq<char>, more: Seq<char>)
    requires
        ends_line(text),
        line_opening(more),
    ensures
        #[trigger] within_line(text + more),
{
    assert((text + more).skip(text.len() as int) =~= more);
    assert(opening_at(text + more, text.len() as int));
}

/// Without a line break the text stays within the line.
pub broadcast proof fn lemma_stays_within(text: Seq<char>, more: Seq<char>)
    requires
        within_line(text),
        unbroken(more),
    ensures
        #[trigger] within_line(text + more),
{
    let k = choose|k: int| #[trigger] opening_at(text, k);
    assert((text + more).skip(k) =~= text.skip(k) + more);
    let last = (text + more).skip(k);
    assert forall|i: int| 0 <= i < last.len() implies last[i] != '\n' by {
        if i < text.skip(k).len() {
            assert(last[i] == text.skip(k)[i]);
        }
    }
    assert(last[0] == text.skip(k)[0]);
    assert(opening_at(text + more, k));
}

/// A line opening by itself is within a line.
pub broadcast proof fn lemma_opening_alone(text: Seq<char>)
    requires
        line_opening(text),
    ensures
        #[trigger] within_line(text),
{
    assert(text.skip(0) =~= text);
    assert(opening_at(text, 0));
}

/// Appending unbroken texts leaves no line break.
pub broadcast proof fn lemma_unbroken(text: Seq<char>, more: Seq<char>)
    requires
        unbroken(text),
        unbroken(more),
    ensures
        #[trigger] unbroken(text + more),
{
}

pub broadcast group group_lines {
    lemma_add_lines,
    lemma_add_opening,
    lemma_add_within,
    lemma_ends_line,
    lemma_both_end_line,
    lemma_whole_lines,
    lemma_opening_is_within,
    lemma_stays_within,
    lemma_opening_alone,
}

} // verus!
