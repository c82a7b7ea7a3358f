//! The name that a reducer or procedure was declared under stands in documentation alone.

use vstd::prelude::*;
use crate::hooks::procedure::{call_hook_text, procedure_hook_text, signal_hook_text};
use crate::hooks::reducer::{
    async_hook_text, callback_hook_text, reducer_hook_text, then_hook_text,
};
use crate::info::{ProcedureInfoView, ReducerInfoView};
use super::counting::{count_where, lemma_count_none, lemma_count_split};
use super::lines::{
    ends_line, lemma_ends_line, lemma_whole_lines, line_end, unbroken, whole_lines,
};
use super::literals::{
    lemma_async_end, lemma_call_end, lemma_callback_end, lemma_invoke_end, lemma_then_end,
};

verus! {

/// The parts of `text` between its line breaks.
pub open spec fn split_lines(text: Seq<char>) -> Seq<Seq<char>>
    decreases text.len(),
{
    if text.len() == 0 {
        seq![Seq::empty()]
    } else {
        let before = split_lines(text.drop_last());
        if text.last() == '\n' {
            before.push(Seq::empty())
        } else {
            before.drop_last().push(before.last().push(text.last()))
        }
    }
}

/// A line that has `name` between backticks.
pub open spec fn quoting(start: Seq<char>, name: Seq<char>, end: Seq<char>) -> Seq<char> {
    start + "`"@ + name + "`"@ + end
}

/// Whether `a` and `b` are the same line of documentation but for what they quote, which is `m` in
/// one and `n` in the other.
pub open spec fn same_but_quoted(
    a: Seq<char>,
    b: Seq<char>,
    m: Seq<char>,
    n: Seq<char>,
) -> bool {
    exists|start: Seq<char>, end: Seq<char>|
        "///"@.is_prefix_of(start) && a == #[trigger] quoting(start, m, end) && b == quoting(
            start,
            n,
            end,
        )
}

/// Whether two lists differ at position `i`.
pub open spec fn differ_at(a: Seq<Seq<char>>, b: Seq<Seq<char>>, i: int) -> bool {
    a[i] != b[i]
}

/// Whether `a` and `b` have as many lines, of which `k` differ, all of them documentation and only
/// in that one quotes `m` and the other `n`.
pub open spec fn differ_in_documentation(
    a: Seq<char>,
    b: Seq<char>,
    m: Seq<char>,
    n: Seq<char>,
    k: nat,
) -> bool {
    let la = split_lines(a);
    let lb = split_lines(b);
    &&& la.len() == lb.len()
    &&& count_where(la.len(), |i: int| differ_at(la, lb, i)) == k
    &&& forall|i: int|
        0 <= i < la.len() && #[trigger] differ_at(la, lb, i) ==> same_but_quoted(
            la[i],
            lb[i],
            m,
            n,
        )
}

/// There is a part before the first line break.
proof fn lemma_split_some(text: Seq<char>)
    ensures
        split_lines(text).len() > 0,
        ends_line(text) ==> split_lines(text).last() == Seq::<char>::empty(),
    decreases text.len(),
{
    if text.len() > 0 {
        lemma_split_some(text.drop_last());
    }
}

/// After whole lines the parts of what is appended follow.
proof fn lemma_split_append(text: Seq<char>, more: Seq<char>)
    requires
        ends_line(text),
    ensures
        split_lines(text + more) == split_lines(text).drop_last() + split_lines(more),
    decreases more.len(),
{
    lemma_split_some(text);
    if more.len() == 0 {
        assert(text + more =~= text);
        assert(split_lines(text) =~= split_lines(text).drop_last() + split_lines(more));
    } else {
        let shorter = more.drop_last();
        lemma_split_append(text, shorter);
        lemma_split_some(shorter);
        assert((text + more).drop_last() =~= text + shorter);
        assert((text + more).last() == more.last());
        assert(split_lines(text + more) =~= split_lines(text).drop_last() + split_lines(more));
    }
}

/// A text without line breaks is one part.
proof fn lemma_split_unbroken(text: Seq<char>)
    requires
        unbroken(text),
    ensures
        split_lines(text) == seq![text],
    decreases text.len(),
{
    if text.len() == 0 {
        assert(text =~= Seq::empty());
    } else {
        lemma_split_unbroken(text.drop_last());
        assert(text =~= text.drop_last().push(text.last()));
        assert(split_lines(text) =~= seq![text]);
    }
}

/// A text differs from itself in no line.
proof fn lemma_same(text: Seq<char>, m: Seq<char>, n: Seq<char>)
    ensures
        differ_in_documentation(text, text, m, n, 0),
{
    let lines = split_lines(text);
    lemma_count_none(lines.len(), |i: int| differ_at(lines, lines, i));
}

/// Texts one after the other differ where each does.
proof fn lemma_differ_append(
    a: Seq<char>,
    b: Seq<char>,
    c: Seq<char>,
    d: Seq<char>,
    m: Seq<char>,
    n: Seq<char>,
    j: nat,
    k: nat,
)
    requires
        ends_line(a),
        ends_line(b),
        differ_in_documentation(a, b, m, n, j),
        differ_in_documentation(c, d, m, n, k),
    ensures
        differ_in_documentation(a + c, b + d, m, n, j + k),
{
    let la = split_lines(a);
    let lb = split_lines(b);
    let lc = split_lines(c);
    let ld = split_lines(d);
    let all = split_lines(a + c);
    let other = split_lines(b + d);
    lemma_split_some(a);
    lemma_split_some(b);
    lemma_split_append(a, c);
    lemma_split_append(b, d);
    let first = (la.len() - 1) as nat;
    assert(!differ_at(la, lb, first as int));
    assert(count_where(la.len(), |i: int| differ_at(la, lb, i)) == count_where(
        first,
        |i: int| differ_at(la, lb, i),
    ));
    lemma_count_split(
        first,
        lc.len(),
        |i: int| differ_at(all, other, i),
        |i: int| differ_at(la, lb, i),
        |i: int| differ_at(lc, ld, i),
    );
    assert forall|i: int| 0 <= i < all.len() && #[trigger] differ_at(
        all,
        other,
        i,
    ) implies same_but_quoted(all[i], other[i], m, n) by {
        if i < first {
            assert(differ_at(la, lb, i));
        } else {
            assert(differ_at(lc, ld, i - first));
        }
    }
}

/// A line of documentation that quotes two names differs where the names do.
proof fn lemma_quoting_line(
    start: Seq<char>,
    end: Seq<char>,
    open: Seq<char>,
    close: Seq<char>,
    m: Seq<char>,
    n: Seq<char>,
)
    requires
        m != n,
        unbroken(m),
        unbroken(n),
        unbroken(open),
        line_end(close),
        "///"@.is_prefix_of(start),
        open == start + "`"@,
        close == "`"@ + end + "\n"@,
    ensures
        differ_in_documentation(open + m + close, open + n + close, m, n, 1),
        ends_line(open + m + close),
        ends_line(open + n + close),
{
    reveal_strlit("\n");
    let a = quoting(start, m, end);
    let b = quoting(start, n, end);
    assert(open + m + close =~= a.push('\n'));
    assert(open + n + close =~= b.push('\n'));
    assert(close.drop_last() =~= "`"@ + end);
    assert(a =~= open + m + close.drop_last());
    assert(b =~= open + n + close.drop_last());
    lemma_split_unbroken(a);
    lemma_split_unbroken(b);
    assert(a.push('\n').drop_last() =~= a);
    assert(b.push('\n').drop_last() =~= b);
    let la = split_lines(a.push('\n'));
    let lb = split_lines(b.push('\n'));
    assert(la =~= seq![a, Seq::empty()]);
    assert(lb =~= seq![b, Seq::empty()]);
    assert(a != b) by {
        if a == b {
            assert(a.len() == open.len() + m.len() + close.drop_last().len());
            assert(m =~= a.subrange(open.len() as int, (open.len() + m.len()) as int));
            assert(n =~= b.subrange(open.len() as int, (open.len() + n.len()) as int));
        }
    }
    assert(differ_at(la, lb, 0));
    assert(!differ_at(la, lb, 1));
    reveal_with_fuel(count_where, 3);
    assert(same_but_quoted(a, b, m, n));
}

/// Whether the same text follows `a` in `all` as follows `b` in `other`.
pub open spec fn same_after(
    a: Seq<char>,
    all: Seq<char>,
    b: Seq<char>,
    other: Seq<char>,
) -> bool {
    exists|rest: Seq<char>| all == #[trigger] (a + rest) && other == b + rest
}

/// Appending the same text to both leaves the same text after both.
broadcast proof fn lemma_same_after(
    a: Seq<char>,
    all: Seq<char>,
    b: Seq<char>,
    other: Seq<char>,
    more: Seq<char>,
)
    requires
        same_after(a, all, b, other),
    ensures
        #[trigger] same_after(a, all + more, b, other + more),
{
    let rest = choose|rest: Seq<char>| all == #[trigger] (a + rest) && other == b + rest;
    assert(all + more =~= a + (rest + more));
    assert(other + more =~= b + (rest + more));
}

/// Nothing follows a text in itself.
proof fn lemma_nothing_after(a: Seq<char>, b: Seq<char>)
    ensures
        same_after(a, a, b, b),
{
    assert(a =~= a + Seq::<char>::empty());
    assert(b =~= b + Seq::<char>::empty());
}

/// Texts that go on alike differ where their starts do.
proof fn lemma_differ_at_start(
    a: Seq<char>,
    all: Seq<char>,
    b: Seq<char>,
    other: Seq<char>,
    m: Seq<char>,
    n: Seq<char>,
    k: nat,
)
    requires
        ends_line(a),
        ends_line(b),
        same_after(a, all, b, other),
        differ_in_documentation(a, b, m, n, k),
    ensures
        differ_in_documentation(all, other, m, n, k),
{
    let rest = choose|rest: Seq<char>| all == #[trigger] (a + rest) && other == b + rest;
    lemma_same(rest, m, n);
    lemma_differ_append(a, b, rest, rest, m, n, k, 0);
}

/// A line of documentation that ends its opening, and starts its closing, with a backtick.
proof fn lemma_doc_line(open: Seq<char>, close: Seq<char>, m: Seq<char>, n: Seq<char>)
    requires
        m != n,
        unbroken(m),
        unbroken(n),
        open.len() > 3,
        open[0] == '/' && open[1] == '/' && open[2] == '/',
        open.last() == '`',
        unbroken(open),
        close.len() > 1,
        close[0] == '`',
        line_end(close),
    ensures
        differ_in_documentation(open + m + close, open + n + close, m, n, 1),
        ends_line(open + m + close),
        ends_line(open + n + close),
{
    reveal_strlit("///");
    reveal_strlit("`");
    reveal_strlit("\n");
    let start = open.drop_last();
    let end = close.subrange(1, close.len() - 1);
    assert(open =~= start + "`"@);
    assert(close =~= "`"@ + end + "\n"@);
    assert("///"@ =~= start.take(3));
    lemma_quoting_line(start, end, open, close, m, n);
}

/// Whether two reducers differ in nothing but the names that they were declared under, which hold
/// no line break.
pub open spec fn renamed_reducer(r: ReducerInfoView, s: ReducerInfoView) -> bool {
    &&& s == (ReducerInfoView { name_orig: s.name_orig, ..r })
    &&& r.name_orig != s.name_orig
    &&& unbroken(r.name_orig)
    &&& unbroken(s.name_orig)
}

/// Whether two procedures differ in nothing but the names that they were declared under, which hold
/// no line break.
pub open spec fn renamed_procedure(p: ProcedureInfoView, q: ProcedureInfoView) -> bool {
    &&& q == (ProcedureInfoView { name_orig: q.name_orig, ..p })
    &&& p.name_orig != q.name_orig
    &&& unbroken(p.name_orig)
    &&& unbroken(q.name_orig)
}

/// The callback for a renamed reducer.
proof fn lemma_callback_hook_renamed(r: ReducerInfoView, s: ReducerInfoView)
    requires
        renamed_reducer(r, s),
    ensures
        differ_in_documentation(callback_hook_text(r), callback_hook_text(s), r.name_orig, s.name_orig, 1),
        ends_line(callback_hook_text(r)),
        ends_line(callback_hook_text(s)),
{
    let open = "/// Get a callback to invoke the `"@;
    let close = "` reducer.\n"@;
    reveal_strlit("/// Get a callback to invoke the `");
    reveal_strlit("` reducer.\n");
    lemma_doc_line(open, close, r.name_orig, s.name_orig);
    let first = open + r.name_orig + close;
    let other = open + s.name_orig + close;
    lemma_nothing_after(first, other);
    assert(same_after(first, callback_hook_text(r), other, callback_hook_text(s))) by {
        broadcast use lemma_same_after;

    }
    lemma_differ_at_start(
        first,
        callback_hook_text(r),
        other,
        callback_hook_text(s),
        r.name_orig,
        s.name_orig,
        1,
    );
    assert(ends_line(callback_hook_text(r)) && ends_line(callback_hook_text(s))) by {
        broadcast use {lemma_ends_line, lemma_whole_lines};

        lemma_callback_end();
    }
}

/// The callback with a signal for a renamed reducer.
proof fn lemma_then_hook_renamed(r: ReducerInfoView, s: ReducerInfoView)
    requires
        renamed_reducer(r, s),
    ensures
        differ_in_documentation(then_hook_text(r), then_hook_text(s), r.name_orig, s.name_orig, 1),
        ends_line(then_hook_text(r)),
        ends_line(then_hook_text(s)),
{
    let open = "/// Invoke the `"@;
    let close = "` reducer and get a reactive signal for its completion status.\n"@;
    reveal_strlit("/// Invoke the `");
    reveal_strlit("` reducer and get a reactive signal for its completion status.\n");
    lemma_doc_line(open, close, r.name_orig, s.name_orig);
    let first = open + r.name_orig + close;
    let other = open + s.name_orig + close;
    lemma_nothing_after(first, other);
    assert(same_after(first, then_hook_text(r), other, then_hook_text(s))) by {
        broadcast use lemma_same_after;

    }
    lemma_differ_at_start(
        first,
        then_hook_text(r),
        other,
        then_hook_text(s),
        r.name_orig,
        s.name_orig,
        1,
    );
    assert(ends_line(then_hook_text(r)) && ends_line(then_hook_text(s))) by {
        broadcast use {lemma_ends_line, lemma_whole_lines};

        lemma_then_end();
    }
}

/// The callback that can be awaited for a renamed reducer.
proof fn lemma_async_hook_renamed(r: ReducerInfoView, s: ReducerInfoView)
    requires
        renamed_reducer(r, s),
    ensures
        differ_in_documentation(async_hook_text(r), async_hook_text(s), r.name_orig, s.name_orig, 1),
        ends_line(async_hook_text(r)),
        ends_line(async_hook_text(s)),
{
    let open = "/// Invoke the `"@;
    let close = "` reducer asynchronously and await its completion.\n"@;
    reveal_strlit("/// Invoke the `");
    reveal_strlit("` reducer asynchronously and await its completion.\n");
    lemma_doc_line(open, close, r.name_orig, s.name_orig);
    let first = open + r.name_orig + close;
    let other = open + s.name_orig + close;
    lemma_nothing_after(first, other);
    assert(same_after(first, async_hook_text(r), other, async_hook_text(s))) by {
        broadcast use lemma_same_after;

    }
    lemma_differ_at_start(
        first,
        async_hook_text(r),
        other,
        async_hook_text(s),
        r.name_orig,
        s.name_orig,
        1,
    );
    assert(ends_line(async_hook_text(r)) && ends_line(async_hook_text(s))) by {
        broadcast use {lemma_ends_line, lemma_whole_lines};

        lemma_async_end();
    }
}

/// The hook with a signal for a renamed procedure.
proof fn lemma_signal_hook_renamed(p: ProcedureInfoView, q: ProcedureInfoView)
    requires
        renamed_procedure(p, q),
    ensures
        differ_in_documentation(signal_hook_text(p), signal_hook_text(q), p.name_orig, q.name_orig, 1),
        ends_line(signal_hook_text(p)),
        ends_line(signal_hook_text(q)),
{
    let open = "/// Invoke the `"@;
    let close = "` procedure and get a reactive signal for its result.\n"@;
    reveal_strlit("/// Invoke the `");
    reveal_strlit("` procedure and get a reactive signal for its result.\n");
    lemma_doc_line(open, close, p.name_orig, q.name_orig);
    let first = open + p.name_orig + close;
    let other = open + q.name_orig + close;
    lemma_nothing_after(first, other);
    assert(same_after(first, signal_hook_text(p), other, signal_hook_text(q))) by {
        broadcast use lemma_same_after;

    }
    lemma_differ_at_start(
        first,
        signal_hook_text(p),
        other,
        signal_hook_text(q),
        p.name_orig,
        q.name_orig,
        1,
    );
    assert(ends_line(signal_hook_text(p)) && ends_line(signal_hook_text(q))) by {
        broadcast use {lemma_ends_line, lemma_whole_lines};

        lemma_invoke_end();
    }
}

/// The hook that can be awaited for a renamed procedure.
proof fn lemma_call_hook_renamed(p: ProcedureInfoView, q: ProcedureInfoView)
    requires
        renamed_procedure(p, q),
    ensures
        differ_in_documentation(call_hook_text(p), call_hook_text(q), p.name_orig, q.name_orig, 1),
        ends_line(call_hook_text(p)),
        ends_line(call_hook_text(q)),
{
    let open = "/// Invoke the `"@;
    let close = "` procedure asynchronously.\n"@;
    reveal_strlit("/// Invoke the `");
    reveal_strlit("` procedure asynchronously.\n");
    lemma_doc_line(open, close, p.name_orig, q.name_orig);
    let first = open + p.name_orig + close;
    let other = open + q.name_orig + close;
    lemma_nothing_after(first, other);
    assert(same_after(first, call_hook_text(p), other, call_hook_text(q))) by {
        broadcast use lemma_same_after;

    }
    lemma_differ_at_start(
        first,
        call_hook_text(p),
        other,
        call_hook_text(q),
        p.name_orig,
        q.name_orig,
        1,
    );
    assert(ends_line(call_hook_text(p)) && ends_line(call_hook_text(q))) by {
        broadcast use {lemma_ends_line, lemma_whole_lines};

        lemma_call_end();
    }
}

/// The hooks for two reducers that differ only in the names that they were declared under differ in
/// three lines, each of which is documentation that quotes the name.
pub proof fn law_a_reducers_name_is_documentation(r: ReducerInfoView, s: ReducerInfoView)
    requires
        renamed_reducer(r, s),
    ensures
        differ_in_documentation(
            reducer_hook_text(r),
            reducer_hook_text(s),
            r.name_orig,
            s.name_orig,
            3,
        ),
{
    let (m, n) = (r.name_orig, s.name_orig);
    let blank = "\n"@;
    reveal_strlit("\n");
    lemma_callback_hook_renamed(r, s);
    lemma_then_hook_renamed(r, s);
    lemma_async_hook_renamed(r, s);
    lemma_same(blank, m, n);
    lemma_around_blank(
        callback_hook_text(r),
        callback_hook_text(s),
        blank,
        then_hook_text(r),
        then_hook_text(s),
        m,
        n,
    );
    let first = callback_hook_text(r) + blank + then_hook_text(r);
    let other = callback_hook_text(s) + blank + then_hook_text(s);
    lemma_ends(callback_hook_text(r) + blank, then_hook_text(r));
    lemma_ends(callback_hook_text(s) + blank, then_hook_text(s));
    lemma_differ_append(first, other, blank, blank, m, n, 2, 0);
    lemma_ends(first, blank);
    lemma_ends(other, blank);
    lemma_differ_append(
        first + blank,
        other + blank,
        async_hook_text(r),
        async_hook_text(s),
        m,
        n,
        2,
        1,
    );
}

/// Whole lines after anything end a line.
proof fn lemma_ends(text: Seq<char>, more: Seq<char>)
    requires
        whole_lines(more),
    ensures
        ends_line(text + more),
{
}

/// Two texts with a blank line between them, each of which differs in one line, differ in two.
proof fn lemma_around_blank(
    a: Seq<char>,
    b: Seq<char>,
    blank: Seq<char>,
    c: Seq<char>,
    d: Seq<char>,
    m: Seq<char>,
    n: Seq<char>,
)
    requires
        ends_line(a),
        ends_line(b),
        whole_lines(blank),
        differ_in_documentation(a, b, m, n, 1),
        differ_in_documentation(c, d, m, n, 1),
    ensures
        differ_in_documentation(a + blank + c, b + blank + d, m, n, 2),
{
    lemma_same(blank, m, n);
    lemma_differ_append(a, b, blank, blank, m, n, 1, 0);
    lemma_differ_append(a + blank, b + blank, c, d, m, n, 1, 1);
}

/// The hooks for two procedures that differ only in the names that they were declared under differ
/// in two lines, each of which is documentation that quotes the name.
pub proof fn law_a_procedures_name_is_documentation(p: ProcedureInfoView, q: ProcedureInfoView)
    requires
        renamed_procedure(p, q),
    ensures
        differ_in_documentation(
            procedure_hook_text(p),
            procedure_hook_text(q),
            p.name_orig,
            q.name_orig,
            2,
        ),
{
    reveal_strlit("\n");
    lemma_signal_hook_renamed(p, q);
    lemma_call_hook_renamed(p, q);
    lemma_around_blank(
        signal_hook_text(p),
        signal_hook_text(q),
        "\n"@,
        call_hook_text(p),
        call_hook_text(q),
        p.name_orig,
        q.name_orig,
    );
}

} // verus!
