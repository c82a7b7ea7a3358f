//! Counting positions.

use vstd::prelude::*;

verus! {

/// How many of the numbers below `n` meet `p`.
pub open spec fn count_where(n: nat, p: spec_fn(int) -> bool) -> nat
    decreases n,
{
    if n == 0 {
        0
    } else {
        let before = count_where((n - 1) as nat, p);
        if p(n - 1) {
            before + 1
        } else {
            before
        }
    }
}

/// Two tests that agree below `n` count alike.
pub proof fn lemma_count_agree(n: nat, p: spec_fn(int) -> bool, q: spec_fn(int) -> bool)
    requires
        forall|i: int| 0 <= i < n ==> #[trigger] p(i) == q(i),
    ensures
        count_where(n, p) == count_where(n, q),
    decreases n,
{
    if n > 0 {
        assert(p(n - 1) == q(n - 1));
        lemma_count_agree((n - 1) as nat, p, q);
    }
}

/// The numbers below `m + n` that meet `p` are those below `m` and those of the `n` from there on.
pub proof fn lemma_count_split(
    m: nat,
    n: nat,
    p: spec_fn(int) -> bool,
    first: spec_fn(int) -> bool,
    second: spec_fn(int) -> bool,
)
    requires
        forall|i: int| 0 <= i < m ==> #[trigger] first(i) == p(i),
        forall|j: int| 0 <= j < n ==> #[trigger] second(j) == p(m + j),
    ensures
        count_where(m + n, p) == count_where(m, first) + count_where(n, second),
    decreases n,
{
    if n == 0 {
        lemma_count_agree(m, first, p);
    } else {
        assert(second(n - 1) == p(m + n - 1));
        lemma_count_split(m, (n - 1) as nat, p, first, second);
    }
}

/// Where nothing meets `p` nothing is counted.
pub proof fn lemma_count_none(n: nat, p: spec_fn(int) -> bool)
    requires
        forall|i: int| 0 <= i < n ==> !#[trigger] p(i),
    ensures
        count_where(n, p) == 0,
    decreases n,
{
    if n > 0 {
        assert(!p(n - 1));
        lemma_count_none((n - 1) as nat, p);
    }
}

/// Listing the numbers that meet `p` counts them.
pub proof fn lemma_count_listed(n: nat, p: spec_fn(int) -> bool, listed: Set<int>)
    requires
        listed.finite(),
        forall|i: int| #[trigger] listed.contains(i) <==> 0 <= i < n && p(i),
    ensures
        count_where(n, p) == listed.len(),
    decreases n,
{
    if n == 0 {
        assert(listed =~= Set::empty());
    } else {
        let last = n - 1;
        let others = listed.remove(last);
        assert forall|i: int| #[trigger] others.contains(i) <==> 0 <= i < last && p(i) by {
            assert(listed.contains(i) <==> 0 <= i < n && p(i));
        }
        lemma_count_listed(last as nat, p, others);
        assert(listed.contains(last) <==> p(last));
        if !p(last) {
            assert(others =~= listed);
        }
    }
}

} // verus!
