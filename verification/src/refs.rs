//! The types of a module that a list of parameters mentions, each once and in ascending order.

use vstd::prelude::*;
use std::collections::BTreeSet;
use crate::schema::{AlgebraicTypeRef, AlgebraicTypeUse, ParamDef};

verus! {

/// The types of the module that `params` mention, at any depth.
pub open spec fn param_refs(params: Seq<ParamDef>) -> Set<AlgebraicTypeRef>
    decreases params.len(),
{
    if params.len() == 0 {
        Set::empty()
    } else {
        param_refs(params.drop_last()).union(params.last().ty.refs())
    }
}

/// Every type that one of `params` mentions is mentioned by the whole list.
pub proof fn lemma_param_refs_contain(params: Seq<ParamDef>, i: int)
    requires
        0 <= i < params.len(),
    ensures
        params[i].ty.refs().subset_of(param_refs(params)),
    decreases params.len(),
{
    if i < params.len() - 1 {
        lemma_param_refs_contain(params.drop_last(), i);
        assert(params.drop_last()[i] == params[i]);
    }
}

/// Whether `refs` ascend, which leaves no room for a repetition.
pub open spec fn ascending(refs: Seq<AlgebraicTypeRef>) -> bool {
    forall|i: int, j: int| 0 <= i < j < refs.len() ==> refs[i] < refs[j]
}

/// The members of `refs` in ascending order.
pub open spec fn in_order(refs: Set<AlgebraicTypeRef>) -> Seq<AlgebraicTypeRef> {
    choose|s: Seq<AlgebraicTypeRef>| ascending(s) && #[trigger] s.to_set() == refs
}

/// Only one ascending sequence has a given set of members.
pub proof fn lemma_ascending_unique(a: Seq<AlgebraicTypeRef>, b: Seq<AlgebraicTypeRef>)
    requires
        ascending(a),
        ascending(b),
        a.to_set() == b.to_set(),
    ensures
        a == b,
    decreases a.len(),
{
    if a.len() == 0 {
        if b.len() > 0 {
            assert(b.to_set().contains(b[0]));
            assert(a.to_set().contains(b[0]));
        }
        assert(a =~= b);
    } else {
        assert(a.to_set().contains(a.last()));
        assert(b.to_set().contains(a.last()));
        let i = choose|i: int| 0 <= i < b.len() && b[i] == a.last();
        assert(b.to_set().contains(b.last()));
        assert(a.to_set().contains(b.last()));
        let j = choose|j: int| 0 <= j < a.len() && a[j] == b.last();
        assert(a.last() == b.last());
        assert forall|r: AlgebraicTypeRef|
            a.drop_last().to_set().contains(r) == b.drop_last().to_set().contains(r) by {
            lemma_without_last(a, r);
            lemma_without_last(b, r);
        }
        assert(a.drop_last().to_set() =~= b.drop_last().to_set());
        lemma_ascending_unique(a.drop_last(), b.drop_last());
        assert(a =~= a.drop_last().push(a.last()));
        assert(b =~= b.drop_last().push(b.last()));
    }
}

proof fn lemma_without_last(s: Seq<AlgebraicTypeRef>, r: AlgebraicTypeRef)
    requires
        s.len() > 0,
        ascending(s),
    ensures
        s.drop_last().to_set().contains(r) == (s.to_set().contains(r) && r != s.last()),
{
    if s.contains(r) && r != s.last() {
        let i = choose|i: int| 0 <= i < s.len() && s[i] == r;
        assert(s.drop_last()[i] == r);
    }
    if s.drop_last().contains(r) {
        let i = choose|i: int| 0 <= i < s.drop_last().len() && s.drop_last()[i] == r;
        assert(s[i] == r);
    }
}

/// A set of references below `bound` can be put in ascending order.
proof fn lemma_order_exists(refs: Set<AlgebraicTypeRef>, bound: nat) -> (s: Seq<AlgebraicTypeRef>)
    requires
        bound <= u32::MAX + 1,
        forall|r: AlgebraicTypeRef| #[trigger] refs.contains(r) ==> r < bound,
    ensures
        ascending(s),
        s.to_set() == refs,
    decreases bound,
{
    if bound == 0 {
        assert(Seq::<AlgebraicTypeRef>::empty().to_set() =~= refs);
        Seq::empty()
    } else {
        let top = (bound - 1) as u32;
        let below = lemma_order_exists(refs.remove(top), (bound - 1) as nat);
        if refs.contains(top) {
            let s = below.push(top);
            assert forall|i: int, j: int| 0 <= i < j < s.len() implies s[i] < s[j] by {
                if j == below.len() {
                    assert(below.to_set().contains(below[i]));
                }
            }
            assert forall|r: AlgebraicTypeRef| s.to_set().contains(r) == refs.contains(r) by {
                if s.contains(r) {
                    let i = choose|i: int| 0 <= i < s.len() && s[i] == r;
                    if i < below.len() {
                        assert(below.to_set().contains(below[i]));
                    }
                }
                if refs.contains(r) && r != top {
                    assert(below.to_set().contains(r));
                    let i = choose|i: int| 0 <= i < below.len() && below[i] == r;
                    assert(s[i] == r);
                }
                if r == top {
                    assert(s[below.len() as int] == r);
                }
            }
            assert(s.to_set() =~= refs);
            s
        } else {
            assert(refs.remove(top) =~= refs);
            below
        }
    }
}

/// The members of every set of references can be put in ascending order.
pub proof fn lemma_in_order(refs: Set<AlgebraicTypeRef>)
    ensures
        ascending(in_order(refs)),
        in_order(refs).to_set() == refs,
{
    let s = lemma_order_exists(refs, (u32::MAX + 1) as nat);
    assert(ascending(s) && s.to_set() == refs);
}

/// A reference to an integer is ordered as the integer is.
proof fn lemma_refs_are_ordered()
    ensures
        vstd::laws_cmp::obeys_cmp::<&AlgebraicTypeRef>(),
{
    broadcast use vstd::laws_eq::group_laws_eq;
    broadcast use vstd::laws_cmp::group_laws_cmp;

    reveal(vstd::laws_eq::obeys_eq_spec_properties);
    reveal(vstd::laws_cmp::obeys_partial_cmp_spec_properties);
    reveal(vstd::laws_cmp::obeys_cmp_partial_ord);
    reveal(vstd::laws_cmp::obeys_cmp_ord);
    assert(vstd::laws_eq::obeys_eq::<&AlgebraicTypeRef>());
}

/// Adds to `refs` the types of the module that `ty` mentions, at any depth.
pub fn insert_refs(ty: &AlgebraicTypeUse, refs: &mut BTreeSet<AlgebraicTypeRef>)
    ensures
        final(refs)@ == old(refs)@.union(ty.refs()),
    decreases ty,
{
    broadcast use vstd::laws_cmp::group_laws_cmp;

    match ty {
        AlgebraicTypeUse::Array(elem) => insert_refs(elem, refs),
        AlgebraicTypeUse::Option(inner) => insert_refs(inner, refs),
        AlgebraicTypeUse::Result { ok_ty, err_ty } => {
            insert_refs(ok_ty, refs);
            insert_refs(err_ty, refs);
        },
        AlgebraicTypeUse::Ref(r) => {
            refs.insert(*r);
        },
        _ => {},
    }
    assert(refs@ =~= old(refs)@.union(ty.refs()));
}

/// The members of `refs` in ascending order.
pub fn sorted(refs: &BTreeSet<AlgebraicTypeRef>) -> (list: Vec<AlgebraicTypeRef>)
    ensures
        ascending(list@),
        list@.to_set() == refs@,
        list@ == in_order(refs@),
{
    broadcast use vstd::std_specs::btree::group_btree_axioms;
    broadcast use vstd::laws_cmp::group_laws_cmp;

    let mut list: Vec<AlgebraicTypeRef> = Vec::new();
    let ghost keys = vstd::std_specs::iter::IteratorSpec::remaining(&refs.iter());
    proof {
        lemma_refs_are_ordered();
        assert forall|i: int, j: int| 0 <= i < j < keys.len() implies *keys[i] < *keys[j] by {
            assert(vstd::std_specs::cmp::OrdSpec::cmp_spec(&keys[i], &keys[j]) is Less);
        }
    }
    for r in it: refs.iter()
        invariant
            it.seq() == keys,
            list@ == keys.unref().take(it.index()),
    {
        list.push(*r);
    }
    assert(list@ =~= keys.unref());
    proof {
        lemma_ascending_unique(list@, in_order(refs@));
    }
    list
}

/// The types of the module that `params` mention, in ascending order.
pub fn collect_refs(params: &Vec<ParamDef>) -> (list: Vec<AlgebraicTypeRef>)
    ensures
        ascending(list@),
        list@.to_set() == param_refs(params@),
        list@ == in_order(param_refs(params@)),
{
    let mut refs: BTreeSet<AlgebraicTypeRef> = BTreeSet::new();
    for i in 0..params.len()
        invariant
            refs@ == param_refs(params@.take(i as int)),
    {
        insert_refs(&params[i].ty, &mut refs);
        assert(params@.take(i + 1).drop_last() =~= params@.take(i as int));
    }
    assert(params@.take(params@.len() as int) =~= params@);
    sorted(&refs)
}

} // verus!
