//! Whether a module defines the types that the code generated for it has to name.
//!
//! The generating functions ask for it; these functions find out.

use vstd::prelude::*;
use crate::collect::{
    params_defined, procedure_defined, procedures_defined, reducers_defined, tables_defined,
};
use crate::hooks_file::hooks_defined;
use crate::refs::param_refs;
use crate::schema::{AlgebraicTypeUse, CodegenVisibility, ModuleDef, ParamDef, ReducerDef};
use crate::types::renderable;

verus! {

/// Whether the module defines every type that `ty` mentions, at any depth.
pub fn type_is_defined(module: &ModuleDef, ty: &AlgebraicTypeUse) -> (defined: bool)
    ensures
        defined == module.defines(ty.refs()),
    decreases ty,
{
    match ty {
        AlgebraicTypeUse::Array(elem) => type_is_defined(module, elem),
        AlgebraicTypeUse::Option(inner) => type_is_defined(module, inner),
        AlgebraicTypeUse::Result { ok_ty, err_ty } => {
            proof {
                lemma_defines_union(*module, ok_ty.refs(), err_ty.refs());
            }
            type_is_defined(module, ok_ty) && type_is_defined(module, err_ty)
        },
        AlgebraicTypeUse::Ref(r) => {
            assert(ty.refs().contains(*r));
            module.type_def_from_ref(*r).is_some()
        },
        _ => true,
    }
}

/// All of two sets is defined where all of each is.
proof fn lemma_defines_union(module: ModuleDef, a: Set<u32>, b: Set<u32>)
    ensures
        module.defines(a.union(b)) == (module.defines(a) && module.defines(b)),
{
    if module.defines(a.union(b)) {
        assert forall|r: u32| #[trigger] a.contains(r) implies module.type_def(r) is Some by {
            assert(a.union(b).contains(r));
        }
        assert forall|r: u32| #[trigger] b.contains(r) implies module.type_def(r) is Some by {
            assert(a.union(b).contains(r));
        }
    }
}

/// Whether the module defines every type that the file of `reducer` names.
pub fn reducer_is_defined(module: &ModuleDef, reducer: &ReducerDef) -> (defined: bool)
    ensures
        defined == module.defines(param_refs(reducer.params_for_generate@)),
{
    let params = &reducer.params_for_generate;
    let mut defined = true;
    for i in 0..params.len()
        invariant
            params == &reducer.params_for_generate,
            defined == module.defines(param_refs(params@.take(i as int))),
    {
        proof {
            assert(params@.take(i + 1).drop_last() =~= params@.take(i as int));
            lemma_defines_union(
                *module,
                param_refs(params@.take(i as int)),
                params@[i as int].ty.refs(),
            );
        }
        defined = type_is_defined(module, &params[i].ty) && defined;
    }
    assert(params@.take(params@.len() as int) =~= params@);
    defined
}

fn params_are_defined(module: &ModuleDef, params: &Vec<ParamDef>) -> (defined: bool)
    ensures
        defined == params_defined(*module, params@),
{
    for i in 0..params.len()
        invariant
            forall|j: int|
                0 <= j < i ==> renderable(*module, (#[trigger] params@[j]).ty, Map::empty()),
    {
        if !type_is_defined(module, &params[i].ty) {
            assert(!renderable(*module, params@[i as int].ty, Map::empty()));
            return false;
        }
    }
    true
}

fn tables_are_defined(module: &ModuleDef, visibility: CodegenVisibility) -> (defined: bool)
    ensures
        defined == tables_defined(*module, visibility),
{
    for i in 0..module.relations.len()
        invariant
            forall|j: int|
                0 <= j < i && (#[trigger] module.relations@[j]).is_covered(visibility)
                    ==> module.type_def(module.relations@[j].row_ref()) is Some,
    {
        let relation = &module.relations[i];
        if relation.covered(visibility) && module.type_def_from_ref(
            relation.product_type_ref(),
        ).is_none() {
            assert(module.relations@[i as int].is_covered(visibility));
            return false;
        }
    }
    true
}

fn reducers_are_defined(module: &ModuleDef, visibility: CodegenVisibility) -> (defined: bool)
    ensures
        defined == reducers_defined(*module, visibility),
{
    for i in 0..module.reducers.len()
        invariant
            forall|j: int|
                0 <= j < i && (#[trigger] module.reducers@[j]).is_covered(visibility)
                    ==> params_defined(*module, module.reducers@[j].params_for_generate@),
    {
        let reducer = &module.reducers[i];
        if reducer.covered(visibility) && !params_are_defined(
            module,
            &reducer.params_for_generate,
        ) {
            assert(module.reducers@[i as int].is_covered(visibility));
            return false;
        }
    }
    true
}

fn procedures_are_defined(module: &ModuleDef, visibility: CodegenVisibility) -> (defined: bool)
    ensures
        defined == procedures_defined(*module, visibility),
{
    for i in 0..module.procedures.len()
        invariant
            forall|j: int|
                0 <= j < i && (#[trigger] module.procedures@[j]).is_covered(visibility)
                    ==> procedure_defined(*module, module.procedures@[j]),
    {
        let procedure = &module.procedures[i];
        if procedure.covered(visibility) && !(params_are_defined(
            module,
            &procedure.params_for_generate,
        ) && type_is_defined(module, &procedure.return_type_for_generate)) {
            assert(module.procedures@[i as int].is_covered(visibility));
            return false;
        }
    }
    true
}

/// Whether the module defines every type that its hooks name.
pub fn hooks_are_defined(module: &ModuleDef, visibility: CodegenVisibility) -> (defined: bool)
    ensures
        defined == hooks_defined(*module, visibility),
{
    tables_are_defined(module, visibility) && reducers_are_defined(module, visibility)
        && procedures_are_defined(module, visibility)
}

} // verus!
