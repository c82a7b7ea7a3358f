//! Which types a module has to define for its code to be generated.

use vstd::prelude::*;
use crate::collect::{params_defined, procedure_defined};
use crate::hooks_file::hooks_defined;
use crate::refs::{lemma_param_refs_contain, param_refs};
use crate::schema::{CodegenVisibility, ModuleDef, ParamDef, Relation};
use crate::types::renderable;

verus! {

/// The hooks for a reducer need the same types defined as the reducer's file.
pub proof fn law_the_hooks_need_what_the_file_needs(module: ModuleDef, params: Seq<ParamDef>)
    ensures
        params_defined(module, params) == module.defines(param_refs(params)),
    decreases params.len(),
{
    if params.len() > 0 {
        let shorter = params.drop_last();
        law_the_hooks_need_what_the_file_needs(module, shorter);
        assert(forall|i: int| 0 <= i < shorter.len() ==> #[trigger] shorter[i] == params[i]);
        if params_defined(module, params) {
            assert(params_defined(module, shorter));
            assert(renderable(module, params[params.len() - 1].ty, Map::empty()));
        }
        if module.defines(param_refs(params)) {
            assert forall|i: int| 0 <= i < params.len() implies renderable(
                module,
                (#[trigger] params[i]).ty,
                Map::empty(),
            ) by {
                lemma_param_refs_contain(params, i);
            }
        }
    }
}

/// The hooks need defined the row type of every view and of every table that is public or included,
/// and every type that a parameter or the return type mentions, at any depth, of a reducer that a
/// client may invoke or of a procedure, public or included.
pub proof fn law_what_has_to_be_defined(module: ModuleDef, visibility: CodegenVisibility)
    ensures
        hooks_defined(module, visibility) <==> {
            &&& forall|i: int|
                0 <= i < module.relations@.len() ==> match #[trigger] module.relations@[i] {
                    Relation::Table(t) => visibility is OnlyPublic && t.is_private
                        || module.type_def(t.product_type_ref) is Some,
                    Relation::View(v) => module.type_def(v.product_type_ref) is Some,
                }
            &&& forall|i: int, j: int, r: u32|
                #![trigger module.reducers@[i].params_for_generate@[j].ty.refs().contains(r)]
                0 <= i < module.reducers@.len() && module.reducers@[i].is_invokable && (
                visibility is IncludePrivate || !module.reducers@[i].is_private) && 0 <= j
                    < module.reducers@[i].params_for_generate@.len()
                    && module.reducers@[i].params_for_generate@[j].ty.refs().contains(r)
                    ==> module.type_def(r) is Some
            &&& forall|i: int, j: int, r: u32|
                #![trigger module.procedures@[i].params_for_generate@[j].ty.refs().contains(r)]
                0 <= i < module.procedures@.len() && (visibility is IncludePrivate
                    || !module.procedures@[i].is_private) && 0 <= j
                    < module.procedures@[i].params_for_generate@.len()
                    && module.procedures@[i].params_for_generate@[j].ty.refs().contains(r)
                    ==> module.type_def(r) is Some
            &&& forall|i: int, r: u32|
                #![trigger module.procedures@[i].return_type_for_generate.refs().contains(r)]
                0 <= i < module.procedures@.len() && (visibility is IncludePrivate
                    || !module.procedures@[i].is_private)
                    && module.procedures@[i].return_type_for_generate.refs().contains(r)
                    ==> module.type_def(r) is Some
        },
{
    if hooks_defined(module, visibility) {
        assert forall|i: int, j: int, r: u32|
            #![trigger module.reducers@[i].params_for_generate@[j].ty.refs().contains(r)]
            0 <= i < module.reducers@.len() && module.reducers@[i].is_covered(visibility) && 0 <= j
                < module.reducers@[i].params_for_generate@.len()
                && module.reducers@[i].params_for_generate@[j].ty.refs().contains(
                r,
            ) implies module.type_def(r) is Some by {
            assert(params_defined(module, module.reducers@[i].params_for_generate@));
        }
        assert forall|i: int, j: int, r: u32|
            #![trigger module.procedures@[i].params_for_generate@[j].ty.refs().contains(r)]
            0 <= i < module.procedures@.len() && module.procedures@[i].is_covered(visibility) && 0
                <= j < module.procedures@[i].params_for_generate@.len()
                && module.procedures@[i].params_for_generate@[j].ty.refs().contains(
                r,
            ) implies module.type_def(r) is Some by {
            assert(procedure_defined(module, module.procedures@[i]));
        }
        assert forall|i: int, r: u32|
            #![trigger module.procedures@[i].return_type_for_generate.refs().contains(r)]
            0 <= i < module.procedures@.len() && module.procedures@[i].is_covered(visibility)
                && module.procedures@[i].return_type_for_generate.refs().contains(
                r,
            ) implies module.type_def(r) is Some by {
            assert(procedure_defined(module, module.procedures@[i]));
        }
    }
}

/// A module that defines the types which the hooks for all its declarations name also defines
/// those which the hooks for the public ones name.
pub proof fn law_public_hooks_need_no_more(module: ModuleDef)
    requires
        hooks_defined(module, CodegenVisibility::IncludePrivate),
    ensures
        hooks_defined(module, CodegenVisibility::OnlyPublic),
{
    let all = CodegenVisibility::IncludePrivate;
    assert(forall|i: int|
        0 <= i < module.relations@.len() ==> (#[trigger] module.relations@[i]).is_covered(all));
    assert(forall|i: int|
        0 <= i < module.reducers@.len() && (#[trigger] module.reducers@[i]).is_covered(
            CodegenVisibility::OnlyPublic,
        ) ==> module.reducers@[i].is_covered(all));
    assert(forall|i: int|
        0 <= i < module.procedures@.len() ==> (#[trigger] module.procedures@[i]).is_covered(all));
}

} // verus!
