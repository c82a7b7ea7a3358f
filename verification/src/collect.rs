//! Collecting from a module what its hooks need to know.

use vstd::prelude::*;
use std::collections::HashMap;
use crate::args::{
    arg_names, arg_names_text, arg_types, arg_types_text, arglist, arglist_text, args_type_name,
    args_type_text, Arg, ArgView,
};
use crate::casing::{case_converted, pascal, snake, to_case, Case};
use crate::info::{
    ProcedureInfo, ProcedureInfoView, ReducerInfo, ReducerInfoView, TableInfo, TableInfoView,
};
use crate::schema::{
    AlgebraicTypeRef, CodegenVisibility, ModuleDef, ParamDef, ProcedureDef, ReducerDef, Relation,
};
use crate::text::views;
use crate::types::{
    alias_texts, hook_type_text, renderable, type_name_for_hook, type_ref_name, type_ref_text,
    type_text, write_type_to_string,
};

verus! {

/// Whether one of the tables and views that the hooks cover goes by `accessor` and has a primary
/// key.
pub open spec fn has_primary_key(
    module: ModuleDef,
    visibility: CodegenVisibility,
    accessor: Seq<char>,
) -> bool {
    exists|i: int|
        0 <= i < module.relations@.len() && #[trigger] is_keyed(
            module.relations@[i],
            visibility,
            accessor,
        )
}

/// Whether `relation` is covered, goes by `accessor` and has a primary key.
pub open spec fn is_keyed(
    relation: Relation,
    visibility: CodegenVisibility,
    accessor: Seq<char>,
) -> bool {
    relation.is_covered(visibility) && relation.key() is Some && relation.accessor() == accessor
}

/// What the hooks need to know of `relation`.
pub open spec fn table_info_view(
    module: ModuleDef,
    visibility: CodegenVisibility,
    relation: Relation,
) -> TableInfoView {
    TableInfoView {
        accessor_snake: snake(relation.accessor()),
        row_type: type_ref_text(module, relation.row_ref()),
        has_primary_key: has_primary_key(module, visibility, relation.accessor()),
    }
}

/// The tables and views that the hooks cover.
pub open spec fn covered_relations(
    module: ModuleDef,
    visibility: CodegenVisibility,
) -> Seq<Relation> {
    module.relations@.filter(|r: Relation| r.is_covered(visibility))
}

/// What the hooks need to know of the module's tables and views.
pub open spec fn table_infos(
    module: ModuleDef,
    visibility: CodegenVisibility,
) -> Seq<TableInfoView> {
    covered_relations(module, visibility).map_values(
        |r: Relation| table_info_view(module, visibility, r),
    )
}

/// Whether the module defines the row types of the tables and views that the hooks cover.
pub open spec fn tables_defined(module: ModuleDef, visibility: CodegenVisibility) -> bool {
    forall|i: int|
        0 <= i < module.relations@.len() && (
        #[trigger] module.relations@[i]).is_covered(visibility) ==> module.type_def(
            module.relations@[i].row_ref(),
        ) is Some
}

/// A parameter as the hooks spell it.
pub open spec fn hook_arg_view(
    module: ModuleDef,
    param: ParamDef,
    wrapper: Seq<char>,
) -> ArgView {
    ArgView {
        name: snake(param.name@),
        ty: hook_type_text(module, param.ty, param.rust_name@, wrapper),
    }
}

/// The parameters of what `accessor` is the name of, as the hooks spell them.
pub open spec fn hook_arg_views(
    module: ModuleDef,
    params: Seq<ParamDef>,
    accessor: Seq<char>,
) -> Seq<ArgView> {
    params.map_values(
        |p: ParamDef| hook_arg_view(module, p, args_type_text(pascal(accessor))),
    )
}

/// Whether the module defines every type that `params` mention, at any depth.
pub open spec fn params_defined(module: ModuleDef, params: Seq<ParamDef>) -> bool {
    forall|i: int|
        0 <= i < params.len() ==> renderable(module, (#[trigger] params[i]).ty, Map::empty())
}

/// What the hooks need to know of a reducer with these names and arguments.
pub open spec fn reducer_info_of(
    name_snake: Seq<char>,
    name_orig: Seq<char>,
    args: Seq<ArgView>,
) -> ReducerInfoView {
    ReducerInfoView {
        name_snake,
        name_orig,
        arglist: arglist_text(args),
        arg_names: arg_names_text(args),
        closure_params: arglist_text(args),
        fn_trait_params: arg_types_text(args),
    }
}

/// What the hooks need to know of `reducer`.
pub open spec fn reducer_info_view(module: ModuleDef, reducer: ReducerDef) -> ReducerInfoView {
    reducer_info_of(
        snake(reducer.name@),
        reducer.name@,
        hook_arg_views(module, reducer.params_for_generate@, reducer.accessor_name@),
    )
}

/// The reducers that the hooks cover.
pub open spec fn covered_reducers(
    module: ModuleDef,
    visibility: CodegenVisibility,
) -> Seq<ReducerDef> {
    module.reducers@.filter(|r: ReducerDef| r.is_covered(visibility))
}

/// What the hooks need to know of the module's reducers.
pub open spec fn reducer_infos(
    module: ModuleDef,
    visibility: CodegenVisibility,
) -> Seq<ReducerInfoView> {
    covered_reducers(module, visibility).map_values(|r: ReducerDef| reducer_info_view(module, r))
}

/// Whether the module defines the types that the hooks for its reducers name.
pub open spec fn reducers_defined(module: ModuleDef, visibility: CodegenVisibility) -> bool {
    forall|i: int|
        0 <= i < module.reducers@.len() && (#[trigger] module.reducers@[i]).is_covered(visibility)
            ==> params_defined(module, module.reducers@[i].params_for_generate@)
}

/// What the hooks need to know of a procedure with these names, arguments and return type.
pub open spec fn procedure_info_of(
    name_snake: Seq<char>,
    name_orig: Seq<char>,
    args: Seq<ArgView>,
    return_type: Seq<char>,
) -> ProcedureInfoView {
    ProcedureInfoView {
        name_snake,
        name_orig,
        arg_names: arg_names_text(args),
        closure_params: arglist_text(args),
        fn_trait_params: arg_types_text(args),
        return_type,
    }
}

/// What the hooks need to know of `procedure`.
pub open spec fn procedure_info_view(
    module: ModuleDef,
    procedure: ProcedureDef,
) -> ProcedureInfoView {
    procedure_info_of(
        snake(procedure.accessor_name@),
        procedure.name@,
        hook_arg_views(module, procedure.params_for_generate@, procedure.accessor_name@),
        type_text(module, procedure.return_type_for_generate, Map::empty()),
    )
}

/// The procedures that the hooks cover.
pub open spec fn covered_procedures(
    module: ModuleDef,
    visibility: CodegenVisibility,
) -> Seq<ProcedureDef> {
    module.procedures@.filter(|p: ProcedureDef| p.is_covered(visibility))
}

/// What the hooks need to know of the module's procedures.
pub open spec fn procedure_infos(
    module: ModuleDef,
    visibility: CodegenVisibility,
) -> Seq<ProcedureInfoView> {
    covered_procedures(module, visibility).map_values(
        |p: ProcedureDef| procedure_info_view(module, p),
    )
}

/// Whether the module defines the types that the hooks for `procedure` name.
pub open spec fn procedure_defined(module: ModuleDef, procedure: ProcedureDef) -> bool {
    params_defined(module, procedure.params_for_generate@) && renderable(
        module,
        procedure.return_type_for_generate,
        Map::empty(),
    )
}

/// Whether the module defines the types that the hooks for its procedures name.
pub open spec fn procedures_defined(module: ModuleDef, visibility: CodegenVisibility) -> bool {
    forall|i: int|
        0 <= i < module.procedures@.len() && (
        #[trigger] module.procedures@[i]).is_covered(visibility) ==> procedure_defined(
            module,
            module.procedures@[i],
        )
}

/// One more item is kept at the end, or is not.
proof fn lemma_filter_step<T>(items: Seq<T>, i: int, keep: spec_fn(T) -> bool)
    requires
        0 <= i < items.len(),
    ensures
        items.take(i + 1).filter(keep) == if keep(items[i]) {
            items.take(i).filter(keep).push(items[i])
        } else {
            items.take(i).filter(keep)
        },
{
    reveal(Seq::filter);
    assert(items.take(i + 1).drop_last() =~= items.take(i));
}

/// Nothing is kept of nothing.
proof fn lemma_filter_none<T>(items: Seq<T>, keep: spec_fn(T) -> bool)
    ensures
        items.take(0).filter(keep) == Seq::<T>::empty(),
{
    reveal(Seq::filter);
}

/// Whether one of the tables and views that the hooks cover goes by `accessor` and has a primary
/// key.
fn find_primary_key(module: &ModuleDef, visibility: CodegenVisibility, accessor: &String) -> (found:
    bool)
    ensures
        found == has_primary_key(*module, visibility, accessor@),
{
    for i in 0..module.relations.len()
        invariant
            forall|j: int|
                0 <= j < i ==> !#[trigger] is_keyed(module.relations@[j], visibility, accessor@),
    {
        let relation = &module.relations[i];
        if relation.covered(visibility) && relation.has_key() && *relation.accessor_name()
            == *accessor {
            assert(is_keyed(module.relations@[i as int], visibility, accessor@));
            return true;
        }
    }
    false
}

/// Collects what the hooks need to know of the module's tables and views.
#[verifier::loop_isolation(false)]
pub fn collect_tables(module: &ModuleDef, visibility: CodegenVisibility) -> (infos: Vec<TableInfo>)
    requires
        tables_defined(*module, visibility),
    ensures
        views(infos@) == table_infos(*module, visibility),
        forall|k: int|
            0 <= k < infos@.len() ==> (#[trigger] infos@[k]).accessor_snake@ == case_converted(
                covered_relations(*module, visibility)[k].accessor(),
                Case::Snake,
            ),
{
    let mut infos: Vec<TableInfo> = Vec::new();
    let ghost all = module.relations@;
    let ghost keep = |r: Relation| r.is_covered(visibility);
    let ghost info = |r: Relation| table_info_view(*module, visibility, r);
    proof {
        lemma_filter_none(all, keep);
        assert(views(infos@) =~= all.take(0).filter(keep).map_values(info));
    }
    for i in 0..module.relations.len()
        invariant
            views(infos@) == all.take(i as int).filter(keep).map_values(info),
    {
        let ghost before = infos@;
        let relation = &module.relations[i];
        proof {
            lemma_filter_step(all, i as int, keep);
        }
        if relation.covered(visibility) {
            let accessor = relation.accessor_name();
            infos.push(
                TableInfo {
                    accessor_snake: to_case(accessor.as_str(), Case::Snake),
                    row_type: type_ref_name(module, relation.product_type_ref()),
                    has_primary_key: find_primary_key(module, visibility, accessor),
                },
            );
            assert(views(infos@) =~= views(before).push(info(all[i as int])));
            assert(views(infos@) =~= all.take(i + 1).filter(keep).map_values(info));
        }
    }
    assert(all.take(all.len() as int) =~= all);
    assert forall|k: int| 0 <= k < infos@.len() implies (#[trigger] infos@[k]).accessor_snake@
        == case_converted(covered_relations(*module, visibility)[k].accessor(), Case::Snake) by {
        assert(views(infos@)[k] == infos@[k]@);
    }
    infos
}

/// Spells the parameters of what `accessor` is the name of as the hooks do.
#[verifier::loop_isolation(false)]
fn hook_args(module: &ModuleDef, params: &Vec<ParamDef>, accessor: &str) -> (args: Vec<Arg>)
    requires
        params_defined(*module, params@),
    ensures
        views(args@) == hook_arg_views(*module, params@, accessor@),
{
    let wrapper = args_type_name(to_case(accessor, Case::Pascal).as_str());
    let mut args: Vec<Arg> = Vec::new();
    for i in 0..params.len()
        invariant
            args@.len() == i,
            forall|j: int|
                0 <= j < i ==> #[trigger] args@[j]@ == hook_arg_view(
                    *module,
                    params@[j],
                    wrapper@,
                ),
    {
        let param = &params[i];
        args.push(
            Arg {
                name: to_case(param.name.as_str(), Case::Snake),
                ty: type_name_for_hook(
                    module,
                    &param.ty,
                    param.rust_name.as_str(),
                    wrapper.as_str(),
                ),
            },
        );
    }
    assert(views(args@) =~= hook_arg_views(*module, params@, accessor@));
    args
}

/// What the hooks need to know of a reducer with these names and arguments.
pub fn reducer_info(name_snake: String, name_orig: String, args: &Vec<Arg>) -> (info: ReducerInfo)
    ensures
        info@ == reducer_info_of(name_snake@, name_orig@, views(args@)),
{
    ReducerInfo {
        name_snake,
        name_orig,
        arglist: arglist(args),
        arg_names: arg_names(args),
        closure_params: arglist(args),
        fn_trait_params: arg_types(args),
    }
}

/// Collects what the hooks need to know of the module's reducers.
#[verifier::loop_isolation(false)]
pub fn collect_reducers(module: &ModuleDef, visibility: CodegenVisibility) -> (infos: Vec<
    ReducerInfo,
>)
    requires
        reducers_defined(*module, visibility),
    ensures
        views(infos@) == reducer_infos(*module, visibility),
{
    let mut infos: Vec<ReducerInfo> = Vec::new();
    let ghost all = module.reducers@;
    let ghost keep = |r: ReducerDef| r.is_covered(visibility);
    let ghost info = |r: ReducerDef| reducer_info_view(*module, r);
    proof {
        lemma_filter_none(all, keep);
        assert(views(infos@) =~= all.take(0).filter(keep).map_values(info));
    }
    for i in 0..module.reducers.len()
        invariant
            views(infos@) == all.take(i as int).filter(keep).map_values(info),
    {
        let ghost before = infos@;
        let reducer = &module.reducers[i];
        proof {
            lemma_filter_step(all, i as int, keep);
        }
        if reducer.covered(visibility) {
            let args = hook_args(
                module,
                &reducer.params_for_generate,
                reducer.accessor_name.as_str(),
            );
            let name_snake = to_case(reducer.name.as_str(), Case::Snake);
            infos.push(reducer_info(name_snake, reducer.name.clone(), &args));
            assert(views(infos@) =~= views(before).push(info(all[i as int])));
            assert(views(infos@) =~= all.take(i + 1).filter(keep).map_values(info));
        }
    }
    assert(all.take(all.len() as int) =~= all);
    infos
}

/// What the hooks need to know of a procedure with these names, arguments and return type.
pub fn procedure_info(
    name_snake: String,
    name_orig: String,
    args: &Vec<Arg>,
    return_type: String,
) -> (info: ProcedureInfo)
    ensures
        info@ == procedure_info_of(name_snake@, name_orig@, views(args@), return_type@),
{
    ProcedureInfo {
        name_snake,
        name_orig,
        arg_names: arg_names(args),
        closure_params: arglist(args),
        fn_trait_params: arg_types(args),
        return_type,
    }
}

/// Collects what the hooks need to know of the module's procedures.
#[verifier::loop_isolation(false)]
pub fn collect_procedures(module: &ModuleDef, visibility: CodegenVisibility) -> (infos: Vec<
    ProcedureInfo,
>)
    requires
        procedures_defined(*module, visibility),
    ensures
        views(infos@) == procedure_infos(*module, visibility),
{
    let mut infos: Vec<ProcedureInfo> = Vec::new();
    let no_aliases: HashMap<AlgebraicTypeRef, String> = HashMap::new();
    let ghost all = module.procedures@;
    let ghost keep = |p: ProcedureDef| p.is_covered(visibility);
    let ghost info = |p: ProcedureDef| procedure_info_view(*module, p);
    proof {
        assert(alias_texts(no_aliases@) =~= Map::empty());
        lemma_filter_none(all, keep);
        assert(views(infos@) =~= all.take(0).filter(keep).map_values(info));
    }
    for i in 0..module.procedures.len()
        invariant
            views(infos@) == all.take(i as int).filter(keep).map_values(info),
    {
        let ghost before = infos@;
        let procedure = &module.procedures[i];
        proof {
            lemma_filter_step(all, i as int, keep);
        }
        if procedure.covered(visibility) {
            let args = hook_args(
                module,
                &procedure.params_for_generate,
                procedure.accessor_name.as_str(),
            );
            let mut return_type = String::new();
            let ty = &procedure.return_type_for_generate;
            write_type_to_string(&mut return_type, module, ty, &no_aliases);
            assert(return_type@ =~= type_text(*module, *ty, Map::empty()));
            let name_snake = to_case(procedure.accessor_name.as_str(), Case::Snake);
            infos.push(procedure_info(name_snake, procedure.name.clone(), &args, return_type));
            assert(views(infos@) =~= views(before).push(info(all[i as int])));
            assert(views(infos@) =~= all.take(i + 1).filter(keep).map_values(info));
        }
    }
    assert(all.take(all.len() as int) =~= all);
    infos
}

} // verus!
