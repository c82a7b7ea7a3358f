//! What the hooks know of the module's declarations, and which declarations they cover.

use vstd::prelude::*;
use crate::args::{arg_names_text, arg_types_text, arglist_text, args_type_text, Arg, ArgView};
use crate::casing::{case_converted, Case};
use crate::collect::{
    covered_procedures, covered_reducers, covered_relations, hook_arg_views, is_keyed,
    procedure_info_of, procedure_infos, reducer_info_of, reducer_infos, table_infos,
};
use crate::info::{
    ProcedureInfo, ProcedureInfoView, ReducerInfo, ReducerInfoView, TableInfo, TableInfoView,
};
use crate::output::{OutputFile, OutputFileView};
use crate::schema::{
    AlgebraicTypeUse, CodegenVisibility, ModuleDef, ParamDef, ProcedureDef, ReducerDef, Relation,
};
use crate::types::{type_module_text, type_ref_text, type_text};

verus! {

/// Whether `kept` are the items at the positions `at`, which ascend and are exactly those of the
/// items that pass `test`.
pub open spec fn picks<T>(
    at: Seq<int>,
    items: Seq<T>,
    kept: Seq<T>,
    test: spec_fn(T) -> bool,
) -> bool {
    &&& at.len() == kept.len()
    &&& forall|j: int, k: int| 0 <= j < k < at.len() ==> at[j] < at[k]
    &&& forall|k: int|
        0 <= k < at.len() ==> 0 <= #[trigger] at[k] < items.len() && kept[k] == items[at[k]]
    &&& forall|i: int|
        0 <= i < items.len() ==> (test(#[trigger] items[i]) <==> at.contains(i))
}

/// Whether `kept` are those of `items` that pass `test`, each once, in their order.
pub open spec fn selected<T>(items: Seq<T>, kept: Seq<T>, test: spec_fn(T) -> bool) -> bool {
    exists|at: Seq<int>| picks(at, items, kept, test)
}

/// Filtering selects.
proof fn lemma_filter_selects<T>(
    items: Seq<T>,
    keep: spec_fn(T) -> bool,
    test: spec_fn(T) -> bool,
)
    requires
        forall|i: int| 0 <= i < items.len() ==> keep(#[trigger] items[i]) == test(items[i]),
    ensures
        selected(items, items.filter(keep), test),
    decreases items.len(),
{
    reveal(Seq::filter);
    if items.len() == 0 {
        assert(picks(Seq::empty(), items, items.filter(keep), test));
    } else {
        let shorter = items.drop_last();
        assert forall|i: int| 0 <= i < shorter.len() implies keep(#[trigger] shorter[i]) == test(
            shorter[i],
        ) by {
            assert(shorter[i] == items[i]);
        }
        lemma_filter_selects(shorter, keep, test);
        let at = choose|at: Seq<int>| picks(at, shorter, shorter.filter(keep), test);
        let last = items.len() - 1;
        assert(items.last() == items[last]);
        let all = if keep(items[last]) {
            at.push(last)
        } else {
            at
        };
        assert forall|i: int| 0 <= i < items.len() implies (test(#[trigger] items[i])
            <==> all.contains(i)) by {
            if i < last {
                assert(shorter[i] == items[i]);
                if at.contains(i) {
                    let k = choose|k: int| 0 <= k < at.len() && at[k] == i;
                    assert(all[k] == i);
                }
                if all.contains(i) {
                    let k = choose|k: int| 0 <= k < all.len() && all[k] == i;
                    assert(at[k] == i);
                }
            } else {
                if keep(items[last]) {
                    assert(all[at.len() as int] == last);
                } else if at.contains(last) {
                    let k = choose|k: int| 0 <= k < at.len() && at[k] == last;
                    assert(at[k] < shorter.len());
                }
            }
        }
        assert forall|k: int| 0 <= k < all.len() implies 0 <= #[trigger] all[k] < items.len()
            && items.filter(keep)[k] == items[all[k]] by {
            if k < at.len() {
                assert(all[k] == at[k]);
                assert(shorter[at[k]] == items[at[k]]);
            }
        }
        assert(picks(all, items, items.filter(keep), test));
    }
}

/// The hooks cover every view, the tables that are public, and the private ones if these are
/// included; of the reducers and procedures the public ones, and the private ones if these are
/// included, but no reducer that a client may not invoke. They are covered in the module's order.
pub proof fn law_what_is_covered(module: ModuleDef, visibility: CodegenVisibility)
    ensures
        selected(
            module.relations@,
            covered_relations(module, visibility),
            |r: Relation|
                r is View || visibility is IncludePrivate || !r->Table_0.is_private,
        ),
        selected(
            module.reducers@,
            covered_reducers(module, visibility),
            |r: ReducerDef|
                r.is_invokable && (visibility is IncludePrivate || !r.is_private),
        ),
        selected(
            module.procedures@,
            covered_procedures(module, visibility),
            |p: ProcedureDef| visibility is IncludePrivate || !p.is_private,
        ),
        table_infos(module, visibility).len() == covered_relations(module, visibility).len(),
        reducer_infos(module, visibility).len() == covered_reducers(module, visibility).len(),
        procedure_infos(module, visibility).len() == covered_procedures(module, visibility).len(),
{
    lemma_filter_selects(
        module.relations@,
        |r: Relation| r.is_covered(visibility),
        |r: Relation| r is View || visibility is IncludePrivate || !r->Table_0.is_private,
    );
    lemma_filter_selects(
        module.reducers@,
        |r: ReducerDef| r.is_covered(visibility),
        |r: ReducerDef| r.is_invokable && (visibility is IncludePrivate || !r.is_private),
    );
    lemma_filter_selects(
        module.procedures@,
        |p: ProcedureDef| p.is_covered(visibility),
        |p: ProcedureDef| visibility is IncludePrivate || !p.is_private,
    );
}

/// What the hooks know of the `k`-th covered table or view: the accessor in snake case, the name of
/// the row type, and whether a covered relation of that accessor has a primary key.
pub proof fn law_what_is_known_of_a_table(
    module: ModuleDef,
    visibility: CodegenVisibility,
    k: int,
)
    requires
        0 <= k < covered_relations(module, visibility).len(),
    ensures
        covered_relations(module, visibility)[k] matches Relation::Table(t) ==> {
            let info = table_infos(module, visibility)[k];
            &&& info.accessor_snake == case_converted(t.accessor_name@, Case::Snake)
            &&& info.row_type == type_ref_text(module, t.product_type_ref)
            &&& info.has_primary_key == keyed(module, visibility, t.accessor_name@)
        },
        covered_relations(module, visibility)[k] matches Relation::View(v) ==> {
            let info = table_infos(module, visibility)[k];
            &&& info.accessor_snake == case_converted(v.accessor_name@, Case::Snake)
            &&& info.row_type == type_ref_text(module, v.product_type_ref)
            &&& info.has_primary_key == keyed(module, visibility, v.accessor_name@)
        },
{
    let accessor = covered_relations(module, visibility)[k].accessor();
    assert forall|i: int| 0 <= i < module.relations@.len() implies (#[trigger] is_keyed(
        module.relations@[i],
        visibility,
        accessor,
    ) == carries_key(module.relations@[i], visibility, accessor)) by {}
    if keyed(module, visibility, accessor) {
        let i = choose|i: int|
            0 <= i < module.relations@.len() && #[trigger] carries_key(
                module.relations@[i],
                visibility,
                accessor,
            );
        assert(is_keyed(module.relations@[i], visibility, accessor));
    }
    if crate::collect::has_primary_key(module, visibility, accessor) {
        let i = choose|i: int|
            0 <= i < module.relations@.len() && #[trigger] is_keyed(
                module.relations@[i],
                visibility,
                accessor,
            );
        assert(carries_key(module.relations@[i], visibility, accessor));
    }
}

/// Whether a view called `accessor`, or a table of that name which is public or included, has a
/// primary key.
pub open spec fn keyed(
    module: ModuleDef,
    visibility: CodegenVisibility,
    accessor: Seq<char>,
) -> bool {
    exists|i: int|
        0 <= i < module.relations@.len() && #[trigger] carries_key(
            module.relations@[i],
            visibility,
            accessor,
        )
}

/// Whether the relation is called `accessor` and has a primary key; a table has to be public or
/// included.
pub open spec fn carries_key(
    relation: Relation,
    visibility: CodegenVisibility,
    accessor: Seq<char>,
) -> bool {
    match relation {
        Relation::Table(t) => t.accessor_name@ == accessor && t.primary_key is Some && (
        visibility is IncludePrivate || !t.is_private),
        Relation::View(v) => v.accessor_name@ == accessor && v.primary_key is Some,
    }
}

/// What the hooks know of the `k`-th covered reducer: its name, that name in snake case, and its
/// parameters, listed by name and type, by name and by type.
pub proof fn law_what_is_known_of_a_reducer(
    module: ModuleDef,
    visibility: CodegenVisibility,
    k: int,
)
    requires
        0 <= k < covered_reducers(module, visibility).len(),
    ensures
        ({
            let reducer = covered_reducers(module, visibility)[k];
            let info = reducer_infos(module, visibility)[k];
            let args = hook_arg_views(
                module,
                reducer.params_for_generate@,
                reducer.accessor_name@,
            );
            &&& info.name_orig == reducer.name@
            &&& info.name_snake == case_converted(reducer.name@, Case::Snake)
            &&& info.arglist == arglist_text(args)
            &&& info.closure_params == arglist_text(args)
            &&& info.arg_names == arg_names_text(args)
            &&& info.fn_trait_params == arg_types_text(args)
        }),
{
}

/// What the hooks know of the `k`-th covered procedure: its name, its accessor in snake case, its
/// parameters, and the whole of its return type.
pub proof fn law_what_is_known_of_a_procedure(
    module: ModuleDef,
    visibility: CodegenVisibility,
    k: int,
)
    requires
        0 <= k < covered_procedures(module, visibility).len(),
    ensures
        ({
            let procedure = covered_procedures(module, visibility)[k];
            let info = procedure_infos(module, visibility)[k];
            let args = hook_arg_views(
                module,
                procedure.params_for_generate@,
                procedure.accessor_name@,
            );
            &&& info.name_orig == procedure.name@
            &&& info.name_snake == case_converted(procedure.accessor_name@, Case::Snake)
            &&& info.closure_params == arglist_text(args)
            &&& info.arg_names == arg_names_text(args)
            &&& info.fn_trait_params == arg_types_text(args)
            &&& info.return_type == type_text(
                module,
                procedure.return_type_for_generate,
                Map::empty(),
            )
        }),
{
}

/// The return type that the hooks for a procedure spell is made of all its parts, whatever its
/// outermost constructor is.
pub proof fn law_return_types_are_whole(
    module: ModuleDef,
    visibility: CodegenVisibility,
    k: int,
)
    requires
        0 <= k < covered_procedures(module, visibility).len(),
    ensures
        ({
            let ty = covered_procedures(module, visibility)[k].return_type_for_generate;
            let spelled = procedure_infos(module, visibility)[k].return_type;
            let part = |t: AlgebraicTypeUse| type_text(module, t, Map::empty());
            match ty {
                AlgebraicTypeUse::Result { ok_ty, err_ty } => spelled == "Result<"@ + part(*ok_ty)
                    + ", "@ + part(*err_ty) + ">"@,
                AlgebraicTypeUse::Array(elem) => spelled == "Vec<"@ + part(*elem) + ">"@,
                AlgebraicTypeUse::Option(elem) => spelled == "Option<"@ + part(*elem) + ">"@,
                AlgebraicTypeUse::Ref(r) => spelled == type_ref_text(module, r),
                _ => spelled == part(ty),
            }
        }),
{
}

/// A hook has one argument per parameter, in their order and under their names in snake case.
///
/// A type that mentions, at any depth, one called like the wrapper struct of what `accessor` is
/// the name of is rendered with those mentions qualified by their modules. Otherwise a type of the
/// module goes by its name, and any other is spelled exactly as the Rust bindings spell it.
pub proof fn law_hook_arguments_are_the_parameters(
    module: ModuleDef,
    params: Seq<ParamDef>,
    accessor: Seq<char>,
    i: int,
)
    requires
        0 <= i < params.len(),
    ensures
        hook_arg_views(module, params, accessor).len() == params.len(),
        ({
            let wrapper = case_converted(accessor, Case::Pascal) + "Args"@;
            let ty = params[i].ty;
            let arg = hook_arg_views(module, params, accessor)[i];
            let conflicts = exists|r: u32| #[trigger]
                ty.refs().contains(r) && type_ref_text(module, r) == wrapper;
            &&& arg.name == case_converted(params[i].name@, Case::Snake)
            &&& !conflicts && !(ty is Ref) ==> arg.ty == params[i].rust_name@
            &&& !conflicts && ty is Ref ==> arg.ty == type_ref_text(module, ty->Ref_0)
            &&& conflicts ==> arg.ty == type_text(
                module,
                ty,
                Map::new(
                    |r: u32| ty.refs().contains(r) && type_ref_text(module, r) == wrapper,
                    |r: u32| type_module_text(module, r) + "::"@ + wrapper,
                ),
            )
        }),
{
    let wrapper = case_converted(accessor, Case::Pascal) + "Args"@;
    let ty = params[i].ty;
    assert(crate::types::qualified_names(module, ty.refs(), wrapper) =~= Map::new(
        |r: u32| ty.refs().contains(r) && type_ref_text(module, r) == wrapper,
        |r: u32| type_module_text(module, r) + "::"@ + wrapper,
    ));
}

/// What a relation is called, what its rows are and what its key is stands in its declaration. It
/// is covered if it is a view, or a table that is public or included; a reducer if it is public or
/// included and a client may invoke it; a procedure if it is public or included.
pub proof fn law_what_declarations_say(
    relation: Relation,
    reducer: ReducerDef,
    procedure: ProcedureDef,
    visibility: CodegenVisibility,
)
    ensures
        match relation {
            Relation::Table(t) => {
                &&& relation.accessor() == t.accessor_name@
                &&& relation.row_ref() == t.product_type_ref
                &&& relation.key() == t.primary_key
                &&& relation.is_covered(visibility) == (visibility is IncludePrivate
                    || !t.is_private)
            },
            Relation::View(v) => {
                &&& relation.accessor() == v.accessor_name@
                &&& relation.row_ref() == v.product_type_ref
                &&& relation.key() == v.primary_key
                &&& relation.is_covered(visibility)
            },
        },
        reducer.is_covered(visibility) == (reducer.is_invokable && (visibility is IncludePrivate
            || !reducer.is_private)),
        procedure.is_covered(visibility) == (visibility is IncludePrivate
            || !procedure.is_private),
        forall|is_private: bool| #[trigger]
            visibility.shows(is_private) == (visibility is IncludePrivate || !is_private),
{
}

/// What is known of a reducer or procedure with these names and arguments is the names, and the
/// arguments listed by name and type, by name and by type; of a procedure also the return type.
pub proof fn law_what_names_and_arguments_give(
    snake: Seq<char>,
    orig: Seq<char>,
    args: Seq<ArgView>,
    ret: Seq<char>,
)
    ensures
        reducer_info_of(snake, orig, args) == (ReducerInfoView {
            name_snake: snake,
            name_orig: orig,
            arglist: arglist_text(args),
            arg_names: arg_names_text(args),
            closure_params: arglist_text(args),
            fn_trait_params: arg_types_text(args),
        }),
        procedure_info_of(snake, orig, args, ret) == (ProcedureInfoView {
            name_snake: snake,
            name_orig: orig,
            arg_names: arg_names_text(args),
            closure_params: arglist_text(args),
            fn_trait_params: arg_types_text(args),
            return_type: ret,
        }),
        forall|name: Seq<char>| #[trigger] args_type_text(name) == name + "Args"@,
{
}

/// What is known of a table, reducer or procedure is all there in the text that it stands for.
pub proof fn law_infos_are_seen_whole(
    t: TableInfo,
    r: ReducerInfo,
    p: ProcedureInfo,
    a: Arg,
    f: OutputFile,
)
    ensures
        a@ == (ArgView { name: a.name@, ty: a.ty@ }),
        f@ == (OutputFileView { filename: f.filename@, code: f.code@ }),
        t@ == (TableInfoView {
            accessor_snake: t.accessor_snake@,
            row_type: t.row_type@,
            has_primary_key: t.has_primary_key,
        }),
        r@ == (ReducerInfoView {
            name_snake: r.name_snake@,
            name_orig: r.name_orig@,
            arglist: r.arglist@,
            arg_names: r.arg_names@,
            closure_params: r.closure_params@,
            fn_trait_params: r.fn_trait_params@,
        }),
        p@ == (ProcedureInfoView {
            name_snake: p.name_snake@,
            name_orig: p.name_orig@,
            arg_names: p.arg_names@,
            closure_params: p.closure_params@,
            fn_trait_params: p.fn_trait_params@,
            return_type: p.return_type@,
        }),
{
}

} // verus!
