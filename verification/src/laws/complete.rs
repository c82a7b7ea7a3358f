//! The generated files hold what every declaration of the module is owed.

use vstd::prelude::*;
use crate::args::ArgView;
use crate::collect::{
    covered_procedures, covered_reducers, covered_relations, has_primary_key, is_keyed,
    procedure_info_view, procedure_infos, reducer_info_view, reducer_infos, table_info_view, table_infos,
};
use crate::hooks::context::{context_provider_text, signal_init_text, table_callbacks_text};
use crate::hooks::procedure::procedure_hook_text;
use crate::hooks::reconnect::RECONNECT_HELPERS;
use crate::hooks::reducer::reducer_hook_text;
use crate::hooks::subscription::SUBSCRIPTION_HOOK;
use crate::hooks::table::{table_field_text, table_hook_text};
use crate::hooks_file::{
    hooks_file_text, module_hooks_text, procedure_block_text, procedure_section_text,
    reducer_block_text, CONTEXT_HOOKS, CONTEXT_TYPES, PROCEDURE_SECTION, STATE_HOOKS,
};
use crate::info::{ProcedureInfoView, ReducerInfoView, TableInfoView};
use crate::reducer_file::{
    field_text, from_impl_text, import_text, moved_field_text, moved_fields_text,
    reducer_file_text, wrapper_struct_text, ImportView, ReducerFileView,
};
use crate::schema::{CodegenVisibility, ModuleDef, ProcedureDef, ReducerDef, Relation};
use crate::text::concat_map;
use super::containing::{
    contains_text, lemma_concat_map_contains, lemma_contains_after, lemma_contains_before,
    lemma_contains_itself, lemma_contains_last, lemma_contains_within,
};

verus! {

/// Whatever the module declares, the file with the hooks holds the connection's types, the helpers
/// that reconnect, the hook that provides the context, and the hooks that read the context,
/// subscribe, and read the connection's state.
pub proof fn law_every_file_has_the_common_hooks(
    header: Seq<char>,
    module: ModuleDef,
    visibility: CodegenVisibility,
)
    ensures
        ({
            let text = module_hooks_text(header, module, visibility);
            &&& contains_text(text, CONTEXT_TYPES@)
            &&& contains_text(text, RECONNECT_HELPERS@)
            &&& contains_text(text, context_provider_text(table_infos(module, visibility)))
            &&& contains_text(text, CONTEXT_HOOKS@)
            &&& contains_text(text, SUBSCRIPTION_HOOK@)
            &&& contains_text(text, STATE_HOOKS@)
        }),
{
    lemma_hooks_file_parts(
        header,
        table_infos(module, visibility),
        reducer_infos(module, visibility),
        procedure_infos(module, visibility),
    );
}

/// The parts of the file with the hooks stand in it.
proof fn lemma_hooks_file_parts(
    header: Seq<char>,
    tables: Seq<TableInfoView>,
    reducers: Seq<ReducerInfoView>,
    procedures: Seq<ProcedureInfoView>,
)
    ensures
        ({
            let text = hooks_file_text(header, tables, reducers, procedures);
            &&& contains_text(text, concat_map(tables, |t: TableInfoView| table_field_text(t)))
            &&& contains_text(text, CONTEXT_TYPES@)
            &&& contains_text(text, RECONNECT_HELPERS@)
            &&& contains_text(text, context_provider_text(tables))
            &&& contains_text(text, CONTEXT_HOOKS@)
            &&& contains_text(text, SUBSCRIPTION_HOOK@)
            &&& contains_text(text, concat_map(tables, |t: TableInfoView| table_hook_text(t)))
            &&& contains_text(
                text,
                concat_map(reducers, |r: ReducerInfoView| reducer_block_text(r)),
            )
            &&& contains_text(text, procedure_section_text(procedures))
            &&& contains_text(text, STATE_HOOKS@)
        }),
{
    broadcast use {lemma_contains_before, lemma_contains_last};

}

/// Every table and view that is covered has a field that holds its signal, the signal's
/// initialiser, the callbacks that keep the signal in step, and a hook that returns it.
pub proof fn law_every_table_has_its_hook(
    header: Seq<char>,
    module: ModuleDef,
    visibility: CodegenVisibility,
    relation: Relation,
)
    requires
        module.relations@.contains(relation),
        relation.is_covered(visibility),
    ensures
        ({
            let text = module_hooks_text(header, module, visibility);
            let info = table_info_view(module, visibility, relation);
            &&& contains_text(text, table_field_text(info))
            &&& contains_text(text, signal_init_text(info))
            &&& contains_text(text, table_callbacks_text(info))
            &&& contains_text(text, table_hook_text(info))
        }),
{
    let tables = table_infos(module, visibility);
    let text = module_hooks_text(header, module, visibility);
    let info = table_info_view(module, visibility, relation);
    let at = choose|i: int| 0 <= i < module.relations@.len() && module.relations@[i] == relation;
    module.relations@.lemma_filter_contains(|r: Relation| r.is_covered(visibility), at);
    let k = choose|k: int|
        0 <= k < covered_relations(module, visibility).len() && covered_relations(
            module,
            visibility,
        )[k] == relation;
    assert(tables[k] == info);
    lemma_hooks_file_parts(
        header,
        tables,
        reducer_infos(module, visibility),
        procedure_infos(module, visibility),
    );
    let field = |t: TableInfoView| table_field_text(t);
    let init = |t: TableInfoView| signal_init_text(t);
    let callbacks = |t: TableInfoView| table_callbacks_text(t);
    let hook = |t: TableInfoView| table_hook_text(t);
    lemma_concat_map_contains(tables, k, field);
    lemma_contains_within(text, concat_map(tables, field), table_field_text(info));
    lemma_concat_map_contains(tables, k, hook);
    lemma_contains_within(text, concat_map(tables, hook), table_hook_text(info));
    let provider = context_provider_text(tables);
    assert(contains_text(provider, concat_map(tables, init)) && contains_text(
        provider,
        concat_map(tables, callbacks),
    )) by {
        broadcast use {lemma_contains_before, lemma_contains_last};

    }
    lemma_concat_map_contains(tables, k, init);
    lemma_contains_within(provider, concat_map(tables, init), signal_init_text(info));
    lemma_contains_within(text, provider, signal_init_text(info));
    lemma_concat_map_contains(tables, k, callbacks);
    lemma_contains_within(provider, concat_map(tables, callbacks), table_callbacks_text(info));
    lemma_contains_within(text, provider, table_callbacks_text(info));
}

/// Every reducer that is covered has its hooks.
pub proof fn law_every_reducer_has_its_hooks(
    header: Seq<char>,
    module: ModuleDef,
    visibility: CodegenVisibility,
    reducer: ReducerDef,
)
    requires
        module.reducers@.contains(reducer),
        reducer.is_covered(visibility),
    ensures
        contains_text(
            module_hooks_text(header, module, visibility),
            reducer_hook_text(reducer_info_view(module, reducer)),
        ),
{
    let reducers = reducer_infos(module, visibility);
    let text = module_hooks_text(header, module, visibility);
    let info = reducer_info_view(module, reducer);
    let at = choose|i: int| 0 <= i < module.reducers@.len() && module.reducers@[i] == reducer;
    module.reducers@.lemma_filter_contains(|r: ReducerDef| r.is_covered(visibility), at);
    let k = choose|k: int|
        0 <= k < covered_reducers(module, visibility).len() && covered_reducers(
            module,
            visibility,
        )[k] == reducer;
    assert(reducers[k] == info);
    lemma_hooks_file_parts(
        header,
        table_infos(module, visibility),
        reducers,
        procedure_infos(module, visibility),
    );
    let block = |r: ReducerInfoView| reducer_block_text(r);
    lemma_concat_map_contains(reducers, k, block);
    lemma_contains_within(text, concat_map(reducers, block), reducer_block_text(info));
    lemma_contains_itself(reducer_hook_text(info));
    lemma_contains_before(reducer_hook_text(info), "\n"@, reducer_hook_text(info));
    lemma_contains_within(text, reducer_block_text(info), reducer_hook_text(info));
}

/// Every procedure that is covered has its hooks.
pub proof fn law_every_procedure_has_its_hooks(
    header: Seq<char>,
    module: ModuleDef,
    visibility: CodegenVisibility,
    procedure: ProcedureDef,
)
    requires
        module.procedures@.contains(procedure),
        procedure.is_covered(visibility),
    ensures
        contains_text(
            module_hooks_text(header, module, visibility),
            procedure_hook_text(procedure_info_view(module, procedure)),
        ),
{
    let procedures = procedure_infos(module, visibility);
    let text = module_hooks_text(header, module, visibility);
    let info = procedure_info_view(module, procedure);
    let at = choose|i: int|
        0 <= i < module.procedures@.len() && module.procedures@[i] == procedure;
    module.procedures@.lemma_filter_contains(|p: ProcedureDef| p.is_covered(visibility), at);
    let k = choose|k: int|
        0 <= k < covered_procedures(module, visibility).len() && covered_procedures(
            module,
            visibility,
        )[k] == procedure;
    assert(procedures[k] == info);
    lemma_hooks_file_parts(
        header,
        table_infos(module, visibility),
        reducer_infos(module, visibility),
        procedures,
    );
    let block = |p: ProcedureInfoView| procedure_block_text(p);
    let section = procedure_section_text(procedures);
    lemma_concat_map_contains(procedures, k, block);
    lemma_contains_after(
        PROCEDURE_SECTION@,
        concat_map(procedures, block),
        procedure_block_text(info),
    );
    lemma_contains_within(text, section, procedure_block_text(info));
    lemma_contains_itself(procedure_hook_text(info));
    lemma_contains_before(procedure_hook_text(info), "\n"@, procedure_hook_text(info));
    lemma_contains_within(text, procedure_block_text(info), procedure_hook_text(info));
}

/// The file of a reducer holds every import, every field of the wrapper struct, and every field of
/// the variant that the struct is turned into.
pub proof fn law_every_argument_is_in_the_reducer_file(header: Seq<char>, file: ReducerFileView)
    ensures
        forall|i: int|
            0 <= i < file.imports.len() ==> contains_text(
                reducer_file_text(header, file),
                import_text(#[trigger] file.imports[i]),
            ),
        forall|i: int|
            0 <= i < file.args.len() ==> {
                let arg = #[trigger] file.args[i];
                &&& contains_text(reducer_file_text(header, file), field_text(arg))
                &&& contains_text(reducer_file_text(header, file), moved_field_text(arg))
            },
{
    let text = reducer_file_text(header, file);
    let import = |i: ImportView| import_text(i);
    let field = |a: ArgView| field_text(a);
    let moved = |a: ArgView| moved_field_text(a);
    let imports = concat_map(file.imports, import);
    assert(contains_text(text, imports) && contains_text(text, wrapper_struct_text(file))
        && contains_text(text, from_impl_text(file))) by {
        broadcast use {lemma_contains_before, lemma_contains_last};

    }
    assert(contains_text(wrapper_struct_text(file), concat_map(file.args, field))) by {
        broadcast use {lemma_contains_before, lemma_contains_last};

    }
    assert(contains_text(from_impl_text(file), moved_fields_text(file.args))) by {
        broadcast use {lemma_contains_before, lemma_contains_last};

    }
    assert forall|i: int| 0 <= i < file.imports.len() implies contains_text(
        text,
        import_text(#[trigger] file.imports[i]),
    ) by {
        lemma_concat_map_contains(file.imports, i, import);
        lemma_contains_within(text, imports, import_text(file.imports[i]));
    }
    assert forall|i: int| 0 <= i < file.args.len() implies ({
        let arg = #[trigger] file.args[i];
        &&& contains_text(text, field_text(arg))
        &&& contains_text(text, moved_field_text(arg))
    }) by {
        let arg = file.args[i];
        lemma_concat_map_contains(file.args, i, field);
        lemma_contains_within(
            wrapper_struct_text(file),
            concat_map(file.args, field),
            field_text(arg),
        );
        lemma_contains_within(text, wrapper_struct_text(file), field_text(arg));
        lemma_concat_map_contains(file.args, i, moved);
        lemma_contains_after(" {\n"@, concat_map(file.args, moved), moved_field_text(arg));
        lemma_contains_before(
            " {\n"@ + concat_map(file.args, moved),
            "        }\n"@,
            moved_field_text(arg),
        );
        lemma_contains_within(
            from_impl_text(file),
            moved_fields_text(file.args),
            moved_field_text(arg),
        );
        lemma_contains_within(text, from_impl_text(file), moved_field_text(arg));
    }
}

/// The declarations that hooks are generated for, in the order in which the module lists them,
/// are those that `visibility` shows; a view is always among them, and a reducer only if a client
/// may invoke it.
pub proof fn law_only_covered_declarations_have_hooks(
    module: ModuleDef,
    visibility: CodegenVisibility,
)
    ensures
        forall|k: int|
            0 <= k < covered_relations(module, visibility).len() ==> {
                let relation = #[trigger] covered_relations(module, visibility)[k];
                module.relations@.contains(relation) && (relation is View || visibility.shows(
                    relation->Table_0.is_private,
                ))
            },
        forall|k: int|
            0 <= k < covered_reducers(module, visibility).len() ==> {
                let reducer = #[trigger] covered_reducers(module, visibility)[k];
                module.reducers@.contains(reducer) && reducer.is_invokable && visibility.shows(
                    reducer.is_private,
                )
            },
        forall|k: int|
            0 <= k < covered_procedures(module, visibility).len() ==> {
                let procedure = #[trigger] covered_procedures(module, visibility)[k];
                module.procedures@.contains(procedure) && visibility.shows(procedure.is_private)
            },
{
    lemma_filter_within(module.relations@, |r: Relation| r.is_covered(visibility));
    lemma_filter_within(module.reducers@, |r: ReducerDef| r.is_covered(visibility));
    lemma_filter_within(module.procedures@, |p: ProcedureDef| p.is_covered(visibility));
}

/// What is kept was there, and is what is asked for.
proof fn lemma_filter_within<T>(items: Seq<T>, keep: spec_fn(T) -> bool)
    ensures
        forall|k: int|
            0 <= k < items.filter(keep).len() ==> items.contains(#[trigger] items.filter(keep)[k])
                && keep(items.filter(keep)[k]),
    decreases items.len(),
{
    reveal(Seq::filter);
    if items.len() > 0 {
        let shorter = items.drop_last();
        lemma_filter_within(shorter, keep);
        assert forall|k: int| 0 <= k < items.filter(keep).len() implies items.contains(
            #[trigger] items.filter(keep)[k],
        ) && keep(items.filter(keep)[k]) by {
            if k < shorter.filter(keep).len() {
                assert(items.filter(keep)[k] == shorter.filter(keep)[k]);
                assert(shorter.contains(shorter.filter(keep)[k]));
                let i = choose|i: int|
                    0 <= i < shorter.len() && shorter[i] == shorter.filter(keep)[k];
                assert(items[i] == shorter[i]);
            } else {
                assert(items.filter(keep)[k] == items.last());
                assert(items[items.len() - 1] == items.last());
            }
        }
    }
}

/// A module without private declarations gets the same hooks whether private ones are included or
/// not.
pub proof fn law_visibility_concerns_private_declarations(header: Seq<char>, module: ModuleDef)
    requires
        forall|i: int|
            0 <= i < module.relations@.len() && #[trigger] module.relations@[i] is Table
                ==> !module.relations@[i]->Table_0.is_private,
        forall|i: int|
            0 <= i < module.reducers@.len() ==> !(#[trigger] module.reducers@[i]).is_private,
        forall|i: int|
            0 <= i < module.procedures@.len() ==> !(#[trigger] module.procedures@[i]).is_private,
    ensures
        module_hooks_text(header, module, CodegenVisibility::OnlyPublic) == module_hooks_text(
            header,
            module,
            CodegenVisibility::IncludePrivate,
        ),
{
    let public = CodegenVisibility::OnlyPublic;
    let all = CodegenVisibility::IncludePrivate;
    lemma_filter_agree(
        module.relations@,
        |r: Relation| r.is_covered(public),
        |r: Relation| r.is_covered(all),
    );
    lemma_filter_agree(
        module.reducers@,
        |r: ReducerDef| r.is_covered(public),
        |r: ReducerDef| r.is_covered(all),
    );
    lemma_filter_agree(
        module.procedures@,
        |p: ProcedureDef| p.is_covered(public),
        |p: ProcedureDef| p.is_covered(all),
    );
    assert forall|accessor: Seq<char>|
        #![trigger has_primary_key(module, public, accessor)]
        has_primary_key(module, public, accessor) == has_primary_key(module, all, accessor) by {
        if has_primary_key(module, all, accessor) {
            let i = choose|i: int|
                0 <= i < module.relations@.len() && is_keyed(
                    module.relations@[i],
                    all,
                    accessor,
                );
            assert(is_keyed(module.relations@[i], public, accessor));
        }
        if has_primary_key(module, public, accessor) {
            let i = choose|i: int|
                0 <= i < module.relations@.len() && is_keyed(
                    module.relations@[i],
                    public,
                    accessor,
                );
            assert(is_keyed(module.relations@[i], all, accessor));
        }
    }
    assert(table_infos(module, public) =~= table_infos(module, all)) by {
        assert forall|r: Relation|
            #![trigger table_info_view(module, public, r)]
            table_info_view(module, public, r) == table_info_view(module, all, r) by {
            assert(has_primary_key(module, public, r.accessor()) == has_primary_key(
                module,
                all,
                r.accessor(),
            ));
        }
    }
    assert(reducer_infos(module, public) =~= reducer_infos(module, all));
    assert(procedure_infos(module, public) =~= procedure_infos(module, all));
}

/// Two tests that agree on every item keep the same items.
proof fn lemma_filter_agree<T>(
    items: Seq<T>,
    keep: spec_fn(T) -> bool,
    other: spec_fn(T) -> bool,
)
    requires
        forall|i: int| 0 <= i < items.len() ==> keep(#[trigger] items[i]) == other(items[i]),
    ensures
        items.filter(keep) == items.filter(other),
    decreases items.len(),
{
    reveal(Seq::filter);
    if items.len() > 0 {
        assert forall|i: int| 0 <= i < items.drop_last().len() implies keep(
            #[trigger] items.drop_last()[i],
        ) == other(items.drop_last()[i]) by {
            assert(items.drop_last()[i] == items[i]);
        }
        lemma_filter_agree(items.drop_last(), keep, other);
        assert(items.last() == items[items.len() - 1]);
    }
}

} // verus!
