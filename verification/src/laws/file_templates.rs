//! The files are one text each, but for what they are generated from.

use vstd::prelude::*;
use crate::args::{arg_names_text, arglist_text, ArgView};
use crate::hooks::context::{
    context_provider_text, signal_init_text, table_callbacks_text, PROVIDER_CONNECT, PROVIDER_HEAD,
    PROVIDER_TAIL,
};
use crate::hooks::procedure::procedure_hook_text;
use crate::hooks::reconnect::RECONNECT_HELPERS;
use crate::hooks::reducer::reducer_hook_text;
use crate::hooks::subscription::SUBSCRIPTION_HOOK;
use crate::hooks::table::{table_field_text, table_hook_text};
use crate::hooks_file::{
    hooks_file_text, procedure_block_text, reducer_block_text, CONTEXT_HOOKS, CONTEXT_TYPES,
    HOOKS_PRELUDE, PROCEDURE_SECTION, REDUCER_SECTION, STATE_HOOKS, TABLE_SECTION,
};
use crate::info::{ProcedureInfoView, ReducerInfoView, TableInfoView};
use crate::reducer_file::{
    extension_trait_text, field_text, from_impl_text, import_text, in_module_impl_text,
    moved_field_text, reducer_file_text, trait_impl_text, wrapper_struct_text, ImportView,
    ReducerFileView, CALLBACK_PARAM, FILE_PRELUDE, METHOD_DOC, STRUCT_ATTRIBUTES, THEN_METHOD_DOC,
};
use crate::text::{concat_map, lemma_concat_map_none, lemma_concat_map_step};
use super::arguments::{
    law_arg_names_are_empty_without_arguments, law_arglist_is_empty_without_arguments,
};
use super::templates::{
    follows_template, gives, group_templates, is_filled, lemma_fill_and, lemma_fill_first_hole,
    lemma_fill_hole, lemma_fill_text, template, Template,
};

verus! {

/// What is written for a list is nothing for no items, and what was written for the others, then
/// what is written for it, for a further item.
pub proof fn law_lists_are_written_item_by_item<T>(
    items: Seq<T>,
    item: T,
    text: spec_fn(T) -> Seq<char>,
)
    ensures
        concat_map(Seq::empty(), text) == Seq::<char>::empty(),
        concat_map(items.push(item), text) == concat_map(items, text) + text(item),
{
    let all = items.push(item);
    lemma_concat_map_none(all, text);
    assert(all.take(0) =~= Seq::empty());
    lemma_concat_map_step(all, items.len() as int, text);
    assert(all.take(items.len() as int) =~= items);
    assert(all.take(all.len() as int) =~= all);
}

/// An import names the type and the module that defines it, and the alias where there is one.
pub proof fn law_imports_name_the_type_and_its_module(i: ImportView)
    ensures
        i.alias is None ==> import_text(i) == "use super::"@ + i.module_name + "::"@ + i.name
            + ";\n"@,
        i.alias is Some ==> import_text(i) == "use super::"@ + i.module_name + "::"@ + i.name
            + " as "@ + i.alias->0 + ";\n"@,
{
}

/// A field has the argument's name and type, and is moved under its own name.
pub proof fn law_fields_are_the_arguments(a: ArgView)
    ensures
        field_text(a) == "    pub "@ + a.name + ": "@ + a.ty + ",\n"@,
        moved_field_text(a) == "            "@ + a.name + ": args."@ + a.name + ",\n"@,
{
}

/// The template of the wrapper struct.
spec fn struct_shape() -> Template {
    template()
        .text("pub(super) struct "@)
        .hole(6)
        .text(" {\n"@)
        .hole(2)
        .text("}\n"@)
        .text("\n"@)
}

/// The template of the conversion.
spec fn from_shape() -> Template {
    template()
        .text("impl From<"@)
        .hole(6)
        .text("> for super::Reducer {\n"@)
        .text("    fn from(args: "@)
        .hole(6)
        .text(") -> Self {\n"@)
        .text("        Self::"@)
        .hole(5)
        .hole(7)
        .text("    }\n"@)
        .text("}\n"@)
        .text("\n"@)
}

/// The template of what ties the struct to the module.
spec fn in_module_shape() -> Template {
    template()
        .text("impl __sdk::InModule for "@)
        .hole(6)
        .text(" {\n"@)
        .text("    type Module = super::RemoteModule;\n"@)
        .text("}\n"@)
        .text("\n"@)
}

/// The template of the extension trait.
spec fn trait_shape() -> Template {
    template()
        .text("#[allow(non_camel_case_types)]\n"@)
        .text("/// Extension trait for access to the reducer `"@)
        .hole(3)
        .text("`.\n"@)
        .text("///\n"@)
        .text("/// Implemented for [`super::RemoteReducers`].\n"@)
        .text("pub trait "@)
        .hole(4)
        .text(" {\n"@)
        .text("    /// Request that the remote module invoke the reducer `"@)
        .hole(3)
        .text("` to run as soon as possible.\n"@)
        .text(METHOD_DOC@)
        .text("    /// Use [`"@)
        .hole(4)
        .text("::"@)
        .hole(4)
        .text("_then`] to run a callback after the reducer completes.\n"@)
        .text("    fn "@)
        .hole(4)
        .text("(&self, "@)
        .hole(8)
        .text(") -> __sdk::Result<()> {\n"@)
        .text("        self."@)
        .hole(4)
        .text("_then("@)
        .hole(10)
        .text("|_, _| {})\n"@)
        .text("    }\n"@)
        .text("\n"@)
        .text("    /// Request that the remote module invoke the reducer `"@)
        .hole(3)
        .text("` to run as soon as possible,\n"@)
        .text(THEN_METHOD_DOC@)
        .text("    fn "@)
        .hole(4)
        .text("_then(\n"@)
        .text("        &self,\n"@)
        .hole(11)
        .text(CALLBACK_PARAM@)
        .text("    ) -> __sdk::Result<()>;\n"@)
        .text("}\n"@)
        .text("\n"@)
}

/// The template of its implementation.
spec fn impl_shape() -> Template {
    template()
        .text("impl "@)
        .hole(4)
        .text(" for super::RemoteReducers {\n"@)
        .text("    fn "@)
        .hole(4)
        .text("_then(\n"@)
        .text("        &self,\n"@)
        .hole(11)
        .text(CALLBACK_PARAM@)
        .text("    ) -> __sdk::Result<()> {\n"@)
        .text("        self.imp.invoke_reducer_with_callback("@)
        .hole(6)
        .text(" { "@)
        .hole(9)
        .text(" }, callback)\n"@)
        .text("    }\n"@)
        .text("}\n"@)
}

/// What the file of a reducer with parameters is filled with.
pub open spec fn fillings_with_parameters(header: Seq<char>, f: ReducerFileView) -> Seq<Seq<char>> {
    seq![
        header,
        concat_map(f.imports, |i: ImportView| import_text(i)),
        concat_map(f.args, |a: ArgView| field_text(a)),
        f.reducer_name,
        f.func_name,
        f.variant_name,
        f.variant_name + "Args"@,
        " {\n"@ + concat_map(f.args, |a: ArgView| moved_field_text(a)) + "        }\n"@,
        arglist_text(f.args),
        arg_names_text(f.args),
        if arg_names_text(f.args).len() == 0 {
            Seq::empty()
        } else {
            arg_names_text(f.args) + ", "@
        },
        "        "@ + arglist_text(f.args) + ",\n"@,
    ]
}

proof fn lemma_struct_shape_with_parameters(header: Seq<char>, f: ReducerFileView)
    requires
        f.args.len() > 0,
    ensures
        is_filled(wrapper_struct_text(f), struct_shape(), fillings_with_parameters(header, f)),
{
    broadcast use group_templates;

    law_arglist_is_empty_without_arguments(f.args);
}

proof fn lemma_from_shape_with_parameters(header: Seq<char>, f: ReducerFileView)
    requires
        f.args.len() > 0,
    ensures
        is_filled(from_impl_text(f), from_shape(), fillings_with_parameters(header, f)),
{
    broadcast use group_templates;

    law_arglist_is_empty_without_arguments(f.args);
}

proof fn lemma_in_module_shape_with_parameters(header: Seq<char>, f: ReducerFileView)
    requires
        f.args.len() > 0,
    ensures
        is_filled(in_module_impl_text(f), in_module_shape(), fillings_with_parameters(header, f)),
{
    broadcast use group_templates;

    law_arglist_is_empty_without_arguments(f.args);
}

proof fn lemma_trait_shape_with_parameters(header: Seq<char>, f: ReducerFileView)
    requires
        f.args.len() > 0,
    ensures
        is_filled(extension_trait_text(f), trait_shape(), fillings_with_parameters(header, f)),
{
    broadcast use group_templates;

    law_arglist_is_empty_without_arguments(f.args);
}

proof fn lemma_impl_shape_with_parameters(header: Seq<char>, f: ReducerFileView)
    requires
        f.args.len() > 0,
    ensures
        is_filled(trait_impl_text(f), impl_shape(), fillings_with_parameters(header, f)),
{
    broadcast use group_templates;

    law_arglist_is_empty_without_arguments(f.args);
}

/// The file of a reducer with parameters is its template, filled.
proof fn lemma_file_with_parameters(header: Seq<char>, f: ReducerFileView)
    requires
        f.args.len() > 0,
    ensures
        is_filled(reducer_file_text(header, f), file_shape(), fillings_with_parameters(header, f)),
{
    lemma_struct_shape_with_parameters(header, f);
    lemma_from_shape_with_parameters(header, f);
    lemma_in_module_shape_with_parameters(header, f);
    lemma_trait_shape_with_parameters(header, f);
    lemma_impl_shape_with_parameters(header, f);
    lemma_sections(
        header,
        f,
        fillings_with_parameters(header, f),
    );
}

/// The file of a reducer with parameters is one text for all of them, but for the header, the
/// imports, the names and the arguments.
pub proof fn law_files_of_reducers_with_parameters_follow_a_template()
    ensures
        follows_template(
            |x: (Seq<char>, ReducerFileView)| reducer_file_text(x.0, x.1),
            |x: (Seq<char>, ReducerFileView)| fillings_with_parameters(x.0, x.1),
            |x: (Seq<char>, ReducerFileView)| x.1.args.len() > 0,
        ),
{
    let shape = file_shape();
    assert forall|x: (Seq<char>, ReducerFileView)| (#[trigger] x.1).args.len() > 0 implies is_filled(
        reducer_file_text(x.0, x.1),
        shape,
        fillings_with_parameters(x.0, x.1),
    ) by {
        lemma_file_with_parameters(x.0, x.1);
    }
    assert(gives(
        shape,
        |x: (Seq<char>, ReducerFileView)| reducer_file_text(x.0, x.1),
        |x: (Seq<char>, ReducerFileView)| fillings_with_parameters(x.0, x.1),
        |x: (Seq<char>, ReducerFileView)| x.1.args.len() > 0,
    ));
}

/// What the file of a reducer without parameters is filled with.
pub open spec fn fillings_without_parameters(header: Seq<char>, f: ReducerFileView) -> Seq<Seq<char>> {
    seq![
        header,
        concat_map(f.imports, |i: ImportView| import_text(i)),
        concat_map(f.args, |a: ArgView| field_text(a)),
        f.reducer_name,
        f.func_name,
        f.variant_name,
        f.variant_name + "Args"@,
        Seq::empty(),
        Seq::empty(),
        Seq::empty(),
        Seq::empty(),
        Seq::empty(),
    ]
}

proof fn lemma_struct_shape_without_parameters(header: Seq<char>, f: ReducerFileView)
    requires
        f.args.len() == 0,
    ensures
        is_filled(wrapper_struct_text(f), struct_shape(), fillings_without_parameters(header, f)),
{
    broadcast use group_templates;

    law_arglist_is_empty_without_arguments(f.args);
    lemma_no_arguments(f.args);
}

proof fn lemma_from_shape_without_parameters(header: Seq<char>, f: ReducerFileView)
    requires
        f.args.len() == 0,
    ensures
        is_filled(from_impl_text(f), from_shape(), fillings_without_parameters(header, f)),
{
    broadcast use group_templates;

    law_arglist_is_empty_without_arguments(f.args);
    lemma_no_arguments(f.args);
}

proof fn lemma_in_module_shape_without_parameters(header: Seq<char>, f: ReducerFileView)
    requires
        f.args.len() == 0,
    ensures
        is_filled(in_module_impl_text(f), in_module_shape(), fillings_without_parameters(header, f)),
{
    broadcast use group_templates;

    law_arglist_is_empty_without_arguments(f.args);
    lemma_no_arguments(f.args);
}

proof fn lemma_trait_shape_without_parameters(header: Seq<char>, f: ReducerFileView)
    requires
        f.args.len() == 0,
    ensures
        is_filled(extension_trait_text(f), trait_shape(), fillings_without_parameters(header, f)),
{
    broadcast use group_templates;

    law_arglist_is_empty_without_arguments(f.args);
    lemma_no_arguments(f.args);
}

proof fn lemma_impl_shape_without_parameters(header: Seq<char>, f: ReducerFileView)
    requires
        f.args.len() == 0,
    ensures
        is_filled(trait_impl_text(f), impl_shape(), fillings_without_parameters(header, f)),
{
    broadcast use group_templates;

    law_arglist_is_empty_without_arguments(f.args);
    lemma_no_arguments(f.args);
}

/// The file of a reducer without parameters is its template, filled.
proof fn lemma_file_without_parameters(header: Seq<char>, f: ReducerFileView)
    requires
        f.args.len() == 0,
    ensures
        is_filled(reducer_file_text(header, f), file_shape(), fillings_without_parameters(header, f)),
{
    lemma_struct_shape_without_parameters(header, f);
    lemma_from_shape_without_parameters(header, f);
    lemma_in_module_shape_without_parameters(header, f);
    lemma_trait_shape_without_parameters(header, f);
    lemma_impl_shape_without_parameters(header, f);
    lemma_sections(
        header,
        f,
        fillings_without_parameters(header, f),
    );
}

/// The file of a reducer without parameters is one text for all of them, but for the header, the
/// imports, the names and the arguments.
pub proof fn law_files_of_reducers_without_parameters_follow_a_template()
    ensures
        follows_template(
            |x: (Seq<char>, ReducerFileView)| reducer_file_text(x.0, x.1),
            |x: (Seq<char>, ReducerFileView)| fillings_without_parameters(x.0, x.1),
            |x: (Seq<char>, ReducerFileView)| x.1.args.len() == 0,
        ),
{
    let shape = file_shape();
    assert forall|x: (Seq<char>, ReducerFileView)| (#[trigger] x.1).args.len() == 0 implies is_filled(
        reducer_file_text(x.0, x.1),
        shape,
        fillings_without_parameters(x.0, x.1),
    ) by {
        lemma_file_without_parameters(x.0, x.1);
    }
    assert(gives(
        shape,
        |x: (Seq<char>, ReducerFileView)| reducer_file_text(x.0, x.1),
        |x: (Seq<char>, ReducerFileView)| fillings_without_parameters(x.0, x.1),
        |x: (Seq<char>, ReducerFileView)| x.1.args.len() == 0,
    ));
}

/// The template of a reducer's file.
spec fn file_shape() -> Template {
    template().hole(0).text(FILE_PRELUDE@).hole(1).text(STRUCT_ATTRIBUTES@).and(struct_shape()).and(
        from_shape(),
    ).and(in_module_shape()).and(trait_shape()).and(impl_shape())
}

/// Without arguments the lists of them are empty.
proof fn lemma_no_arguments(args: Seq<ArgView>)
    requires
        args.len() == 0,
    ensures
        arglist_text(args) == Seq::<char>::empty(),
        arg_names_text(args) == Seq::<char>::empty(),
{
    law_arglist_is_empty_without_arguments(args);
    law_arg_names_are_empty_without_arguments(args);
    assert(arglist_text(args) =~= Seq::empty());
    assert(arg_names_text(args) =~= Seq::empty());
}

/// Where the sections of a reducer's file are filled templates, so is the file.
proof fn lemma_sections(header: Seq<char>, f: ReducerFileView, fillings: Seq<Seq<char>>)
    requires
        is_filled(wrapper_struct_text(f), struct_shape(), fillings),
        is_filled(from_impl_text(f), from_shape(), fillings),
        is_filled(in_module_impl_text(f), in_module_shape(), fillings),
        is_filled(extension_trait_text(f), trait_shape(), fillings),
        is_filled(trait_impl_text(f), impl_shape(), fillings),
        fillings[0] == header,
        fillings[1] == concat_map(f.imports, |i: ImportView| import_text(i)),
    ensures
        is_filled(reducer_file_text(header, f), file_shape(), fillings),
{
    let start = template().hole(0).text(FILE_PRELUDE@).hole(1).text(STRUCT_ATTRIBUTES@);
    lemma_fill_first_hole(0, fillings);
    lemma_fill_text(template().hole(0), FILE_PRELUDE@, fillings);
    lemma_fill_hole(template().hole(0).text(FILE_PRELUDE@), 1, fillings);
    lemma_fill_text(template().hole(0).text(FILE_PRELUDE@).hole(1), STRUCT_ATTRIBUTES@, fillings);
    lemma_fill_and(start, struct_shape(), fillings);
    lemma_fill_and(start.and(struct_shape()), from_shape(), fillings);
    lemma_fill_and(start.and(struct_shape()).and(from_shape()), in_module_shape(), fillings);
    lemma_fill_and(
        start.and(struct_shape()).and(from_shape()).and(in_module_shape()),
        trait_shape(),
        fillings,
    );
    lemma_fill_and(
        start.and(struct_shape()).and(from_shape()).and(in_module_shape()).and(trait_shape()),
        impl_shape(),
        fillings,
    );
}

/// The provider is one text, but for the initialisers and the callbacks of the tables.
pub proof fn law_providers_follow_a_template()
    ensures
        follows_template(
            |tables: Seq<TableInfoView>| context_provider_text(tables),
            |tables: Seq<TableInfoView>|
                seq![
                    concat_map(tables, |t: TableInfoView| signal_init_text(t)),
                    concat_map(tables, |t: TableInfoView| table_callbacks_text(t)),
                ],
            |tables: Seq<TableInfoView>| true,
        ),
{
    broadcast use group_templates;

    let shape = template().text(PROVIDER_HEAD@).hole(0).text(PROVIDER_CONNECT@).hole(1).text(
        PROVIDER_TAIL@,
    );
    assert(gives(
        shape,
        |tables: Seq<TableInfoView>| context_provider_text(tables),
        |tables: Seq<TableInfoView>|
                seq![
                    concat_map(tables, |t: TableInfoView| signal_init_text(t)),
                    concat_map(tables, |t: TableInfoView| table_callbacks_text(t)),
                ],
        |tables: Seq<TableInfoView>| true,
    ));
}

/// What the file with the hooks is generated from.
pub struct HooksInput {
    pub header: Seq<char>,
    pub tables: Seq<TableInfoView>,
    pub reducers: Seq<ReducerInfoView>,
    pub procedures: Seq<ProcedureInfoView>,
}

/// The file with the hooks of a module with procedures is one text, but for the header and what is
/// written for each declaration.
#[verifier::rlimit(50)]
pub proof fn law_files_with_procedures_follow_a_template()
    ensures
        follows_template(
            |x: HooksInput| hooks_file_text(x.header, x.tables, x.reducers, x.procedures),
            |x: HooksInput|
                seq![
                    x.header,
                    concat_map(x.tables, |t: TableInfoView| table_field_text(t)),
                    context_provider_text(x.tables),
                    concat_map(x.tables, |t: TableInfoView| table_hook_text(t)),
                    concat_map(x.reducers, |r: ReducerInfoView| reducer_hook_text(r) + "\n"@),
                    concat_map(
                        x.procedures,
                        |p: ProcedureInfoView| procedure_hook_text(p) + "\n"@,
                    ),
                ],
            |x: HooksInput| x.procedures.len() > 0,
        ),
{
    broadcast use group_templates;

    let shape = template().hole(0).text(HOOKS_PRELUDE@).hole(1).text(CONTEXT_TYPES@).text(
        RECONNECT_HELPERS@,
    ).text("\n"@).hole(2).text("\n"@).text(CONTEXT_HOOKS@).text(SUBSCRIPTION_HOOK@).text(
        "\n"@,
    ).text(TABLE_SECTION@).hole(3).text(REDUCER_SECTION@).hole(4).and(
        template().text(PROCEDURE_SECTION@).hole(5),
    ).text(STATE_HOOKS@);
    assert((|r: ReducerInfoView| reducer_block_text(r)) =~= (|r: ReducerInfoView|
        reducer_hook_text(r) + "\n"@));
    assert((|p: ProcedureInfoView| procedure_block_text(p)) =~= (|p: ProcedureInfoView|
        procedure_hook_text(p) + "\n"@));
    assert(gives(
        shape,
        |x: HooksInput| hooks_file_text(x.header, x.tables, x.reducers, x.procedures),
        |x: HooksInput|
                seq![
                    x.header,
                    concat_map(x.tables, |t: TableInfoView| table_field_text(t)),
                    context_provider_text(x.tables),
                    concat_map(x.tables, |t: TableInfoView| table_hook_text(t)),
                    concat_map(x.reducers, |r: ReducerInfoView| reducer_hook_text(r) + "\n"@),
                    concat_map(
                        x.procedures,
                        |p: ProcedureInfoView| procedure_hook_text(p) + "\n"@,
                    ),
                ],
        |x: HooksInput| x.procedures.len() > 0,
    ));
}

/// The file with the hooks of a module without procedures is one text, but for the header and what is
/// written for each declaration.
#[verifier::rlimit(50)]
pub proof fn law_files_without_procedures_follow_a_template()
    ensures
        follows_template(
            |x: HooksInput| hooks_file_text(x.header, x.tables, x.reducers, x.procedures),
            |x: HooksInput|
                seq![
                    x.header,
                    concat_map(x.tables, |t: TableInfoView| table_field_text(t)),
                    context_provider_text(x.tables),
                    concat_map(x.tables, |t: TableInfoView| table_hook_text(t)),
                    concat_map(x.reducers, |r: ReducerInfoView| reducer_hook_text(r) + "\n"@),
                ],
            |x: HooksInput| x.procedures.len() == 0,
        ),
{
    broadcast use group_templates;

    let shape = template().hole(0).text(HOOKS_PRELUDE@).hole(1).text(CONTEXT_TYPES@).text(
        RECONNECT_HELPERS@,
    ).text("\n"@).hole(2).text("\n"@).text(CONTEXT_HOOKS@).text(SUBSCRIPTION_HOOK@).text(
        "\n"@,
    ).text(TABLE_SECTION@).hole(3).text(REDUCER_SECTION@).hole(4).text(STATE_HOOKS@);
    assert((|r: ReducerInfoView| reducer_block_text(r)) =~= (|r: ReducerInfoView|
        reducer_hook_text(r) + "\n"@));
    assert((|p: ProcedureInfoView| procedure_block_text(p)) =~= (|p: ProcedureInfoView|
        procedure_hook_text(p) + "\n"@));
    assert forall|a: Seq<char>| #[trigger] (a + Seq::<char>::empty()) == a by {
        assert(a + Seq::<char>::empty() =~= a);
    }
    assert(gives(
        shape,
        |x: HooksInput| hooks_file_text(x.header, x.tables, x.reducers, x.procedures),
        |x: HooksInput|
                seq![
                    x.header,
                    concat_map(x.tables, |t: TableInfoView| table_field_text(t)),
                    context_provider_text(x.tables),
                    concat_map(x.tables, |t: TableInfoView| table_hook_text(t)),
                    concat_map(x.reducers, |r: ReducerInfoView| reducer_hook_text(r) + "\n"@),
                ],
        |x: HooksInput| x.procedures.len() == 0,
    ));
}

} // verus!
