//! The hooks are one text for all declarations, but for what is known of each.

use vstd::prelude::*;
use crate::hooks::context::{
    on_insert_text, on_update_text, populate_text, signal_init_text, table_callbacks_text,
};
use crate::hooks::procedure::{procedure_hook_text, CALL_END, CALL_START, INVOKE_END, INVOKE_START};
use crate::hooks::reducer::{
    reducer_hook_text, ASYNC_END, ASYNC_START, CALLBACK_END, THEN_END, THEN_START,
};
use crate::hooks::table::{table_field_text, table_hook_text};
use crate::info::{ProcedureInfoView, ReducerInfoView, TableInfoView};
use super::templates::{follows_template, gives, group_templates, template, Template};

verus! {

/// The field that holds a table's signal is one text for all tables, but for the accessor and the
/// row type.
pub proof fn law_table_fields_follow_a_template()
    ensures
        follows_template(
            |t: TableInfoView| table_field_text(t),
            |t: TableInfoView| seq![t.accessor_snake, t.row_type],
            |t: TableInfoView| true,
        ),
{
    broadcast use group_templates;

    let shape = template()
        .text("    pub "@)
        .hole(0)
        .text(": SyncSignal<Vec<"@)
        .hole(1)
        .text(">>,\n"@);
    assert(gives(
        shape,
        |t: TableInfoView| table_field_text(t),
        |t: TableInfoView| seq![t.accessor_snake, t.row_type],
        |t: TableInfoView| true,
    ));
}

/// The hook for a table is one text for all tables, but for the accessor and the row type.
pub proof fn law_table_hooks_follow_a_template()
    ensures
        follows_template(
            |t: TableInfoView| table_hook_text(t),
            |t: TableInfoView| seq![t.accessor_snake, t.row_type],
            |t: TableInfoView| true,
        ),
{
    broadcast use group_templates;

    let shape = template()
        .text("/// Get a reactive signal containing all rows of the `"@)
        .hole(0)
        .text("` table.\n"@)
        .text("#[must_use]\n"@)
        .text("pub fn use_table_"@)
        .hole(0)
        .text("() -> SyncSignal<Vec<"@)
        .hole(1)
        .text(">> {\n"@)
        .text("    let ctx = use_spacetimedb_context();\n"@)
        .text("    ctx.tables."@)
        .hole(0)
        .text("\n"@)
        .text("}\n"@)
        .text("\n"@);
    assert(gives(
        shape,
        |t: TableInfoView| table_hook_text(t),
        |t: TableInfoView| seq![t.accessor_snake, t.row_type],
        |t: TableInfoView| true,
    ));
}

/// The initialiser of a table's signal is one text for all tables, but for the accessor.
pub proof fn law_signal_initialisers_follow_a_template()
    ensures
        follows_template(
            |t: TableInfoView| signal_init_text(t),
            |t: TableInfoView| seq![t.accessor_snake],
            |t: TableInfoView| true,
        ),
{
    broadcast use group_templates;

    let shape = template()
        .text("        "@)
        .hole(0)
        .text(": use_signal_sync(Vec::new),\n"@);
    assert(gives(
        shape,
        |t: TableInfoView| signal_init_text(t),
        |t: TableInfoView| seq![t.accessor_snake],
        |t: TableInfoView| true,
    ));
}

/// The template of what fills a table's signal.
spec fn populate_shape() -> Template {
    template()
        .text("                    // Populate initial rows for "@)
        .hole(0)
        .text("\n"@)
        .text("                    let current: Vec<"@)
        .hole(1)
        .text("> = conn.db."@)
        .hole(0)
        .text("().iter().collect();\n"@)
        .text("                    table_signals_on_connect."@)
        .hole(0)
        .text(".set(current);\n"@)
        .text("\n"@)
        .text("                    // Keep signal in sync on changes\n"@)
}

/// The template of a callback that fills a table's signal anew.
spec fn refresh_shape(callback: Seq<char>) -> Template {
    template()
        .text("                    conn.db."@)
        .hole(0)
        .text("()."@)
        .text(callback)
        .text(" {\n"@)
        .text("                        let updated: Vec<"@)
        .hole(1)
        .text("> = ctx.db."@)
        .hole(0)
        .text("().iter().collect();\n"@)
        .text("                        table_signals_on_connect."@)
        .hole(0)
        .text(".set(updated);\n"@)
        .text("                    });\n"@)
}

/// What the `on_connect` callback does for a table with a primary key is one text for all of
/// them, but for the accessor and the row type.
pub proof fn law_callbacks_of_keyed_tables_follow_a_template()
    ensures
        follows_template(
            |t: TableInfoView| table_callbacks_text(t),
            |t: TableInfoView| seq![t.accessor_snake, t.row_type],
            |t: TableInfoView| t.has_primary_key,
        ),
{
    broadcast use group_templates;

    let shape = populate_shape().and(refresh_shape("on_insert(move |ctx, _row|"@)).and(
        refresh_shape("on_update(move |ctx, _old, _new|"@),
    ).and(refresh_shape("on_delete(move |ctx, _row|"@));
    assert(gives(
        shape,
        |t: TableInfoView| table_callbacks_text(t),
        |t: TableInfoView| seq![t.accessor_snake, t.row_type],
        |t: TableInfoView| t.has_primary_key,
    ));
}

/// What the `on_connect` callback does for a table without a primary key is one text for all of
/// them, but for the accessor and the row type.
pub proof fn law_callbacks_of_unkeyed_tables_follow_a_template()
    ensures
        follows_template(
            |t: TableInfoView| table_callbacks_text(t),
            |t: TableInfoView| seq![t.accessor_snake, t.row_type],
            |t: TableInfoView| !t.has_primary_key,
        ),
{
    broadcast use group_templates;

    let shape = populate_shape().and(refresh_shape("on_insert(move |ctx, _row|"@)).and(refresh_shape("on_delete(move |ctx, _row|"@));
    assert forall|t: TableInfoView| !(#[trigger] t.has_primary_key) implies populate_text(t)
        + on_insert_text(t) + on_update_text(t) == populate_text(t) + on_insert_text(t) by {
        let start = populate_text(t) + on_insert_text(t);
        assert(start + on_update_text(t) =~= start);
    }
    assert(gives(
        shape,
        |t: TableInfoView| table_callbacks_text(t),
        |t: TableInfoView| seq![t.accessor_snake, t.row_type],
        |t: TableInfoView| !t.has_primary_key,
    ));
}

/// The template of the callback for a reducer without parameters.
spec fn plain_callback_shape() -> Template {
    template()
        .text("pub fn use_reducer_"@)
        .hole(1)
        .text("() -> impl Fn() -> spacetimedb_sdk::Result<()> + Clone + 'static {\n"@)
        .text("    let conn_signal = use_connection();\n"@)
        .text("\n"@)
        .text("    move || {\n"@)
        .text("        if let Some(conn) = conn_signal().as_ref() {\n"@)
        .text("            conn.reducers."@)
        .hole(1)
        .text("()\n"@)
        .text(CALLBACK_END@)
}

/// The template of the callback for a reducer with parameters.
spec fn callback_with_args_shape() -> Template {
    template()
        .text("pub fn use_reducer_"@)
        .hole(1)
        .text("() -> impl Fn("@)
        .hole(4)
        .text(") -> spacetimedb_sdk::Result<()> + Clone + 'static {\n"@)
        .text("    let conn_signal = use_connection();\n"@)
        .text("\n"@)
        .text("    move |"@)
        .hole(3)
        .text("| {\n"@)
        .text("        if let Some(conn) = conn_signal().as_ref() {\n"@)
        .text("            conn.reducers."@)
        .hole(1)
        .text("("@)
        .hole(2)
        .text(")\n"@)
        .text(CALLBACK_END@)
}

/// The template of the callback with a signal.
spec fn then_shape() -> Template {
    template()
        .text("/// Invoke the `"@)
        .hole(0)
        .text("` reducer and get a reactive signal for its completion status.\n"@)
        .text("///\n"@)
        .text("/// Returns `(invoke, result)`. Calling `invoke(...)` sends the reducer invocation to the server.\n"@)
        .text("/// The `result` signal is updated to `Some(Ok(()))` on success or `Some(Err(message))`\n"@)
        .text("/// on failure once the server notifies completion.\n"@)
        .text("#[must_use]\n"@)
        .text("pub fn use_reducer_"@)
        .hole(1)
        .text("_then() -> (impl Fn("@)
        .hole(4)
        .text(") + Clone + 'static, SyncSignal<Option<Result<(), String>>>) {\n"@)
        .text("    let conn_signal = use_connection();\n"@)
        .text("    let mut result: SyncSignal<Option<Result<(), String>>> = use_signal_sync(|| None);\n"@)
        .text("\n"@)
        .text("    let invoke = move |"@)
        .hole(3)
        .text("| {\n"@)
        .text(THEN_START@)
        .text("            if let Err(e) = conn.reducers."@)
        .hole(1)
        .text("_then("@)
        .hole(5)
        .text("move |_ctx, res| {\n"@)
        .text(THEN_END@)
}

/// The template of the callback that can be awaited.
spec fn async_shape() -> Template {
    template()
        .text("/// Invoke the `"@)
        .hole(0)
        .text("` reducer asynchronously and await its completion.\n"@)
        .text("///\n"@)
        .text("/// Returns a closure that can be called to invoke the reducer and `await` its completion directly.\n"@)
        .text("#[must_use]\n"@)
        .text("pub fn use_reducer_"@)
        .hole(1)
        .text("_async() -> impl Fn("@)
        .hole(4)
        .text(") -> impl std::future::Future<Output = Result<(), String>> + Clone + 'static {\n"@)
        .text("    let conn_signal = use_connection();\n"@)
        .text("\n"@)
        .text("    move |"@)
        .hole(3)
        .text("| {\n"@)
        .text(ASYNC_START@)
        .text("            if let Err(e) = conn.reducers."@)
        .hole(1)
        .text("_then("@)
        .hole(5)
        .text("move |_ctx, res| {\n"@)
        .text(ASYNC_END@)
}

/// The hooks for a reducer with parameters are one text for all of them, but for its names and
/// its arguments.
pub proof fn law_hooks_of_reducers_with_parameters_follow_a_template()
    ensures
        follows_template(
            |r: ReducerInfoView| reducer_hook_text(r),
            |r: ReducerInfoView|
                seq![
                    r.name_orig,
                    r.name_snake,
                    r.arg_names,
                    r.closure_params,
                    r.fn_trait_params,
                    if r.arg_names.len() == 0 {
                        Seq::empty()
                    } else {
                        r.arg_names + ", "@
                    },
                ],
            |r: ReducerInfoView| r.arglist.len() > 0,
        ),
{
    broadcast use group_templates;

    let callback = template().text("/// Get a callback to invoke the `"@).hole(0).text(
        "` reducer.\n"@,
    ).text("#[must_use]\n"@).and(callback_with_args_shape());
    let shape = callback.text("\n"@).and(then_shape()).text("\n"@).and(async_shape());
    assert(gives(
        shape,
        |r: ReducerInfoView| reducer_hook_text(r),
        |r: ReducerInfoView|
                seq![
                    r.name_orig,
                    r.name_snake,
                    r.arg_names,
                    r.closure_params,
                    r.fn_trait_params,
                    if r.arg_names.len() == 0 {
                        Seq::empty()
                    } else {
                        r.arg_names + ", "@
                    },
                ],
        |r: ReducerInfoView| r.arglist.len() > 0,
    ));
}

/// The hooks for a reducer without parameters are one text for all of them, but for its names and
/// its arguments.
pub proof fn law_hooks_of_reducers_without_parameters_follow_a_template()
    ensures
        follows_template(
            |r: ReducerInfoView| reducer_hook_text(r),
            |r: ReducerInfoView|
                seq![
                    r.name_orig,
                    r.name_snake,
                    r.arg_names,
                    r.closure_params,
                    r.fn_trait_params,
                    if r.arg_names.len() == 0 {
                        Seq::empty()
                    } else {
                        r.arg_names + ", "@
                    },
                ],
            |r: ReducerInfoView| r.arglist.len() == 0,
        ),
{
    broadcast use group_templates;

    let callback = template().text("/// Get a callback to invoke the `"@).hole(0).text(
        "` reducer.\n"@,
    ).text("#[must_use]\n"@).and(plain_callback_shape());
    let shape = callback.text("\n"@).and(then_shape()).text("\n"@).and(async_shape());
    assert(gives(
        shape,
        |r: ReducerInfoView| reducer_hook_text(r),
        |r: ReducerInfoView|
                seq![
                    r.name_orig,
                    r.name_snake,
                    r.arg_names,
                    r.closure_params,
                    r.fn_trait_params,
                    if r.arg_names.len() == 0 {
                        Seq::empty()
                    } else {
                        r.arg_names + ", "@
                    },
                ],
        |r: ReducerInfoView| r.arglist.len() == 0,
    ));
}

/// The template of the procedure with a signal.
spec fn signal_shape() -> Template {
    template()
        .text("/// Invoke the `"@)
        .hole(0)
        .text("` procedure and get a reactive signal for its result.\n"@)
        .text("///\n"@)
        .text("/// Returns `(invoke, result)`. Calling `invoke(...)` sends the procedure call to the server.\n"@)
        .text("/// The `result` signal is updated to `Some(Ok(value))` on success or `Some(Err(message))`\n"@)
        .text("/// on failure once the server responds.\n"@)
        .text("#[must_use]\n"@)
        .text("pub fn use_procedure_"@)
        .hole(1)
        .text("() -> (impl Fn("@)
        .hole(3)
        .text(") + Clone + 'static, SyncSignal<Option<Result<"@)
        .hole(4)
        .text(", String>>>) {\n"@)
        .text("    let conn_signal = use_connection();\n"@)
        .text("    let mut result: SyncSignal<Option<Result<"@)
        .hole(4)
        .text(", String>>> = use_signal_sync(|| None);\n"@)
        .text("\n"@)
        .text("    let invoke = move |"@)
        .hole(2)
        .text("| {\n"@)
        .text(INVOKE_START@)
        .text("            conn.procedures."@)
        .hole(1)
        .text("_then("@)
        .hole(5)
        .text("move |_ctx, res| {\n"@)
        .text(INVOKE_END@)
}

/// The template of the procedure that can be awaited.
spec fn call_shape() -> Template {
    template()
        .text("/// Invoke the `"@)
        .hole(0)
        .text("` procedure asynchronously.\n"@)
        .text("///\n"@)
        .text("/// Returns a closure that can be called to invoke the procedure and `await` the response directly.\n"@)
        .text("#[must_use]\n"@)
        .text("pub fn use_procedure_"@)
        .hole(1)
        .text("_async() -> impl Fn("@)
        .hole(3)
        .text(") -> impl std::future::Future<Output = Result<"@)
        .hole(4)
        .text(", String>> + Clone + 'static {\n"@)
        .text("    let conn_signal = use_connection();\n"@)
        .text("\n"@)
        .text("    move |"@)
        .hole(2)
        .text("| {\n"@)
        .text(CALL_START@)
        .text("            conn.procedures."@)
        .hole(1)
        .text("_then("@)
        .hole(5)
        .text("move |_ctx, res| {\n"@)
        .text(CALL_END@)
}

/// The hooks for a procedure are one text for all of them, but for its names, its arguments and its
/// return type.
pub proof fn law_hooks_of_procedures_follow_a_template()
    ensures
        follows_template(
            |p: ProcedureInfoView| procedure_hook_text(p),
            |p: ProcedureInfoView|
                seq![
                    p.name_orig,
                    p.name_snake,
                    p.closure_params,
                    p.fn_trait_params,
                    p.return_type,
                    if p.arg_names.len() == 0 {
                        Seq::empty()
                    } else {
                        p.arg_names + ", "@
                    },
                ],
            |p: ProcedureInfoView| true,
        ),
{
    broadcast use group_templates;

    let shape = signal_shape().text("\n"@).and(call_shape());
    assert(gives(
        shape,
        |p: ProcedureInfoView| procedure_hook_text(p),
        |p: ProcedureInfoView|
                seq![
                    p.name_orig,
                    p.name_snake,
                    p.closure_params,
                    p.fn_trait_params,
                    p.return_type,
                    if p.arg_names.len() == 0 {
                        Seq::empty()
                    } else {
                        p.arg_names + ", "@
                    },
                ],
        |p: ProcedureInfoView| true,
    ));
}

} // verus!
