//! How many hooks the file with the hooks holds.

use vstd::prelude::*;
use crate::args::leading_args_text;
use crate::collect::{
    covered_procedures, covered_reducers, covered_relations, procedure_infos, reducer_infos,
    table_infos,
};
use crate::hooks::context::{
    context_provider_text, on_insert_text, on_update_text, populate_text, refresh_text,
    signal_init_text, table_callbacks_text,
};
use crate::hooks::procedure::{call_hook_text, procedure_hook_text, signal_hook_text};
use crate::hooks::reducer::{
    async_hook_text, callback_hook_text, callback_with_args_text, plain_callback_text,
    reducer_hook_text, then_hook_text,
};
use crate::hooks::table::{table_field_text, table_hook_text};
use crate::hooks_file::{
    hooks_file_text, module_hooks_text, procedure_block_text, procedure_section_text,
    reducer_block_text,
};
use crate::info::{ProcedureInfoView, ReducerInfoView, TableInfoView};
use crate::schema::{CodegenVisibility, ModuleDef};
use crate::text::{concat_map, lemma_concat_map_step};
use super::lines::{
    ends_line, group_lines, hook_lines, lemma_hook_opening, lemma_plain_lines, lemma_plain_opening,
    lemma_unbroken, line_end, unbroken, whole_lines,
};
use super::literals::{
    lemma_async_end, lemma_async_start, lemma_call_end, lemma_call_start, lemma_callback_end,
    lemma_context_hooks, lemma_context_types, lemma_hooks_prelude, lemma_invoke_end,
    lemma_invoke_start, lemma_procedure_section, lemma_provider_connect, lemma_provider_head,
    lemma_provider_tail, lemma_reconnect_helpers, lemma_reducer_section, lemma_state_hooks,
    lemma_subscription_hook, lemma_table_section, lemma_then_end, lemma_then_start,
};

verus! {

/// Whether no name of the table holds a line break.
pub open spec fn unbroken_table(t: TableInfoView) -> bool {
    unbroken(t.accessor_snake) && unbroken(t.row_type)
}

/// Whether no name of the reducer or of its arguments holds a line break.
pub open spec fn unbroken_reducer(r: ReducerInfoView) -> bool {
    unbroken(r.name_snake) && unbroken(r.name_orig) && unbroken(r.arg_names) && unbroken(
        r.closure_params,
    ) && unbroken(r.fn_trait_params)
}

/// Whether no name of the procedure, of its arguments or of its return type holds a line break.
pub open spec fn unbroken_procedure(p: ProcedureInfoView) -> bool {
    unbroken(p.name_snake) && unbroken(p.name_orig) && unbroken(p.arg_names) && unbroken(
        p.closure_params,
    ) && unbroken(p.fn_trait_params) && unbroken(p.return_type)
}

/// Leading arguments hold no line break that the arguments do not hold.
proof fn lemma_leading_args_unbroken(arg_names: Seq<char>)
    requires
        unbroken(arg_names),
    ensures
        unbroken(leading_args_text(arg_names)),
{
    reveal_strlit(", ");
    lemma_unbroken(arg_names, ", "@);
}

/// A table's field opens no hook.
proof fn lemma_table_field_lines(t: TableInfoView)
    requires
        unbroken_table(t),
    ensures
        whole_lines(table_field_text(t)),
        hook_lines(table_field_text(t)) == 0,
{
    broadcast use group_lines;

    reveal_strlit("    pub ");
    reveal_strlit(": SyncSignal<Vec<");
    reveal_strlit(">>,\n");
    lemma_plain_opening("    pub "@);
    assert(unbroken(": SyncSignal<Vec<"@));
    assert(line_end(">>,\n"@));
}

/// A table's hook is one.
proof fn lemma_table_hook_lines(t: TableInfoView)
    requires
        unbroken_table(t),
    ensures
        whole_lines(table_hook_text(t)),
        hook_lines(table_hook_text(t)) == 1,
{
    broadcast use group_lines;

    reveal_strlit("pub fn use_");
    reveal_strlit("/// Get a reactive signal containing all rows of the `");
    reveal_strlit("` table.\n");
    reveal_strlit("#[must_use]\n");
    reveal_strlit("pub fn use_table_");
    reveal_strlit("() -> SyncSignal<Vec<");
    reveal_strlit(">> {\n");
    reveal_strlit("    let ctx = use_spacetimedb_context();\n");
    reveal_strlit("    ctx.tables.");
    reveal_strlit("\n");
    reveal_strlit("}\n");
    lemma_plain_opening("/// Get a reactive signal containing all rows of the `"@);
    assert(line_end("` table.\n"@));
    lemma_plain_lines("#[must_use]\n"@);
    lemma_hook_opening("pub fn use_table_"@);
    assert(unbroken("() -> SyncSignal<Vec<"@));
    assert(line_end(">> {\n"@));
    lemma_plain_lines("    let ctx = use_spacetimedb_context();\n"@);
    lemma_plain_opening("    ctx.tables."@);
    assert(line_end("\n"@));
    lemma_plain_lines("}\n"@);
    lemma_plain_lines("\n"@);
}

/// The initialiser of a table's signal opens no hook.
proof fn lemma_signal_init_lines(t: TableInfoView)
    requires
        unbroken_table(t),
    ensures
        whole_lines(signal_init_text(t)),
        hook_lines(signal_init_text(t)) == 0,
{
    broadcast use group_lines;

    reveal_strlit("        ");
    reveal_strlit(": use_signal_sync(Vec::new),\n");
    lemma_plain_opening("        "@);
    assert(line_end(": use_signal_sync(Vec::new),\n"@));
}

/// Filling a table's signal opens no hook.
proof fn lemma_populate_lines(t: TableInfoView)
    requires
        unbroken_table(t),
    ensures
        whole_lines(populate_text(t)),
        hook_lines(populate_text(t)) == 0,
{
    broadcast use group_lines;

    reveal_strlit("                    // Populate initial rows for ");
    reveal_strlit("\n");
    reveal_strlit("                    let current: Vec<");
    reveal_strlit("> = conn.db.");
    reveal_strlit("().iter().collect();\n");
    reveal_strlit("                    table_signals_on_connect.");
    reveal_strlit(".set(current);\n");
    reveal_strlit("                    // Keep signal in sync on changes\n");
    lemma_plain_opening("                    // Populate initial rows for "@);
    assert(line_end("\n"@));
    lemma_plain_opening("                    let current: Vec<"@);
    assert(unbroken("> = conn.db."@));
    assert(line_end("().iter().collect();\n"@));
    lemma_plain_opening("                    table_signals_on_connect."@);
    assert(line_end(".set(current);\n"@));
    lemma_plain_lines("\n"@);
    lemma_plain_lines("                    // Keep signal in sync on changes\n"@);
}

/// A callback of a table opens no hook.
proof fn lemma_refresh_lines(t: TableInfoView, callback: Seq<char>)
    requires
        unbroken_table(t),
        unbroken(callback),
    ensures
        whole_lines(refresh_text(t, callback)),
        hook_lines(refresh_text(t, callback)) == 0,
{
    broadcast use group_lines;

    reveal_strlit("                    conn.db.");
    reveal_strlit("().");
    reveal_strlit(" {\n");
    reveal_strlit("                        let updated: Vec<");
    reveal_strlit("> = ctx.db.");
    reveal_strlit("().iter().collect();\n");
    reveal_strlit("                        table_signals_on_connect.");
    reveal_strlit(".set(updated);\n");
    reveal_strlit("                    });\n");
    lemma_plain_opening("                    conn.db."@);
    assert(unbroken("()."@));
    assert(line_end(" {\n"@));
    lemma_plain_opening("                        let updated: Vec<"@);
    assert(unbroken("> = ctx.db."@));
    assert(line_end("().iter().collect();\n"@));
    lemma_plain_opening("                        table_signals_on_connect."@);
    assert(line_end(".set(updated);\n"@));
    lemma_plain_lines("                    });\n"@);
}

/// What the `on_connect` callback does for a table opens no hook.
proof fn lemma_table_callbacks_lines(t: TableInfoView)
    requires
        unbroken_table(t),
    ensures
        whole_lines(table_callbacks_text(t)),
        hook_lines(table_callbacks_text(t)) == 0,
{
    broadcast use group_lines;

    reveal_strlit("on_insert(move |ctx, _row|");
    reveal_strlit("on_update(move |ctx, _old, _new|");
    reveal_strlit("on_delete(move |ctx, _row|");
    lemma_populate_lines(t);
    lemma_refresh_lines(t, "on_insert(move |ctx, _row|"@);
    lemma_refresh_lines(t, "on_update(move |ctx, _old, _new|"@);
    lemma_refresh_lines(t, "on_delete(move |ctx, _row|"@);
    let start = populate_text(t) + on_insert_text(t);
    if !t.has_primary_key {
        assert(start + on_update_text(t) =~= start);
    }
}

/// The callback for a reducer without parameters is one hook.
proof fn lemma_plain_callback_lines(r: ReducerInfoView)
    requires
        unbroken_reducer(r),
    ensures
        whole_lines(plain_callback_text(r)),
        hook_lines(plain_callback_text(r)) == 1,
{
    broadcast use group_lines;

    reveal_strlit("pub fn use_");
    reveal_strlit("pub fn use_reducer_");
    reveal_strlit("() -> impl Fn() -> spacetimedb_sdk::Result<()> + Clone + 'static {\n");
    reveal_strlit("    let conn_signal = use_connection();\n");
    reveal_strlit("\n");
    reveal_strlit("    move || {\n");
    reveal_strlit("        if let Some(conn) = conn_signal().as_ref() {\n");
    reveal_strlit("            conn.reducers.");
    reveal_strlit("()\n");
    lemma_callback_end();
    lemma_hook_opening("pub fn use_reducer_"@);
    assert(line_end("() -> impl Fn() -> spacetimedb_sdk::Result<()> + Clone + 'static {\n"@));
    lemma_plain_lines("    let conn_signal = use_connection();\n"@);
    lemma_plain_lines("\n"@);
    lemma_plain_lines("    move || {\n"@);
    lemma_plain_lines("        if let Some(conn) = conn_signal().as_ref() {\n"@);
    lemma_plain_opening("            conn.reducers."@);
    assert(line_end("()\n"@));
}

/// The callback for a reducer with parameters is one hook.
proof fn lemma_callback_with_args_lines(r: ReducerInfoView)
    requires
        unbroken_reducer(r),
    ensures
        whole_lines(callback_with_args_text(r)),
        hook_lines(callback_with_args_text(r)) == 1,
{
    broadcast use group_lines;

    reveal_strlit("pub fn use_");
    reveal_strlit("pub fn use_reducer_");
    reveal_strlit("() -> impl Fn(");
    reveal_strlit(") -> spacetimedb_sdk::Result<()> + Clone + 'static {\n");
    reveal_strlit("    let conn_signal = use_connection();\n");
    reveal_strlit("\n");
    reveal_strlit("    move |");
    reveal_strlit("| {\n");
    reveal_strlit("        if let Some(conn) = conn_signal().as_ref() {\n");
    reveal_strlit("            conn.reducers.");
    reveal_strlit("(");
    reveal_strlit(")\n");
    lemma_callback_end();
    lemma_hook_opening("pub fn use_reducer_"@);
    assert(unbroken("() -> impl Fn("@));
    assert(line_end(") -> spacetimedb_sdk::Result<()> + Clone + 'static {\n"@));
    lemma_plain_lines("    let conn_signal = use_connection();\n"@);
    lemma_plain_lines("\n"@);
    lemma_plain_opening("    move |"@);
    assert(line_end("| {\n"@));
    lemma_plain_lines("        if let Some(conn) = conn_signal().as_ref() {\n"@);
    lemma_plain_opening("            conn.reducers."@);
    assert(unbroken("("@));
    assert(line_end(")\n"@));
}

/// The callback for a reducer is one hook.
proof fn lemma_callback_hook_lines(r: ReducerInfoView)
    requires
        unbroken_reducer(r),
    ensures
        whole_lines(callback_hook_text(r)),
        hook_lines(callback_hook_text(r)) == 1,
{
    broadcast use group_lines;

    reveal_strlit("/// Get a callback to invoke the `");
    reveal_strlit("` reducer.\n");
    reveal_strlit("#[must_use]\n");
    lemma_plain_callback_lines(r);
    lemma_callback_with_args_lines(r);
    lemma_plain_opening("/// Get a callback to invoke the `"@);
    assert(line_end("` reducer.\n"@));
    lemma_plain_lines("#[must_use]\n"@);
}

/// The callback with a signal is one hook.
proof fn lemma_then_hook_lines(r: ReducerInfoView)
    requires
        unbroken_reducer(r),
    ensures
        whole_lines(then_hook_text(r)),
        hook_lines(then_hook_text(r)) == 1,
{
    broadcast use group_lines;

    reveal_strlit("pub fn use_");
    reveal_strlit("/// Invoke the `");
    reveal_strlit("` reducer and get a reactive signal for its completion status.\n");
    reveal_strlit("///\n");
    reveal_strlit("/// Returns `(invoke, result)`. Calling `invoke(...)` sends the reducer invocation to the server.\n");
    reveal_strlit("/// The `result` signal is updated to `Some(Ok(()))` on success or `Some(Err(message))`\n");
    reveal_strlit("/// on failure once the server notifies completion.\n");
    reveal_strlit("#[must_use]\n");
    reveal_strlit("pub fn use_reducer_");
    reveal_strlit("_then() -> (impl Fn(");
    reveal_strlit(") + Clone + 'static, SyncSignal<Option<Result<(), String>>>) {\n");
    reveal_strlit("    let conn_signal = use_connection();\n");
    reveal_strlit("    let mut result: SyncSignal<Option<Result<(), String>>> = use_signal_sync(|| None);\n");
    reveal_strlit("\n");
    reveal_strlit("    let invoke = move |");
    reveal_strlit("| {\n");
    reveal_strlit("            if let Err(e) = conn.reducers.");
    reveal_strlit("_then(");
    reveal_strlit("move |_ctx, res| {\n");
    lemma_then_start();
    lemma_then_end();
    lemma_leading_args_unbroken(r.arg_names);
    lemma_plain_opening("/// Invoke the `"@);
    assert(line_end("` reducer and get a reactive signal for its completion status.\n"@));
    lemma_plain_lines("///\n"@);
    lemma_plain_lines("/// Returns `(invoke, result)`. Calling `invoke(...)` sends the reducer invocation to the server.\n"@);
    lemma_plain_lines("/// The `result` signal is updated to `Some(Ok(()))` on success or `Some(Err(message))`\n"@);
    lemma_plain_lines("/// on failure once the server notifies completion.\n"@);
    lemma_plain_lines("#[must_use]\n"@);
    lemma_hook_opening("pub fn use_reducer_"@);
    assert(unbroken("_then() -> (impl Fn("@));
    assert(line_end(") + Clone + 'static, SyncSignal<Option<Result<(), String>>>) {\n"@));
    lemma_plain_lines("    let conn_signal = use_connection();\n"@);
    lemma_plain_lines("    let mut result: SyncSignal<Option<Result<(), String>>> = use_signal_sync(|| None);\n"@);
    lemma_plain_lines("\n"@);
    lemma_plain_opening("    let invoke = move |"@);
    assert(line_end("| {\n"@));
    lemma_plain_opening("            if let Err(e) = conn.reducers."@);
    assert(unbroken("_then("@));
    assert(line_end("move |_ctx, res| {\n"@));
}

/// The callback that can be awaited is one hook.
proof fn lemma_async_hook_lines(r: ReducerInfoView)
    requires
        unbroken_reducer(r),
    ensures
        whole_lines(async_hook_text(r)),
        hook_lines(async_hook_text(r)) == 1,
{
    broadcast use group_lines;

    reveal_strlit("pub fn use_");
    reveal_strlit("/// Invoke the `");
    reveal_strlit("` reducer asynchronously and await its completion.\n");
    reveal_strlit("///\n");
    reveal_strlit("/// Returns a closure that can be called to invoke the reducer and `await` its completion directly.\n");
    reveal_strlit("#[must_use]\n");
    reveal_strlit("pub fn use_reducer_");
    reveal_strlit("_async() -> impl Fn(");
    reveal_strlit(") -> impl std::future::Future<Output = Result<(), String>> + Clone + 'static {\n");
    reveal_strlit("    let conn_signal = use_connection();\n");
    reveal_strlit("\n");
    reveal_strlit("    move |");
    reveal_strlit("| {\n");
    reveal_strlit("            if let Err(e) = conn.reducers.");
    reveal_strlit("_then(");
    reveal_strlit("move |_ctx, res| {\n");
    lemma_async_start();
    lemma_async_end();
    lemma_leading_args_unbroken(r.arg_names);
    lemma_plain_opening("/// Invoke the `"@);
    assert(line_end("` reducer asynchronously and await its completion.\n"@));
    lemma_plain_lines("///\n"@);
    lemma_plain_lines("/// Returns a closure that can be called to invoke the reducer and `await` its completion directly.\n"@);
    lemma_plain_lines("#[must_use]\n"@);
    lemma_hook_opening("pub fn use_reducer_"@);
    assert(unbroken("_async() -> impl Fn("@));
    assert(line_end(") -> impl std::future::Future<Output = Result<(), String>> + Clone + 'static {\n"@));
    lemma_plain_lines("    let conn_signal = use_connection();\n"@);
    lemma_plain_lines("\n"@);
    lemma_plain_opening("    move |"@);
    assert(line_end("| {\n"@));
    lemma_plain_opening("            if let Err(e) = conn.reducers."@);
    assert(unbroken("_then("@));
    assert(line_end("move |_ctx, res| {\n"@));
}

/// The procedure with a signal is one hook.
proof fn lemma_signal_hook_lines(p: ProcedureInfoView)
    requires
        unbroken_procedure(p),
    ensures
        whole_lines(signal_hook_text(p)),
        hook_lines(signal_hook_text(p)) == 1,
{
    broadcast use group_lines;

    reveal_strlit("pub fn use_");
    reveal_strlit("/// Invoke the `");
    reveal_strlit("` procedure and get a reactive signal for its result.\n");
    reveal_strlit("///\n");
    reveal_strlit("/// Returns `(invoke, result)`. Calling `invoke(...)` sends the procedure call to the server.\n");
    reveal_strlit("/// The `result` signal is updated to `Some(Ok(value))` on success or `Some(Err(message))`\n");
    reveal_strlit("/// on failure once the server responds.\n");
    reveal_strlit("#[must_use]\n");
    reveal_strlit("pub fn use_procedure_");
    reveal_strlit("() -> (impl Fn(");
    reveal_strlit(") + Clone + 'static, SyncSignal<Option<Result<");
    reveal_strlit(", String>>>) {\n");
    reveal_strlit("    let conn_signal = use_connection();\n");
    reveal_strlit("    let mut result: SyncSignal<Option<Result<");
    reveal_strlit(", String>>> = use_signal_sync(|| None);\n");
    reveal_strlit("\n");
    reveal_strlit("    let invoke = move |");
    reveal_strlit("| {\n");
    reveal_strlit("            conn.procedures.");
    reveal_strlit("_then(");
    reveal_strlit("move |_ctx, res| {\n");
    lemma_invoke_start();
    lemma_invoke_end();
    lemma_leading_args_unbroken(p.arg_names);
    lemma_plain_opening("/// Invoke the `"@);
    assert(line_end("` procedure and get a reactive signal for its result.\n"@));
    lemma_plain_lines("///\n"@);
    lemma_plain_lines("/// Returns `(invoke, result)`. Calling `invoke(...)` sends the procedure call to the server.\n"@);
    lemma_plain_lines("/// The `result` signal is updated to `Some(Ok(value))` on success or `Some(Err(message))`\n"@);
    lemma_plain_lines("/// on failure once the server responds.\n"@);
    lemma_plain_lines("#[must_use]\n"@);
    lemma_hook_opening("pub fn use_procedure_"@);
    assert(unbroken("() -> (impl Fn("@));
    assert(unbroken(") + Clone + 'static, SyncSignal<Option<Result<"@));
    assert(line_end(", String>>>) {\n"@));
    lemma_plain_lines("    let conn_signal = use_connection();\n"@);
    lemma_plain_opening("    let mut result: SyncSignal<Option<Result<"@);
    assert(line_end(", String>>> = use_signal_sync(|| None);\n"@));
    lemma_plain_lines("\n"@);
    lemma_plain_opening("    let invoke = move |"@);
    assert(line_end("| {\n"@));
    lemma_plain_opening("            conn.procedures."@);
    assert(unbroken("_then("@));
    assert(line_end("move |_ctx, res| {\n"@));
}

/// The procedure that can be awaited is one hook.
proof fn lemma_call_hook_lines(p: ProcedureInfoView)
    requires
        unbroken_procedure(p),
    ensures
        whole_lines(call_hook_text(p)),
        hook_lines(call_hook_text(p)) == 1,
{
    broadcast use group_lines;

    reveal_strlit("pub fn use_");
    reveal_strlit("/// Invoke the `");
    reveal_strlit("` procedure asynchronously.\n");
    reveal_strlit("///\n");
    reveal_strlit("/// Returns a closure that can be called to invoke the procedure and `await` the response directly.\n");
    reveal_strlit("#[must_use]\n");
    reveal_strlit("pub fn use_procedure_");
    reveal_strlit("_async() -> impl Fn(");
    reveal_strlit(") -> impl std::future::Future<Output = Result<");
    reveal_strlit(", String>> + Clone + 'static {\n");
    reveal_strlit("    let conn_signal = use_connection();\n");
    reveal_strlit("\n");
    reveal_strlit("    move |");
    reveal_strlit("| {\n");
    reveal_strlit("            conn.procedures.");
    reveal_strlit("_then(");
    reveal_strlit("move |_ctx, res| {\n");
    lemma_call_start();
    lemma_call_end();
    lemma_leading_args_unbroken(p.arg_names);
    lemma_plain_opening("/// Invoke the `"@);
    assert(line_end("` procedure asynchronously.\n"@));
    lemma_plain_lines("///\n"@);
    lemma_plain_lines("/// Returns a closure that can be called to invoke the procedure and `await` the response directly.\n"@);
    lemma_plain_lines("#[must_use]\n"@);
    lemma_hook_opening("pub fn use_procedure_"@);
    assert(unbroken("_async() -> impl Fn("@));
    assert(unbroken(") -> impl std::future::Future<Output = Result<"@));
    assert(line_end(", String>> + Clone + 'static {\n"@));
    lemma_plain_lines("    let conn_signal = use_connection();\n"@);
    lemma_plain_lines("\n"@);
    lemma_plain_opening("    move |"@);
    assert(line_end("| {\n"@));
    lemma_plain_opening("            conn.procedures."@);
    assert(unbroken("_then("@));
    assert(line_end("move |_ctx, res| {\n"@));
}

/// A reducer has three hooks.
pub proof fn law_a_reducer_has_three_hooks(r: ReducerInfoView)
    requires
        unbroken_reducer(r),
    ensures
        whole_lines(reducer_block_text(r)),
        hook_lines(reducer_hook_text(r)) == 3,
        hook_lines(reducer_block_text(r)) == 3,
{
    broadcast use group_lines;

    reveal_strlit("\n");
    lemma_plain_lines("\n"@);
    lemma_callback_hook_lines(r);
    lemma_then_hook_lines(r);
    lemma_async_hook_lines(r);
}

/// A procedure has two hooks.
pub proof fn law_a_procedure_has_two_hooks(p: ProcedureInfoView)
    requires
        unbroken_procedure(p),
    ensures
        whole_lines(procedure_block_text(p)),
        hook_lines(procedure_hook_text(p)) == 2,
        hook_lines(procedure_block_text(p)) == 2,
{
    broadcast use group_lines;

    reveal_strlit("\n");
    lemma_plain_lines("\n"@);
    lemma_signal_hook_lines(p);
    lemma_call_hook_lines(p);
}

/// Items that each open `each` hooks open that many times as many together.
proof fn lemma_concat_lines<T>(items: Seq<T>, text: spec_fn(T) -> Seq<char>, each: nat)
    requires
        forall|i: int|
            0 <= i < items.len() ==> whole_lines(text(#[trigger] items[i])) && hook_lines(
                text(items[i]),
            ) == each,
    ensures
        ends_line(concat_map(items, text)),
        hook_lines(concat_map(items, text)) == each * items.len(),
    decreases items.len(),
{
    broadcast use group_lines;

    if items.len() == 0 {
        assert(concat_map(items, text) =~= Seq::empty());
    } else {
        let last = items.len() - 1;
        let shorter = items.take(last);
        assert forall|i: int| 0 <= i < shorter.len() implies whole_lines(
            text(#[trigger] shorter[i]),
        ) && hook_lines(text(shorter[i])) == each by {
            assert(shorter[i] == items[i]);
        }
        lemma_concat_lines(shorter, text, each);
        lemma_concat_map_step(items, last, text);
        assert(items.take(items.len() as int) =~= items);
        assert(whole_lines(text(items[last])));
        assert(each * items.len() == each * last + each) by (nonlinear_arith)
            requires
                items.len() == last + 1,
        ;
    }
}

/// The provider is one hook.
proof fn lemma_provider_lines(tables: Seq<TableInfoView>)
    requires
        forall|i: int| 0 <= i < tables.len() ==> unbroken_table(#[trigger] tables[i]),
    ensures
        whole_lines(context_provider_text(tables)),
        hook_lines(context_provider_text(tables)) == 1,
{
    broadcast use group_lines;

    let init = |t: TableInfoView| signal_init_text(t);
    let callbacks = |t: TableInfoView| table_callbacks_text(t);
    assert forall|i: int| 0 <= i < tables.len() implies whole_lines(init(#[trigger] tables[i]))
        && hook_lines(init(tables[i])) == 0 && whole_lines(callbacks(tables[i])) && hook_lines(
        callbacks(tables[i]),
    ) == 0 by {
        lemma_signal_init_lines(tables[i]);
        lemma_table_callbacks_lines(tables[i]);
    }
    lemma_concat_lines(tables, init, 0);
    lemma_concat_lines(tables, callbacks, 0);
    lemma_provider_head();
    lemma_provider_connect();
    lemma_provider_tail();
}

/// The hooks for the procedures are two for each.
proof fn lemma_procedure_section_lines(procedures: Seq<ProcedureInfoView>)
    requires
        forall|i: int| 0 <= i < procedures.len() ==> unbroken_procedure(#[trigger] procedures[i]),
    ensures
        ends_line(procedure_section_text(procedures)),
        hook_lines(procedure_section_text(procedures)) == 2 * procedures.len(),
{
    broadcast use group_lines;

    let block = |p: ProcedureInfoView| procedure_block_text(p);
    assert forall|i: int| 0 <= i < procedures.len() implies whole_lines(
        block(#[trigger] procedures[i]),
    ) && hook_lines(block(procedures[i])) == 2 by {
        law_a_procedure_has_two_hooks(procedures[i]);
    }
    lemma_concat_lines(procedures, block, 2);
    lemma_procedure_section();
}

/// Where no name holds a line break, the file with the hooks holds one hook per table, three per
/// reducer, two per procedure and the six that every file has, besides what the header holds.
pub proof fn law_the_file_holds_all_hooks(
    header: Seq<char>,
    tables: Seq<TableInfoView>,
    reducers: Seq<ReducerInfoView>,
    procedures: Seq<ProcedureInfoView>,
)
    requires
        ends_line(header),
        forall|i: int| 0 <= i < tables.len() ==> unbroken_table(#[trigger] tables[i]),
        forall|i: int| 0 <= i < reducers.len() ==> unbroken_reducer(#[trigger] reducers[i]),
        forall|i: int| 0 <= i < procedures.len() ==> unbroken_procedure(#[trigger] procedures[i]),
    ensures
        hook_lines(hooks_file_text(header, tables, reducers, procedures)) == hook_lines(header) + 6
            + tables.len() + 3 * reducers.len() + 2 * procedures.len(),
{
    broadcast use group_lines;

    let field = |t: TableInfoView| table_field_text(t);
    let hook = |t: TableInfoView| table_hook_text(t);
    let block = |r: ReducerInfoView| reducer_block_text(r);
    assert forall|i: int| 0 <= i < tables.len() implies whole_lines(field(#[trigger] tables[i]))
        && hook_lines(field(tables[i])) == 0 && whole_lines(hook(tables[i])) && hook_lines(
        hook(tables[i]),
    ) == 1 by {
        lemma_table_field_lines(tables[i]);
        lemma_table_hook_lines(tables[i]);
    }
    assert forall|i: int| 0 <= i < reducers.len() implies whole_lines(
        block(#[trigger] reducers[i]),
    ) && hook_lines(block(reducers[i])) == 3 by {
        law_a_reducer_has_three_hooks(reducers[i]);
    }
    lemma_concat_lines(tables, field, 0);
    lemma_concat_lines(tables, hook, 1);
    lemma_concat_lines(reducers, block, 3);
    lemma_provider_lines(tables);
    lemma_procedure_section_lines(procedures);
    reveal_strlit("\n");
    lemma_plain_lines("\n"@);
    lemma_hooks_prelude();
    lemma_context_types();
    lemma_reconnect_helpers();
    lemma_context_hooks();
    lemma_subscription_hook();
    lemma_table_section();
    lemma_reducer_section();
    lemma_state_hooks();
}

/// Where no name of what is covered holds a line break, the hooks of a module are one per covered
/// table or view, three per covered reducer, two per covered procedure and the six that every file
/// has.
pub proof fn law_a_module_gets_all_hooks(
    header: Seq<char>,
    module: ModuleDef,
    visibility: CodegenVisibility,
)
    requires
        ends_line(header),
    ensures
        ({
            let tables = table_infos(module, visibility);
            let reducers = reducer_infos(module, visibility);
            let procedures = procedure_infos(module, visibility);
            (forall|i: int| 0 <= i < tables.len() ==> unbroken_table(#[trigger] tables[i])) && (
            forall|i: int| 0 <= i < reducers.len() ==> unbroken_reducer(#[trigger] reducers[i]))
                && (forall|i: int|
                0 <= i < procedures.len() ==> unbroken_procedure(#[trigger] procedures[i]))
                ==> hook_lines(module_hooks_text(header, module, visibility)) == hook_lines(header)
                + 6 + covered_relations(module, visibility).len() + 3 * covered_reducers(
                module,
                visibility,
            ).len() + 2 * covered_procedures(module, visibility).len()
        }),
{
    let tables = table_infos(module, visibility);
    let reducers = reducer_infos(module, visibility);
    let procedures = procedure_infos(module, visibility);
    if (forall|i: int| 0 <= i < tables.len() ==> unbroken_table(#[trigger] tables[i])) && (forall|
        i: int,
    | 0 <= i < reducers.len() ==> unbroken_reducer(#[trigger] reducers[i])) && (forall|i: int|
        0 <= i < procedures.len() ==> unbroken_procedure(#[trigger] procedures[i])) {
        law_the_file_holds_all_hooks(header, tables, reducers, procedures);
    }
}

} // verus!
