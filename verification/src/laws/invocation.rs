//! The lines of generated code that do the work, with the names and arguments that they hand on.

use vstd::prelude::*;
use crate::args::{arg_names_text, arglist_text, leading_args_text};
use crate::hooks::context::{
    on_delete_text, on_insert_text, on_update_text, populate_text, refresh_text,
    table_callbacks_text,
};
use crate::hooks::procedure::{call_hook_text, procedure_hook_text, signal_hook_text};
use crate::hooks::reducer::{
    async_hook_text, callback_hook_text, callback_with_args_text, plain_callback_text,
    reducer_hook_text, then_hook_text,
};
use crate::hooks::table::table_hook_text;
use crate::info::{ProcedureInfoView, ReducerInfoView, TableInfoView};
use crate::reducer_file::{
    extension_trait_text, reducer_file_text, trait_impl_text, wrapper_struct_text, ReducerFileView,
};
use super::containing::{
    contains_text, lemma_contains_after, lemma_contains_before, lemma_contains_itself,
    lemma_contains_last, lemma_contains_within,
};

verus! {

/// Two texts that are appended one after the other stand there together.
broadcast proof fn lemma_tail_two(a: Seq<char>, x: Seq<char>, y: Seq<char>)
    ensures
        #[trigger] contains_text(a + x + y, x + y),
{
    assert(a + x + y =~= a + (x + y));
    lemma_contains_last(a, x + y);
}

/// The same of three.
broadcast proof fn lemma_tail_three(a: Seq<char>, x: Seq<char>, y: Seq<char>, z: Seq<char>)
    ensures
        #[trigger] contains_text(a + x + y + z, x + y + z),
{
    assert(a + x + y + z =~= a + (x + y + z));
    lemma_contains_last(a, x + y + z);
}

/// The same of five.
broadcast proof fn lemma_tail_five(
    a: Seq<char>,
    x: Seq<char>,
    y: Seq<char>,
    z: Seq<char>,
    v: Seq<char>,
    w: Seq<char>,
)
    ensures
        #[trigger] contains_text(a + x + y + z + v + w, x + y + z + v + w),
{
    assert(a + x + y + z + v + w =~= a + (x + y + z + v + w));
    lemma_contains_last(a, x + y + z + v + w);
}

/// The same of seven.
broadcast proof fn lemma_tail_seven(
    a: Seq<char>,
    x: Seq<char>,
    y: Seq<char>,
    z: Seq<char>,
    u: Seq<char>,
    v: Seq<char>,
    w: Seq<char>,
    q: Seq<char>,
)
    ensures
        #[trigger] contains_text(a + x + y + z + u + v + w + q, x + y + z + u + v + w + q),
{
    assert(a + x + y + z + u + v + w + q =~= a + (x + y + z + u + v + w + q));
    lemma_contains_last(a, x + y + z + u + v + w + q);
}

broadcast group group_tails {
    lemma_tail_two,
    lemma_tail_three,
    lemma_tail_five,
    lemma_tail_seven,
    lemma_contains_before,
}

/// The hook for a table returns the signal of the table's own field, whose rows are of the table's
/// row type.
pub proof fn law_a_table_hook_returns_its_signal(t: TableInfoView)
    ensures
        contains_text(
            table_hook_text(t),
            "pub fn use_table_"@ + t.accessor_snake + "() -> SyncSignal<Vec<"@ + t.row_type
                + ">> {\n"@,
        ),
        contains_text(table_hook_text(t), "    ctx.tables."@ + t.accessor_snake + "\n"@),
{
    broadcast use group_tails;

}

/// A callback of a table is registered on the table, and fills the table's signal with its rows.
pub proof fn law_a_callback_fills_its_tables_signal(t: TableInfoView, callback: Seq<char>)
    ensures
        refresh_text(t, callback) == "                    conn.db."@ + t.accessor_snake + "()."@
            + callback + " {\n"@ + "                        let updated: Vec<"@ + t.row_type
            + "> = ctx.db."@ + t.accessor_snake + "().iter().collect();\n"@
            + "                        table_signals_on_connect."@ + t.accessor_snake
            + ".set(updated);\n"@ + "                    });\n"@,
{
}

/// On connecting, every table is filled and its inserted and deleted rows are followed; its updated
/// rows are followed where it has a primary key.
pub proof fn law_a_table_is_followed(t: TableInfoView)
    ensures
        contains_text(table_callbacks_text(t), populate_text(t)),
        contains_text(
            table_callbacks_text(t),
            refresh_text(t, "on_insert(move |ctx, _row|"@),
        ),
        contains_text(
            table_callbacks_text(t),
            refresh_text(t, "on_delete(move |ctx, _row|"@),
        ),
        t.has_primary_key ==> contains_text(
            table_callbacks_text(t),
            refresh_text(t, "on_update(move |ctx, _old, _new|"@),
        ),
{
    let (a, b, c, d) = (populate_text(t), on_insert_text(t), on_update_text(t), on_delete_text(t));
    lemma_contains_itself(a);
    lemma_contains_before(a, b, a);
    lemma_contains_before(a + b, c, a);
    lemma_contains_before(a + b + c, d, a);
    lemma_contains_last(a, b);
    lemma_contains_before(a + b, c, b);
    lemma_contains_before(a + b + c, d, b);
    lemma_contains_last(a + b, c);
    lemma_contains_before(a + b + c, d, c);
    lemma_contains_last(a + b + c, d);
}

/// The callback for a reducer with parameters takes them all and hands them all to the reducer.
pub proof fn law_a_callback_hands_its_arguments_on(r: ReducerInfoView)
    requires
        r.arglist.len() > 0,
    ensures
        ({
            let text = callback_hook_text(r);
            &&& contains_text(
                text,
                "pub fn use_reducer_"@ + r.name_snake + "() -> impl Fn("@ + r.fn_trait_params
                    + ") -> spacetimedb_sdk::Result<()> + Clone + 'static {\n"@,
            )
            &&& contains_text(text, "    move |"@ + r.closure_params + "| {\n"@)
            &&& contains_text(
                text,
                "            conn.reducers."@ + r.name_snake + "("@ + r.arg_names + ")\n"@,
            )
        }),
{
    let body = callback_with_args_text(r);
    let first = "pub fn use_reducer_"@ + r.name_snake + "() -> impl Fn("@ + r.fn_trait_params
        + ") -> spacetimedb_sdk::Result<()> + Clone + 'static {\n"@;
    let second = "    move |"@ + r.closure_params + "| {\n"@;
    let third = "            conn.reducers."@ + r.name_snake + "("@ + r.arg_names + ")\n"@;
    assert(contains_text(body, first) && contains_text(body, second) && contains_text(
        body,
        third,
    )) by {
        broadcast use group_tails;

        lemma_contains_itself(first);
    }
    let before = "/// Get a callback to invoke the `"@ + r.name_orig + "` reducer.\n"@
        + "#[must_use]\n"@;
    lemma_contains_after(before, body, first);
    lemma_contains_after(before, body, second);
    lemma_contains_after(before, body, third);
}

/// The callback for a reducer without parameters takes and hands on nothing.
pub proof fn law_a_callback_without_arguments_hands_none_on(r: ReducerInfoView)
    requires
        r.arglist.len() == 0,
    ensures
        ({
            let text = callback_hook_text(r);
            &&& contains_text(
                text,
                "pub fn use_reducer_"@ + r.name_snake
                    + "() -> impl Fn() -> spacetimedb_sdk::Result<()> + Clone + 'static {\n"@,
            )
            &&& contains_text(text, "            conn.reducers."@ + r.name_snake + "()\n"@)
        }),
{
    let body = plain_callback_text(r);
    let first = "pub fn use_reducer_"@ + r.name_snake
        + "() -> impl Fn() -> spacetimedb_sdk::Result<()> + Clone + 'static {\n"@;
    let second = "            conn.reducers."@ + r.name_snake + "()\n"@;
    assert(contains_text(body, first) && contains_text(body, second)) by {
        broadcast use group_tails;

        lemma_contains_itself(first);
    }
    let before = "/// Get a callback to invoke the `"@ + r.name_orig + "` reducer.\n"@
        + "#[must_use]\n"@;
    lemma_contains_after(before, body, first);
    lemma_contains_after(before, body, second);
}

/// The other two hooks for a reducer take all its parameters, and hand them all, followed by their
/// own callback, to the reducer.
pub proof fn law_the_other_hooks_hand_their_arguments_on(r: ReducerInfoView)
    ensures
        ({
            let text = then_hook_text(r);
            &&& contains_text(
                text,
                "pub fn use_reducer_"@ + r.name_snake + "_then() -> (impl Fn("@ + r.fn_trait_params
                    + ") + Clone + 'static, SyncSignal<Option<Result<(), String>>>) {\n"@,
            )
            &&& contains_text(text, "    let invoke = move |"@ + r.closure_params + "| {\n"@)
            &&& r.arg_names.len() > 0 ==> contains_text(
                text,
                "            if let Err(e) = conn.reducers."@ + r.name_snake + "_then("@ + (
                r.arg_names + ", "@) + "move |_ctx, res| {\n"@,
            )
            &&& r.arg_names.len() == 0 ==> contains_text(
                text,
                "            if let Err(e) = conn.reducers."@ + r.name_snake
                    + "_then("@ + Seq::empty() + "move |_ctx, res| {\n"@,
            )
        }),
        ({
            let text = async_hook_text(r);
            &&& contains_text(
                text,
                "pub fn use_reducer_"@ + r.name_snake + "_async() -> impl Fn("@ + r.fn_trait_params
                    + ") -> impl std::future::Future<Output = Result<(), String>> + Clone + 'static {\n"@,
            )
            &&& contains_text(text, "    move |"@ + r.closure_params + "| {\n"@)
            &&& r.arg_names.len() > 0 ==> contains_text(
                text,
                "            if let Err(e) = conn.reducers."@ + r.name_snake + "_then("@ + (
                r.arg_names + ", "@) + "move |_ctx, res| {\n"@,
            )
            &&& r.arg_names.len() == 0 ==> contains_text(
                text,
                "            if let Err(e) = conn.reducers."@ + r.name_snake
                    + "_then("@ + Seq::empty() + "move |_ctx, res| {\n"@,
            )
        }),
{
    broadcast use group_tails;

}

/// The hooks for a procedure take all its parameters, hand them all, followed by their own
/// callback, to the procedure, and report what it returns as the success of a `Result`.
pub proof fn law_procedure_hooks_hand_their_arguments_on(p: ProcedureInfoView)
    ensures
        ({
            let text = signal_hook_text(p);
            &&& contains_text(
                text,
                "pub fn use_procedure_"@ + p.name_snake + "() -> (impl Fn("@ + p.fn_trait_params
                    + ") + Clone + 'static, SyncSignal<Option<Result<"@ + p.return_type
                    + ", String>>>) {\n"@,
            )
            &&& contains_text(
                text,
                "    let mut result: SyncSignal<Option<Result<"@ + p.return_type
                    + ", String>>> = use_signal_sync(|| None);\n"@,
            )
            &&& contains_text(text, "    let invoke = move |"@ + p.closure_params + "| {\n"@)
            &&& p.arg_names.len() > 0 ==> contains_text(
                text,
                "            conn.procedures."@ + p.name_snake + "_then("@ + (p.arg_names + ", "@)
                    + "move |_ctx, res| {\n"@,
            )
            &&& p.arg_names.len() == 0 ==> contains_text(
                text,
                "            conn.procedures."@ + p.name_snake + "_then("@ + Seq::empty()
                    + "move |_ctx, res| {\n"@,
            )
        }),
        ({
            let text = call_hook_text(p);
            &&& contains_text(
                text,
                "pub fn use_procedure_"@ + p.name_snake + "_async() -> impl Fn("@
                    + p.fn_trait_params + ") -> impl std::future::Future<Output = Result<"@
                    + p.return_type + ", String>> + Clone + 'static {\n"@,
            )
            &&& contains_text(text, "    move |"@ + p.closure_params + "| {\n"@)
            &&& p.arg_names.len() > 0 ==> contains_text(
                text,
                "            conn.procedures."@ + p.name_snake + "_then("@ + (p.arg_names + ", "@)
                    + "move |_ctx, res| {\n"@,
            )
            &&& p.arg_names.len() == 0 ==> contains_text(
                text,
                "            conn.procedures."@ + p.name_snake + "_then("@ + Seq::empty()
                    + "move |_ctx, res| {\n"@,
            )
        }),
{
    broadcast use group_tails;

}

/// A reducer's three hooks, and a procedure's two, stand in what is written for it.
pub proof fn law_all_hooks_are_written(r: ReducerInfoView, p: ProcedureInfoView)
    ensures
        contains_text(reducer_hook_text(r), callback_hook_text(r)),
        contains_text(reducer_hook_text(r), then_hook_text(r)),
        contains_text(reducer_hook_text(r), async_hook_text(r)),
        contains_text(procedure_hook_text(p), signal_hook_text(p)),
        contains_text(procedure_hook_text(p), call_hook_text(p)),
{
    let (a, b, c, blank) = (
        callback_hook_text(r),
        then_hook_text(r),
        async_hook_text(r),
        "\n"@,
    );
    lemma_contains_itself(a);
    lemma_contains_before(a, blank, a);
    lemma_contains_before(a + blank, b, a);
    lemma_contains_before(a + blank + b, blank, a);
    lemma_contains_before(a + blank + b + blank, c, a);
    lemma_contains_last(a + blank, b);
    lemma_contains_before(a + blank + b, blank, b);
    lemma_contains_before(a + blank + b + blank, c, b);
    lemma_contains_last(a + blank + b + blank, c);
    let (d, e) = (signal_hook_text(p), call_hook_text(p));
    lemma_contains_itself(d);
    lemma_contains_before(d, blank, d);
    lemma_contains_before(d + blank, e, d);
    lemma_contains_last(d + blank, e);
}

/// The methods of a reducer's extension trait take all its arguments. The one without a callback
/// hands them all, in order, followed by a callback that does nothing, to the other, which invokes
/// the reducer with all of them.
pub proof fn law_the_trait_hands_the_arguments_on(header: Seq<char>, f: ReducerFileView)
    ensures
        ({
            let text = reducer_file_text(header, f);
            let names = arg_names_text(f.args);
            &&& contains_text(
                text,
                "    fn "@ + f.func_name + "(&self, "@ + arglist_text(f.args)
                    + ") -> __sdk::Result<()> {\n"@,
            )
            &&& names.len() > 0 ==> contains_text(
                text,
                "        self."@ + f.func_name + "_then("@ + (names + ", "@) + "|_, _| {})\n"@,
            )
            &&& names.len() == 0 ==> contains_text(
                text,
                "        self."@ + f.func_name + "_then("@ + Seq::empty() + "|_, _| {})\n"@,
            )
            &&& contains_text(
                text,
                "        self.imp.invoke_reducer_with_callback("@ + (f.variant_name + "Args"@)
                    + " { "@ + names + " }, callback)\n"@,
            )
            &&& contains_text(
                text,
                "pub(super) struct "@ + (f.variant_name + "Args"@) + " {\n"@,
            )
        }),
{
    let text = reducer_file_text(header, f);
    let names = arg_names_text(f.args);
    let first = "    fn "@ + f.func_name + "(&self, "@ + arglist_text(f.args)
        + ") -> __sdk::Result<()> {\n"@;
    let second = "        self."@ + f.func_name + "_then("@ + leading_args_text(names)
        + "|_, _| {})\n"@;
    let third = "        self.imp.invoke_reducer_with_callback("@ + (f.variant_name + "Args"@)
        + " { "@ + names + " }, callback)\n"@;
    let fourth = "pub(super) struct "@ + (f.variant_name + "Args"@) + " {\n"@;
    lemma_trait_lines(f);
    lemma_impl_lines(f);
    assert(contains_text(wrapper_struct_text(f), fourth)) by {
        broadcast use lemma_contains_before;

        lemma_contains_itself(fourth);
    }
    assert(contains_text(text, wrapper_struct_text(f)) && contains_text(
        text,
        extension_trait_text(f),
    ) && contains_text(text, trait_impl_text(f))) by {
        broadcast use {lemma_contains_before, lemma_contains_last};

    }
    lemma_contains_within(text, wrapper_struct_text(f), fourth);
    lemma_contains_within(text, extension_trait_text(f), first);
    lemma_contains_within(text, extension_trait_text(f), second);
    lemma_contains_within(text, trait_impl_text(f), third);
}

proof fn lemma_trait_lines(f: ReducerFileView)
    ensures
        contains_text(
            extension_trait_text(f),
            "    fn "@ + f.func_name + "(&self, "@ + arglist_text(f.args)
                + ") -> __sdk::Result<()> {\n"@,
        ),
        contains_text(
            extension_trait_text(f),
            "        self."@ + f.func_name + "_then("@ + leading_args_text(arg_names_text(f.args))
                + "|_, _| {})\n"@,
        ),
{
    broadcast use group_tails;

}

proof fn lemma_impl_lines(f: ReducerFileView)
    ensures
        contains_text(
            trait_impl_text(f),
            "        self.imp.invoke_reducer_with_callback("@ + (f.variant_name + "Args"@) + " { "@
                + arg_names_text(f.args) + " }, callback)\n"@,
        ),
{
    broadcast use group_tails;

}

} // verus!
