//! The hooks for one reducer.

use vstd::prelude::*;
use crate::args::{leading_args, leading_args_text};
use crate::info::{ReducerInfo, ReducerInfoView};
use crate::text::Indenter;

verus! {

/// How a callback ends: the disconnected case, and its closing braces.
pub const CALLBACK_END: &'static str = "        } else {
            Err(spacetimedb_sdk::Error::Disconnected)
        }
    }
}
";

/// How the body of a `_then` hook's closure starts.
pub const THEN_START: &'static str = "        let mut result = result;
        result.set(None);
        if let Some(conn) = conn_signal().as_ref() {
            let (tx, rx) = oneshot::channel();
";

/// How a `_then` hook forwards the outcome to the signal.
pub const THEN_END: &'static str = r#"                let _ = tx.send(res);
            }) {
                result.set(Some(Err(e.to_string())));
                return;
            }
            spawn(async move {
                if let Ok(res) = rx.await {
                    let flattened = match res {
                        Ok(Ok(())) => Ok(()),
                        Ok(Err(module_err)) => Err(module_err),
                        Err(sdk_err) => Err(sdk_err.to_string()),
                    };
                    result.set(Some(flattened));
                }
            });
        } else {
            result.set(Some(Err("Disconnected from SpacetimeDB".to_string())));
        }
    };

    (invoke, result)
}
"#;

/// How the body of an `_async` hook's closure starts.
pub const ASYNC_START: &'static str = r#"        let conn = conn_signal();
        async move {
            let Some(conn) = conn.as_ref() else {
                return Err("Disconnected from SpacetimeDB".to_string());
            };
            let (tx, rx) = oneshot::channel();
"#;

/// How an `_async` hook awaits the outcome.
pub const ASYNC_END: &'static str = r#"                let _ = tx.send(res);
            }) {
                return Err(e.to_string());
            }
            match rx.await {
                Ok(Ok(Ok(()))) => Ok(()),
                Ok(Ok(Err(err))) => Err(err),
                Ok(Err(sdk_err)) => Err(sdk_err.to_string()),
                Err(_) => Err("Request cancelled".to_string()),
            }
        }
    }
}
"#;

/// The body of the callback hook for a reducer without parameters.
pub open spec fn plain_callback_text(r: ReducerInfoView) -> Seq<char> {
    "pub fn use_reducer_"@ + r.name_snake + "() -> impl Fn() -> spacetimedb_sdk::Result<()> + Clone + 'static {\n"@
        + "    let conn_signal = use_connection();\n"@
        + "\n"@
        + "    move || {\n"@
        + "        if let Some(conn) = conn_signal().as_ref() {\n"@
        + "            conn.reducers."@ + r.name_snake + "()\n"@
        + CALLBACK_END@
}

/// The body of the callback hook for a reducer with parameters.
pub open spec fn callback_with_args_text(r: ReducerInfoView) -> Seq<char> {
    "pub fn use_reducer_"@ + r.name_snake + "() -> impl Fn("@ + r.fn_trait_params + ") -> spacetimedb_sdk::Result<()> + Clone + 'static {\n"@
        + "    let conn_signal = use_connection();\n"@
        + "\n"@
        + "    move |"@ + r.closure_params + "| {\n"@
        + "        if let Some(conn) = conn_signal().as_ref() {\n"@
        + "            conn.reducers."@ + r.name_snake + "("@ + r.arg_names + ")\n"@
        + CALLBACK_END@
}

/// The hook that returns a callback.
pub open spec fn callback_hook_text(r: ReducerInfoView) -> Seq<char> {
    "/// Get a callback to invoke the `"@ + r.name_orig + "` reducer.\n"@ + "#[must_use]\n"@
        + if r.arglist.len() == 0 {
        plain_callback_text(r)
    } else {
        callback_with_args_text(r)
    }
}

/// The hook that returns a callback which also reports, through a signal, how the reducer completed.
pub open spec fn then_hook_text(r: ReducerInfoView) -> Seq<char> {
    "/// Invoke the `"@ + r.name_orig + "` reducer and get a reactive signal for its completion status.\n"@
        + "///\n"@
        + "/// Returns `(invoke, result)`. Calling `invoke(...)` sends the reducer invocation to the server.\n"@
        + "/// The `result` signal is updated to `Some(Ok(()))` on success or `Some(Err(message))`\n"@
        + "/// on failure once the server notifies completion.\n"@
        + "#[must_use]\n"@
        + "pub fn use_reducer_"@ + r.name_snake + "_then() -> (impl Fn("@ + r.fn_trait_params + ") + Clone + 'static, SyncSignal<Option<Result<(), String>>>) {\n"@
        + "    let conn_signal = use_connection();\n"@
        + "    let mut result: SyncSignal<Option<Result<(), String>>> = use_signal_sync(|| None);\n"@
        + "\n"@
        + "    let invoke = move |"@ + r.closure_params + "| {\n"@
        + THEN_START@
        + "            if let Err(e) = conn.reducers."@ + r.name_snake + "_then("@ + leading_args_text(r.arg_names) + "move |_ctx, res| {\n"@
        + THEN_END@
}

/// The hook that returns a callback whose completion can be awaited.
pub open spec fn async_hook_text(r: ReducerInfoView) -> Seq<char> {
    "/// Invoke the `"@ + r.name_orig + "` reducer asynchronously and await its completion.\n"@
        + "///\n"@
        + "/// Returns a closure that can be called to invoke the reducer and `await` its completion directly.\n"@
        + "#[must_use]\n"@
        + "pub fn use_reducer_"@ + r.name_snake + "_async() -> impl Fn("@ + r.fn_trait_params + ") -> impl std::future::Future<Output = Result<(), String>> + Clone + 'static {\n"@
        + "    let conn_signal = use_connection();\n"@
        + "\n"@
        + "    move |"@ + r.closure_params + "| {\n"@
        + ASYNC_START@
        + "            if let Err(e) = conn.reducers."@ + r.name_snake + "_then("@ + leading_args_text(r.arg_names) + "move |_ctx, res| {\n"@
        + ASYNC_END@
}

/// The hooks for one reducer.
pub open spec fn reducer_hook_text(r: ReducerInfoView) -> Seq<char> {
    callback_hook_text(r) + "\n"@ + then_hook_text(r) + "\n"@ + async_hook_text(r)
}

fn plain_callback(r: &ReducerInfo) -> (text: String)
    ensures
        text@ == plain_callback_text(r@),
{
    let mut text = String::from_str("pub fn use_reducer_");
    text.append(r.name_snake.as_str());
    text.append("() -> impl Fn() -> spacetimedb_sdk::Result<()> + Clone + 'static {\n");
    text.append("    let conn_signal = use_connection();\n");
    text.append("\n");
    text.append("    move || {\n");
    text.append("        if let Some(conn) = conn_signal().as_ref() {\n");
    text.append("            conn.reducers.");
    text.append(r.name_snake.as_str());
    text.append("()\n");
    text.append(CALLBACK_END);
    text
}

fn callback_with_args(r: &ReducerInfo) -> (text: String)
    ensures
        text@ == callback_with_args_text(r@),
{
    let mut text = String::from_str("pub fn use_reducer_");
    text.append(r.name_snake.as_str());
    text.append("() -> impl Fn(");
    text.append(r.fn_trait_params.as_str());
    text.append(") -> spacetimedb_sdk::Result<()> + Clone + 'static {\n");
    text.append("    let conn_signal = use_connection();\n");
    text.append("\n");
    text.append("    move |");
    text.append(r.closure_params.as_str());
    text.append("| {\n");
    text.append("        if let Some(conn) = conn_signal().as_ref() {\n");
    text.append("            conn.reducers.");
    text.append(r.name_snake.as_str());
    text.append("(");
    text.append(r.arg_names.as_str());
    text.append(")\n");
    text.append(CALLBACK_END);
    text
}

fn callback_hook(r: &ReducerInfo) -> (text: String)
    ensures
        text@ == callback_hook_text(r@),
{
    let mut text = String::from_str("/// Get a callback to invoke the `");
    text.append(r.name_orig.as_str());
    text.append("` reducer.\n");
    text.append("#[must_use]\n");
    if r.arglist.as_str().is_empty() {
        text.append(plain_callback(r).as_str());
    } else {
        text.append(callback_with_args(r).as_str());
    }
    text
}

fn then_hook(r: &ReducerInfo) -> (text: String)
    ensures
        text@ == then_hook_text(r@),
{
    let mut text = String::from_str("/// Invoke the `");
    text.append(r.name_orig.as_str());
    text.append("` reducer and get a reactive signal for its completion status.\n");
    text.append("///\n");
    text.append("/// Returns `(invoke, result)`. Calling `invoke(...)` sends the reducer invocation to the server.\n");
    text.append("/// The `result` signal is updated to `Some(Ok(()))` on success or `Some(Err(message))`\n");
    text.append("/// on failure once the server notifies completion.\n");
    text.append("#[must_use]\n");
    text.append("pub fn use_reducer_");
    text.append(r.name_snake.as_str());
    text.append("_then() -> (impl Fn(");
    text.append(r.fn_trait_params.as_str());
    text.append(") + Clone + 'static, SyncSignal<Option<Result<(), String>>>) {\n");
    text.append("    let conn_signal = use_connection();\n");
    text.append("    let mut result: SyncSignal<Option<Result<(), String>>> = use_signal_sync(|| None);\n");
    text.append("\n");
    text.append("    let invoke = move |");
    text.append(r.closure_params.as_str());
    text.append("| {\n");
    text.append(THEN_START);
    text.append("            if let Err(e) = conn.reducers.");
    text.append(r.name_snake.as_str());
    text.append("_then(");
    text.append(leading_args(r.arg_names.as_str()).as_str());
    text.append("move |_ctx, res| {\n");
    text.append(THEN_END);
    text
}

fn async_hook(r: &ReducerInfo) -> (text: String)
    ensures
        text@ == async_hook_text(r@),
{
    let mut text = String::from_str("/// Invoke the `");
    text.append(r.name_orig.as_str());
    text.append("` reducer asynchronously and await its completion.\n");
    text.append("///\n");
    text.append("/// Returns a closure that can be called to invoke the reducer and `await` its completion directly.\n");
    text.append("#[must_use]\n");
    text.append("pub fn use_reducer_");
    text.append(r.name_snake.as_str());
    text.append("_async() -> impl Fn(");
    text.append(r.fn_trait_params.as_str());
    text.append(") -> impl std::future::Future<Output = Result<(), String>> + Clone + 'static {\n");
    text.append("    let conn_signal = use_connection();\n");
    text.append("\n");
    text.append("    move |");
    text.append(r.closure_params.as_str());
    text.append("| {\n");
    text.append(ASYNC_START);
    text.append("            if let Err(e) = conn.reducers.");
    text.append(r.name_snake.as_str());
    text.append("_then(");
    text.append(leading_args(r.arg_names.as_str()).as_str());
    text.append("move |_ctx, res| {\n");
    text.append(ASYNC_END);
    text
}

/// The text of the hooks for one reducer.
pub fn reducer_hook(r: &ReducerInfo) -> (text: String)
    ensures
        text@ == reducer_hook_text(r@),
{
    let mut text = callback_hook(r);
    text.append("\n");
    text.append(then_hook(r).as_str());
    text.append("\n");
    text.append(async_hook(r).as_str());
    text
}

/// Writes the hooks for one reducer.
pub fn write_reducer_hook(out: &mut Indenter, reducer: &ReducerInfo)
    ensures
        final(out)@ == old(out)@ + reducer_hook_text(reducer@),
{
    out.write(reducer_hook(reducer).as_str());
}

} // verus!
