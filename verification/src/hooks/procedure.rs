//! The hooks for one procedure.

use vstd::prelude::*;
use crate::args::{leading_args, leading_args_text};
use crate::info::{ProcedureInfo, ProcedureInfoView};
use crate::text::Indenter;

verus! {

/// How the body of the signal hook's closure starts.
pub const INVOKE_START: &'static str = "        let mut result = result;
        result.set(None);
        if let Some(conn) = conn_signal().as_ref() {
            let (tx, rx) = oneshot::channel();
";

/// How the signal hook forwards the reply to the signal.
pub const INVOKE_END: &'static str = r#"                let _ = tx.send(res);
            });
            spawn(async move {
                if let Ok(res) = rx.await {
                    result.set(Some(res.map_err(|e| e.to_string())));
                }
            });
        } else {
            result.set(Some(Err("Disconnected from SpacetimeDB".to_string())));
        }
    };

    (invoke, result)
}
"#;

/// How the body of the `_async` hook's closure starts.
pub const CALL_START: &'static str = r#"        let conn = conn_signal();
        async move {
            let Some(conn) = conn.as_ref() else {
                return Err("Disconnected from SpacetimeDB".to_string());
            };
            let (tx, rx) = oneshot::channel();
"#;

/// How the `_async` hook awaits the reply.
pub const CALL_END: &'static str = r#"                let _ = tx.send(res);
            });
            match rx.await {
                Ok(res) => res.map_err(|e| e.to_string()),
                Err(_) => Err("Request cancelled".to_string()),
            }
        }
    }
}
"#;

/// The hook that returns a callback and a signal for the procedure's result.
pub open spec fn signal_hook_text(p: ProcedureInfoView) -> Seq<char> {
    "/// Invoke the `"@ + p.name_orig + "` procedure and get a reactive signal for its result.\n"@
        + "///\n"@
        + "/// Returns `(invoke, result)`. Calling `invoke(...)` sends the procedure call to the server.\n"@
        + "/// The `result` signal is updated to `Some(Ok(value))` on success or `Some(Err(message))`\n"@
        + "/// on failure once the server responds.\n"@
        + "#[must_use]\n"@
        + "pub fn use_procedure_"@ + p.name_snake + "() -> (impl Fn("@ + p.fn_trait_params + ") + Clone + 'static, SyncSignal<Option<Result<"@ + p.return_type + ", String>>>) {\n"@
        + "    let conn_signal = use_connection();\n"@
        + "    let mut result: SyncSignal<Option<Result<"@ + p.return_type + ", String>>> = use_signal_sync(|| None);\n"@
        + "\n"@
        + "    let invoke = move |"@ + p.closure_params + "| {\n"@
        + INVOKE_START@
        + "            conn.procedures."@ + p.name_snake + "_then("@ + leading_args_text(p.arg_names) + "move |_ctx, res| {\n"@
        + INVOKE_END@
}

/// The hook that returns a callback whose reply can be awaited.
pub open spec fn call_hook_text(p: ProcedureInfoView) -> Seq<char> {
    "/// Invoke the `"@ + p.name_orig + "` procedure asynchronously.\n"@
        + "///\n"@
        + "/// Returns a closure that can be called to invoke the procedure and `await` the response directly.\n"@
        + "#[must_use]\n"@
        + "pub fn use_procedure_"@ + p.name_snake + "_async() -> impl Fn("@ + p.fn_trait_params + ") -> impl std::future::Future<Output = Result<"@ + p.return_type + ", String>> + Clone + 'static {\n"@
        + "    let conn_signal = use_connection();\n"@
        + "\n"@
        + "    move |"@ + p.closure_params + "| {\n"@
        + CALL_START@
        + "            conn.procedures."@ + p.name_snake + "_then("@ + leading_args_text(p.arg_names) + "move |_ctx, res| {\n"@
        + CALL_END@
}

/// The hooks for one procedure.
pub open spec fn procedure_hook_text(p: ProcedureInfoView) -> Seq<char> {
    signal_hook_text(p) + "\n"@ + call_hook_text(p)
}

fn signal_hook(p: &ProcedureInfo) -> (text: String)
    ensures
        text@ == signal_hook_text(p@),
{
    let mut text = String::from_str("/// Invoke the `");
    text.append(p.name_orig.as_str());
    text.append("` procedure and get a reactive signal for its result.\n");
    text.append("///\n");
    text.append("/// Returns `(invoke, result)`. Calling `invoke(...)` sends the procedure call to the server.\n");
    text.append("/// The `result` signal is updated to `Some(Ok(value))` on success or `Some(Err(message))`\n");
    text.append("/// on failure once the server responds.\n");
    text.append("#[must_use]\n");
    text.append("pub fn use_procedure_");
    text.append(p.name_snake.as_str());
    text.append("() -> (impl Fn(");
    text.append(p.fn_trait_params.as_str());
    text.append(") + Clone + 'static, SyncSignal<Option<Result<");
    text.append(p.return_type.as_str());
    text.append(", String>>>) {\n");
    text.append("    let conn_signal = use_connection();\n");
    text.append("    let mut result: SyncSignal<Option<Result<");
    text.append(p.return_type.as_str());
    text.append(", String>>> = use_signal_sync(|| None);\n");
    text.append("\n");
    text.append("    let invoke = move |");
    text.append(p.closure_params.as_str());
    text.append("| {\n");
    text.append(INVOKE_START);
    text.append("            conn.procedures.");
    text.append(p.name_snake.as_str());
    text.append("_then(");
    text.append(leading_args(p.arg_names.as_str()).as_str());
    text.append("move |_ctx, res| {\n");
    text.append(INVOKE_END);
    text
}

fn call_hook(p: &ProcedureInfo) -> (text: String)
    ensures
        text@ == call_hook_text(p@),
{
    let mut text = String::from_str("/// Invoke the `");
    text.append(p.name_orig.as_str());
    text.append("` procedure asynchronously.\n");
    text.append("///\n");
    text.append("/// Returns a closure that can be called to invoke the procedure and `await` the response directly.\n");
    text.append("#[must_use]\n");
    text.append("pub fn use_procedure_");
    text.append(p.name_snake.as_str());
    text.append("_async() -> impl Fn(");
    text.append(p.fn_trait_params.as_str());
    text.append(") -> impl std::future::Future<Output = Result<");
    text.append(p.return_type.as_str());
    text.append(", String>> + Clone + 'static {\n");
    text.append("    let conn_signal = use_connection();\n");
    text.append("\n");
    text.append("    move |");
    text.append(p.closure_params.as_str());
    text.append("| {\n");
    text.append(CALL_START);
    text.append("            conn.procedures.");
    text.append(p.name_snake.as_str());
    text.append("_then(");
    text.append(leading_args(p.arg_names.as_str()).as_str());
    text.append("move |_ctx, res| {\n");
    text.append(CALL_END);
    text
}

/// The text of the hooks for one procedure.
pub fn procedure_hook(p: &ProcedureInfo) -> (text: String)
    ensures
        text@ == procedure_hook_text(p@),
{
    let mut text = signal_hook(p);
    text.append("\n");
    text.append(call_hook(p).as_str());
    text
}

/// Writes the hooks for one procedure.
pub fn write_procedure_hook(out: &mut Indenter, proc: &ProcedureInfo)
    ensures
        final(out)@ == old(out)@ + procedure_hook_text(proc@),
{
    out.write(procedure_hook(proc).as_str());
}

} // verus!
