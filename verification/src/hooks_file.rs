//! The file `dioxus.rs`, which holds the hooks for a whole module.

use vstd::prelude::*;
use crate::collect::{
    collect_procedures, collect_reducers, collect_tables, procedure_infos, procedures_defined,
    reducer_infos, reducers_defined, table_infos, tables_defined,
};
use crate::hooks::context::{context_provider_text, write_context_provider};
use crate::hooks::procedure::{procedure_hook_text, write_procedure_hook};
use crate::hooks::reconnect::{write_reconnect_helpers, RECONNECT_HELPERS};
use crate::hooks::reducer::{reducer_hook_text, write_reducer_hook};
use crate::hooks::subscription::{write_subscription_hook, SUBSCRIPTION_HOOK};
use crate::hooks::table::{
    table_field_text, table_hook_text, write_table_fields, write_table_hooks,
};
use crate::info::{
    ProcedureInfo, ProcedureInfoView, ReducerInfo, ReducerInfoView, TableInfo, TableInfoView,
};
use crate::output::OutputFile;
use crate::schema::{CodegenVisibility, ModuleDef};
use crate::text::{
    concat_map, lemma_append_assoc, lemma_concat_map_none, lemma_concat_map_step,
    lemma_prefix_append, lemma_prefix_itself, views, Indenter,
};

verus! {

/// The name of the file with the hooks.
pub const HOOKS_FILENAME: &'static str = "dioxus.rs";

/// Attributes, imports and the connection alias, up to the fields of `TableSignals`.
pub const HOOKS_PRELUDE: &'static str = "#![allow(unused, clippy::all)]

//! Dioxus v0.7 signals and hooks for SpacetimeDB integration.

use super::*;
use ::dioxus::prelude::*;
use ::dioxus::signals::SyncSignal;
use spacetimedb_sdk::{DbContext, Table, TableWithPrimaryKey, Identity};
use std::sync::{Arc, Mutex};
use futures_channel::oneshot;

/// Thread-safe wrapper for the database connection.
pub type SharedConnection = Arc<DbConnection>;

/// Container for all table signals, created at root level.
#[derive(Clone)]
pub struct TableSignals {
";

/// From the end of `TableSignals` to the end of the connection state type.
pub const CONTEXT_TYPES: &'static str = "}

/// Internal state for managing the SpacetimeDB connection.
#[derive(Clone)]
pub struct SpacetimeDbContext {
    /// The database connection (wrapped in Arc for thread-safety).
    pub connection: SyncSignal<Option<SharedConnection>>,
    /// The current connection state.
    pub state: SyncSignal<ConnectionState>,
    /// Error from the last connection attempt, if any.
    pub error: SyncSignal<Option<String>>,
    /// All table signals, created at root level.
    pub tables: TableSignals,
}

/// The current state of the SpacetimeDB connection.
#[derive(Clone, PartialEq, Eq, Debug, Default)]
pub enum ConnectionState {
    #[default]
    Disconnected,
    Connecting,
    Reconnecting { attempt: u32, delay_ms: u64 },
    /// Connected includes the `Identity` assigned by the server and a private access token (JWT)
    /// which can be persisted by the application for future reconnection as the same Identity.
    Connected(Identity, String),
    Error,
}

";

/// The hooks that read the context.
pub const CONTEXT_HOOKS: &'static str = "/// Get the SpacetimeDB context from a parent component.
#[must_use]
pub fn use_spacetimedb_context() -> SpacetimeDbContext {
    use_context::<SpacetimeDbContext>()
}

/// Get the current database connection, if connected.
#[must_use]
pub fn use_connection() -> SyncSignal<Option<SharedConnection>> {
    let ctx = use_spacetimedb_context();
    ctx.connection
}

";

/// What the table hooks stand under.
pub const TABLE_SECTION: &'static str = "// --- Table hooks ---

";

/// What the reducer hooks stand under.
pub const REDUCER_SECTION: &'static str = "// --- Reducer hooks ---

";

/// What the procedure hooks stand under.
pub const PROCEDURE_SECTION: &'static str = "// --- Procedure hooks ---

";

/// The hooks that read the connection's state.
pub const STATE_HOOKS: &'static str = "// --- Connection state hooks ---

/// Get a reactive signal for the current connection state.
#[must_use]
pub fn use_connection_state() -> SyncSignal<ConnectionState> {
    let ctx = use_spacetimedb_context();
    ctx.state
}

/// Get a reactive signal for the current connection error, if any.
#[must_use]
pub fn use_connection_error() -> SyncSignal<Option<String>> {
    let ctx = use_spacetimedb_context();
    ctx.error
}
";

/// The hooks for one reducer, and the blank line after them.
pub open spec fn reducer_block_text(r: ReducerInfoView) -> Seq<char> {
    reducer_hook_text(r) + "\n"@
}

/// The hooks for one procedure, and the blank line after them.
pub open spec fn procedure_block_text(p: ProcedureInfoView) -> Seq<char> {
    procedure_hook_text(p) + "\n"@
}

/// The hooks for the procedures under their heading, which is left out where there are none.
pub open spec fn procedure_section_text(procedures: Seq<ProcedureInfoView>) -> Seq<char> {
    if procedures.len() == 0 {
        Seq::empty()
    } else {
        PROCEDURE_SECTION@ + concat_map(
            procedures,
            |p: ProcedureInfoView| procedure_block_text(p),
        )
    }
}

/// The text of the file with the hooks, which starts with `header`.
pub open spec fn hooks_file_text(
    header: Seq<char>,
    tables: Seq<TableInfoView>,
    reducers: Seq<ReducerInfoView>,
    procedures: Seq<ProcedureInfoView>,
) -> Seq<char> {
    header + HOOKS_PRELUDE@ + concat_map(tables, |t: TableInfoView| table_field_text(t))
        + CONTEXT_TYPES@ + RECONNECT_HELPERS@ + "\n"@ + context_provider_text(tables) + "\n"@
        + CONTEXT_HOOKS@ + SUBSCRIPTION_HOOK@ + "\n"@ + TABLE_SECTION@
        + concat_map(tables, |t: TableInfoView| table_hook_text(t)) + REDUCER_SECTION@
        + concat_map(reducers, |r: ReducerInfoView| reducer_block_text(r))
        + procedure_section_text(procedures) + STATE_HOOKS@
}

/// The text of the file with the hooks for `module`, which starts with `header`.
pub open spec fn module_hooks_text(
    header: Seq<char>,
    module: ModuleDef,
    visibility: CodegenVisibility,
) -> Seq<char> {
    hooks_file_text(
        header,
        table_infos(module, visibility),
        reducer_infos(module, visibility),
        procedure_infos(module, visibility),
    )
}

/// Whether the module defines the types that its hooks name.
pub open spec fn hooks_defined(module: ModuleDef, visibility: CodegenVisibility) -> bool {
    tables_defined(module, visibility) && reducers_defined(module, visibility)
        && procedures_defined(module, visibility)
}

#[verifier::loop_isolation(false)]
fn write_reducer_hooks(out: &mut Indenter, reducers: &[ReducerInfo])
    ensures
        final(out)@ == old(out)@ + concat_map(
            views(reducers@),
            |r: ReducerInfoView| reducer_block_text(r),
        ),
{
    let ghost before = out@;
    let ghost infos = views(reducers@);
    let ghost one = |r: ReducerInfoView| reducer_block_text(r);
    proof {
        lemma_concat_map_none(infos, one);
        assert(out@ =~= before + Seq::<char>::empty());
    }
    for i in 0..reducers.len()
        invariant
            out@ == before + concat_map(infos.take(i as int), one),
    {
        write_reducer_hook(out, &reducers[i]);
        out.write("\n");
        proof {
            let written = concat_map(infos.take(i as int), one);
            lemma_concat_map_step(infos, i as int, one);
            lemma_append_assoc(before + written, reducer_hook_text(infos[i as int]), "\n"@);
            lemma_append_assoc(before, written, one(infos[i as int]));
        }
    }
    assert(infos.take(reducers@.len() as int) =~= infos);
}

#[verifier::loop_isolation(false)]
fn write_procedure_section(out: &mut Indenter, procedures: &[ProcedureInfo])
    ensures
        final(out)@ == old(out)@ + procedure_section_text(views(procedures@)),
{
    if procedures.len() == 0 {
        assert(out@ =~= out@ + Seq::<char>::empty());
        return;
    }
    let ghost before = out@;
    let ghost infos = views(procedures@);
    let ghost one = |p: ProcedureInfoView| procedure_block_text(p);
    out.write(PROCEDURE_SECTION);
    proof {
        lemma_concat_map_none(infos, one);
        assert(out@ =~= out@ + Seq::<char>::empty());
    }
    for i in 0..procedures.len()
        invariant
            out@ == before + PROCEDURE_SECTION@ + concat_map(infos.take(i as int), one),
    {
        write_procedure_hook(out, &procedures[i]);
        out.write("\n");
        proof {
            let written = concat_map(infos.take(i as int), one);
            lemma_concat_map_step(infos, i as int, one);
            lemma_append_assoc(
                before + PROCEDURE_SECTION@ + written,
                procedure_hook_text(infos[i as int]),
                "\n"@,
            );
            lemma_append_assoc(before + PROCEDURE_SECTION@, written, one(infos[i as int]));
        }
    }
    assert(infos.take(procedures@.len() as int) =~= infos);
    proof {
        lemma_append_assoc(before, PROCEDURE_SECTION@, concat_map(infos, one));
    }
}

/// The file with the hooks starts with the header.
proof fn lemma_hooks_start_with_header(
    header: Seq<char>,
    tables: Seq<TableInfoView>,
    reducers: Seq<ReducerInfoView>,
    procedures: Seq<ProcedureInfoView>,
)
    ensures
        header.is_prefix_of(hooks_file_text(header, tables, reducers, procedures)),
{
    broadcast use lemma_prefix_append;

    lemma_prefix_itself(header);
}

/// The text of the file with the hooks for these tables, reducers and procedures, which starts
/// with `header`.
pub fn render_hooks_file(
    header: &str,
    tables: &[TableInfo],
    reducers: &[ReducerInfo],
    procedures: &[ProcedureInfo],
) -> (code: String)
    ensures
        code@ == hooks_file_text(header@, views(tables@), views(reducers@), views(procedures@)),
        header@.is_prefix_of(code@),
{
    let mut out = Indenter::new();
    out.write(header);
    assert(out@ =~= header@);
    out.write(HOOKS_PRELUDE);
    write_table_fields(&mut out, tables);
    out.write(CONTEXT_TYPES);
    write_reconnect_helpers(&mut out);
    out.write("\n");
    write_context_provider(&mut out, tables);
    out.write("\n");
    out.write(CONTEXT_HOOKS);
    write_subscription_hook(&mut out);
    out.write("\n");
    out.write(TABLE_SECTION);
    write_table_hooks(&mut out, tables);
    out.write(REDUCER_SECTION);
    write_reducer_hooks(&mut out, reducers);
    write_procedure_section(&mut out, procedures);
    out.write(STATE_HOOKS);
    proof {
        lemma_hooks_start_with_header(header@, views(tables@), views(reducers@), views(procedures@));
    }
    out.into_inner()
}

/// Generates the file with the hooks for `module`, which starts with `header`.
pub fn generate_dioxus_hooks(
    module: &ModuleDef,
    visibility: CodegenVisibility,
    header: &str,
) -> (file: OutputFile)
    requires
        hooks_defined(*module, visibility),
    ensures
        file.filename@ == HOOKS_FILENAME@,
        file.code@ == module_hooks_text(header@, *module, visibility),
        header@.is_prefix_of(file.code@),
{
    let tables = collect_tables(module, visibility);
    let reducers = collect_reducers(module, visibility);
    let procedures = collect_procedures(module, visibility);
    OutputFile {
        filename: String::from_str(HOOKS_FILENAME),
        code: render_hooks_file(header, &tables, &reducers, &procedures),
    }
}

} // verus!
