//! The root-level hook that connects and keeps the table signals in step with the server.

use vstd::prelude::*;
use crate::info::{TableInfo, TableInfoView};
use crate::text::{concat_map, lemma_concat_map_none, lemma_concat_map_step, views, Indenter};

verus! {

/// Documentation, signature and signals of the provider, up to the table signals.
pub const PROVIDER_HEAD: &'static str = "/// Initialize the SpacetimeDB context provider at the root of your application.
///
/// This hook must be called at the root component before using any other SpacetimeDB hooks.
/// It creates all table signals at root level to ensure they outlive child components.
///
/// # Arguments
/// * `uri` - The SpacetimeDB server URI
/// * `module_name` - The module name to connect to
/// * `token` - An optional OpenID Connect compliant JSON Web Token (JWT) for authentication.
///   If `None` is passed or this method is not called, SpacetimeDB will generate a new Identity
///   and sign a new private access token for the connection.
#[must_use]
pub fn use_spacetimedb_context_provider(uri: &str, module_name: &str, token: Option<impl ToString>) -> SpacetimeDbContext {
    let uri = uri.to_string();
    let module_name = module_name.to_string();
    let token = token.map(|t| t.to_string());
    let active_token: Arc<Mutex<Option<String>>> = Arc::new(Mutex::new(token.clone()));

    let connection: SyncSignal<Option<SharedConnection>> = use_signal_sync(|| None);
    let state: SyncSignal<ConnectionState> = use_signal_sync(|| ConnectionState::Disconnected);
    let error: SyncSignal<Option<String>> = use_signal_sync(|| None);

    let mut table_signals = TableSignals {
";

/// From the end of the table signals to the start of the `on_connect` callback.
pub const PROVIDER_CONNECT: &'static str = "    };

    let ctx = SpacetimeDbContext {
        connection,
        state,
        error,
        tables: table_signals.clone(),
    };

    use_context_provider(|| ctx.clone());

    use_effect(move || {
        let mut connection = connection;
        let mut state = state;
        let mut error = error;
        let uri = uri.clone();
        let module_name = module_name.clone();
        let active_token = active_token.clone();
        let table_signals = table_signals.clone();

        spawn(async move {
            let mut reconnect_attempt: u32 = 0;

            loop {
                if reconnect_attempt == 0 {
                    state.set(ConnectionState::Connecting);
                } else {
                    let delay_ms = reconnect_delay_ms(reconnect_attempt);
                    state.set(ConnectionState::Reconnecting { attempt: reconnect_attempt, delay_ms });
                }

                let token_for_build = active_token
                    .lock()
                    .ok()
                    .and_then(|token| token.clone());

                let disconnect_fatal: Arc<Mutex<bool>> = Arc::new(Mutex::new(false));
                let disconnect_fatal_on_disconnect = disconnect_fatal.clone();

                let mut connection_on_disconnect = connection.clone();
                let mut state_on_disconnect = state.clone();
                let mut error_on_disconnect = error.clone();
                let mut state_on_connect = state.clone();
                let mut error_on_connect = error.clone();
                let mut table_signals_on_connect = table_signals.clone();
                let active_token_on_connect = active_token.clone();

                let conn = match DbConnection::builder()
                    .with_uri(&uri)
                    .with_database_name(&module_name)
                    .with_token(token_for_build)
                    .on_connect(move |conn, identity, token| {
";

/// From the end of the table callbacks to the end of the provider.
pub const PROVIDER_TAIL: &'static str = "                        if let Ok(mut token_store) = active_token_on_connect.lock() {
                            *token_store = Some(token.to_string());
                        }

                        // Store the assigned Identity and private access token in state so the app
                        // can persist the token (JWT) and reuse it for future reconnections via `with_token`.
                        error_on_connect.set(None);
                        state_on_connect.set(ConnectionState::Connected(identity, token.to_string()));
                    })
                    .on_disconnect(move |_ctx, err: Option<spacetimedb_sdk::Error>| {
                        connection_on_disconnect.set(None);
                        if let Some(e) = err {
                            error_on_disconnect.set(Some::<String>(e.to_string()));
                            if is_fatal_connection_error(&e) {
                                if let Ok(mut fatal) = disconnect_fatal_on_disconnect.lock() {
                                    *fatal = true;
                                }
                            }
                        }
                        state_on_disconnect.set(ConnectionState::Disconnected);
                    })
                    .build().await {
                    Ok(conn) => conn,
                    Err(e) => {
                        connection.set(None);
                        error.set(Some::<String>(e.to_string()));
                        if is_fatal_connection_error(&e) {
                            state.set(ConnectionState::Error);
                            break;
                        }
                        reconnect_attempt = reconnect_attempt.saturating_add(1);
                        if !should_retry_reconnect(reconnect_attempt) {
                            state.set(ConnectionState::Error);
                            break;
                        }
                        let delay_ms = reconnect_delay_ms(reconnect_attempt);
                        state.set(ConnectionState::Reconnecting { attempt: reconnect_attempt, delay_ms });
                        reconnect_sleep(delay_ms).await;
                        continue;
                    }
                };

                let shared_conn: Arc<DbConnection> = Arc::new(conn);
                connection.set(Some(shared_conn.clone()));
                reconnect_attempt = 0;

                let run_result = shared_conn.run_async().await;
                connection.set(None);

                let disconnected_with_fatal_error = disconnect_fatal
                    .lock()
                    .ok()
                    .map(|fatal| *fatal)
                    .unwrap_or(false);
                if disconnected_with_fatal_error {
                    state.set(ConnectionState::Error);
                    break;
                }

                if let Err(e) = run_result {
                    error.set(Some::<String>(e.to_string()));
                    if is_fatal_connection_error(&e) {
                        state.set(ConnectionState::Error);
                        break;
                    }
                }

                reconnect_attempt = reconnect_attempt.saturating_add(1);
                if !should_retry_reconnect(reconnect_attempt) {
                    state.set(ConnectionState::Error);
                    break;
                }

                let delay_ms = reconnect_delay_ms(reconnect_attempt);
                state.set(ConnectionState::Reconnecting { attempt: reconnect_attempt, delay_ms });
                reconnect_sleep(delay_ms).await;
            }
        });
    });

    ctx
}
";

/// The initialiser of a table's signal.
pub open spec fn signal_init_text(t: TableInfoView) -> Seq<char> {
    "        "@ + t.accessor_snake + ": use_signal_sync(Vec::new),\n"@
}

/// The code that fills a table's signal with the rows that are there on connecting.
pub open spec fn populate_text(t: TableInfoView) -> Seq<char> {
    "                    // Populate initial rows for "@ + t.accessor_snake + "\n"@
        + "                    let current: Vec<"@ + t.row_type + "> = conn.db."@ + t.accessor_snake
        + "().iter().collect();\n"@
        + "                    table_signals_on_connect."@ + t.accessor_snake + ".set(current);\n"@
        + "\n"@
        + "                    // Keep signal in sync on changes\n"@
}

/// The code that registers a callback which fills a table's signal anew.
pub open spec fn refresh_text(t: TableInfoView, callback: Seq<char>) -> Seq<char> {
    "                    conn.db."@ + t.accessor_snake + "()."@ + callback + " {\n"@
        + "                        let updated: Vec<"@ + t.row_type + "> = ctx.db."@
        + t.accessor_snake + "().iter().collect();\n"@
        + "                        table_signals_on_connect."@ + t.accessor_snake
        + ".set(updated);\n"@
        + "                    });\n"@
}

/// The callback for inserted rows.
pub open spec fn on_insert_text(t: TableInfoView) -> Seq<char> {
    refresh_text(t, "on_insert(move |ctx, _row|"@)
}

/// The callback for updated rows, which only a table with a primary key can have.
pub open spec fn on_update_text(t: TableInfoView) -> Seq<char> {
    if t.has_primary_key {
        refresh_text(t, "on_update(move |ctx, _old, _new|"@)
    } else {
        Seq::empty()
    }
}

/// The callback for deleted rows.
pub open spec fn on_delete_text(t: TableInfoView) -> Seq<char> {
    refresh_text(t, "on_delete(move |ctx, _row|"@)
}

/// What the `on_connect` callback does for one table.
pub open spec fn table_callbacks_text(t: TableInfoView) -> Seq<char> {
    populate_text(t) + on_insert_text(t) + on_update_text(t) + on_delete_text(t)
}

/// The `use_spacetimedb_context_provider` hook.
pub open spec fn context_provider_text(tables: Seq<TableInfoView>) -> Seq<char> {
    PROVIDER_HEAD@ + concat_map(tables, |t: TableInfoView| signal_init_text(t)) + PROVIDER_CONNECT@
        + concat_map(tables, |t: TableInfoView| table_callbacks_text(t)) + PROVIDER_TAIL@
}

fn populate(table: &TableInfo) -> (text: String)
    ensures
        text@ == populate_text(table@),
{
    let snake = table.accessor_snake.as_str();
    let mut text = String::from_str("                    // Populate initial rows for ");
    text.append(snake);
    text.append("\n");
    text.append("                    let current: Vec<");
    text.append(table.row_type.as_str());
    text.append("> = conn.db.");
    text.append(snake);
    text.append("().iter().collect();\n");
    text.append("                    table_signals_on_connect.");
    text.append(snake);
    text.append(".set(current);\n");
    text.append("\n");
    text.append("                    // Keep signal in sync on changes\n");
    text
}

fn refresh(table: &TableInfo, callback: &str) -> (text: String)
    ensures
        text@ == refresh_text(table@, callback@),
{
    let snake = table.accessor_snake.as_str();
    let mut text = String::from_str("                    conn.db.");
    text.append(snake);
    text.append("().");
    text.append(callback);
    text.append(" {\n");
    text.append("                        let updated: Vec<");
    text.append(table.row_type.as_str());
    text.append("> = ctx.db.");
    text.append(snake);
    text.append("().iter().collect();\n");
    text.append("                        table_signals_on_connect.");
    text.append(snake);
    text.append(".set(updated);\n");
    text.append("                    });\n");
    text
}

fn table_callbacks(table: &TableInfo) -> (text: String)
    ensures
        text@ == table_callbacks_text(table@),
{
    let mut text = populate(table);
    text.append(refresh(table, "on_insert(move |ctx, _row|").as_str());
    if table.has_primary_key {
        text.append(refresh(table, "on_update(move |ctx, _old, _new|").as_str());
    }
    text.append(refresh(table, "on_delete(move |ctx, _row|").as_str());
    text
}

fn signal_init(table: &TableInfo) -> (text: String)
    ensures
        text@ == signal_init_text(table@),
{
    let mut text = String::from_str("        ");
    text.append(table.accessor_snake.as_str());
    text.append(": use_signal_sync(Vec::new),\n");
    text
}

#[verifier::loop_isolation(false)]
fn signal_inits(tables: &[TableInfo]) -> (text: String)
    ensures
        text@ == concat_map(views(tables@), |t: TableInfoView| signal_init_text(t)),
{
    let mut text = String::new();
    let ghost infos = views(tables@);
    let ghost one = |t: TableInfoView| signal_init_text(t);
    proof {
        lemma_concat_map_none(infos, one);
    }
    for i in 0..tables.len()
        invariant
            text@ == concat_map(infos.take(i as int), one),
    {
        text.append(signal_init(&tables[i]).as_str());
        proof {
            lemma_concat_map_step(infos, i as int, one);
        }
    }
    assert(infos.take(tables@.len() as int) =~= infos);
    text
}

#[verifier::loop_isolation(false)]
fn all_callbacks(tables: &[TableInfo]) -> (text: String)
    ensures
        text@ == concat_map(views(tables@), |t: TableInfoView| table_callbacks_text(t)),
{
    let mut text = String::new();
    let ghost infos = views(tables@);
    let ghost one = |t: TableInfoView| table_callbacks_text(t);
    proof {
        lemma_concat_map_none(infos, one);
    }
    for i in 0..tables.len()
        invariant
            text@ == concat_map(infos.take(i as int), one),
    {
        text.append(table_callbacks(&tables[i]).as_str());
        proof {
            lemma_concat_map_step(infos, i as int, one);
        }
    }
    assert(infos.take(tables@.len() as int) =~= infos);
    text
}

/// Writes the hook that connects, stores the connection's state in signals and keeps a signal for
/// every table.
pub fn write_context_provider(out: &mut Indenter, tables: &[TableInfo])
    ensures
        final(out)@ == old(out)@ + context_provider_text(views(tables@)),
{
    let mut text = String::from_str(PROVIDER_HEAD);
    text.append(signal_inits(tables).as_str());
    text.append(PROVIDER_CONNECT);
    text.append(all_callbacks(tables).as_str());
    text.append(PROVIDER_TAIL);
    out.write(text.as_str());
}

} // verus!
