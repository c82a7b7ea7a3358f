use dioxus_codegen::args::Arg;
use dioxus_codegen::collect::{collect_procedures, collect_reducers, collect_tables, procedure_info, reducer_info};
use dioxus_codegen::defined::hooks_are_defined;
use dioxus_codegen::hooks::context::write_context_provider;
use dioxus_codegen::hooks::procedure::write_procedure_hook;
use dioxus_codegen::hooks::reconnect::write_reconnect_helpers;
use dioxus_codegen::hooks::reducer::write_reducer_hook;
use dioxus_codegen::hooks::subscription::write_subscription_hook;
use dioxus_codegen::hooks_file::{generate_dioxus_hooks, render_hooks_file};
use dioxus_codegen::info::TableInfo;
use dioxus_codegen::schema::{
    AlgebraicTypeUse, CodegenVisibility, ModuleDef, ParamDef, PrimitiveType, ProcedureDef, ReducerDef, Relation,
    TableDef, TypeDef, ViewDef,
};
use dioxus_codegen::text::Indenter;

const HEADER: &str = "// Header line.\n";

const HOOKS_FILE: &str = r##"// Header line.
#![allow(unused, clippy::all)]

//! Dioxus v0.7 signals and hooks for SpacetimeDB integration.

use super::*;
use ::dioxus::prelude::*;
use ::dioxus::signals::SyncSignal;
use spacetimedb_sdk::{DbContext, Table, TableWithPrimaryKey, Identity};
use std::sync::{Arc, Mutex};
use futures_channel::oneshot;

/// Thread-safe wrapper for the database connection.
pub type SharedConnection = Arc<DbConnection>;

/// Container for all table signals, created at root level.
#[derive(Clone)]
pub struct TableSignals {
    pub todo: SyncSignal<Vec<Todo>>,
    pub my_view: SyncSignal<Vec<GeoPoint>>,
}

/// Internal state for managing the SpacetimeDB connection.
#[derive(Clone)]
pub struct SpacetimeDbContext {
    /// The database connection (wrapped in Arc for thread-safety).
    pub connection: SyncSignal<Option<SharedConnection>>,
    /// The current connection state.
    pub state: SyncSignal<ConnectionState>,
    /// Error from the last connection attempt, if any.
    pub error: SyncSignal<Option<String>>,
    /// All table signals, created at root level.
    pub tables: TableSignals,
}

/// The current state of the SpacetimeDB connection.
#[derive(Clone, PartialEq, Eq, Debug, Default)]
pub enum ConnectionState {
    #[default]
    Disconnected,
    Connecting,
    Reconnecting { attempt: u32, delay_ms: u64 },
    /// Connected includes the `Identity` assigned by the server and a private access token (JWT)
    /// which can be persisted by the application for future reconnection as the same Identity.
    Connected(Identity, String),
    Error,
}

const RECONNECT_BASE_DELAY_MS: u64 = 400;
const RECONNECT_MAX_DELAY_MS: u64 = 10_000;
const RECONNECT_JITTER_MS: u64 = 300;
const MAX_RECONNECT_ATTEMPTS: u32 = 0;

#[must_use]
fn should_retry_reconnect(attempt: u32) -> bool {
    MAX_RECONNECT_ATTEMPTS == 0 || attempt <= MAX_RECONNECT_ATTEMPTS
}

#[must_use]
fn reconnect_delay_ms(attempt: u32) -> u64 {
    let shift = attempt.min(8);
    let factor = 1u64.checked_shl(shift).unwrap_or(u64::MAX);
    let base_ms = RECONNECT_BASE_DELAY_MS.saturating_mul(factor).min(RECONNECT_MAX_DELAY_MS);
    let jitter = (u64::from(attempt).saturating_mul(137)) % RECONNECT_JITTER_MS.max(1);
    base_ms.saturating_add(jitter)
}

#[cfg(not(target_arch = "wasm32"))]
struct ThreadSleep {
    done: Arc<std::sync::atomic::AtomicBool>,
    started: bool,
    delay_ms: u64,
}

#[cfg(not(target_arch = "wasm32"))]
impl ThreadSleep {
    fn new(delay_ms: u64) -> Self {
        Self {
            done: Arc::new(std::sync::atomic::AtomicBool::new(false)),
            started: false,
            delay_ms,
        }
    }
}

#[cfg(not(target_arch = "wasm32"))]
impl std::future::Future for ThreadSleep {
    type Output = ();

    fn poll(mut self: std::pin::Pin<&mut Self>, cx: &mut std::task::Context<'_>) -> std::task::Poll<Self::Output> {
        if self.done.load(std::sync::atomic::Ordering::Acquire) {
            return std::task::Poll::Ready(());
        }

        if !self.started {
            self.started = true;
            let done = Arc::clone(&self.done);
            let delay_ms = self.delay_ms;
            let waker = cx.waker().clone();
            std::thread::spawn(move || {
                std::thread::sleep(std::time::Duration::from_millis(delay_ms));
                done.store(true, std::sync::atomic::Ordering::Release);
                waker.wake();
            });
        }

        std::task::Poll::Pending
    }
}

async fn reconnect_sleep(delay_ms: u64) {
    #[cfg(not(target_arch = "wasm32"))]
    {
        ThreadSleep::new(delay_ms).await;
    }
    #[cfg(target_arch = "wasm32")]
    {
        let _ = delay_ms;
    }
}

#[must_use]
fn is_fatal_connection_error(err: &spacetimedb_sdk::Error) -> bool {
    let msg = err.to_string().to_ascii_lowercase();
    msg.contains("unauthorized")
        || msg.contains("forbidden")
        || msg.contains("invalid credentials")
        || msg.contains("invalid token")
        || msg.contains("token expired")
}

/// Initialize the SpacetimeDB context provider at the root of your application.
///
/// This hook must be called at the root component before using any other SpacetimeDB hooks.
/// It creates all table signals at root level to ensure they outlive child components.
///
/// # Arguments
/// * `uri` - The SpacetimeDB server URI
/// * `module_name` - The module name to connect to
/// * `token` - An optional OpenID Connect compliant JSON Web Token (JWT) for authentication.
///   If `None` is passed or this method is not called, SpacetimeDB will generate a new Identity
///   and sign a new private access token for the connection.
#[must_use]
pub fn use_spacetimedb_context_provider(uri: &str, module_name: &str, token: Option<impl ToString>) -> SpacetimeDbContext {
    let uri = uri.to_string();
    let module_name = module_name.to_string();
    let token = token.map(|t| t.to_string());
    let active_token: Arc<Mutex<Option<String>>> = Arc::new(Mutex::new(token.clone()));

    let connection: SyncSignal<Option<SharedConnection>> = use_signal_sync(|| None);
    let state: SyncSignal<ConnectionState> = use_signal_sync(|| ConnectionState::Disconnected);
    let error: SyncSignal<Option<String>> = use_signal_sync(|| None);

    let mut table_signals = TableSignals {
        todo: use_signal_sync(Vec::new),
        my_view: use_signal_sync(Vec::new),
    };

    let ctx = SpacetimeDbContext {
        connection,
        state,
        error,
        tables: table_signals.clone(),
    };

    use_context_provider(|| ctx.clone());

    use_effect(move || {
        let mut connection = connection;
        let mut state = state;
        let mut error = error;
        let uri = uri.clone();
        let module_name = module_name.clone();
        let active_token = active_token.clone();
        let table_signals = table_signals.clone();

        spawn(async move {
            let mut reconnect_attempt: u32 = 0;

            loop {
                if reconnect_attempt == 0 {
                    state.set(ConnectionState::Connecting);
                } else {
                    let delay_ms = reconnect_delay_ms(reconnect_attempt);
                    state.set(ConnectionState::Reconnecting { attempt: reconnect_attempt, delay_ms });
                }

                let token_for_build = active_token
                    .lock()
                    .ok()
                    .and_then(|token| token.clone());

                let disconnect_fatal: Arc<Mutex<bool>> = Arc::new(Mutex::new(false));
                let disconnect_fatal_on_disconnect = disconnect_fatal.clone();

                let mut connection_on_disconnect = connection.clone();
                let mut state_on_disconnect = state.clone();
                let mut error_on_disconnect = error.clone();
                let mut state_on_connect = state.clone();
                let mut error_on_connect = error.clone();
                let mut table_signals_on_connect = table_signals.clone();
                let active_token_on_connect = active_token.clone();

                let conn = match DbConnection::builder()
                    .with_uri(&uri)
                    .with_database_name(&module_name)
                    .with_token(token_for_build)
                    .on_connect(move |conn, identity, token| {
                    // Populate initial rows for todo
                    let current: Vec<Todo> = conn.db.todo().iter().collect();
                    table_signals_on_connect.todo.set(current);

                    // Keep signal in sync on changes
                    conn.db.todo().on_insert(move |ctx, _row| {
                        let updated: Vec<Todo> = ctx.db.todo().iter().collect();
                        table_signals_on_connect.todo.set(updated);
                    });
                    conn.db.todo().on_update(move |ctx, _old, _new| {
                        let updated: Vec<Todo> = ctx.db.todo().iter().collect();
                        table_signals_on_connect.todo.set(updated);
                    });
                    conn.db.todo().on_delete(move |ctx, _row| {
                        let updated: Vec<Todo> = ctx.db.todo().iter().collect();
                        table_signals_on_connect.todo.set(updated);
                    });
                    // Populate initial rows for my_view
                    let current: Vec<GeoPoint> = conn.db.my_view().iter().collect();
                    table_signals_on_connect.my_view.set(current);

                    // Keep signal in sync on changes
                    conn.db.my_view().on_insert(move |ctx, _row| {
                        let updated: Vec<GeoPoint> = ctx.db.my_view().iter().collect();
                        table_signals_on_connect.my_view.set(updated);
                    });
                    conn.db.my_view().on_delete(move |ctx, _row| {
                        let updated: Vec<GeoPoint> = ctx.db.my_view().iter().collect();
                        table_signals_on_connect.my_view.set(updated);
                    });
                        if let Ok(mut token_store) = active_token_on_connect.lock() {
                            *token_store = Some(token.to_string());
                        }

                        // Store the assigned Identity and private access token in state so the app
                        // can persist the token (JWT) and reuse it for future reconnections via `with_token`.
                        error_on_connect.set(None);
                        state_on_connect.set(ConnectionState::Connected(identity, token.to_string()));
                    })
                    .on_disconnect(move |_ctx, err: Option<spacetimedb_sdk::Error>| {
                        connection_on_disconnect.set(None);
                        if let Some(e) = err {
                            error_on_disconnect.set(Some::<String>(e.to_string()));
                            if is_fatal_connection_error(&e) {
                                if let Ok(mut fatal) = disconnect_fatal_on_disconnect.lock() {
                                    *fatal = true;
                                }
                            }
                        }
                        state_on_disconnect.set(ConnectionState::Disconnected);
                    })
                    .build().await {
                    Ok(conn) => conn,
                    Err(e) => {
                        connection.set(None);
                        error.set(Some::<String>(e.to_string()));
                        if is_fatal_connection_error(&e) {
                            state.set(ConnectionState::Error);
                            break;
                        }
                        reconnect_attempt = reconnect_attempt.saturating_add(1);
                        if !should_retry_reconnect(reconnect_attempt) {
                            state.set(ConnectionState::Error);
                            break;
                        }
                        let delay_ms = reconnect_delay_ms(reconnect_attempt);
                        state.set(ConnectionState::Reconnecting { attempt: reconnect_attempt, delay_ms });
                        reconnect_sleep(delay_ms).await;
                        continue;
                    }
                };

                let shared_conn: Arc<DbConnection> = Arc::new(conn);
                connection.set(Some(shared_conn.clone()));
                reconnect_attempt = 0;

                let run_result = shared_conn.run_async().await;
                connection.set(None);

                let disconnected_with_fatal_error = disconnect_fatal
                    .lock()
                    .ok()
                    .map(|fatal| *fatal)
                    .unwrap_or(false);
                if disconnected_with_fatal_error {
                    state.set(ConnectionState::Error);
                    break;
                }

                if let Err(e) = run_result {
                    error.set(Some::<String>(e.to_string()));
                    if is_fatal_connection_error(&e) {
                        state.set(ConnectionState::Error);
                        break;
                    }
                }

                reconnect_attempt = reconnect_attempt.saturating_add(1);
                if !should_retry_reconnect(reconnect_attempt) {
                    state.set(ConnectionState::Error);
                    break;
                }

                let delay_ms = reconnect_delay_ms(reconnect_attempt);
                state.set(ConnectionState::Reconnecting { attempt: reconnect_attempt, delay_ms });
                reconnect_sleep(delay_ms).await;
            }
        });
    });

    ctx
}

/// Get the SpacetimeDB context from a parent component.
#[must_use]
pub fn use_spacetimedb_context() -> SpacetimeDbContext {
    use_context::<SpacetimeDbContext>()
}

/// Get the current database connection, if connected.
#[must_use]
pub fn use_connection() -> SyncSignal<Option<SharedConnection>> {
    let ctx = use_spacetimedb_context();
    ctx.connection
}

/// Subscribe to a set of SQL queries.
///
/// Re-subscribes automatically whenever the connection instance changes
/// (initial connect, or reconnect after a network interruption).
/// Avoids duplicate subscriptions while the connection is stable.
/// Subscription errors are printed to stderr for diagnosis.
pub fn use_subscription(queries: &[&str]) {
    let queries: Vec<String> = queries.iter().map(|s| s.to_string()).collect();
    let conn_signal = use_connection();

    // Stores the Arc pointer of the last successfully-subscribed connection.
    // Using peek() inside the effect keeps this read non-reactive (no infinite loop).
    let last_conn: SyncSignal<Option<SharedConnection>> = use_signal_sync(|| None);

    use_effect(move || {
        // transition (None->Some on connect, Some->None on disconnect, Some(a)->Some(b) on reconnect).
        let current = conn_signal();
        let mut last = last_conn;

        match current.as_ref() {
            None => {
                // Connection lost: clear the tracker so the next connection
                // instance will trigger a fresh subscribe.
                // peek() avoids creating a reactive dependency that would loop.
                if last.peek().is_some() {
                    last.set(None);
                }
            }
            Some(conn) => {
                // peek() reads last without subscribing to it reactively.
                if last.peek().as_ref().map(|prev| Arc::ptr_eq(prev, conn)).unwrap_or(false) {
                    // Same connection instance – already subscribed, nothing to do.
                    return;
                }
                // New or reconnected instance – store it and subscribe.
                last.set(Some(conn.clone()));
                let queries = queries.clone();
                conn.subscription_builder()
                    .on_applied(|_ctx| {})
                    .on_error(|_ctx, err| {
                        eprintln!("[spacetimedb] subscription error: {err}");
                    })
                    .subscribe(queries);
            }
        }
    });
}

// --- Table hooks ---

/// Get a reactive signal containing all rows of the `todo` table.
#[must_use]
pub fn use_table_todo() -> SyncSignal<Vec<Todo>> {
    let ctx = use_spacetimedb_context();
    ctx.tables.todo
}

/// Get a reactive signal containing all rows of the `my_view` table.
#[must_use]
pub fn use_table_my_view() -> SyncSignal<Vec<GeoPoint>> {
    let ctx = use_spacetimedb_context();
    ctx.tables.my_view
}

// --- Reducer hooks ---

/// Get a callback to invoke the `add_todo` reducer.
#[must_use]
pub fn use_reducer_add_todo() -> impl Fn(String, add_todo_args_type::AddTodoArgs, Vec<Option<add_todo_args_type::AddTodoArgs>>, Todo) -> spacetimedb_sdk::Result<()> + Clone + 'static {
    let conn_signal = use_connection();

    move |title: String, extra_args: add_todo_args_type::AddTodoArgs, history: Vec<Option<add_todo_args_type::AddTodoArgs>>, todo: Todo| {
        if let Some(conn) = conn_signal().as_ref() {
            conn.reducers.add_todo(title, extra_args, history, todo)
        } else {
            Err(spacetimedb_sdk::Error::Disconnected)
        }
    }
}

/// Invoke the `add_todo` reducer and get a reactive signal for its completion status.
///
/// Returns `(invoke, result)`. Calling `invoke(...)` sends the reducer invocation to the server.
/// The `result` signal is updated to `Some(Ok(()))` on success or `Some(Err(message))`
/// on failure once the server notifies completion.
#[must_use]
pub fn use_reducer_add_todo_then() -> (impl Fn(String, add_todo_args_type::AddTodoArgs, Vec<Option<add_todo_args_type::AddTodoArgs>>, Todo) + Clone + 'static, SyncSignal<Option<Result<(), String>>>) {
    let conn_signal = use_connection();
    let mut result: SyncSignal<Option<Result<(), String>>> = use_signal_sync(|| None);

    let invoke = move |title: String, extra_args: add_todo_args_type::AddTodoArgs, history: Vec<Option<add_todo_args_type::AddTodoArgs>>, todo: Todo| {
        let mut result = result;
        result.set(None);
        if let Some(conn) = conn_signal().as_ref() {
            let (tx, rx) = oneshot::channel();
            if let Err(e) = conn.reducers.add_todo_then(title, extra_args, history, todo, move |_ctx, res| {
                let _ = tx.send(res);
            }) {
                result.set(Some(Err(e.to_string())));
                return;
            }
            spawn(async move {
                if let Ok(res) = rx.await {
                    let flattened = match res {
                        Ok(Ok(())) => Ok(()),
                        Ok(Err(module_err)) => Err(module_err),
                        Err(sdk_err) => Err(sdk_err.to_string()),
                    };
                    result.set(Some(flattened));
                }
            });
        } else {
            result.set(Some(Err("Disconnected from SpacetimeDB".to_string())));
        }
    };

    (invoke, result)
}

/// Invoke the `add_todo` reducer asynchronously and await its completion.
///
/// Returns a closure that can be called to invoke the reducer and `await` its completion directly.
#[must_use]
pub fn use_reducer_add_todo_async() -> impl Fn(String, add_todo_args_type::AddTodoArgs, Vec<Option<add_todo_args_type::AddTodoArgs>>, Todo) -> impl std::future::Future<Output = Result<(), String>> + Clone + 'static {
    let conn_signal = use_connection();

    move |title: String, extra_args: add_todo_args_type::AddTodoArgs, history: Vec<Option<add_todo_args_type::AddTodoArgs>>, todo: Todo| {
        let conn = conn_signal();
        async move {
            let Some(conn) = conn.as_ref() else {
                return Err("Disconnected from SpacetimeDB".to_string());
            };
            let (tx, rx) = oneshot::channel();
            if let Err(e) = conn.reducers.add_todo_then(title, extra_args, history, todo, move |_ctx, res| {
                let _ = tx.send(res);
            }) {
                return Err(e.to_string());
            }
            match rx.await {
                Ok(Ok(Ok(()))) => Ok(()),
                Ok(Ok(Err(err))) => Err(err),
                Ok(Err(sdk_err)) => Err(sdk_err.to_string()),
                Err(_) => Err("Request cancelled".to_string()),
            }
        }
    }
}

/// Get a callback to invoke the `ResetAll` reducer.
#[must_use]
pub fn use_reducer_reset_all() -> impl Fn() -> spacetimedb_sdk::Result<()> + Clone + 'static {
    let conn_signal = use_connection();

    move || {
        if let Some(conn) = conn_signal().as_ref() {
            conn.reducers.reset_all()
        } else {
            Err(spacetimedb_sdk::Error::Disconnected)
        }
    }
}

/// Invoke the `ResetAll` reducer and get a reactive signal for its completion status.
///
/// Returns `(invoke, result)`. Calling `invoke(...)` sends the reducer invocation to the server.
/// The `result` signal is updated to `Some(Ok(()))` on success or `Some(Err(message))`
/// on failure once the server notifies completion.
#[must_use]
pub fn use_reducer_reset_all_then() -> (impl Fn() + Clone + 'static, SyncSignal<Option<Result<(), String>>>) {
    let conn_signal = use_connection();
    let mut result: SyncSignal<Option<Result<(), String>>> = use_signal_sync(|| None);

    let invoke = move || {
        let mut result = result;
        result.set(None);
        if let Some(conn) = conn_signal().as_ref() {
            let (tx, rx) = oneshot::channel();
            if let Err(e) = conn.reducers.reset_all_then(move |_ctx, res| {
                let _ = tx.send(res);
            }) {
                result.set(Some(Err(e.to_string())));
                return;
            }
            spawn(async move {
                if let Ok(res) = rx.await {
                    let flattened = match res {
                        Ok(Ok(())) => Ok(()),
                        Ok(Err(module_err)) => Err(module_err),
                        Err(sdk_err) => Err(sdk_err.to_string()),
                    };
                    result.set(Some(flattened));
                }
            });
        } else {
            result.set(Some(Err("Disconnected from SpacetimeDB".to_string())));
        }
    };

    (invoke, result)
}

/// Invoke the `ResetAll` reducer asynchronously and await its completion.
///
/// Returns a closure that can be called to invoke the reducer and `await` its completion directly.
#[must_use]
pub fn use_reducer_reset_all_async() -> impl Fn() -> impl std::future::Future<Output = Result<(), String>> + Clone + 'static {
    let conn_signal = use_connection();

    move || {
        let conn = conn_signal();
        async move {
            let Some(conn) = conn.as_ref() else {
                return Err("Disconnected from SpacetimeDB".to_string());
            };
            let (tx, rx) = oneshot::channel();
            if let Err(e) = conn.reducers.reset_all_then(move |_ctx, res| {
                let _ = tx.send(res);
            }) {
                return Err(e.to_string());
            }
            match rx.await {
                Ok(Ok(Ok(()))) => Ok(()),
                Ok(Ok(Err(err))) => Err(err),
                Ok(Err(sdk_err)) => Err(sdk_err.to_string()),
                Err(_) => Err("Request cancelled".to_string()),
            }
        }
    }
}

// --- Procedure hooks ---

/// Invoke the `fetchPoints` procedure and get a reactive signal for its result.
///
/// Returns `(invoke, result)`. Calling `invoke(...)` sends the procedure call to the server.
/// The `result` signal is updated to `Some(Ok(value))` on success or `Some(Err(message))`
/// on failure once the server responds.
#[must_use]
pub fn use_procedure_fetch_points() -> (impl Fn(u32) + Clone + 'static, SyncSignal<Option<Result<Option<Vec<GeoPoint>>, String>>>) {
    let conn_signal = use_connection();
    let mut result: SyncSignal<Option<Result<Option<Vec<GeoPoint>>, String>>> = use_signal_sync(|| None);

    let invoke = move |limit: u32| {
        let mut result = result;
        result.set(None);
        if let Some(conn) = conn_signal().as_ref() {
            let (tx, rx) = oneshot::channel();
            conn.procedures.fetch_points_then(limit, move |_ctx, res| {
                let _ = tx.send(res);
            });
            spawn(async move {
                if let Ok(res) = rx.await {
                    result.set(Some(res.map_err(|e| e.to_string())));
                }
            });
        } else {
            result.set(Some(Err("Disconnected from SpacetimeDB".to_string())));
        }
    };

    (invoke, result)
}

/// Invoke the `fetchPoints` procedure asynchronously.
///
/// Returns a closure that can be called to invoke the procedure and `await` the response directly.
#[must_use]
pub fn use_procedure_fetch_points_async() -> impl Fn(u32) -> impl std::future::Future<Output = Result<Option<Vec<GeoPoint>>, String>> + Clone + 'static {
    let conn_signal = use_connection();

    move |limit: u32| {
        let conn = conn_signal();
        async move {
            let Some(conn) = conn.as_ref() else {
                return Err("Disconnected from SpacetimeDB".to_string());
            };
            let (tx, rx) = oneshot::channel();
            conn.procedures.fetch_points_then(limit, move |_ctx, res| {
                let _ = tx.send(res);
            });
            match rx.await {
                Ok(res) => res.map_err(|e| e.to_string()),
                Err(_) => Err("Request cancelled".to_string()),
            }
        }
    }
}

/// Invoke the `now` procedure and get a reactive signal for its result.
///
/// Returns `(invoke, result)`. Calling `invoke(...)` sends the procedure call to the server.
/// The `result` signal is updated to `Some(Ok(value))` on success or `Some(Err(message))`
/// on failure once the server responds.
#[must_use]
pub fn use_procedure_now() -> (impl Fn() + Clone + 'static, SyncSignal<Option<Result<__sdk::Timestamp, String>>>) {
    let conn_signal = use_connection();
    let mut result: SyncSignal<Option<Result<__sdk::Timestamp, String>>> = use_signal_sync(|| None);

    let invoke = move || {
        let mut result = result;
        result.set(None);
        if let Some(conn) = conn_signal().as_ref() {
            let (tx, rx) = oneshot::channel();
            conn.procedures.now_then(move |_ctx, res| {
                let _ = tx.send(res);
            });
            spawn(async move {
                if let Ok(res) = rx.await {
                    result.set(Some(res.map_err(|e| e.to_string())));
                }
            });
        } else {
            result.set(Some(Err("Disconnected from SpacetimeDB".to_string())));
        }
    };

    (invoke, result)
}

/// Invoke the `now` procedure asynchronously.
///
/// Returns a closure that can be called to invoke the procedure and `await` the response directly.
#[must_use]
pub fn use_procedure_now_async() -> impl Fn() -> impl std::future::Future<Output = Result<__sdk::Timestamp, String>> + Clone + 'static {
    let conn_signal = use_connection();

    move || {
        let conn = conn_signal();
        async move {
            let Some(conn) = conn.as_ref() else {
                return Err("Disconnected from SpacetimeDB".to_string());
            };
            let (tx, rx) = oneshot::channel();
            conn.procedures.now_then(move |_ctx, res| {
                let _ = tx.send(res);
            });
            match rx.await {
                Ok(res) => res.map_err(|e| e.to_string()),
                Err(_) => Err("Request cancelled".to_string()),
            }
        }
    }
}

// --- Connection state hooks ---

/// Get a reactive signal for the current connection state.
#[must_use]
pub fn use_connection_state() -> SyncSignal<ConnectionState> {
    let ctx = use_spacetimedb_context();
    ctx.state
}

/// Get a reactive signal for the current connection error, if any.
#[must_use]
pub fn use_connection_error() -> SyncSignal<Option<String>> {
    let ctx = use_spacetimedb_context();
    ctx.error
}
"##;

const EMPTY_HOOKS_FILE: &str = r##"// Header line.
#![allow(unused, clippy::all)]

//! Dioxus v0.7 signals and hooks for SpacetimeDB integration.

use super::*;
use ::dioxus::prelude::*;
use ::dioxus::signals::SyncSignal;
use spacetimedb_sdk::{DbContext, Table, TableWithPrimaryKey, Identity};
use std::sync::{Arc, Mutex};
use futures_channel::oneshot;

/// Thread-safe wrapper for the database connection.
pub type SharedConnection = Arc<DbConnection>;

/// Container for all table signals, created at root level.
#[derive(Clone)]
pub struct TableSignals {
}

/// Internal state for managing the SpacetimeDB connection.
#[derive(Clone)]
pub struct SpacetimeDbContext {
    /// The database connection (wrapped in Arc for thread-safety).
    pub connection: SyncSignal<Option<SharedConnection>>,
    /// The current connection state.
    pub state: SyncSignal<ConnectionState>,
    /// Error from the last connection attempt, if any.
    pub error: SyncSignal<Option<String>>,
    /// All table signals, created at root level.
    pub tables: TableSignals,
}

/// The current state of the SpacetimeDB connection.
#[derive(Clone, PartialEq, Eq, Debug, Default)]
pub enum ConnectionState {
    #[default]
    Disconnected,
    Connecting,
    Reconnecting { attempt: u32, delay_ms: u64 },
    /// Connected includes the `Identity` assigned by the server and a private access token (JWT)
    /// which can be persisted by the application for future reconnection as the same Identity.
    Connected(Identity, String),
    Error,
}

const RECONNECT_BASE_DELAY_MS: u64 = 400;
const RECONNECT_MAX_DELAY_MS: u64 = 10_000;
const RECONNECT_JITTER_MS: u64 = 300;
const MAX_RECONNECT_ATTEMPTS: u32 = 0;

#[must_use]
fn should_retry_reconnect(attempt: u32) -> bool {
    MAX_RECONNECT_ATTEMPTS == 0 || attempt <= MAX_RECONNECT_ATTEMPTS
}

#[must_use]
fn reconnect_delay_ms(attempt: u32) -> u64 {
    let shift = attempt.min(8);
    let factor = 1u64.checked_shl(shift).unwrap_or(u64::MAX);
    let base_ms = RECONNECT_BASE_DELAY_MS.saturating_mul(factor).min(RECONNECT_MAX_DELAY_MS);
    let jitter = (u64::from(attempt).saturating_mul(137)) % RECONNECT_JITTER_MS.max(1);
    base_ms.saturating_add(jitter)
}

#[cfg(not(target_arch = "wasm32"))]
struct ThreadSleep {
    done: Arc<std::sync::atomic::AtomicBool>,
    started: bool,
    delay_ms: u64,
}

#[cfg(not(target_arch = "wasm32"))]
impl ThreadSleep {
    fn new(delay_ms: u64) -> Self {
        Self {
            done: Arc::new(std::sync::atomic::AtomicBool::new(false)),
            started: false,
            delay_ms,
        }
    }
}

#[cfg(not(target_arch = "wasm32"))]
impl std::future::Future for ThreadSleep {
    type Output = ();

    fn poll(mut self: std::pin::Pin<&mut Self>, cx: &mut std::task::Context<'_>) -> std::task::Poll<Self::Output> {
        if self.done.load(std::sync::atomic::Ordering::Acquire) {
            return std::task::Poll::Ready(());
        }

        if !self.started {
            self.started = true;
            let done = Arc::clone(&self.done);
            let delay_ms = self.delay_ms;
            let waker = cx.waker().clone();
            std::thread::spawn(move || {
                std::thread::sleep(std::time::Duration::from_millis(delay_ms));
                done.store(true, std::sync::atomic::Ordering::Release);
                waker.wake();
            });
        }

        std::task::Poll::Pending
    }
}

async fn reconnect_sleep(delay_ms: u64) {
    #[cfg(not(target_arch = "wasm32"))]
    {
        ThreadSleep::new(delay_ms).await;
    }
    #[cfg(target_arch = "wasm32")]
    {
        let _ = delay_ms;
    }
}

#[must_use]
fn is_fatal_connection_error(err: &spacetimedb_sdk::Error) -> bool {
    let msg = err.to_string().to_ascii_lowercase();
    msg.contains("unauthorized")
        || msg.contains("forbidden")
        || msg.contains("invalid credentials")
        || msg.contains("invalid token")
        || msg.contains("token expired")
}

/// Initialize the SpacetimeDB context provider at the root of your application.
///
/// This hook must be called at the root component before using any other SpacetimeDB hooks.
/// It creates all table signals at root level to ensure they outlive child components.
///
/// # Arguments
/// * `uri` - The SpacetimeDB server URI
/// * `module_name` - The module name to connect to
/// * `token` - An optional OpenID Connect compliant JSON Web Token (JWT) for authentication.
///   If `None` is passed or this method is not called, SpacetimeDB will generate a new Identity
///   and sign a new private access token for the connection.
#[must_use]
pub fn use_spacetimedb_context_provider(uri: &str, module_name: &str, token: Option<impl ToString>) -> SpacetimeDbContext {
    let uri = uri.to_string();
    let module_name = module_name.to_string();
    let token = token.map(|t| t.to_string());
    let active_token: Arc<Mutex<Option<String>>> = Arc::new(Mutex::new(token.clone()));

    let connection: SyncSignal<Option<SharedConnection>> = use_signal_sync(|| None);
    let state: SyncSignal<ConnectionState> = use_signal_sync(|| ConnectionState::Disconnected);
    let error: SyncSignal<Option<String>> = use_signal_sync(|| None);

    let mut table_signals = TableSignals {
    };

    let ctx = SpacetimeDbContext {
        connection,
        state,
        error,
        tables: table_signals.clone(),
    };

    use_context_provider(|| ctx.clone());

    use_effect(move || {
        let mut connection = connection;
        let mut state = state;
        let mut error = error;
        let uri = uri.clone();
        let module_name = module_name.clone();
        let active_token = active_token.clone();
        let table_signals = table_signals.clone();

        spawn(async move {
            let mut reconnect_attempt: u32 = 0;

            loop {
                if reconnect_attempt == 0 {
                    state.set(ConnectionState::Connecting);
                } else {
                    let delay_ms = reconnect_delay_ms(reconnect_attempt);
                    state.set(ConnectionState::Reconnecting { attempt: reconnect_attempt, delay_ms });
                }

                let token_for_build = active_token
                    .lock()
                    .ok()
                    .and_then(|token| token.clone());

                let disconnect_fatal: Arc<Mutex<bool>> = Arc::new(Mutex::new(false));
                let disconnect_fatal_on_disconnect = disconnect_fatal.clone();

                let mut connection_on_disconnect = connection.clone();
                let mut state_on_disconnect = state.clone();
                let mut error_on_disconnect = error.clone();
                let mut state_on_connect = state.clone();
                let mut error_on_connect = error.clone();
                let mut table_signals_on_connect = table_signals.clone();
                let active_token_on_connect = active_token.clone();

                let conn = match DbConnection::builder()
                    .with_uri(&uri)
                    .with_database_name(&module_name)
                    .with_token(token_for_build)
                    .on_connect(move |conn, identity, token| {
                        if let Ok(mut token_store) = active_token_on_connect.lock() {
                            *token_store = Some(token.to_string());
                        }

                        // Store the assigned Identity and private access token in state so the app
                        // can persist the token (JWT) and reuse it for future reconnections via `with_token`.
                        error_on_connect.set(None);
                        state_on_connect.set(ConnectionState::Connected(identity, token.to_string()));
                    })
                    .on_disconnect(move |_ctx, err: Option<spacetimedb_sdk::Error>| {
                        connection_on_disconnect.set(None);
                        if let Some(e) = err {
                            error_on_disconnect.set(Some::<String>(e.to_string()));
                            if is_fatal_connection_error(&e) {
                                if let Ok(mut fatal) = disconnect_fatal_on_disconnect.lock() {
                                    *fatal = true;
                                }
                            }
                        }
                        state_on_disconnect.set(ConnectionState::Disconnected);
                    })
                    .build().await {
                    Ok(conn) => conn,
                    Err(e) => {
                        connection.set(None);
                        error.set(Some::<String>(e.to_string()));
                        if is_fatal_connection_error(&e) {
                            state.set(ConnectionState::Error);
                            break;
                        }
                        reconnect_attempt = reconnect_attempt.saturating_add(1);
                        if !should_retry_reconnect(reconnect_attempt) {
                            state.set(ConnectionState::Error);
                            break;
                        }
                        let delay_ms = reconnect_delay_ms(reconnect_attempt);
                        state.set(ConnectionState::Reconnecting { attempt: reconnect_attempt, delay_ms });
                        reconnect_sleep(delay_ms).await;
                        continue;
                    }
                };

                let shared_conn: Arc<DbConnection> = Arc::new(conn);
                connection.set(Some(shared_conn.clone()));
                reconnect_attempt = 0;

                let run_result = shared_conn.run_async().await;
                connection.set(None);

                let disconnected_with_fatal_error = disconnect_fatal
                    .lock()
                    .ok()
                    .map(|fatal| *fatal)
                    .unwrap_or(false);
                if disconnected_with_fatal_error {
                    state.set(ConnectionState::Error);
                    break;
                }

                if let Err(e) = run_result {
                    error.set(Some::<String>(e.to_string()));
                    if is_fatal_connection_error(&e) {
                        state.set(ConnectionState::Error);
                        break;
                    }
                }

                reconnect_attempt = reconnect_attempt.saturating_add(1);
                if !should_retry_reconnect(reconnect_attempt) {
                    state.set(ConnectionState::Error);
                    break;
                }

                let delay_ms = reconnect_delay_ms(reconnect_attempt);
                state.set(ConnectionState::Reconnecting { attempt: reconnect_attempt, delay_ms });
                reconnect_sleep(delay_ms).await;
            }
        });
    });

    ctx
}

/// Get the SpacetimeDB context from a parent component.
#[must_use]
pub fn use_spacetimedb_context() -> SpacetimeDbContext {
    use_context::<SpacetimeDbContext>()
}

/// Get the current database connection, if connected.
#[must_use]
pub fn use_connection() -> SyncSignal<Option<SharedConnection>> {
    let ctx = use_spacetimedb_context();
    ctx.connection
}

/// Subscribe to a set of SQL queries.
///
/// Re-subscribes automatically whenever the connection instance changes
/// (initial connect, or reconnect after a network interruption).
/// Avoids duplicate subscriptions while the connection is stable.
/// Subscription errors are printed to stderr for diagnosis.
pub fn use_subscription(queries: &[&str]) {
    let queries: Vec<String> = queries.iter().map(|s| s.to_string()).collect();
    let conn_signal = use_connection();

    // Stores the Arc pointer of the last successfully-subscribed connection.
    // Using peek() inside the effect keeps this read non-reactive (no infinite loop).
    let last_conn: SyncSignal<Option<SharedConnection>> = use_signal_sync(|| None);

    use_effect(move || {
        // transition (None->Some on connect, Some->None on disconnect, Some(a)->Some(b) on reconnect).
        let current = conn_signal();
        let mut last = last_conn;

        match current.as_ref() {
            None => {
                // Connection lost: clear the tracker so the next connection
                // instance will trigger a fresh subscribe.
                // peek() avoids creating a reactive dependency that would loop.
                if last.peek().is_some() {
                    last.set(None);
                }
            }
            Some(conn) => {
                // peek() reads last without subscribing to it reactively.
                if last.peek().as_ref().map(|prev| Arc::ptr_eq(prev, conn)).unwrap_or(false) {
                    // Same connection instance – already subscribed, nothing to do.
                    return;
                }
                // New or reconnected instance – store it and subscribe.
                last.set(Some(conn.clone()));
                let queries = queries.clone();
                conn.subscription_builder()
                    .on_applied(|_ctx| {})
                    .on_error(|_ctx, err| {
                        eprintln!("[spacetimedb] subscription error: {err}");
                    })
                    .subscribe(queries);
            }
        }
    });
}

// --- Table hooks ---

// --- Reducer hooks ---

// --- Connection state hooks ---

/// Get a reactive signal for the current connection state.
#[must_use]
pub fn use_connection_state() -> SyncSignal<ConnectionState> {
    let ctx = use_spacetimedb_context();
    ctx.state
}

/// Get a reactive signal for the current connection error, if any.
#[must_use]
pub fn use_connection_error() -> SyncSignal<Option<String>> {
    let ctx = use_spacetimedb_context();
    ctx.error
}
"##;

fn named(type_ref: u32, segments: &[&str]) -> TypeDef {
    TypeDef { type_ref, name_segments: segments.iter().map(|s| s.to_string()).collect() }
}

fn table(accessor_name: &str, product_type_ref: u32, primary_key: Option<u16>, is_private: bool) -> Relation {
    Relation::Table(TableDef { accessor_name: accessor_name.to_string(), product_type_ref, primary_key, is_private })
}

fn view(accessor_name: &str, product_type_ref: u32, primary_key: Option<u16>) -> Relation {
    Relation::View(ViewDef { accessor_name: accessor_name.to_string(), product_type_ref, primary_key })
}

fn param(name: &str, ty: AlgebraicTypeUse, rust_name: &str) -> ParamDef {
    ParamDef { name: name.to_string(), ty, rust_name: rust_name.to_string() }
}

fn reducer(name: &str, accessor_name: &str, params: Vec<ParamDef>) -> ReducerDef {
    ReducerDef {
        name: name.to_string(),
        accessor_name: accessor_name.to_string(),
        params_for_generate: params,
        is_invokable: true,
        is_private: false,
    }
}

fn procedure(name: &str, accessor_name: &str, params: Vec<ParamDef>, ret: AlgebraicTypeUse) -> ProcedureDef {
    ProcedureDef {
        name: name.to_string(),
        accessor_name: accessor_name.to_string(),
        params_for_generate: params,
        return_type_for_generate: ret,
        is_private: false,
    }
}

fn arg(name: &str, ty: &str) -> Arg {
    Arg { name: name.to_string(), ty: ty.to_string() }
}

fn option(ty: AlgebraicTypeUse) -> AlgebraicTypeUse {
    AlgebraicTypeUse::Option(Box::new(ty))
}

fn array(ty: AlgebraicTypeUse) -> AlgebraicTypeUse {
    AlgebraicTypeUse::Array(Box::new(ty))
}

fn empty_module() -> ModuleDef {
    ModuleDef { types: vec![], relations: vec![], reducers: vec![], procedures: vec![] }
}

fn todo_module() -> ModuleDef {
    let mut hidden = reducer("hidden", "hidden", vec![]);
    hidden.is_private = true;
    let mut init = reducer("init", "init", vec![]);
    init.is_invokable = false;
    let mut secret = procedure("secret", "secret", vec![], AlgebraicTypeUse::Unit);
    secret.is_private = true;
    ModuleDef {
        types: vec![named(0, &["Todo"]), named(1, &["AddTodoArgs"]), named(2, &["geo", "Point"])],
        relations: vec![table("todo", 0, Some(0), false), table("audit", 0, Some(0), true), view("MyView", 2, None)],
        reducers: vec![
            reducer(
                "add_todo",
                "add_todo",
                vec![
                    param("title", AlgebraicTypeUse::String, "String"),
                    param("extraArgs", AlgebraicTypeUse::Ref(1), "AddTodoArgs"),
                    param("history", array(option(AlgebraicTypeUse::Ref(1))), "Vec<Option<AddTodoArgs>>"),
                    param("todo", AlgebraicTypeUse::Ref(0), "Todo"),
                ],
            ),
            hidden,
            reducer("ResetAll", "reset", vec![]),
            init,
        ],
        procedures: vec![
            procedure(
                "fetchPoints",
                "fetchPoints",
                vec![param("limit", AlgebraicTypeUse::Primitive(PrimitiveType::U32), "u32")],
                option(array(AlgebraicTypeUse::Ref(2))),
            ),
            secret,
            procedure("now", "now", vec![], AlgebraicTypeUse::Timestamp),
        ],
    }
}

#[test]
fn hooks_for_a_module() {
    let module = todo_module();
    assert!(hooks_are_defined(&module, CodegenVisibility::OnlyPublic));
    let file = generate_dioxus_hooks(&module, CodegenVisibility::OnlyPublic, HEADER);
    assert_eq!(file.filename, "dioxus.rs");
    assert_eq!(file.code, HOOKS_FILE);
}

#[test]
fn hooks_for_an_empty_module() {
    let file = generate_dioxus_hooks(&empty_module(), CodegenVisibility::IncludePrivate, HEADER);
    assert_eq!(file.code, EMPTY_HOOKS_FILE);
    assert!(!file.code.contains("// --- Procedure hooks ---"));
    assert_eq!(render_hooks_file(HEADER, &[], &[], &[]), EMPTY_HOOKS_FILE);
}

#[test]
fn private_declarations_are_left_out_or_included() {
    let module = todo_module();
    let public = CodegenVisibility::OnlyPublic;
    let all = CodegenVisibility::IncludePrivate;
    let tables = |v| collect_tables(&module, v).iter().map(|t| t.accessor_snake.clone()).collect::<Vec<String>>();
    assert_eq!(tables(public), vec!["todo", "my_view"]);
    assert_eq!(tables(all), vec!["todo", "audit", "my_view"]);
    let reducers = |v| collect_reducers(&module, v).iter().map(|r| r.name_snake.clone()).collect::<Vec<String>>();
    assert_eq!(reducers(public), vec!["add_todo", "reset_all"]);
    assert_eq!(reducers(all), vec!["add_todo", "hidden", "reset_all"]);
    let procedures = |v| collect_procedures(&module, v).iter().map(|p| p.name_snake.clone()).collect::<Vec<String>>();
    assert_eq!(procedures(public), vec!["fetch_points", "now"]);
    assert_eq!(procedures(all), vec!["fetch_points", "secret", "now"]);
}

#[test]
fn a_module_without_private_declarations_gets_the_same_hooks() {
    let mut module = todo_module();
    module.relations.remove(1);
    module.reducers.remove(1);
    module.procedures.remove(1);
    let public = generate_dioxus_hooks(&module, CodegenVisibility::OnlyPublic, HEADER);
    let all = generate_dioxus_hooks(&module, CodegenVisibility::IncludePrivate, HEADER);
    assert_eq!(public.code, all.code);
    assert_eq!(public.code, HOOKS_FILE);
}

#[test]
fn names_are_re_cased() {
    let tables = collect_tables(&todo_module(), CodegenVisibility::OnlyPublic);
    assert_eq!(tables[1].accessor_snake, "my_view");
    assert_eq!(tables[1].row_type, "GeoPoint");
    let reducers = collect_reducers(&todo_module(), CodegenVisibility::OnlyPublic);
    assert_eq!(reducers[0].arg_names, "title, extra_args, history, todo");
    assert_eq!(reducers[1].name_snake, "reset_all");
    assert_eq!(reducers[1].name_orig, "ResetAll");
}

#[test]
fn a_conflicting_type_is_qualified() {
    let reducers = collect_reducers(&todo_module(), CodegenVisibility::OnlyPublic);
    assert_eq!(
        reducers[0].fn_trait_params,
        "String, add_todo_args_type::AddTodoArgs, Vec<Option<add_todo_args_type::AddTodoArgs>>, Todo"
    );
    assert_eq!(
        reducers[0].arglist,
        "title: String, extra_args: add_todo_args_type::AddTodoArgs, history: Vec<Option<add_todo_args_type::AddTodoArgs>>, todo: Todo"
    );
    assert_eq!(reducers[0].arglist, reducers[0].closure_params);
}

#[test]
fn primary_keys_of_tables_and_views() {
    let module = ModuleDef {
        types: vec![named(0, &["Row"])],
        relations: vec![
            table("keyed", 0, Some(1), false),
            table("plain", 0, None, false),
            view("keyed_view", 0, Some(0)),
            view("plain_view", 0, None),
        ],
        reducers: vec![],
        procedures: vec![],
    };
    let keys = |v| collect_tables(&module, v).iter().map(|t| t.has_primary_key).collect::<Vec<bool>>();
    assert_eq!(keys(CodegenVisibility::OnlyPublic), vec![true, false, true, false]);
}

#[test]
fn a_key_counts_for_every_relation_of_the_same_accessor() {
    let relations = || vec![table("rows", 0, Some(0), true), view("rows", 0, None)];
    let module =
        ModuleDef { types: vec![named(0, &["Row"])], relations: relations(), reducers: vec![], procedures: vec![] };
    let keys = |v| collect_tables(&module, v).iter().map(|t| t.has_primary_key).collect::<Vec<bool>>();
    assert_eq!(keys(CodegenVisibility::IncludePrivate), vec![true, true]);
    assert_eq!(keys(CodegenVisibility::OnlyPublic), vec![false]);
}

#[test]
fn only_a_keyed_table_follows_updates() {
    let provider = |has_primary_key| {
        let mut out = Indenter::new();
        let info = TableInfo { accessor_snake: "row".to_string(), row_type: "Row".to_string(), has_primary_key };
        write_context_provider(&mut out, &[info]);
        out.into_inner()
    };
    let update = "                    conn.db.row().on_update(move |ctx, _old, _new| {\n                        let updated: Vec<Row> = ctx.db.row().iter().collect();\n                        table_signals_on_connect.row.set(updated);\n                    });\n";
    assert!(provider(true).contains(update));
    assert!(!provider(false).contains("on_update"));
    assert_eq!(provider(true).replace(update, ""), provider(false));
}

#[test]
fn reducer_info_of_its_arguments() {
    let args = vec![arg("a", "u8"), arg("b", "String")];
    let info = reducer_info("s".to_string(), "o".to_string(), &args);
    assert_eq!(info.name_snake, "s");
    assert_eq!(info.name_orig, "o");
    assert_eq!(info.arglist, "a: u8, b: String");
    assert_eq!(info.arg_names, "a, b");
    assert_eq!(info.closure_params, "a: u8, b: String");
    assert_eq!(info.fn_trait_params, "u8, String");
}

#[test]
fn procedure_info_of_its_arguments() {
    let info = procedure_info("s".to_string(), "o".to_string(), &vec![arg("a", "u8")], "()".to_string());
    assert_eq!(info.name_snake, "s");
    assert_eq!(info.name_orig, "o");
    assert_eq!(info.arg_names, "a");
    assert_eq!(info.closure_params, "a: u8");
    assert_eq!(info.fn_trait_params, "u8");
    assert_eq!(info.return_type, "()");
}

#[test]
fn a_reducer_without_arguments_takes_a_plain_closure() {
    let mut out = Indenter::new();
    write_reducer_hook(&mut out, &reducer_info("go".to_string(), "Go".to_string(), &vec![]));
    let text = out.into_inner();
    assert!(text.starts_with("/// Get a callback to invoke the `Go` reducer.\n#[must_use]\npub fn use_reducer_go() -> impl Fn() -> spacetimedb_sdk::Result<()> + Clone + 'static {\n"));
    assert!(text.contains("    move || {\n"));
    assert!(text.contains("            conn.reducers.go()\n"));
    assert!(text.contains("conn.reducers.go_then(move |_ctx, res| {\n"));
}

#[test]
fn an_argument_without_a_name_is_not_handed_on() {
    let mut out = Indenter::new();
    write_reducer_hook(&mut out, &reducer_info("go".to_string(), "Go".to_string(), &vec![arg("", "u8")]));
    let text = out.into_inner();
    assert!(text.contains("pub fn use_reducer_go() -> impl Fn(u8) -> spacetimedb_sdk::Result<()>"));
    assert!(text.contains("    move |: u8| {\n"));
    assert!(text.contains("conn.reducers.go_then(move |_ctx, res| {\n"));
}

#[test]
fn a_procedure_hands_its_arguments_on() {
    let mut out = Indenter::new();
    let args = vec![arg("a", "u8"), arg("b", "u16")];
    write_procedure_hook(&mut out, &procedure_info("p".to_string(), "P".to_string(), &args, "u32".to_string()));
    let text = out.into_inner();
    assert!(text.contains("pub fn use_procedure_p() -> (impl Fn(u8, u16) + Clone + 'static, SyncSignal<Option<Result<u32, String>>>) {\n"));
    assert!(text.contains("            conn.procedures.p_then(a, b, move |_ctx, res| {\n"));
    assert!(text.contains("pub fn use_procedure_p_async() -> impl Fn(u8, u16) -> impl std::future::Future<Output = Result<u32, String>> + Clone + 'static {\n"));
}

#[test]
fn fixed_parts_stand_in_every_file() {
    let part = |write: fn(&mut Indenter)| {
        let mut out = Indenter::new();
        write(&mut out);
        out.into_inner()
    };
    assert!(HOOKS_FILE.contains(&part(write_reconnect_helpers)));
    assert!(EMPTY_HOOKS_FILE.contains(&part(write_reconnect_helpers)));
    assert!(HOOKS_FILE.contains(&part(write_subscription_hook)));
    assert!(EMPTY_HOOKS_FILE.contains(&part(write_subscription_hook)));
}

#[test]
fn undefined_types_of_hooks_are_found_out() {
    let public = CodegenVisibility::OnlyPublic;
    let mut module = todo_module();
    module.types.remove(2);
    assert!(!hooks_are_defined(&module, public));
    let mut module = empty_module();
    module.relations.push(table("t", 0, None, true));
    assert!(hooks_are_defined(&module, public));
    assert!(!hooks_are_defined(&module, CodegenVisibility::IncludePrivate));
    let mut module = empty_module();
    module.reducers.push(reducer("r", "r", vec![param("a", AlgebraicTypeUse::Ref(0), "A")]));
    assert!(!hooks_are_defined(&module, public));
    module.reducers[0].is_invokable = false;
    assert!(hooks_are_defined(&module, public));
    let mut module = empty_module();
    module.procedures.push(procedure("p", "p", vec![], array(AlgebraicTypeUse::Ref(0))));
    assert!(!hooks_are_defined(&module, public));
    module.types.push(named(0, &["A"]));
    assert!(hooks_are_defined(&module, public));
}
