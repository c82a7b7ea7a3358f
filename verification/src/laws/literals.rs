//! What the fixed parts of the file with the hooks hold: whole lines, so many of which open a hook,
//! and so many braces.

use vstd::prelude::*;
use crate::hooks::context::{PROVIDER_CONNECT, PROVIDER_HEAD, PROVIDER_TAIL};
use crate::hooks::procedure::{CALL_END, CALL_START, INVOKE_END, INVOKE_START};
use crate::hooks::reconnect::RECONNECT_HELPERS;
use crate::hooks::reducer::{ASYNC_END, ASYNC_START, CALLBACK_END, THEN_END, THEN_START};
use crate::hooks::subscription::SUBSCRIPTION_HOOK;
use crate::hooks_file::{
    CONTEXT_HOOKS, CONTEXT_TYPES, HOOKS_PRELUDE, PROCEDURE_SECTION, REDUCER_SECTION, STATE_HOOKS,
    TABLE_SECTION,
};
use super::braces::{lemma_occurrences_listed, neat, occurrences};
use super::lines::{
    hook_lines, lemma_hook_line_chars, lemma_hook_lines_listed, lemma_plain_lines, whole_lines,
    HOOK_START,
};

verus! {

/// What stands before the table signals opens no hook.
pub proof fn lemma_hooks_prelude()
    ensures
        whole_lines(HOOKS_PRELUDE@),
        hook_lines(HOOKS_PRELUDE@) == 0,
{
    let text = HOOKS_PRELUDE@;
    reveal_strlit("#![allow(unused, clippy::all)]

//! Dioxus v0.7 signals and hooks for SpacetimeDB integration.

use super::*;
use ::dioxus::prelude::*;
use ::dioxus::signals::SyncSignal;
use spacetimedb_sdk::{DbContext, Table, TableWithPrimaryKey, Identity};
use std::sync::{Arc, Mutex};
use futures_channel::oneshot;

/// Thread-safe wrapper for the database connection.
pub type SharedConnection = Arc<DbConnection>;

/// Container for all table signals, created at root level.
#[derive(Clone)]
pub struct TableSignals {
");
    lemma_plain_lines(text);
}

/// The connection's types open none.
pub proof fn lemma_context_types()
    ensures
        whole_lines(CONTEXT_TYPES@),
        hook_lines(CONTEXT_TYPES@) == 0,
{
    let text = CONTEXT_TYPES@;
    reveal_strlit("}

/// Internal state for managing the SpacetimeDB connection.
#[derive(Clone)]
pub struct SpacetimeDbContext {
    /// The database connection (wrapped in Arc for thread-safety).
    pub connection: SyncSignal<Option<SharedConnection>>,
    /// The current connection state.
    pub state: SyncSignal<ConnectionState>,
    /// Error from the last connection attempt, if any.
    pub error: SyncSignal<Option<String>>,
    /// All table signals, created at root level.
    pub tables: TableSignals,
}

/// The current state of the SpacetimeDB connection.
#[derive(Clone, PartialEq, Eq, Debug, Default)]
pub enum ConnectionState {
    #[default]
    Disconnected,
    Connecting,
    Reconnecting { attempt: u32, delay_ms: u64 },
    /// Connected includes the `Identity` assigned by the server and a private access token (JWT)
    /// which can be persisted by the application for future reconnection as the same Identity.
    Connected(Identity, String),
    Error,
}

");
    lemma_plain_lines(text);
}

/// The helpers that reconnect open none.
pub proof fn lemma_reconnect_helpers()
    ensures
        whole_lines(RECONNECT_HELPERS@),
        hook_lines(RECONNECT_HELPERS@) == 0,
        neat(RECONNECT_HELPERS@),
        occurrences(RECONNECT_HELPERS@, '{') == 15,
        occurrences(RECONNECT_HELPERS@, '}') == 15,
{
    let text = RECONNECT_HELPERS@;
    reveal_strlit(r#"const RECONNECT_BASE_DELAY_MS: u64 = 400;
const RECONNECT_MAX_DELAY_MS: u64 = 10_000;
const RECONNECT_JITTER_MS: u64 = 300;
const MAX_RECONNECT_ATTEMPTS: u32 = 0;

#[must_use]
fn should_retry_reconnect(attempt: u32) -> bool {
    MAX_RECONNECT_ATTEMPTS == 0 || attempt <= MAX_RECONNECT_ATTEMPTS
}

#[must_use]
fn reconnect_delay_ms(attempt: u32) -> u64 {
    let shift = attempt.min(8);
    let factor = 1u64.checked_shl(shift).unwrap_or(u64::MAX);
    let base_ms = RECONNECT_BASE_DELAY_MS.saturating_mul(factor).min(RECONNECT_MAX_DELAY_MS);
    let jitter = (u64::from(attempt).saturating_mul(137)) % RECONNECT_JITTER_MS.max(1);
    base_ms.saturating_add(jitter)
}

#[cfg(not(target_arch = "wasm32"))]
struct ThreadSleep {
    done: Arc<std::sync::atomic::AtomicBool>,
    started: bool,
    delay_ms: u64,
}

#[cfg(not(target_arch = "wasm32"))]
impl ThreadSleep {
    fn new(delay_ms: u64) -> Self {
        Self {
            done: Arc::new(std::sync::atomic::AtomicBool::new(false)),
            started: false,
            delay_ms,
        }
    }
}

#[cfg(not(target_arch = "wasm32"))]
impl std::future::Future for ThreadSleep {
    type Output = ();

    fn poll(mut self: std::pin::Pin<&mut Self>, cx: &mut std::task::Context<'_>) -> std::task::Poll<Self::Output> {
        if self.done.load(std::sync::atomic::Ordering::Acquire) {
            return std::task::Poll::Ready(());
        }

        if !self.started {
            self.started = true;
            let done = Arc::clone(&self.done);
            let delay_ms = self.delay_ms;
            let waker = cx.waker().clone();
            std::thread::spawn(move || {
                std::thread::sleep(std::time::Duration::from_millis(delay_ms));
                done.store(true, std::sync::atomic::Ordering::Release);
                waker.wake();
            });
        }

        std::task::Poll::Pending
    }
}

async fn reconnect_sleep(delay_ms: u64) {
    #[cfg(not(target_arch = "wasm32"))]
    {
        ThreadSleep::new(delay_ms).await;
    }
    #[cfg(target_arch = "wasm32")]
    {
        let _ = delay_ms;
    }
}

#[must_use]
fn is_fatal_connection_error(err: &spacetimedb_sdk::Error) -> bool {
    let msg = err.to_string().to_ascii_lowercase();
    msg.contains("unauthorized")
        || msg.contains("forbidden")
        || msg.contains("invalid credentials")
        || msg.contains("invalid token")
        || msg.contains("token expired")
}
"#);
    lemma_plain_lines(text);
    reveal(neat);
    lemma_occurrences_listed(
        text,
        '{',
        set![224int, 353int, 724int, 866int, 902int, 917int, 1136int, 1275int, 1341int, 1426int, 1633int, 1926int, 1972int, 2061int, 2177int],
    );
    lemma_occurrences_listed(
        text,
        '}',
        set![295int, 666int, 810int, 1048int, 1054int, 1056int, 1398int, 1829int, 1841int, 1881int, 1883int, 2020int, 2093int, 2095int, 2430int],
    );
}

/// The provider opens one hook.
pub proof fn lemma_provider_head()
    ensures
        whole_lines(PROVIDER_HEAD@),
        hook_lines(PROVIDER_HEAD@) == 1,
        neat(PROVIDER_HEAD@),
        occurrences(PROVIDER_HEAD@, '{') == 2,
        occurrences(PROVIDER_HEAD@, '}') == 0,
{
    let text = PROVIDER_HEAD@;
    reveal_strlit("/// Initialize the SpacetimeDB context provider at the root of your application.
///
/// This hook must be called at the root component before using any other SpacetimeDB hooks.
/// It creates all table signals at root level to ensure they outlive child components.
///
/// # Arguments
/// * `uri` - The SpacetimeDB server URI
/// * `module_name` - The module name to connect to
/// * `token` - An optional OpenID Connect compliant JSON Web Token (JWT) for authentication.
///   If `None` is passed or this method is not called, SpacetimeDB will generate a new Identity
///   and sign a new private access token for the connection.
#[must_use]
pub fn use_spacetimedb_context_provider(uri: &str, module_name: &str, token: Option<impl ToString>) -> SpacetimeDbContext {
    let uri = uri.to_string();
    let module_name = module_name.to_string();
    let token = token.map(|t| t.to_string());
    let active_token: Arc<Mutex<Option<String>>> = Arc::new(Mutex::new(token.clone()));

    let connection: SyncSignal<Option<SharedConnection>> = use_signal_sync(|| None);
    let state: SyncSignal<ConnectionState> = use_signal_sync(|| ConnectionState::Disconnected);
    let error: SyncSignal<Option<String>> = use_signal_sync(|| None);

    let mut table_signals = TableSignals {
");
    reveal_strlit("pub fn use_");
    lemma_hook_line_chars(text);
    assert(text.subrange(644, 655) =~= HOOK_START@);
    lemma_hook_lines_listed(text, set![644int]);
    reveal(neat);
    lemma_occurrences_listed(
        text,
        '{',
        set![766int, 1274int],
    );
    lemma_occurrences_listed(
        text,
        '}',
        set![],
    );
}

/// What follows the table signals of the provider opens none.
pub proof fn lemma_provider_connect()
    ensures
        whole_lines(PROVIDER_CONNECT@),
        hook_lines(PROVIDER_CONNECT@) == 0,
        neat(PROVIDER_CONNECT@),
        occurrences(PROVIDER_CONNECT@, '{') == 8,
        occurrences(PROVIDER_CONNECT@, '}') == 5,
{
    let text = PROVIDER_CONNECT@;
    reveal_strlit("    };

    let ctx = SpacetimeDbContext {
        connection,
        state,
        error,
        tables: table_signals.clone(),
    };

    use_context_provider(|| ctx.clone());

    use_effect(move || {
        let mut connection = connection;
        let mut state = state;
        let mut error = error;
        let uri = uri.clone();
        let module_name = module_name.clone();
        let active_token = active_token.clone();
        let table_signals = table_signals.clone();

        spawn(async move {
            let mut reconnect_attempt: u32 = 0;

            loop {
                if reconnect_attempt == 0 {
                    state.set(ConnectionState::Connecting);
                } else {
                    let delay_ms = reconnect_delay_ms(reconnect_attempt);
                    state.set(ConnectionState::Reconnecting { attempt: reconnect_attempt, delay_ms });
                }

                let token_for_build = active_token
                    .lock()
                    .ok()
                    .and_then(|token| token.clone());

                let disconnect_fatal: Arc<Mutex<bool>> = Arc::new(Mutex::new(false));
                let disconnect_fatal_on_disconnect = disconnect_fatal.clone();

                let mut connection_on_disconnect = connection.clone();
                let mut state_on_disconnect = state.clone();
                let mut error_on_disconnect = error.clone();
                let mut state_on_connect = state.clone();
                let mut error_on_connect = error.clone();
                let mut table_signals_on_connect = table_signals.clone();
                let active_token_on_connect = active_token.clone();

                let conn = match DbConnection::builder()
                    .with_uri(&uri)
                    .with_database_name(&module_name)
                    .with_token(token_for_build)
                    .on_connect(move |conn, identity, token| {
");
    lemma_plain_lines(text);
    reveal(neat);
    lemma_occurrences_listed(
        text,
        '{',
        set![41int, 206int, 515int, 583int, 627int, 712int, 848int, 1945int],
    );
    lemma_occurrences_listed(
        text,
        '}',
        set![4int, 136int, 705int, 887int, 907int],
    );
}

/// What follows the table callbacks of the provider opens none.
pub proof fn lemma_provider_tail()
    ensures
        whole_lines(PROVIDER_TAIL@),
        hook_lines(PROVIDER_TAIL@) == 0,
        neat(PROVIDER_TAIL@),
        occurrences(PROVIDER_TAIL@, '{') == 15,
        occurrences(PROVIDER_TAIL@, '}') == 20,
{
    let text = PROVIDER_TAIL@;
    reveal_strlit("                        if let Ok(mut token_store) = active_token_on_connect.lock() {
                            *token_store = Some(token.to_string());
                        }

                        // Store the assigned Identity and private access token in state so the app
                        // can persist the token (JWT) and reuse it for future reconnections via `with_token`.
                        error_on_connect.set(None);
                        state_on_connect.set(ConnectionState::Connected(identity, token.to_string()));
                    })
                    .on_disconnect(move |_ctx, err: Option<spacetimedb_sdk::Error>| {
                        connection_on_disconnect.set(None);
                        if let Some(e) = err {
                            error_on_disconnect.set(Some::<String>(e.to_string()));
                            if is_fatal_connection_error(&e) {
                                if let Ok(mut fatal) = disconnect_fatal_on_disconnect.lock() {
                                    *fatal = true;
                                }
                            }
                        }
                        state_on_disconnect.set(ConnectionState::Disconnected);
                    })
                    .build().await {
                    Ok(conn) => conn,
                    Err(e) => {
                        connection.set(None);
                        error.set(Some::<String>(e.to_string()));
                        if is_fatal_connection_error(&e) {
                            state.set(ConnectionState::Error);
                            break;
                        }
                        reconnect_attempt = reconnect_attempt.saturating_add(1);
                        if !should_retry_reconnect(reconnect_attempt) {
                            state.set(ConnectionState::Error);
                            break;
                        }
                        let delay_ms = reconnect_delay_ms(reconnect_attempt);
                        state.set(ConnectionState::Reconnecting { attempt: reconnect_attempt, delay_ms });
                        reconnect_sleep(delay_ms).await;
                        continue;
                    }
                };

                let shared_conn: Arc<DbConnection> = Arc::new(conn);
                connection.set(Some(shared_conn.clone()));
                reconnect_attempt = 0;

                let run_result = shared_conn.run_async().await;
                connection.set(None);

                let disconnected_with_fatal_error = disconnect_fatal
                    .lock()
                    .ok()
                    .map(|fatal| *fatal)
                    .unwrap_or(false);
                if disconnected_with_fatal_error {
                    state.set(ConnectionState::Error);
                    break;
                }

                if let Err(e) = run_result {
                    error.set(Some::<String>(e.to_string()));
                    if is_fatal_connection_error(&e) {
                        state.set(ConnectionState::Error);
                        break;
                    }
                }

                reconnect_attempt = reconnect_attempt.saturating_add(1);
                if !should_retry_reconnect(reconnect_attempt) {
                    state.set(ConnectionState::Error);
                    break;
                }

                let delay_ms = reconnect_delay_ms(reconnect_attempt);
                state.set(ConnectionState::Reconnecting { attempt: reconnect_attempt, delay_ms });
                reconnect_sleep(delay_ms).await;
            }
        });
    });

    ctx
}
");
    lemma_plain_lines(text);
    reveal(neat);
    lemma_occurrences_listed(
        text,
        '{',
        set![84int, 654int, 761int, 908int, 1003int, 1284int, 1354int, 1525int, 1802int, 2070int, 2769int, 2915int, 3032int, 3300int, 3529int],
    );
    lemma_occurrences_listed(
        text,
        '}',
        set![178int, 567int, 1088int, 1118int, 1144int, 1246int, 1649int, 1926int, 2109int, 2224int, 2242int, 2869int, 3144int, 3162int, 3400int, 3568int, 3633int, 3643int, 3651int, 3664int],
    );
}

/// Two hooks read the context.
pub proof fn lemma_context_hooks()
    ensures
        whole_lines(CONTEXT_HOOKS@),
        hook_lines(CONTEXT_HOOKS@) == 2,
{
    let text = CONTEXT_HOOKS@;
    reveal_strlit("/// Get the SpacetimeDB context from a parent component.
#[must_use]
pub fn use_spacetimedb_context() -> SpacetimeDbContext {
    use_context::<SpacetimeDbContext>()
}

/// Get the current database connection, if connected.
#[must_use]
pub fn use_connection() -> SyncSignal<Option<SharedConnection>> {
    let ctx = use_spacetimedb_context();
    ctx.connection
}

");
    reveal_strlit("pub fn use_");
    lemma_hook_line_chars(text);
    assert(text.subrange(69, 80) =~= HOOK_START@);
    assert(text.subrange(236, 247) =~= HOOK_START@);
    lemma_hook_lines_listed(text, set![69int, 236int]);
}

/// One hook subscribes.
pub proof fn lemma_subscription_hook()
    ensures
        whole_lines(SUBSCRIPTION_HOOK@),
        hook_lines(SUBSCRIPTION_HOOK@) == 1,
{
    let text = SUBSCRIPTION_HOOK@;
    reveal_strlit(r#"/// Subscribe to a set of SQL queries.
///
/// Re-subscribes automatically whenever the connection instance changes
/// (initial connect, or reconnect after a network interruption).
/// Avoids duplicate subscriptions while the connection is stable.
/// Subscription errors are printed to stderr for diagnosis.
pub fn use_subscription(queries: &[&str]) {
    let queries: Vec<String> = queries.iter().map(|s| s.to_string()).collect();
    let conn_signal = use_connection();

    // Stores the Arc pointer of the last successfully-subscribed connection.
    // Using peek() inside the effect keeps this read non-reactive (no infinite loop).
    let last_conn: SyncSignal<Option<SharedConnection>> = use_signal_sync(|| None);

    use_effect(move || {
        // transition (None->Some on connect, Some->None on disconnect, Some(a)->Some(b) on reconnect).
        let current = conn_signal();
        let mut last = last_conn;

        match current.as_ref() {
            None => {
                // Connection lost: clear the tracker so the next connection
                // instance will trigger a fresh subscribe.
                // peek() avoids creating a reactive dependency that would loop.
                if last.peek().is_some() {
                    last.set(None);
                }
            }
            Some(conn) => {
                // peek() reads last without subscribing to it reactively.
                if last.peek().as_ref().map(|prev| Arc::ptr_eq(prev, conn)).unwrap_or(false) {
                    // Same connection instance – already subscribed, nothing to do.
                    return;
                }
                // New or reconnected instance – store it and subscribe.
                last.set(Some(conn.clone()));
                let queries = queries.clone();
                conn.subscription_builder()
                    .on_applied(|_ctx| {})
                    .on_error(|_ctx, err| {
                        eprintln!("[spacetimedb] subscription error: {err}");
                    })
                    .subscribe(queries);
            }
        }
    });
}
"#);
    reveal_strlit("pub fn use_");
    lemma_hook_line_chars(text);
    assert(text.subrange(310, 321) =~= HOOK_START@);
    lemma_hook_lines_listed(text, set![310int]);
}

/// The heading of the table hooks opens none.
pub proof fn lemma_table_section()
    ensures
        whole_lines(TABLE_SECTION@),
        hook_lines(TABLE_SECTION@) == 0,
{
    let text = TABLE_SECTION@;
    reveal_strlit("// --- Table hooks ---

");
    lemma_plain_lines(text);
}

/// The heading of the reducer hooks opens none.
pub proof fn lemma_reducer_section()
    ensures
        whole_lines(REDUCER_SECTION@),
        hook_lines(REDUCER_SECTION@) == 0,
{
    let text = REDUCER_SECTION@;
    reveal_strlit("// --- Reducer hooks ---

");
    lemma_plain_lines(text);
}

/// The heading of the procedure hooks opens none.
pub proof fn lemma_procedure_section()
    ensures
        whole_lines(PROCEDURE_SECTION@),
        hook_lines(PROCEDURE_SECTION@) == 0,
{
    let text = PROCEDURE_SECTION@;
    reveal_strlit("// --- Procedure hooks ---

");
    lemma_plain_lines(text);
}

/// Two hooks read the connection's state.
pub proof fn lemma_state_hooks()
    ensures
        whole_lines(STATE_HOOKS@),
        hook_lines(STATE_HOOKS@) == 2,
{
    let text = STATE_HOOKS@;
    reveal_strlit("// --- Connection state hooks ---

/// Get a reactive signal for the current connection state.
#[must_use]
pub fn use_connection_state() -> SyncSignal<ConnectionState> {
    let ctx = use_spacetimedb_context();
    ctx.state
}

/// Get a reactive signal for the current connection error, if any.
#[must_use]
pub fn use_connection_error() -> SyncSignal<Option<String>> {
    let ctx = use_spacetimedb_context();
    ctx.error
}
");
    reveal_strlit("pub fn use_");
    lemma_hook_line_chars(text);
    assert(text.subrange(107, 118) =~= HOOK_START@);
    assert(text.subrange(308, 319) =~= HOOK_START@);
    lemma_hook_lines_listed(text, set![107int, 308int]);
}

/// The end of a callback opens none.
pub proof fn lemma_callback_end()
    ensures
        whole_lines(CALLBACK_END@),
        hook_lines(CALLBACK_END@) == 0,
{
    let text = CALLBACK_END@;
    reveal_strlit("        } else {
            Err(spacetimedb_sdk::Error::Disconnected)
        }
    }
}
");
    lemma_plain_lines(text);
}

/// The start of a `_then` closure opens none.
pub proof fn lemma_then_start()
    ensures
        whole_lines(THEN_START@),
        hook_lines(THEN_START@) == 0,
{
    let text = THEN_START@;
    reveal_strlit("        let mut result = result;
        result.set(None);
        if let Some(conn) = conn_signal().as_ref() {
            let (tx, rx) = oneshot::channel();
");
    lemma_plain_lines(text);
}

/// The end of a `_then` hook opens none.
pub proof fn lemma_then_end()
    ensures
        whole_lines(THEN_END@),
        hook_lines(THEN_END@) == 0,
{
    let text = THEN_END@;
    reveal_strlit(r#"                let _ = tx.send(res);
            }) {
                result.set(Some(Err(e.to_string())));
                return;
            }
            spawn(async move {
                if let Ok(res) = rx.await {
                    let flattened = match res {
                        Ok(Ok(())) => Ok(()),
                        Ok(Err(module_err)) => Err(module_err),
                        Err(sdk_err) => Err(sdk_err.to_string()),
                    };
                    result.set(Some(flattened));
                }
            });
        } else {
            result.set(Some(Err("Disconnected from SpacetimeDB".to_string())));
        }
    };

    (invoke, result)
}
"#);
    lemma_plain_lines(text);
}

/// The start of an `_async` closure opens none.
pub proof fn lemma_async_start()
    ensures
        whole_lines(ASYNC_START@),
        hook_lines(ASYNC_START@) == 0,
{
    let text = ASYNC_START@;
    reveal_strlit(r#"        let conn = conn_signal();
        async move {
            let Some(conn) = conn.as_ref() else {
                return Err("Disconnected from SpacetimeDB".to_string());
            };
            let (tx, rx) = oneshot::channel();
"#);
    lemma_plain_lines(text);
}

/// The end of an `_async` hook opens none.
pub proof fn lemma_async_end()
    ensures
        whole_lines(ASYNC_END@),
        hook_lines(ASYNC_END@) == 0,
{
    let text = ASYNC_END@;
    reveal_strlit(r#"                let _ = tx.send(res);
            }) {
                return Err(e.to_string());
            }
            match rx.await {
                Ok(Ok(Ok(()))) => Ok(()),
                Ok(Ok(Err(err))) => Err(err),
                Ok(Err(sdk_err)) => Err(sdk_err.to_string()),
                Err(_) => Err("Request cancelled".to_string()),
            }
        }
    }
}
"#);
    lemma_plain_lines(text);
}

/// The start of a procedure's closure opens none.
pub proof fn lemma_invoke_start()
    ensures
        whole_lines(INVOKE_START@),
        hook_lines(INVOKE_START@) == 0,
{
    let text = INVOKE_START@;
    reveal_strlit("        let mut result = result;
        result.set(None);
        if let Some(conn) = conn_signal().as_ref() {
            let (tx, rx) = oneshot::channel();
");
    lemma_plain_lines(text);
}

/// The end of a procedure's signal hook opens none.
pub proof fn lemma_invoke_end()
    ensures
        whole_lines(INVOKE_END@),
        hook_lines(INVOKE_END@) == 0,
{
    let text = INVOKE_END@;
    reveal_strlit(r#"                let _ = tx.send(res);
            });
            spawn(async move {
                if let Ok(res) = rx.await {
                    result.set(Some(res.map_err(|e| e.to_string())));
                }
            });
        } else {
            result.set(Some(Err("Disconnected from SpacetimeDB".to_string())));
        }
    };

    (invoke, result)
}
"#);
    lemma_plain_lines(text);
}

/// The start of a procedure's `_async` closure opens none.
pub proof fn lemma_call_start()
    ensures
        whole_lines(CALL_START@),
        hook_lines(CALL_START@) == 0,
{
    let text = CALL_START@;
    reveal_strlit(r#"        let conn = conn_signal();
        async move {
            let Some(conn) = conn.as_ref() else {
                return Err("Disconnected from SpacetimeDB".to_string());
            };
            let (tx, rx) = oneshot::channel();
"#);
    lemma_plain_lines(text);
}

/// The end of a procedure's `_async` hook opens none.
pub proof fn lemma_call_end()
    ensures
        whole_lines(CALL_END@),
        hook_lines(CALL_END@) == 0,
{
    let text = CALL_END@;
    reveal_strlit(r#"                let _ = tx.send(res);
            });
            match rx.await {
                Ok(res) => res.map_err(|e| e.to_string()),
                Err(_) => Err("Request cancelled".to_string()),
            }
        }
    }
}
"#);
    lemma_plain_lines(text);
}

} // verus!
