//! The hook that subscribes to SQL queries.

use vstd::prelude::*;
use crate::text::Indenter;

verus! {

/// The `use_subscription` hook.
pub const SUBSCRIPTION_HOOK: &'static str = r#"/// Subscribe to a set of SQL queries.
///
/// Re-subscribes automatically whenever the connection instance changes
/// (initial connect, or reconnect after a network interruption).
/// Avoids duplicate subscriptions while the connection is stable.
/// Subscription errors are printed to stderr for diagnosis.
pub fn use_subscription(queries: &[&str]) {
    let queries: Vec<String> = queries.iter().map(|s| s.to_string()).collect();
    let conn_signal = use_connection();

    // Stores the Arc pointer of the last successfully-subscribed connection.
    // Using peek() inside the effect keeps this read non-reactive (no infinite loop).
    let last_conn: SyncSignal<Option<SharedConnection>> = use_signal_sync(|| None);

    use_effect(move || {
        // transition (None->Some on connect, Some->None on disconnect, Some(a)->Some(b) on reconnect).
        let current = conn_signal();
        let mut last = last_conn;

        match current.as_ref() {
            None => {
                // Connection lost: clear the tracker so the next connection
                // instance will trigger a fresh subscribe.
                // peek() avoids creating a reactive dependency that would loop.
                if last.peek().is_some() {
                    last.set(None);
                }
            }
            Some(conn) => {
                // peek() reads last without subscribing to it reactively.
                if last.peek().as_ref().map(|prev| Arc::ptr_eq(prev, conn)).unwrap_or(false) {
                    // Same connection instance – already subscribed, nothing to do.
                    return;
                }
                // New or reconnected instance – store it and subscribe.
                last.set(Some(conn.clone()));
                let queries = queries.clone();
                conn.subscription_builder()
                    .on_applied(|_ctx| {})
                    .on_error(|_ctx, err| {
                        eprintln!("[spacetimedb] subscription error: {err}");
                    })
                    .subscribe(queries);
            }
        }
    });
}
"#;

/// Writes the hook that subscribes to SQL queries.
pub fn write_subscription_hook(out: &mut Indenter)
    ensures
        final(out)@ == old(out)@ + SUBSCRIPTION_HOOK@,
{
    out.write(SUBSCRIPTION_HOOK);
}

} // verus!
