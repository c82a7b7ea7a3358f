//! The reconnect policy that the connection loop of the generated code follows.

use vstd::prelude::*;
use crate::text::Indenter;

verus! {

/// Retry limits, backoff delays, the sleep future and the test for errors that end the loop.
pub const RECONNECT_HELPERS: &'static str = r#"const RECONNECT_BASE_DELAY_MS: u64 = 400;
const RECONNECT_MAX_DELAY_MS: u64 = 10_000;
const RECONNECT_JITTER_MS: u64 = 300;
const MAX_RECONNECT_ATTEMPTS: u32 = 0;

#[must_use]
fn should_retry_reconnect(attempt: u32) -> bool {
    MAX_RECONNECT_ATTEMPTS == 0 || attempt <= MAX_RECONNECT_ATTEMPTS
}

#[must_use]
fn reconnect_delay_ms(attempt: u32) -> u64 {
    let shift = attempt.min(8);
    let factor = 1u64.checked_shl(shift).unwrap_or(u64::MAX);
    let base_ms = RECONNECT_BASE_DELAY_MS.saturating_mul(factor).min(RECONNECT_MAX_DELAY_MS);
    let jitter = (u64::from(attempt).saturating_mul(137)) % RECONNECT_JITTER_MS.max(1);
    base_ms.saturating_add(jitter)
}

#[cfg(not(target_arch = "wasm32"))]
struct ThreadSleep {
    done: Arc<std::sync::atomic::AtomicBool>,
    started: bool,
    delay_ms: u64,
}

#[cfg(not(target_arch = "wasm32"))]
impl ThreadSleep {
    fn new(delay_ms: u64) -> Self {
        Self {
            done: Arc::new(std::sync::atomic::AtomicBool::new(false)),
            started: false,
            delay_ms,
        }
    }
}

#[cfg(not(target_arch = "wasm32"))]
impl std::future::Future for ThreadSleep {
    type Output = ();

    fn poll(mut self: std::pin::Pin<&mut Self>, cx: &mut std::task::Context<'_>) -> std::task::Poll<Self::Output> {
        if self.done.load(std::sync::atomic::Ordering::Acquire) {
            return std::task::Poll::Ready(());
        }

        if !self.started {
            self.started = true;
            let done = Arc::clone(&self.done);
            let delay_ms = self.delay_ms;
            let waker = cx.waker().clone();
            std::thread::spawn(move || {
                std::thread::sleep(std::time::Duration::from_millis(delay_ms));
                done.store(true, std::sync::atomic::Ordering::Release);
                waker.wake();
            });
        }

        std::task::Poll::Pending
    }
}

async fn reconnect_sleep(delay_ms: u64) {
    #[cfg(not(target_arch = "wasm32"))]
    {
        ThreadSleep::new(delay_ms).await;
    }
    #[cfg(target_arch = "wasm32")]
    {
        let _ = delay_ms;
    }
}

#[must_use]
fn is_fatal_connection_error(err: &spacetimedb_sdk::Error) -> bool {
    let msg = err.to_string().to_ascii_lowercase();
    msg.contains("unauthorized")
        || msg.contains("forbidden")
        || msg.contains("invalid credentials")
        || msg.contains("invalid token")
        || msg.contains("token expired")
}
"#;

/// Writes the helpers that the connection loop uses to reconnect.
pub fn write_reconnect_helpers(out: &mut Indenter)
    ensures
        final(out)@ == old(out)@ + RECONNECT_HELPERS@,
{
    out.write(RECONNECT_HELPERS);
}

} // verus!
