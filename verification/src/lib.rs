//! Code generation for Dioxus v0.7 signals and hooks with SpacetimeDB v2.0.
//!
//! Generates a `dioxus.rs` module that wraps the Rust client bindings of a SpacetimeDB module with
//! Dioxus reactive signals and hooks, and one file per reducer:
//!
//! - `use_spacetimedb_context_provider`: the root-level hook that connects and holds a `SyncSignal`
//!   for every table.
//! - `use_table_*`: hooks that return a table's signal.
//! - `use_reducer_*`: hooks that return callables which invoke a reducer.
//! - `use_procedure_*`: hooks that return callables which invoke a procedure.
//! - `use_subscription`: the hook that subscribes to SQL queries.
//! - Hooks that follow the state of the connection.
//!
//! [`dioxus::Dioxus`] is the way in. Contracts speak of generated code as text: every function that
//! writes code says which text it writes. What holds of that text as a whole is proved in [`laws`].
pub mod args;
pub mod casing;
pub mod collect;
pub mod defined;
pub mod dioxus;
pub mod hooks;
pub mod hooks_file;
pub mod info;
pub mod laws;
pub mod output;
pub mod reducer_file;
pub mod refs;
pub mod schema;
pub mod search;
pub mod text;
pub mod types;
