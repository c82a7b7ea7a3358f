//! What holds of the generated code as a whole.

pub mod arguments;
pub mod balance;
pub mod braces;
pub mod complete;
pub mod containing;
pub mod counting;
pub mod definitions;
pub mod file_templates;
pub mod hook_count;
pub mod hook_templates;
pub mod invocation;
pub mod joining;
pub mod keys;
pub mod lines;
pub mod literals;
pub mod makeup;
pub mod names;
pub mod registration;
pub mod renaming;
pub mod rendering;
pub mod sources;
pub mod templates;
