//! The hooks that the generated module offers.

pub mod context;
pub mod procedure;
pub mod reconnect;
pub mod reducer;
pub mod subscription;
pub mod table;
