//! Generation of the Rust side of the bridge.

pub mod analysis;
pub mod syntax;
pub mod fun_codegen;
pub mod laws;
