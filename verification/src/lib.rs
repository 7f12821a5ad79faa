//! Generation of the C++ and Rust glue that lets Rust call C++ declarations.

pub mod api;
pub mod codegen_cpp;
pub mod codegen_rs;
pub mod config;
pub mod conversion;
pub mod names;
pub mod text;
pub mod views;
