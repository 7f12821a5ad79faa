//! Generation of the C++ files.

pub mod header;
pub mod function;
pub mod by_subclass;
pub mod outcome;
pub mod subclass;
pub mod needs;
pub mod generator;
pub mod laws;
