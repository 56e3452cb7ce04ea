//! What holds of every parse and of every execution.

pub mod execution;
pub mod parsing;
