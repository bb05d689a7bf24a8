//! A small calculator library: it tokenizes a line of the form
//! `<number> <operator> <number>`, validates it, and decides which arithmetic
//! operation to apply or which error to report.

pub mod eval;
pub mod laws;
pub mod tokens;
