//! A WebAssembly dynamic-analysis instrumentation pass: rewrites a parsed
//! module so that every executed instruction reports itself to an imported
//! observer function ("hook"), preserving the operand stack, and returns a
//! JSON side table of static facts the observer needs.

pub mod ast;
pub mod control;
pub mod convert;
pub mod json;
pub mod laws;
pub mod names;
pub mod ops;
pub mod rewrite;
pub mod spill;
pub mod hooks;
pub mod instrument;
pub mod static_info;
