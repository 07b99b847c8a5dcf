//! Static checks of safety-critical coding rules over the syntax tree of one
//! C translation unit.

pub mod analyzer;
pub mod ast;
pub mod config;
pub mod diagnostics;
pub mod laws;
pub mod rules;
pub mod source;
pub mod symbols;
