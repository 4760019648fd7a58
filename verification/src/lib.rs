//! Build-time generator for a plugin's externally linkable entry points.
//!
//! Three metadata literals and the author's initialization routine go in;
//! source text for five exported functions comes out, each bound to a
//! mangled symbol that the host application resolves by exact string match.
pub mod literal;
pub mod mangle;
pub mod parse;
pub mod synth;
