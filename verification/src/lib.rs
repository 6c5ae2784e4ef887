//! Core of a filter-expression engine: a typed function-argument contract
//! model with a compiler from checked calls to executable closures, a
//! type-erased per-call parsing context, regular-expression right-hand-side
//! values (an interning pool and a pluggable-matcher variant), and a lexer
//! for unsigned 64-bit integers and inclusive ranges of them.

pub mod context;
pub mod digits;
pub mod functions;
pub mod lex;
pub mod regex_ext;
pub mod regex_pool;
pub mod regex_value;
pub mod types;
pub mod ulong;
