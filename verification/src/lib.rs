//! A small expression-oriented scripting language: lexer, parser, a
//! tree-walking evaluator with lexical closures, and a loader for extension
//! modules whose functions forward to natively compiled code.
//!
//! Everything that needs the outside world (IEEE-754 arithmetic on numbers,
//! reading extension-module files, loading shared libraries and calling into
//! them) is expressed as an explicit request that the evaluator hands to its
//! embedder, so that the whole evaluation logic is verified.

pub mod util;
pub mod lexer;
pub mod parser;
pub mod errors;
pub mod interpreter;
pub mod oracle;
pub mod feather;
pub mod std_functions;
pub mod laws;
