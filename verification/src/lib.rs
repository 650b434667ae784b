//! Core of an interactive command-line shell.
//!
//! The library covers everything in a shell's line-handling pipeline that
//! makes a decision: quote-aware tokenization of the input line, extraction
//! of output redirections, classification of the command word, the builtin
//! commands (`exit`, `echo`, `type`, `pwd`, `cd`), the pure part of search-path
//! resolution, the turning of a spawned program's captured streams into tagged
//! output records, and the rendering of those records for each stream.
//!
//! All facts the shell needs from the outside world (does a path exist, what
//! did a spawned process print, the value of an environment variable) enter
//! these functions as plain arguments, so the whole pipeline is verified for
//! every possible answer; the thin unverified front end performs the actual
//! reads, spawns and writes.

pub mod executor;
pub mod laws;
pub mod parse;
pub mod paths;
pub mod records;
pub mod redirect;
pub mod resolver;
pub mod router;
pub mod shell;
pub mod strutil;
pub mod tokenizer;

use vstd::prelude::*;

verus! {

} // verus!
