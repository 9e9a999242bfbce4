//! A small interactive file shell: one line of input is tokenized, validated
//! against a fixed table of actions and their arities, and turned into a
//! command that a thin front end executes against the filesystem.
//!
//! This crate holds the verified core: the tokenizer, the action whitelist,
//! the arity rules, and the dispatch table. Reading standard input, touching
//! the filesystem, launching the platform opener and clearing the console are
//! left to the (unverified) front end, which only acts on commands this crate
//! has validated.

pub mod command;
pub mod parse;
pub mod text;
pub mod tokenize;

use vstd::prelude::*;

verus! {

} // verus!
