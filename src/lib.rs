//! Core of a runner for small source-code exercises: a catalog looked up by name or
//! folder, the naming of temporary artifacts, the compiler and runner invocations, and
//! the sequencing of a batch as a state machine whose actions the caller carries out.
use vstd::prelude::*;

pub mod batch;
pub mod command;
pub mod exercise;
pub mod naming;

verus! {

} // verus!
