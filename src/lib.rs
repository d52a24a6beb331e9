//! An asynchronous logger's verified core: level filtering, the exact line
//! format, log file naming, size accounting and the rename chain of rotation,
//! and the editing rules and bounded history of a small line reader.
use vstd::prelude::*;

pub mod asyn_log;
pub mod rotation;
pub mod linenoise2;

verus! {
} // verus!
