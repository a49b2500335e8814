//! Limits that every function keeps.

use vstd::prelude::*;

verus! {

/// How many locals a function has at most, its parameters included.
pub const MAX_WASM_FUNCTION_LOCALS: usize = 50000;

} // verus!
