//! Copies a path derived from the working directory to the clipboard.
//!
//! The library holds the decisions: how the path is resolved from the
//! working directory and an optional argument, how the search path is
//! probed for a clipboard program, which backend is chosen, and which
//! commands a run spawns. Reading the environment and spawning processes
//! is left to the caller.
use vstd::prelude::*;

pub mod clipboard;
pub mod path;
pub mod probe;

verus! {

/// The characters of each string of `v`, in order.
pub open spec fn views(v: Seq<String>) -> Seq<Seq<char>> {
    v.map_values(|x: String| x@)
}

} // verus!
