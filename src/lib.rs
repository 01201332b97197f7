//! Rewrites the arguments of a `cabal` invocation so that the legacy
//! command names run their new-style counterparts.
use vstd::prelude::*;

pub mod laws;
pub mod rewriter;
pub mod table;

verus! {

} // verus!
