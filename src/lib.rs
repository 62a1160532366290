//! The constraint layer of a type checker: a store of type-inference
//! obligations (equalities, pattern and presence checks, let-scopes,
//! conjunctions, deferred exhaustiveness and cycle checks) built as flat,
//! append-only sequences addressed by small copyable handles.
use vstd::prelude::*;

pub mod constraint;
pub mod decimal;
pub mod exhaustive;
pub mod expected;
pub mod laws;
pub mod low_level;
pub mod model;
pub mod region;
pub mod soa;
pub mod symbol;
pub mod types;

verus! {

} // verus!
