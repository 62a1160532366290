//! What the exhaustiveness checker is handed.
use vstd::prelude::*;
use crate::region::Region;

verus! {

/// Where a pattern match occurs.
#[derive(Clone, Copy, Debug, PartialEq, Eq, Structural)]
pub enum ExhaustiveContext {
    BadArg,
    BadDestruct,
    BadCase,
}

/// One branch of a pattern match, summarised for the exhaustiveness checker.
#[derive(Clone, Copy, Debug, PartialEq, Eq, Structural)]
pub struct SketchedRow {
    pub region: Region,
    pub has_guard: bool,
}

/// The branches of a pattern match, summarised for the exhaustiveness checker.
#[derive(Debug)]
pub struct SketchedRows {
    pub rows: Vec<SketchedRow>,
    pub overall_region: Region,
}

} // verus!
