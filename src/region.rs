//! Source locations.
use vstd::prelude::*;

verus! {

/// A span of source text, as byte offsets from the start of the file.
#[derive(Clone, Copy, Debug, PartialEq, Eq, Structural)]
pub struct Region {
    pub start: u32,
    pub end: u32,
}

impl Region {
    pub open spec fn spec_zero() -> Region {
        Region { start: 0, end: 0 }
    }

    /// The empty region at the start of the file.
    pub fn zero() -> (r: Region)
        ensures
            r == Region::spec_zero(),
    {
        Region { start: 0, end: 0 }
    }

    pub fn new(start: u32, end: u32) -> (r: Region)
        ensures
            r == (Region { start, end }),
    {
        Region { start, end }
    }
}

/// A value together with the region of source text it came from.
#[derive(Clone, Copy, Debug)]
pub struct Loc<T> {
    pub region: Region,
    pub value: T,
}

impl<T> Loc<T> {
    pub fn at(region: Region, value: T) -> (r: Loc<T>)
        ensures
            r == (Loc { region, value }),
    {
        Loc { region, value }
    }
}

} // verus!
