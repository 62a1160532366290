//! Higher-order built-in operations: which of their arguments is the
//! function, and which its captured environment.
use vstd::prelude::*;
use crate::symbol::Symbol;

verus! {

/// A built-in operation that takes a function argument, with the symbols of
/// its other arguments.
#[derive(Clone, Copy, Debug, PartialEq, Eq, Structural)]
pub enum HigherOrder {
    ListMap { xs: Symbol },
    ListMap2 { xs: Symbol, ys: Symbol },
    ListMap3 { xs: Symbol, ys: Symbol, zs: Symbol },
    ListMap4 { xs: Symbol, ys: Symbol, zs: Symbol, ws: Symbol },
    ListMapWithIndex { xs: Symbol },
    ListKeepIf { xs: Symbol },
    ListWalk { xs: Symbol, state: Symbol },
    ListWalkUntil { xs: Symbol, state: Symbol },
    ListWalkBackwards { xs: Symbol, state: Symbol },
    ListKeepOks { xs: Symbol },
    ListKeepErrs { xs: Symbol },
    ListSortWith { xs: Symbol },
    ListAny { xs: Symbol },
    ListAll { xs: Symbol },
    ListFindUnsafe { xs: Symbol },
    DictWalk { xs: Symbol, state: Symbol },
}

impl HigherOrder {
    /// How many arguments the function argument takes.
    pub open spec fn arity(self) -> nat {
        match self {
            HigherOrder::ListMap { .. } => 1,
            HigherOrder::ListMap2 { .. } => 2,
            HigherOrder::ListMap3 { .. } => 3,
            HigherOrder::ListMap4 { .. } => 4,
            HigherOrder::ListMapWithIndex { .. } => 2,
            HigherOrder::ListKeepIf { .. } => 1,
            HigherOrder::ListWalk { .. } => 2,
            HigherOrder::ListWalkUntil { .. } => 2,
            HigherOrder::ListWalkBackwards { .. } => 2,
            HigherOrder::ListKeepOks { .. } => 1,
            HigherOrder::ListKeepErrs { .. } => 1,
            HigherOrder::ListSortWith { .. } => 2,
            HigherOrder::ListFindUnsafe { .. } => 1,
            HigherOrder::DictWalk { .. } => 2,
            HigherOrder::ListAny { .. } => 1,
            HigherOrder::ListAll { .. } => 1,
        }
    }

    /// How many list or dictionary arguments come before the function, with
    /// the initial state of a walk counted among them.
    pub open spec fn data_arguments(self) -> nat {
        match self {
            HigherOrder::ListMap2 { .. } => 2,
            HigherOrder::ListMap3 { .. } => 3,
            HigherOrder::ListMap4 { .. } => 4,
            HigherOrder::ListWalk { .. } => 2,
            HigherOrder::ListWalkUntil { .. } => 2,
            HigherOrder::ListWalkBackwards { .. } => 2,
            HigherOrder::DictWalk { .. } => 2,
            _ => 1,
        }
    }

    pub fn function_arity(&self) -> (r: usize)
        ensures
            r == self.arity(),
    {
        match self {
            HigherOrder::ListMap { .. } => 1,
            HigherOrder::ListMap2 { .. } => 2,
            HigherOrder::ListMap3 { .. } => 3,
            HigherOrder::ListMap4 { .. } => 4,
            HigherOrder::ListMapWithIndex { .. } => 2,
            HigherOrder::ListKeepIf { .. } => 1,
            HigherOrder::ListWalk { .. } => 2,
            HigherOrder::ListWalkUntil { .. } => 2,
            HigherOrder::ListWalkBackwards { .. } => 2,
            HigherOrder::ListKeepOks { .. } => 1,
            HigherOrder::ListKeepErrs { .. } => 1,
            HigherOrder::ListSortWith { .. } => 2,
            HigherOrder::ListFindUnsafe { .. } => 1,
            HigherOrder::DictWalk { .. } => 2,
            HigherOrder::ListAny { .. } => 1,
            HigherOrder::ListAll { .. } => 1,
        }
    }

    /// The position, in the argument list, of the closure data (the captured
    /// environment of the function): right after the function itself.
    pub fn closure_data_index(&self) -> (r: usize)
        ensures
            r == self.data_arguments() + 1,
    {
        match self {
            HigherOrder::ListMap { .. }
            | HigherOrder::ListMapWithIndex { .. }
            | HigherOrder::ListSortWith { .. }
            | HigherOrder::ListKeepIf { .. }
            | HigherOrder::ListKeepOks { .. }
            | HigherOrder::ListKeepErrs { .. }
            | HigherOrder::ListAny { .. }
            | HigherOrder::ListAll { .. }
            | HigherOrder::ListFindUnsafe { .. } => 2,
            HigherOrder::ListMap2 { .. } => 3,
            HigherOrder::ListMap3 { .. } => 4,
            HigherOrder::ListMap4 { .. } => 5,
            HigherOrder::ListWalk { .. }
            | HigherOrder::ListWalkUntil { .. }
            | HigherOrder::ListWalkBackwards { .. }
            | HigherOrder::DictWalk { .. } => 3,
        }
    }

    /// The position of the function in the argument list.
    pub fn function_index(&self) -> (r: usize)
        ensures
            r == self.data_arguments(),
    {
        self.closure_data_index() - 1
    }
}

} // verus!
