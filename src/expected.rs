//! What a type is expected to be, and why.
use vstd::prelude::*;
use crate::region::{Loc, Region};
use crate::symbol::{Lowercase, Symbol, TagName};

verus! {

/// Why an expression is expected to have a type.
#[derive(Debug)]
pub enum Reason {
    FnArg { name: Option<Symbol>, arg_index: u32 },
    FnCall { name: Option<Symbol>, arity: u32 },
    IfCondition,
    IfBranch { index: u32, total_branches: u32 },
    WhenBranch { index: u32 },
    ElemInList { index: u32 },
    RecordUpdateValue(Lowercase),
    InterpolatedStringVar,
}

/// The type an expression is expected to have.
#[derive(Debug)]
pub enum Expected<T> {
    NoExpectation(T),
    /// Expected because of an annotation on the given symbol, whose type has the given arity.
    FromAnnotation(Loc<Symbol>, u32, T),
    ForReason(Reason, T, Region),
}

/// Why a pattern is expected to have a type.
#[derive(Debug)]
pub enum PReason {
    TypedArg { opt_name: Option<Symbol>, index: u32 },
    WhenMatch { index: u32 },
    TagArg { tag_name: TagName, index: u32 },
    OptionalField,
}

/// The type a pattern is expected to have.
#[derive(Debug)]
pub enum PExpected<T> {
    NoExpectation(T),
    ForReason(PReason, T, Region),
}

} // verus!
