//! Types, type variables, and the categories that say which piece of syntax
//! gave rise to an obligation.
use vstd::prelude::*;
use crate::region::Region;
use crate::symbol::{Lowercase, Symbol, TagName};

verus! {

/// A type variable, identified by its position in the solver's variable table.
#[derive(Clone, Copy, Debug, PartialEq, Eq, Structural)]
pub struct Variable {
    pub id: u32,
}

impl Variable {
    pub fn new(id: u32) -> (r: Variable)
        ensures
            r.id == id,
    {
        Variable { id }
    }

    pub fn index(&self) -> (r: u32)
        ensures
            r == self.id,
    {
        self.id
    }
}

/// A type as the canonicalizer writes it down.
#[derive(Debug)]
pub enum Type {
    /// The record with no fields.
    EmptyRec,
    /// The tag union with no tags.
    EmptyTagUnion,
    /// A bare type variable.
    Variable(Variable),
    /// A named type constructor applied to arguments.
    Apply(Symbol, Vec<Type>, Region),
    /// A function from argument types, through a closure type, to a result type.
    Function(Vec<Type>, Box<Type>, Box<Type>),
    /// A record with the given fields, extended by the given type.
    Record(Vec<(Lowercase, Type)>, Box<Type>),
    /// A tag union with the given tags and payloads, extended by the given type.
    TagUnion(Vec<(TagName, Vec<Type>)>, Box<Type>),
}

/// The kind of expression an equality obligation came from.
#[derive(Debug)]
pub enum Category {
    Record,
    ForeignCall,
    OpaqueArg,
    Lambda,
    ClosureSize,
    StrInterpolation,
    If,
    When,
    Float,
    Int,
    Num,
    List,
    Str,
    Character,
    Lookup(Symbol),
    CallResult(Option<Symbol>),
    TagApply(TagName),
    Access(Lowercase),
    Accessor(Lowercase),
    Expects,
    /// The type recorded at a separate storage variable for tooling.
    Storage,
    Unknown,
}

/// The kind of pattern an obligation came from.
#[derive(Debug)]
pub enum PatternCategory {
    Record,
    EmptyRecord,
    PatternGuard,
    PatternDefault,
    SetLiteral,
    DictLiteral,
    Str,
    Num,
    Int,
    Float,
    Character,
    Ctor(TagName),
    Opaque(Symbol),
}

/// The variable that records whether a pattern match was found exhaustive.
#[derive(Clone, Copy, Debug, PartialEq, Eq, Structural)]
pub struct ExhaustiveMark {
    pub variable: Variable,
}

/// The variable that records whether a group of definitions forms an illegal cycle.
#[derive(Clone, Copy, Debug, PartialEq, Eq, Structural)]
pub struct IllegalCycleMark {
    pub variable: Variable,
}

/// The slot where a resolved ability specialization is stored.
#[derive(Clone, Copy, Debug, PartialEq, Eq, Structural)]
pub struct SpecializationId {
    pub id: u32,
}

} // verus!
