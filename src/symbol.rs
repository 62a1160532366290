//! Names: modules, symbols, tags and record fields.
use vstd::prelude::*;

verus! {

/// The identity of one module of the program being compiled.
#[derive(Clone, Copy, Debug, PartialEq, Eq, Structural)]
pub struct ModuleId {
    pub id: u32,
}

impl ModuleId {
    /// The module of the built-in attribute names.
    pub const ATTR: u32 = 0;

    /// The module of the built-in string functions and types.
    pub const STR: u32 = 1;

    pub fn new(id: u32) -> (r: ModuleId)
        ensures
            r.id == id,
    {
        ModuleId { id }
    }
}

/// A resolved name: an identifier within a module.
#[derive(Clone, Copy, Debug, PartialEq, Eq, Structural)]
pub struct Symbol {
    pub module_id: ModuleId,
    pub ident_id: u32,
}

impl Symbol {
    pub open spec fn spec_new(module: u32, ident: u32) -> Symbol {
        Symbol { module_id: ModuleId { id: module }, ident_id: ident }
    }

    /// The placeholder symbol, used where a slot needs a symbol but no real
    /// one belongs there.
    pub open spec fn spec_attr_attr() -> Symbol {
        Symbol::spec_new(ModuleId::ATTR as u32, 0)
    }

    /// The built-in string type.
    pub open spec fn spec_str_str() -> Symbol {
        Symbol::spec_new(ModuleId::STR as u32, 0)
    }

    pub fn new(module_id: ModuleId, ident_id: u32) -> (r: Symbol)
        ensures
            r == (Symbol { module_id, ident_id }),
    {
        Symbol { module_id, ident_id }
    }

    pub fn attr_attr() -> (r: Symbol)
        ensures
            r == Symbol::spec_attr_attr(),
    {
        Symbol { module_id: ModuleId { id: ModuleId::ATTR }, ident_id: 0 }
    }

    pub fn str_str() -> (r: Symbol)
        ensures
            r == Symbol::spec_str_str(),
    {
        Symbol { module_id: ModuleId { id: ModuleId::STR }, ident_id: 0 }
    }

    pub fn module_id(&self) -> (r: ModuleId)
        ensures
            r == self.module_id,
    {
        self.module_id
    }
}

/// The name of a tag of a tag union.
#[derive(Clone, Debug)]
pub struct TagName {
    pub name: String,
}

/// The name of a record field.
#[derive(Clone, Debug)]
pub struct Lowercase {
    pub name: String,
}

} // verus!
