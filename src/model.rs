//! The mathematical model of a store: its contents as sequences, the
//! invariant it keeps, and what each builder does to it.
use vstd::prelude::*;
use crate::constraint;
use crate::constraint::{Constraint, Constraints, Cycle, IncludesTag, LetConstraint, PatternEq};
use crate::decimal::decimal;
use crate::exhaustive::SketchedRows;
use crate::expected::{Expected, PExpected};
use crate::region::{Loc, Region};
use crate::soa::{EitherIndex, Index, Slice, MAX_EITHER, MAX_INDEX};
use crate::symbol::{ModuleId, Symbol};
use crate::types::{Category, PatternCategory, Type, Variable};

verus! {

/// The contents of a store, as sequences.
pub struct ConstraintsView {
    pub constraints: Seq<Constraint>,
    pub types: Seq<Type>,
    pub variables: Seq<Variable>,
    pub loc_symbols: Seq<(Symbol, Region)>,
    pub let_constraints: Seq<LetConstraint>,
    pub categories: Seq<Category>,
    pub pattern_categories: Seq<PatternCategory>,
    pub expectations: Seq<Expected<Type>>,
    pub pattern_expectations: Seq<PExpected<Type>>,
    pub includes_tags: Seq<IncludesTag>,
    pub strings: Seq<&'static str>,
    pub sketched_rows: Seq<SketchedRows>,
    pub eq: Seq<constraint::Eq>,
    pub pattern_eq: Seq<PatternEq>,
    pub cycles: Seq<Cycle>,
}

impl View for Constraints {
    type V = ConstraintsView;

    open spec fn view(&self) -> ConstraintsView {
        ConstraintsView {
            constraints: self.constraints@,
            types: self.types@,
            variables: self.variables@,
            loc_symbols: self.loc_symbols@,
            let_constraints: self.let_constraints@,
            categories: self.categories@,
            pattern_categories: self.pattern_categories@,
            expectations: self.expectations@,
            pattern_expectations: self.pattern_expectations@,
            includes_tags: self.includes_tags@,
            strings: self.strings@,
            sketched_rows: self.sketched_rows@,
            eq: self.eq@,
            pattern_eq: self.pattern_eq@,
            cycles: self.cycles@,
        }
    }
}

/// The built-in string type, applied to no arguments.
pub open spec fn is_str_type(t: Type) -> bool {
    match t {
        Type::Apply(symbol, args, _) => symbol == Symbol::spec_str_str() && args@.len() == 0,
        _ => false,
    }
}

/// The string type as every store holds it from the start: applied to no
/// arguments, at the empty region at the start of the file.
pub open spec fn is_preset_str_type(t: Type) -> bool {
    match t {
        Type::Apply(symbol, args, region) => {
            &&& symbol == Symbol::spec_str_str()
            &&& args@.len() == 0
            &&& region == Region::spec_zero()
        },
        _ => false,
    }
}

/// `typ` can be given a handle: a bare variable's number must fit beside the
/// bit that marks variable handles.
pub open spec fn handle_fits(typ: Type) -> bool {
    match typ {
        Type::Variable(var) => var.id <= MAX_EITHER,
        _ => true,
    }
}

/// The handle that `push_type` gives `typ` without storing anything: the
/// preset handle of a well-known type, or the variable's own number.
pub open spec fn preset_type_handle(typ: Type) -> Option<EitherIndex<Type, Variable>> {
    match typ {
        Type::EmptyRec => Some(EitherIndex::left(Index::at(Constraints::EMPTY_RECORD as int))),
        Type::EmptyTagUnion => Some(
            EitherIndex::left(Index::at(Constraints::EMPTY_TAG_UNION as int)),
        ),
        Type::Variable(var) => Some(EitherIndex::right(Index::at(var.id as int))),
        _ => if is_str_type(typ) {
            Some(EitherIndex::left(Index::at(Constraints::STR as int)))
        } else {
            None
        },
    }
}

/// The position of a well-known expression category in every store.
pub open spec fn preset_category(category: Category) -> Option<int> {
    match category {
        Category::Record => Some(0),
        Category::ForeignCall => Some(1),
        Category::OpaqueArg => Some(2),
        Category::Lambda => Some(3),
        Category::ClosureSize => Some(4),
        Category::StrInterpolation => Some(5),
        Category::If => Some(6),
        Category::When => Some(7),
        Category::Float => Some(8),
        Category::Int => Some(9),
        Category::Num => Some(10),
        Category::List => Some(11),
        Category::Str => Some(12),
        Category::Character => Some(13),
        _ => None,
    }
}

/// The position of a well-known pattern category in every store.
pub open spec fn preset_pattern_category(category: PatternCategory) -> Option<int> {
    match category {
        PatternCategory::Record => Some(0),
        PatternCategory::EmptyRecord => Some(1),
        PatternCategory::PatternGuard => Some(2),
        PatternCategory::PatternDefault => Some(3),
        PatternCategory::SetLiteral => Some(4),
        PatternCategory::DictLiteral => Some(5),
        PatternCategory::Str => Some(6),
        PatternCategory::Num => Some(7),
        PatternCategory::Int => Some(8),
        PatternCategory::Float => Some(9),
        PatternCategory::Character => Some(10),
        _ => None,
    }
}

/// The types of a list of definitions.
pub open spec fn def_type_values(def_types: Seq<(Symbol, Loc<Type>)>) -> Seq<Type> {
    def_types.map_values(|d: (Symbol, Loc<Type>)| d.1.value)
}

/// The symbols of a list of definitions, with their regions.
pub open spec fn def_type_symbols(def_types: Seq<(Symbol, Loc<Type>)>) -> Seq<(Symbol, Region)> {
    def_types.map_values(|d: (Symbol, Loc<Type>)| (d.0, d.1.region))
}

/// The placeholder pairs under which the regions of a cycle's expressions are stored.
pub open spec fn placeholder_pairs(regions: Seq<Region>) -> Seq<(Symbol, Region)> {
    regions.map_values(|r: Region| (Symbol::spec_attr_attr(), r))
}

/// The text of `statistics`: the module, then the lengths of the constraint,
/// type, let-scope, expectation and category sequences.
pub open spec fn statistics_text(module_id: ModuleId, v: ConstraintsView) -> Seq<char> {
    "Constraints statistics for module ModuleId { id: "@ + decimal(module_id.id as nat)
        + " }:\n   constraints length: "@ + decimal(v.constraints.len()) + ":\n   types length: "@
        + decimal(v.types.len()) + ":\n   let_constraints length: "@ + decimal(
        v.let_constraints.len(),
    ) + ":\n   expectations length: "@ + decimal(v.expectations.len())
        + ":\n   categories length: "@ + decimal(v.categories.len()) + ":\n"@
}

/// How many expression categories every store holds from the start.
pub const PRESET_CATEGORIES: usize = 14;

/// How many pattern categories every store holds from the start.
pub const PRESET_PATTERN_CATEGORIES: usize = 11;

impl ConstraintsView {
    /// The contents of a new store: the three preset types, the preset
    /// categories and pattern categories in the order of their handles
    /// (which `presets_in_place` fixes one by one), and nothing else.
    pub open spec fn initial(self) -> bool {
        &&& self.constraints.len() == 0
        &&& self.types.len() == 3
        &&& self.types[Constraints::EMPTY_RECORD as int] == Type::EmptyRec
        &&& self.types[Constraints::EMPTY_TAG_UNION as int] == Type::EmptyTagUnion
        &&& is_preset_str_type(self.types[Constraints::STR as int])
        &&& self.presets_in_place()
        &&& self.variables.len() == 0
        &&& self.loc_symbols.len() == 0
        &&& self.let_constraints.len() == 0
        &&& self.categories.len() == PRESET_CATEGORIES
        &&& self.pattern_categories.len() == PRESET_PATTERN_CATEGORIES
        &&& self.expectations.len() == 0
        &&& self.pattern_expectations.len() == 0
        &&& self.includes_tags.len() == 0
        &&& self.strings.len() == 0
        &&& self.sketched_rows.len() == 0
        &&& self.eq.len() == 0
        &&& self.pattern_eq.len() == 0
        &&& self.cycles.len() == 0
    }

    /// The well-known leaves stand at their preset positions.
    pub open spec fn presets_in_place(self) -> bool {
        &&& self.types.len() >= 3
        &&& self.types[Constraints::EMPTY_RECORD as int] == Type::EmptyRec
        &&& self.types[Constraints::EMPTY_TAG_UNION as int] == Type::EmptyTagUnion
        &&& is_str_type(self.types[Constraints::STR as int])
        &&& self.categories.len() >= PRESET_CATEGORIES
        &&& forall|i: int|
            0 <= i < PRESET_CATEGORIES ==> preset_category(#[trigger] self.categories[i]) == Some(i)
        &&& self.pattern_categories.len() >= PRESET_PATTERN_CATEGORIES
        &&& forall|i: int|
            0 <= i < PRESET_PATTERN_CATEGORIES ==> preset_pattern_category(
                #[trigger] self.pattern_categories[i],
            ) == Some(i)
    }

    /// The constraints that `c` refers to stand below position `n` of the
    /// constraint sequence.
    pub open spec fn refers_below(self, c: Constraint, n: int) -> bool {
        match c {
            Constraint::Let(i, _) => {
                &&& i.index < self.let_constraints.len()
                &&& self.let_constraints[i.index as int].defs_and_ret_constraint.index + 2 <= n
            },
            Constraint::And(slice) => slice.end() <= n,
            _ => true,
        }
    }

    /// `c` refers only to constraints of this store.
    pub open spec fn valid(self, c: Constraint) -> bool {
        self.refers_below(c, self.constraints.len() as int)
    }

    /// Every stored constraint refers only to constraints stored before it,
    /// and every let-scope to constraints of this store.
    pub open spec fn acyclic(self) -> bool {
        &&& forall|j: int|
            0 <= j < self.constraints.len() ==> self.refers_below(#[trigger] self.constraints[j], j)
        &&& forall|i: int|
            0 <= i < self.let_constraints.len()
                ==> #[trigger] self.let_constraints[i].defs_and_ret_constraint.index + 2
                <= self.constraints.len()
    }

    /// The store's invariant.
    pub open spec fn wf(self) -> bool {
        self.presets_in_place() && self.acyclic()
    }

    /// The handle `push_type` returns for `typ`.
    pub open spec fn type_handle(self, typ: Type) -> EitherIndex<Type, Variable> {
        match preset_type_handle(typ) {
            Some(h) => h,
            None => EitherIndex::left(Index::at(self.types.len() as int)),
        }
    }

    /// The store after `push_type(typ)`.
    pub open spec fn with_type(self, typ: Type) -> ConstraintsView {
        match preset_type_handle(typ) {
            Some(_) => self,
            None => ConstraintsView { types: self.types.push(typ), ..self },
        }
    }

    /// `h` stands for `typ`: a stored type equal to it (a string type with any
    /// region standing for the preset one), or the variable it is.
    pub open spec fn denotes(self, h: EitherIndex<Type, Variable>, typ: Type) -> bool {
        match h.spec_split() {
            Ok(i) => {
                &&& i.index < self.types.len()
                &&& (self.types[i.index as int] == typ || (is_str_type(typ) && is_str_type(
                    self.types[i.index as int],
                )))
            },
            Err(i) => typ == Type::Variable(Variable { id: i.index }),
        }
    }

    /// The handle `push_category` returns for `category`.
    pub open spec fn category_index(self, category: Category) -> Index<Category> {
        match preset_category(category) {
            Some(i) => Index::at(i),
            None => Index::at(self.categories.len() as int),
        }
    }

    /// The store after `push_category(category)`.
    pub open spec fn with_category(self, category: Category) -> ConstraintsView {
        match preset_category(category) {
            Some(_) => self,
            None => ConstraintsView { categories: self.categories.push(category), ..self },
        }
    }

    /// The handle `push_pattern_category` returns for `category`.
    pub open spec fn pattern_category_index(
        self,
        category: PatternCategory,
    ) -> Index<PatternCategory> {
        match preset_pattern_category(category) {
            Some(i) => Index::at(i),
            None => Index::at(self.pattern_categories.len() as int),
        }
    }

    /// The store after `push_pattern_category(category)`.
    pub open spec fn with_pattern_category(self, category: PatternCategory) -> ConstraintsView {
        match preset_pattern_category(category) {
            Some(_) => self,
            None => ConstraintsView {
                pattern_categories: self.pattern_categories.push(category),
                ..self
            },
        }
    }

    /// The store after appending `cs` to the constraints.
    pub open spec fn with_constraints(self, cs: Seq<Constraint>) -> ConstraintsView {
        ConstraintsView { constraints: self.constraints + cs, ..self }
    }

    /// The store after appending `vars` to the variables.
    pub open spec fn with_variables(self, vars: Seq<Variable>) -> ConstraintsView {
        ConstraintsView { variables: self.variables + vars, ..self }
    }

    /// The store after appending `s` to the strings.
    pub open spec fn with_string(self, s: &'static str) -> ConstraintsView {
        ConstraintsView { strings: self.strings.push(s), ..self }
    }

    /// What `and_constraint(cs)` returns.
    pub open spec fn conjunction(self, cs: Seq<Constraint>) -> Constraint {
        if cs.len() == 0 {
            Constraint::True
        } else if cs.len() == 1 {
            cs[0]
        } else {
            Constraint::And(Slice::run(self.constraints.len() as int, cs.len() as int))
        }
    }

    /// The store after `and_constraint(cs)`.
    pub open spec fn with_conjunction(self, cs: Seq<Constraint>) -> ConstraintsView {
        if cs.len() <= 1 {
            self
        } else {
            self.with_constraints(cs)
        }
    }

    /// The defs and ret constraints of the let-scope `c`, if `c` is one.
    pub open spec fn let_parts(self, c: Constraint) -> Option<(Constraint, Constraint)> {
        match c {
            Constraint::Let(i, _) => if i.index < self.let_constraints.len() {
                let scope = self.let_constraints[i.index as int];
                let offset = scope.defs_and_ret_constraint.index as int;
                Some((self.constraints[offset], self.constraints[offset + 1]))
            } else {
                None
            },
            _ => None,
        }
    }

    /// The store after a let-scope is added: its defs and ret constraints,
    /// then the variables it lists, then its bound symbols and their types,
    /// then the scope itself.
    pub open spec fn with_let(
        self,
        defs_constraint: Constraint,
        ret_constraint: Constraint,
        vars: Seq<Variable>,
        def_types: Seq<(Symbol, Loc<Type>)>,
        scope: LetConstraint,
    ) -> ConstraintsView {
        ConstraintsView {
            constraints: self.constraints.push(defs_constraint).push(ret_constraint),
            variables: self.variables + vars,
            types: self.types + def_type_values(def_types),
            loc_symbols: self.loc_symbols + def_type_symbols(def_types),
            let_constraints: self.let_constraints.push(scope),
            ..self
        }
    }

    /// Whether `c` contains `SaveTheEnvironment`, reading only the
    /// constraints below position `limit`.
    pub open spec fn saves_below(self, c: Constraint, limit: int) -> bool
        decreases limit, 1int,
    {
        match c {
            Constraint::SaveTheEnvironment => true,
            Constraint::Let(i, _) => {
                if i.index < self.let_constraints.len() {
                    let scope = self.let_constraints[i.index as int];
                let offset = scope.defs_and_ret_constraint.index as int;
                    if offset + 2 <= limit {
                        self.saves_below(self.constraints[offset], offset) || self.saves_below(
                            self.constraints[offset + 1],
                            offset + 1,
                        )
                    } else {
                        false
                    }
                } else {
                    false
                }
            },
            Constraint::And(slice) => if slice.end() <= limit {
                self.saves_among(slice.start as int, slice.end())
            } else {
                false
            },
            _ => false,
        }
    }

    /// Whether one of the constraints at positions `lo` up to `hi` contains
    /// `SaveTheEnvironment`.
    pub open spec fn saves_among(self, lo: int, hi: int) -> bool
        decreases hi, 0int,
    {
        if 0 <= lo < hi {
            self.saves_among(lo, hi - 1) || self.saves_below(self.constraints[hi - 1], hi - 1)
        } else {
            false
        }
    }

    /// Whether `c`, read in this store, contains `SaveTheEnvironment`: it is
    /// one, or it is a let-scope whose defs or ret constraint contains one, or
    /// a conjunction one of whose members contains one.
    pub open spec fn saves_environment(self, c: Constraint) -> bool {
        self.saves_below(c, self.constraints.len() as int)
    }

    /// One more than the highest position of a constraint that `c` refers to.
    pub open spec fn depth(self, c: Constraint) -> nat {
        match c {
            Constraint::Let(i, _) => if i.index < self.let_constraints.len() {
                (self.let_constraints[i.index as int].defs_and_ret_constraint.index + 2) as nat
            } else {
                0
            },
            Constraint::And(slice) => slice.end() as nat,
            _ => 0,
        }
    }

    /// The store after appending `expected` to the expectations.
    pub open spec fn with_expectation(self, expected: Expected<Type>) -> ConstraintsView {
        ConstraintsView { expectations: self.expectations.push(expected), ..self }
    }

    /// The store after appending `expected` to the pattern expectations.
    pub open spec fn with_pattern_expectation(self, expected: PExpected<Type>) -> ConstraintsView {
        ConstraintsView { pattern_expectations: self.pattern_expectations.push(expected), ..self }
    }
}

/// `b` holds what `a` holds in each of the sequences that the invariant
/// speaks of, and the same constraints and let-scopes.
pub open spec fn payloads_grow(a: ConstraintsView, b: ConstraintsView) -> bool {
    &&& b.constraints == a.constraints
    &&& b.let_constraints == a.let_constraints
    &&& a.types.is_prefix_of(b.types)
    &&& a.categories.is_prefix_of(b.categories)
    &&& a.pattern_categories.is_prefix_of(b.pattern_categories)
}

/// Appending payloads other than constraints and let-scopes keeps the invariant.
pub(crate) proof fn lemma_payloads_grow(a: ConstraintsView, b: ConstraintsView)
    requires
        a.wf(),
        payloads_grow(a, b),
    ensures
        b.wf(),
{
    assert(b.types[0] == a.types[0]);
    assert(b.types[1] == a.types[1]);
    assert(b.types[2] == a.types[2]);
    assert forall|i: int| 0 <= i < PRESET_CATEGORIES implies preset_category(
        #[trigger] b.categories[i],
    ) == Some(i) by {
        assert(b.categories[i] == a.categories[i]);
    }
    assert forall|i: int| 0 <= i < PRESET_PATTERN_CATEGORIES implies preset_pattern_category(
        #[trigger] b.pattern_categories[i],
    ) == Some(i) by {
        assert(b.pattern_categories[i] == a.pattern_categories[i]);
    }
}

/// Reading `c` below a higher limit reads the same constraints.
pub(crate) proof fn lemma_saves_below_limit(
    v: ConstraintsView,
    c: Constraint,
    limit: int,
    higher: int,
)
    requires
        v.refers_below(c, limit),
        limit <= higher,
    ensures
        v.saves_below(c, limit) == v.saves_below(c, higher),
{
}

} // verus!
