//! The constraint store: parallel append-only sequences, one per kind of
//! payload, and the `Constraint` values whose handles point into them.
use vstd::prelude::*;
use crate::exhaustive::{ExhaustiveContext, SketchedRows};
use crate::expected::{Expected, PExpected};
use crate::region::{Loc, Region};
use crate::decimal::push_decimal;
use crate::model::{
    def_type_symbols, def_type_values, handle_fits, preset_category, preset_pattern_category,
    preset_type_handle, lemma_payloads_grow, lemma_saves_below_limit,
    placeholder_pairs, statistics_text, ConstraintsView,
};
use crate::soa::{EitherIndex, Index, Slice, MAX_EITHER, MAX_INDEX, MAX_SLICE_LEN};
use crate::symbol::{ModuleId, Symbol, TagName};
use crate::types::{
    Category, ExhaustiveMark, IllegalCycleMark, PatternCategory, SpecializationId, Type, Variable,
};

verus! {

/// std's `fmt::Error`, declared so that `statistics` keeps the usual result
/// type of formatting. Nothing is assumed of its values.
#[verifier::external_type_specification]
#[verifier::external_body]
pub struct ExFmtError(core::fmt::Error);

/// An obligation that a type equals an expected type.
#[derive(Clone, Copy, Debug)]
pub struct Eq(
    pub EitherIndex<Type, Variable>,
    pub Index<Expected<Type>>,
    pub Index<Category>,
    pub Region,
);

/// An obligation that the type of a pattern equals an expected type.
#[derive(Clone, Copy, Debug)]
pub struct PatternEq(
    pub EitherIndex<Type, Variable>,
    pub Index<PExpected<Type>>,
    pub Index<PatternCategory>,
    pub Region,
);

/// A request to resolve an ability member to its specialization, made where
/// the member is looked up and attempted at the first enclosing definition,
/// once the type at the lookup has been generalized. If it cannot be resolved
/// there, it is resolved later, during monomorphization.
#[derive(Clone, Copy, Debug)]
pub struct OpportunisticResolve {
    /// The specialized type of the lookup.
    pub specialization_variable: Variable,
    pub specialization_expectation: Index<Expected<Type>>,
    /// The ability member to resolve.
    pub member: Symbol,
    /// Where to store the specialization, if one is found.
    pub specialization_id: SpecializationId,
}

/// One obligation of type inference.
#[derive(Clone, Copy, Debug)]
pub enum Constraint {
    Eq(Eq),
    Store(EitherIndex<Type, Variable>, Variable, Index<&'static str>, u32),
    Lookup(Symbol, Index<Expected<Type>>, Region),
    Pattern(EitherIndex<Type, Variable>, Index<PExpected<Type>>, Index<PatternCategory>, Region),
    /// Always satisfied, e.g. for blanks and runtime errors.
    True,
    SaveTheEnvironment,
    /// A let-scope. The slice lists variables copied in from another module
    /// that must join the pool of the current rank.
    Let(Index<LetConstraint>, Slice<Variable>),
    /// All of a contiguous run of constraints.
    And(Slice<Constraint>),
    /// The type must stay open to further tags or fields.
    IsOpenType(EitherIndex<Type, Variable>),
    IncludesTag(Index<IncludesTag>),
    PatternPresence(
        EitherIndex<Type, Variable>,
        Index<PExpected<Type>>,
        Index<PatternCategory>,
        Region,
    ),
    Exhaustive(
        Result<Index<Eq>, Index<PatternEq>>,
        Index<SketchedRows>,
        ExhaustiveContext,
        ExhaustiveMark,
    ),
    /// Attempt to resolve a specialization.
    Resolve(OpportunisticResolve),
    CheckCycle(Index<Cycle>, IllegalCycleMark),
}

/// The symbols a let-scope binds, with their types: two runs of equal length.
#[derive(Clone, Copy, Debug)]
pub struct DefTypes {
    pub types: Slice<Type>,
    pub loc_symbols: Slice<(Symbol, Region)>,
}

impl DefTypes {
    pub open spec fn spec_empty() -> DefTypes {
        DefTypes { types: Slice::empty(), loc_symbols: Slice::empty() }
    }
}

impl Default for DefTypes {
    fn default() -> (r: DefTypes)
        ensures
            r == DefTypes::spec_empty(),
    {
        DefTypes { types: Slice::new(0, 0), loc_symbols: Slice::new(0, 0) }
    }
}

/// One let-polymorphism scope. The defs constraint and the ret constraint
/// stand next to each other in the constraint sequence, at the position of
/// `defs_and_ret_constraint` and the one after it.
#[derive(Clone, Copy, Debug)]
pub struct LetConstraint {
    pub rigid_vars: Slice<Variable>,
    pub flex_vars: Slice<Variable>,
    pub def_types: DefTypes,
    pub defs_and_ret_constraint: Index<(Constraint, Constraint)>,
}

/// An obligation that a tag union include a tag with the given payload types.
#[derive(Debug)]
pub struct IncludesTag {
    pub type_index: Index<Type>,
    pub tag_name: TagName,
    pub types: Slice<Type>,
    pub pattern_category: Index<PatternCategory>,
    pub region: Region,
}

/// The definitions of a suspected illegal cycle, and the regions of the
/// expressions involved. The expression regions are stored among the
/// (symbol, region) pairs, with a placeholder symbol.
#[derive(Clone, Copy, Debug)]
pub struct Cycle {
    pub def_names: Slice<(Symbol, Region)>,
    pub expr_regions: Slice<Region>,
}

/// The store: one append-only sequence per kind of payload.
#[derive(Debug)]
pub struct Constraints {
    pub constraints: Vec<Constraint>,
    pub types: Vec<Type>,
    pub variables: Vec<Variable>,
    pub loc_symbols: Vec<(Symbol, Region)>,
    pub let_constraints: Vec<LetConstraint>,
    pub categories: Vec<Category>,
    pub pattern_categories: Vec<PatternCategory>,
    pub expectations: Vec<Expected<Type>>,
    pub pattern_expectations: Vec<PExpected<Type>>,
    pub includes_tags: Vec<IncludesTag>,
    pub strings: Vec<&'static str>,
    pub sketched_rows: Vec<SketchedRows>,
    pub eq: Vec<Eq>,
    pub pattern_eq: Vec<PatternEq>,
    pub cycles: Vec<Cycle>,
}

impl Constraints {
    pub const EMPTY_RECORD: u32 = 0;
    pub const EMPTY_TAG_UNION: u32 = 1;
    pub const STR: u32 = 2;

    pub const CATEGORY_RECORD: u32 = 0;
    pub const CATEGORY_FOREIGNCALL: u32 = 1;
    pub const CATEGORY_OPAQUEARG: u32 = 2;
    pub const CATEGORY_LAMBDA: u32 = 3;
    pub const CATEGORY_CLOSURESIZE: u32 = 4;
    pub const CATEGORY_STRINTERPOLATION: u32 = 5;
    pub const CATEGORY_IF: u32 = 6;
    pub const CATEGORY_WHEN: u32 = 7;
    pub const CATEGORY_FLOAT: u32 = 8;
    pub const CATEGORY_INT: u32 = 9;
    pub const CATEGORY_NUM: u32 = 10;
    pub const CATEGORY_LIST: u32 = 11;
    pub const CATEGORY_STR: u32 = 12;
    pub const CATEGORY_CHARACTER: u32 = 13;

    pub const PCATEGORY_RECORD: u32 = 0;
    pub const PCATEGORY_EMPTYRECORD: u32 = 1;
    pub const PCATEGORY_PATTERNGUARD: u32 = 2;
    pub const PCATEGORY_PATTERNDEFAULT: u32 = 3;
    pub const PCATEGORY_SET: u32 = 4;
    pub const PCATEGORY_MAP: u32 = 5;
    pub const PCATEGORY_STR: u32 = 6;
    pub const PCATEGORY_NUM: u32 = 7;
    pub const PCATEGORY_INT: u32 = 8;
    pub const PCATEGORY_FLOAT: u32 = 9;
    pub const PCATEGORY_CHARACTER: u32 = 10;

    /// A store that holds the well-known leaves and nothing else.
    pub fn new() -> (r: Constraints)
        ensures
            r@.initial(),
            r@.wf(),
    {
        let types = vec![
            Type::EmptyRec,
            Type::EmptyTagUnion,
            Type::Apply(Symbol::str_str(), Vec::new(), Region::zero()),
        ];
        let categories = vec![
            Category::Record,
            Category::ForeignCall,
            Category::OpaqueArg,
            Category::Lambda,
            Category::ClosureSize,
            Category::StrInterpolation,
            Category::If,
            Category::When,
            Category::Float,
            Category::Int,
            Category::Num,
            Category::List,
            Category::Str,
            Category::Character,
        ];
        let pattern_categories = vec![
            PatternCategory::Record,
            PatternCategory::EmptyRecord,
            PatternCategory::PatternGuard,
            PatternCategory::PatternDefault,
            PatternCategory::SetLiteral,
            PatternCategory::DictLiteral,
            PatternCategory::Str,
            PatternCategory::Num,
            PatternCategory::Int,
            PatternCategory::Float,
            PatternCategory::Character,
        ];
        Constraints {
            constraints: Vec::new(),
            types,
            variables: Vec::new(),
            loc_symbols: Vec::new(),
            let_constraints: Vec::new(),
            categories,
            pattern_categories,
            expectations: Vec::new(),
            pattern_expectations: Vec::new(),
            includes_tags: Vec::new(),
            strings: Vec::new(),
            sketched_rows: Vec::new(),
            eq: Vec::new(),
            pattern_eq: Vec::new(),
            cycles: Vec::new(),
        }
    }

    /// Stores `typ` and returns its handle. The well-known leaves get their
    /// preset handle and a bare variable its own number: neither stores anything.
    pub fn push_type(&mut self, typ: Type) -> (r: EitherIndex<Type, Variable>)
        requires
            old(self)@.wf(),
            preset_type_handle(typ) is None ==> old(self)@.types.len() < MAX_EITHER,
            handle_fits(typ),
        ensures
            r == old(self)@.type_handle(typ),
            final(self)@ == old(self)@.with_type(typ),
            final(self)@.wf(),
            final(self)@.denotes(r, typ),
    {
        match typ {
            Type::EmptyRec => EitherIndex::from_left(Index::new(Self::EMPTY_RECORD)),
            Type::EmptyTagUnion => EitherIndex::from_left(Index::new(Self::EMPTY_TAG_UNION)),
            Type::Variable(var) => Self::push_type_variable(var),
            Type::Apply(symbol, args, region) => {
                if symbol == Symbol::str_str() && args.len() == 0 {
                    EitherIndex::from_left(Index::new(Self::STR))
                } else {
                    let index = Index::push_new(&mut self.types, Type::Apply(symbol, args, region));
                    EitherIndex::from_left(index)
                }
            },
            other => {
                let index = Index::push_new(&mut self.types, other);
                EitherIndex::from_left(index)
            },
        }
    }

    /// The handle of a bare variable: its own number, in the variable domain.
    fn push_type_variable(var: Variable) -> (r: EitherIndex<Type, Variable>)
        requires
            var.id <= MAX_EITHER,
        ensures
            r == EitherIndex::<Type, Variable>::right(Index::at(var.id as int)),
    {
        EitherIndex::from_right(Index::new(var.index()))
    }

    pub fn push_expected_type(&mut self, expected: Expected<Type>) -> (r: Index<Expected<Type>>)
        requires
            old(self)@.wf(),
            old(self)@.expectations.len() < MAX_INDEX,
        ensures
            r == Index::<Expected<Type>>::at(old(self)@.expectations.len() as int),
            final(self)@ == old(self)@.with_expectation(expected),
            final(self)@.wf(),
    {
        let r = Index::push_new(&mut self.expectations, expected);
        proof {
            lemma_payloads_grow(old(self)@, self@);
        }
        r
    }

    /// Stores `category` unless it is one of the preset ones, and returns its handle.
    pub fn push_category(&mut self, category: Category) -> (r: Index<Category>)
        requires
            old(self)@.wf(),
            preset_category(category) is None ==> old(self)@.categories.len() < MAX_INDEX,
        ensures
            r == old(self)@.category_index(category),
            final(self)@ == old(self)@.with_category(category),
            final(self)@.wf(),
            final(self)@.categories[r.index as int] == category,
    {
        match category {
            Category::Record => Index::new(Self::CATEGORY_RECORD),
            Category::ForeignCall => Index::new(Self::CATEGORY_FOREIGNCALL),
            Category::OpaqueArg => Index::new(Self::CATEGORY_OPAQUEARG),
            Category::Lambda => Index::new(Self::CATEGORY_LAMBDA),
            Category::ClosureSize => Index::new(Self::CATEGORY_CLOSURESIZE),
            Category::StrInterpolation => Index::new(Self::CATEGORY_STRINTERPOLATION),
            Category::If => Index::new(Self::CATEGORY_IF),
            Category::When => Index::new(Self::CATEGORY_WHEN),
            Category::Float => Index::new(Self::CATEGORY_FLOAT),
            Category::Int => Index::new(Self::CATEGORY_INT),
            Category::Num => Index::new(Self::CATEGORY_NUM),
            Category::List => Index::new(Self::CATEGORY_LIST),
            Category::Str => Index::new(Self::CATEGORY_STR),
            Category::Character => Index::new(Self::CATEGORY_CHARACTER),
            other => Index::push_new(&mut self.categories, other),
        }
    }

    /// Stores `category` unless it is one of the preset ones, and returns its handle.
    pub fn push_pattern_category(&mut self, category: PatternCategory) -> (r: Index<PatternCategory>)
        requires
            old(self)@.wf(),
            preset_pattern_category(category) is None
                ==> old(self)@.pattern_categories.len() < MAX_INDEX,
        ensures
            r == old(self)@.pattern_category_index(category),
            final(self)@ == old(self)@.with_pattern_category(category),
            final(self)@.wf(),
            final(self)@.pattern_categories[r.index as int] == category,
    {
        match category {
            PatternCategory::Record => Index::new(Self::PCATEGORY_RECORD),
            PatternCategory::EmptyRecord => Index::new(Self::PCATEGORY_EMPTYRECORD),
            PatternCategory::PatternGuard => Index::new(Self::PCATEGORY_PATTERNGUARD),
            PatternCategory::PatternDefault => Index::new(Self::PCATEGORY_PATTERNDEFAULT),
            PatternCategory::SetLiteral => Index::new(Self::PCATEGORY_SET),
            PatternCategory::DictLiteral => Index::new(Self::PCATEGORY_MAP),
            PatternCategory::Str => Index::new(Self::PCATEGORY_STR),
            PatternCategory::Num => Index::new(Self::PCATEGORY_NUM),
            PatternCategory::Int => Index::new(Self::PCATEGORY_INT),
            PatternCategory::Float => Index::new(Self::PCATEGORY_FLOAT),
            PatternCategory::Character => Index::new(Self::PCATEGORY_CHARACTER),
            other => Index::push_new(&mut self.pattern_categories, other),
        }
    }

    /// An obligation that `typ` equal the expected type, for an expression of `category`.
    pub fn equal_types(
        &mut self,
        typ: Type,
        expected: Expected<Type>,
        category: Category,
        region: Region,
    ) -> (r: Constraint)
        requires
            handle_fits(typ),
            old(self)@.wf(),
            old(self)@.types.len() < MAX_EITHER,
            old(self)@.expectations.len() < MAX_INDEX,
            old(self)@.categories.len() < MAX_INDEX,
        ensures
            final(self)@ == old(self)@.with_type(typ).with_expectation(expected).with_category(
                category,
            ),
            r == Constraint::Eq(
                Eq(
                    old(self)@.type_handle(typ),
                    Index::at(old(self)@.expectations.len() as int),
                    old(self)@.category_index(category),
                    region,
                ),
            ),
            final(self)@.wf(),
    {
        let type_index = self.push_type(typ);
        let expected_index = Index::push_new(&mut self.expectations, expected);
        let category_index = self.push_category(category);
        Constraint::Eq(Eq(type_index, expected_index, category_index, region))
    }

    /// An obligation that the variable `var` equal the expected type; the
    /// variable is referred to by its number, and no type is stored.
    pub fn equal_types_var(
        &mut self,
        var: Variable,
        expected: Expected<Type>,
        category: Category,
        region: Region,
    ) -> (r: Constraint)
        requires
            var.id <= MAX_EITHER,
            old(self)@.wf(),
            old(self)@.expectations.len() < MAX_INDEX,
            old(self)@.categories.len() < MAX_INDEX,
        ensures
            final(self)@ == old(self)@.with_expectation(expected).with_category(category),
            r == Constraint::Eq(
                Eq(
                    EitherIndex::right(Index::at(var.id as int)),
                    Index::at(old(self)@.expectations.len() as int),
                    old(self)@.category_index(category),
                    region,
                ),
            ),
            final(self)@.wf(),
    {
        let type_index = Self::push_type_variable(var);
        let expected_index = Index::push_new(&mut self.expectations, expected);
        proof {
            lemma_payloads_grow(old(self)@, self@);
        }
        let category_index = self.push_category(category);
        Constraint::Eq(Eq(type_index, expected_index, category_index, region))
    }

    /// An obligation that a pattern's type `typ` equal the expected type.
    pub fn equal_pattern_types(
        &mut self,
        typ: Type,
        expected: PExpected<Type>,
        category: PatternCategory,
        region: Region,
    ) -> (r: Constraint)
        requires
            handle_fits(typ),
            old(self)@.wf(),
            old(self)@.types.len() < MAX_EITHER,
            old(self)@.pattern_expectations.len() < MAX_INDEX,
            old(self)@.pattern_categories.len() < MAX_INDEX,
        ensures
            final(self)@ == old(self)@.with_type(typ).with_pattern_expectation(
                expected,
            ).with_pattern_category(category),
            r == Constraint::Pattern(
                old(self)@.type_handle(typ),
                Index::at(old(self)@.pattern_expectations.len() as int),
                old(self)@.pattern_category_index(category),
                region,
            ),
            final(self)@.wf(),
    {
        let type_index = self.push_type(typ);
        let expected_index = Index::push_new(&mut self.pattern_expectations, expected);
        let category_index = self.push_pattern_category(category);
        Constraint::Pattern(type_index, expected_index, category_index, region)
    }

    /// Like `equal_pattern_types`, but the scrutinee's type may be an open
    /// union. The category is always stored anew.
    pub fn pattern_presence(
        &mut self,
        typ: Type,
        expected: PExpected<Type>,
        category: PatternCategory,
        region: Region,
    ) -> (r: Constraint)
        requires
            handle_fits(typ),
            old(self)@.wf(),
            old(self)@.types.len() < MAX_EITHER,
            old(self)@.pattern_expectations.len() < MAX_INDEX,
            old(self)@.pattern_categories.len() < MAX_INDEX,
        ensures
            final(self)@ == (ConstraintsView {
                pattern_categories: old(self)@.pattern_categories.push(category),
                ..old(self)@.with_type(typ).with_pattern_expectation(expected)
            }),
            r == Constraint::PatternPresence(
                old(self)@.type_handle(typ),
                Index::at(old(self)@.pattern_expectations.len() as int),
                Index::at(old(self)@.pattern_categories.len() as int),
                region,
            ),
            final(self)@.wf(),
    {
        let type_index = self.push_type(typ);
        let expected_index = Index::push_new(&mut self.pattern_expectations, expected);
        let category_index = Index::push_new(&mut self.pattern_categories, category);
        Constraint::PatternPresence(type_index, expected_index, category_index, region)
    }

    /// An obligation that `typ` stay open to further tags or fields.
    pub fn is_open_type(&mut self, typ: Type) -> (r: Constraint)
        requires
            handle_fits(typ),
            old(self)@.wf(),
            old(self)@.types.len() < MAX_EITHER,
        ensures
            final(self)@ == old(self)@.with_type(typ),
            r == Constraint::IsOpenType(old(self)@.type_handle(typ)),
            final(self)@.wf(),
    {
        let type_index = self.push_type(typ);
        Constraint::IsOpenType(type_index)
    }

    /// A use of `symbol` at `region`, whose type must meet `expected`.
    pub fn lookup(
        &mut self,
        symbol: Symbol,
        expected: Expected<Type>,
        region: Region,
    ) -> (r: Constraint)
        requires
            old(self)@.wf(),
            old(self)@.expectations.len() < MAX_INDEX,
        ensures
            final(self)@ == old(self)@.with_expectation(expected),
            r == Constraint::Lookup(symbol, Index::at(old(self)@.expectations.len() as int), region),
            final(self)@.wf(),
    {
        let expected_index = Index::push_new(&mut self.expectations, expected);
        proof {
            lemma_payloads_grow(old(self)@, self@);
        }
        Constraint::Lookup(symbol, expected_index, region)
    }

    /// Records `typ` under `variable`, tagged with where the request was made.
    pub fn store(
        &mut self,
        typ: Type,
        variable: Variable,
        filename: &'static str,
        line_number: u32,
    ) -> (r: Constraint)
        requires
            handle_fits(typ),
            old(self)@.wf(),
            old(self)@.types.len() < MAX_EITHER,
            old(self)@.strings.len() < MAX_INDEX,
        ensures
            final(self)@ == old(self)@.with_type(typ).with_string(filename),
            r == Constraint::Store(
                old(self)@.type_handle(typ),
                variable,
                Index::at(old(self)@.strings.len() as int),
                line_number,
            ),
            final(self)@.wf(),
    {
        let type_index = self.push_type(typ);
        let string_index = Index::push_new(&mut self.strings, filename);
        Constraint::Store(type_index, variable, string_index, line_number)
    }

    /// Records the type behind an existing handle under `variable`.
    pub fn store_index(
        &mut self,
        type_index: EitherIndex<Type, Variable>,
        variable: Variable,
        filename: &'static str,
        line_number: u32,
    ) -> (r: Constraint)
        requires
            old(self)@.wf(),
            old(self)@.strings.len() < MAX_INDEX,
        ensures
            final(self)@ == old(self)@.with_string(filename),
            r == Constraint::Store(
                type_index,
                variable,
                Index::at(old(self)@.strings.len() as int),
                line_number,
            ),
            final(self)@.wf(),
    {
        let string_index = Index::push_new(&mut self.strings, filename);
        proof {
            lemma_payloads_grow(old(self)@, self@);
        }
        Constraint::Store(type_index, variable, string_index, line_number)
    }

    /// All of `constraints`: `True` for none, the constraint itself for one,
    /// and otherwise an `And` over the run where they are appended, in order.
    pub fn and_constraint(&mut self, constraints: Vec<Constraint>) -> (r: Constraint)
        requires
            old(self)@.wf(),
            old(self)@.constraints.len() + constraints@.len() <= MAX_INDEX,
            constraints@.len() <= MAX_SLICE_LEN,
            forall|i: int|
                0 <= i < constraints@.len() ==> old(self)@.valid(#[trigger] constraints@[i]),
        ensures
            r == old(self)@.conjunction(constraints@),
            final(self)@ == old(self)@.with_conjunction(constraints@),
            final(self)@.wf(),
            final(self)@.valid(r),
    {
        let ghost before = self@;
        let mut constraints = constraints;
        let n = constraints.len();
        if n == 0 {
            Constraint::True
        } else if n == 1 {
            match constraints.pop() {
                Some(c) => c,
                None => Constraint::True,
            }
        } else {
            let slice = Slice::extend_new(&mut self.constraints, constraints);
            proof {
                let after = self@;
                assert forall|j: int| 0 <= j < after.constraints.len() implies after.refers_below(
                    #[trigger] after.constraints[j],
                    j,
                ) by {
                    if j >= before.constraints.len() {
                        assert(before.valid(after.constraints[j]));
                    } else {
                        assert(before.refers_below(before.constraints[j], j));
                    }
                }
            }
            Constraint::And(slice)
        }
    }

    /// A type equality like `equal_types`, together with an equality of the
    /// same expectation at `storage_var`, so that tooling can read the
    /// inferred type there. The two are joined in one `And`.
    pub fn equal_types_with_storage(
        &mut self,
        typ: Type,
        expected: Expected<Type>,
        category: Category,
        region: Region,
        storage_var: Variable,
    ) -> (r: Constraint)
        requires
            handle_fits(typ),
            storage_var.id <= MAX_EITHER,
            old(self)@.wf(),
            old(self)@.types.len() < MAX_EITHER,
            old(self)@.expectations.len() < MAX_INDEX,
            old(self)@.categories.len() + 2 <= MAX_INDEX,
            old(self)@.constraints.len() + 2 <= MAX_INDEX,
        ensures
            ({
                let stored = old(self)@.with_type(typ).with_expectation(expected).with_category(
                    category,
                );
                let expected_index = Index::at(old(self)@.expectations.len() as int);
                let equal = Constraint::Eq(
                    Eq(
                        old(self)@.type_handle(typ),
                        expected_index,
                        old(self)@.category_index(category),
                        region,
                    ),
                );
                let storage = Constraint::Eq(
                    Eq(
                        EitherIndex::right(Index::at(storage_var.id as int)),
                        expected_index,
                        Index::at(stored.categories.len() as int),
                        region,
                    ),
                );
                &&& final(self)@ == stored.with_category(Category::Storage).with_constraints(
                    seq![equal, storage],
                )
                &&& r == Constraint::And(Slice::run(old(self)@.constraints.len() as int, 2))
            }),
            final(self)@.wf(),
            final(self)@.valid(r),
    {
        let type_index = self.push_type(typ);
        let expected_index = Index::push_new(&mut self.expectations, expected);
        let category_index = self.push_category(category);
        let equal = Constraint::Eq(Eq(type_index, expected_index, category_index, region));
        let storage_type_index = Self::push_type_variable(storage_var);
        let storage_category_index = self.push_category(Category::Storage);
        let storage = Constraint::Eq(
            Eq(storage_type_index, expected_index, storage_category_index, region),
        );
        self.and_constraint(vec![equal, storage])
    }

    /// An obligation that the tag union `typ` include `tag_name` with payload
    /// `types`. The union type, the payload types (as a run, even when empty)
    /// and the category are all stored anew.
    pub fn includes_tag(
        &mut self,
        typ: Type,
        tag_name: TagName,
        types: Vec<Type>,
        category: PatternCategory,
        region: Region,
    ) -> (r: Constraint)
        requires
            old(self)@.wf(),
            old(self)@.types.len() + types@.len() + 1 <= MAX_INDEX,
            old(self)@.pattern_categories.len() < MAX_INDEX,
            old(self)@.includes_tags.len() < MAX_INDEX,
            types@.len() <= MAX_SLICE_LEN,
        ensures
            final(self)@ == (ConstraintsView {
                types: old(self)@.types.push(typ) + types@,
                pattern_categories: old(self)@.pattern_categories.push(category),
                includes_tags: old(self)@.includes_tags.push(
                    IncludesTag {
                        type_index: Index::at(old(self)@.types.len() as int),
                        tag_name,
                        types: Slice::run(old(self)@.types.len() + 1int, types@.len() as int),
                        pattern_category: Index::at(old(self)@.pattern_categories.len() as int),
                        region,
                    },
                ),
                ..old(self)@
            }),
            r == Constraint::IncludesTag(Index::at(old(self)@.includes_tags.len() as int)),
            final(self)@.wf(),
    {
        let type_index = Index::push_new(&mut self.types, typ);
        let category_index = Index::push_new(&mut self.pattern_categories, category);
        let types_slice = Slice::extend_new(&mut self.types, types);
        let includes_tag = IncludesTag {
            type_index,
            tag_name,
            types: types_slice,
            pattern_category: category_index,
            region,
        };
        let includes_tag_index = Index::push_new(&mut self.includes_tags, includes_tag);
        proof {
            lemma_payloads_grow(old(self)@, self@);
        }
        Constraint::IncludesTag(includes_tag_index)
    }

    /// Appends `vars` to the variables and returns the run they occupy.
    fn variable_slice(&mut self, vars: Vec<Variable>) -> (r: Slice<Variable>)
        requires
            old(self)@.wf(),
            old(self)@.variables.len() + vars@.len() <= MAX_INDEX,
            vars@.len() <= MAX_SLICE_LEN,
        ensures
            final(self)@ == old(self)@.with_variables(vars@),
            r == Slice::<Variable>::run(old(self)@.variables.len() as int, vars@.len() as int),
            final(self)@.wf(),
    {
        let r = Slice::extend_new(&mut self.variables, vars);
        proof {
            lemma_payloads_grow(old(self)@, self@);
        }
        r
    }

    /// Appends the types of `def_types` to the types and their symbols and
    /// regions to the (symbol, region) pairs; returns the two runs.
    fn def_types_slice(&mut self, def_types: Vec<(Symbol, Loc<Type>)>) -> (r: DefTypes)
        requires
            old(self)@.wf(),
            old(self)@.types.len() + def_types@.len() <= MAX_INDEX,
            old(self)@.loc_symbols.len() + def_types@.len() <= MAX_INDEX,
            def_types@.len() <= MAX_SLICE_LEN,
        ensures
            final(self)@ == (ConstraintsView {
                types: old(self)@.types + def_type_values(def_types@),
                loc_symbols: old(self)@.loc_symbols + def_type_symbols(def_types@),
                ..old(self)@
            }),
            r == (DefTypes {
                types: Slice::run(old(self)@.types.len() as int, def_types@.len() as int),
                loc_symbols: Slice::run(
                    old(self)@.loc_symbols.len() as int,
                    def_types@.len() as int,
                ),
            }),
            final(self)@.wf(),
    {
        let types_start = self.types.len() as u32;
        let loc_symbols_start = self.loc_symbols.len() as u32;
        let length = def_types.len() as u16;
        let ghost defs = def_types@;
        for item in iter: def_types
            invariant
                iter.seq() == defs,
                self@ == (ConstraintsView {
                    types: old(self)@.types + def_type_values(defs.take(iter.index() as int)),
                    loc_symbols: old(self)@.loc_symbols + def_type_symbols(
                        defs.take(iter.index() as int),
                    ),
                    ..old(self)@
                }),
        {
            let ghost k = iter.index() as int;
            let (symbol, loc) = item;
            let Loc { region, value } = loc;
            self.types.push(value);
            self.loc_symbols.push((symbol, region));
            proof {
                assert(defs.take(k + 1) == defs.take(k).push(defs[k]));
                assert(def_type_values(defs.take(k + 1)) == def_type_values(defs.take(k)).push(
                    value,
                ));
                assert(def_type_symbols(defs.take(k + 1)) == def_type_symbols(defs.take(k)).push(
                    (symbol, region),
                ));
            }
        }
        proof {
            assert(defs.take(defs.len() as int) == defs);
            lemma_payloads_grow(old(self)@, self@);
        }
        DefTypes {
            types: Slice::new(types_start, length),
            loc_symbols: Slice::new(loc_symbols_start, length),
        }
    }
    /// Adds a let-scope whose defs and ret constraints are already in place
    /// at the end of the constraint sequence, and returns its handle.
    fn push_let(&mut self, scope: LetConstraint) -> (r: Index<LetConstraint>)
        requires
            old(self)@.wf(),
            old(self)@.let_constraints.len() < MAX_INDEX,
            scope.defs_and_ret_constraint.index + 2 <= old(self)@.constraints.len(),
        ensures
            final(self)@ == (ConstraintsView {
                let_constraints: old(self)@.let_constraints.push(scope),
                ..old(self)@
            }),
            r == Index::<LetConstraint>::at(old(self)@.let_constraints.len() as int),
            final(self)@.wf(),
    {
        let ghost before = self@;
        let r = Index::push_new(&mut self.let_constraints, scope);
        proof {
            let after = self@;
            assert forall|j: int| 0 <= j < after.constraints.len() implies after.refers_below(
                #[trigger] after.constraints[j],
                j,
            ) by {
                assert(before.refers_below(before.constraints[j], j));
            }
            assert forall|i: int| 0 <= i < after.let_constraints.len() implies
                #[trigger] after.let_constraints[i].defs_and_ret_constraint.index + 2
                    <= after.constraints.len() by {
                if i < before.let_constraints.len() {
                    assert(after.let_constraints[i] == before.let_constraints[i]);
                }
            }
            let same_scopes = ConstraintsView { let_constraints: before.let_constraints, ..after };
            lemma_payloads_grow(before, same_scopes);
        }
        r
    }

    /// Appends a defs constraint and a ret constraint next to each other and
    /// returns the position of the first.
    fn push_defs_and_ret(
        &mut self,
        defs_constraint: Constraint,
        ret_constraint: Constraint,
    ) -> (r: Index<(Constraint, Constraint)>)
        requires
            old(self)@.wf(),
            old(self)@.constraints.len() + 2 <= MAX_INDEX,
            old(self)@.valid(defs_constraint),
            old(self)@.valid(ret_constraint),
        ensures
            final(self)@ == (ConstraintsView {
                constraints: old(self)@.constraints.push(defs_constraint).push(ret_constraint),
                ..old(self)@
            }),
            r == Index::<(Constraint, Constraint)>::at(old(self)@.constraints.len() as int),
            final(self)@.wf(),
    {
        let ghost before = self@;
        let r = Index::new(self.constraints.len() as u32);
        self.constraints.push(defs_constraint);
        self.constraints.push(ret_constraint);
        proof {
            let after = self@;
            assert forall|j: int| 0 <= j < after.constraints.len() implies after.refers_below(
                #[trigger] after.constraints[j],
                j,
            ) by {
                if j < before.constraints.len() {
                    assert(after.constraints[j] == before.constraints[j]);
                }
            }
            let same_constraints = ConstraintsView { constraints: before.constraints, ..after };
            lemma_payloads_grow(before, same_constraints);
        }
        r
    }

    /// A scope that introduces the fresh variables `flex_vars` for `defs_constraint`.
    pub fn exists_vars(
        &mut self,
        flex_vars: Vec<Variable>,
        defs_constraint: Constraint,
    ) -> (r: Constraint)
        requires
            old(self)@.wf(),
            old(self)@.constraints.len() + 2 <= MAX_INDEX,
            old(self)@.variables.len() + flex_vars@.len() <= MAX_INDEX,
            old(self)@.let_constraints.len() < MAX_INDEX,
            flex_vars@.len() <= MAX_SLICE_LEN,
            old(self)@.valid(defs_constraint),
        ensures
            final(self)@ == old(self)@.with_let(
                defs_constraint,
                Constraint::True,
                flex_vars@,
                seq![],
                LetConstraint {
                    rigid_vars: Slice::empty(),
                    flex_vars: Slice::run(old(self)@.variables.len() as int, flex_vars@.len() as int),
                    def_types: DefTypes::spec_empty(),
                    defs_and_ret_constraint: Index::at(old(self)@.constraints.len() as int),
                },
            ),
            r == Constraint::Let(Index::at(old(self)@.let_constraints.len() as int), Slice::empty()),
            final(self)@.let_parts(r) == Some((defs_constraint, Constraint::True)),
            final(self)@.wf(),
            final(self)@.valid(r),
    {
        let defs_and_ret_constraint = self.push_defs_and_ret(defs_constraint, Constraint::True);
        let flex_vars = self.variable_slice(flex_vars);
        let let_constraint = LetConstraint {
            rigid_vars: Slice::new(0, 0),
            flex_vars,
            def_types: DefTypes::default(),
            defs_and_ret_constraint,
        };
        let let_index = self.push_let(let_constraint);
        proof {
            assert(self@.types == old(self)@.types + def_type_values(seq![]));
            assert(self@.loc_symbols == old(self)@.loc_symbols + def_type_symbols(seq![]));
        }
        Constraint::Let(let_index, Slice::new(0, 0))
    }

    /// Like `exists_vars`, over the conjunction of `defs_constraints`.
    pub fn exists_many(
        &mut self,
        flex_vars: Vec<Variable>,
        defs_constraints: Vec<Constraint>,
    ) -> (r: Constraint)
        requires
            old(self)@.wf(),
            old(self)@.constraints.len() + defs_constraints@.len() + 2 <= MAX_INDEX,
            old(self)@.variables.len() + flex_vars@.len() <= MAX_INDEX,
            old(self)@.let_constraints.len() < MAX_INDEX,
            flex_vars@.len() <= MAX_SLICE_LEN,
            defs_constraints@.len() <= MAX_SLICE_LEN,
            forall|i: int|
                0 <= i < defs_constraints@.len() ==> old(self)@.valid(#[trigger] defs_constraints@[i]),
        ensures
            ({
                let joined = old(self)@.with_conjunction(defs_constraints@);
                let defs_constraint = old(self)@.conjunction(defs_constraints@);
                &&& final(self)@ == joined.with_let(
                    defs_constraint,
                    Constraint::True,
                    flex_vars@,
                    seq![],
                    LetConstraint {
                        rigid_vars: Slice::empty(),
                        flex_vars: Slice::run(joined.variables.len() as int, flex_vars@.len() as int),
                        def_types: DefTypes::spec_empty(),
                        defs_and_ret_constraint: Index::at(joined.constraints.len() as int),
                    },
                )
                &&& r == Constraint::Let(Index::at(joined.let_constraints.len() as int), Slice::empty())
                &&& final(self)@.let_parts(r) == Some((defs_constraint, Constraint::True))
            }),
            final(self)@.wf(),
            final(self)@.valid(r),
    {
        let defs_constraint = self.and_constraint(defs_constraints);
        self.exists_vars(flex_vars, defs_constraint)
    }

    /// A let-scope: `defs_constraint` is solved and its variables generalized
    /// before `ret_constraint` is solved with the symbols of `def_types` bound.
    pub fn let_constraint(
        &mut self,
        rigid_vars: Vec<Variable>,
        flex_vars: Vec<Variable>,
        def_types: Vec<(Symbol, Loc<Type>)>,
        defs_constraint: Constraint,
        ret_constraint: Constraint,
    ) -> (r: Constraint)
        requires
            old(self)@.wf(),
            old(self)@.constraints.len() + 2 <= MAX_INDEX,
            old(self)@.variables.len() + rigid_vars@.len() + flex_vars@.len() <= MAX_INDEX,
            old(self)@.types.len() + def_types@.len() <= MAX_INDEX,
            old(self)@.loc_symbols.len() + def_types@.len() <= MAX_INDEX,
            old(self)@.let_constraints.len() < MAX_INDEX,
            rigid_vars@.len() <= MAX_SLICE_LEN,
            flex_vars@.len() <= MAX_SLICE_LEN,
            def_types@.len() <= MAX_SLICE_LEN,
            old(self)@.valid(defs_constraint),
            old(self)@.valid(ret_constraint),
        ensures
            final(self)@ == old(self)@.with_let(
                defs_constraint,
                ret_constraint,
                rigid_vars@ + flex_vars@,
                def_types@,
                LetConstraint {
                    rigid_vars: Slice::run(old(self)@.variables.len() as int, rigid_vars@.len() as int),
                    flex_vars: Slice::run(
                        (old(self)@.variables.len() + rigid_vars@.len()) as int,
                        flex_vars@.len() as int,
                    ),
                    def_types: DefTypes {
                        types: Slice::run(old(self)@.types.len() as int, def_types@.len() as int),
                        loc_symbols: Slice::run(
                            old(self)@.loc_symbols.len() as int,
                            def_types@.len() as int,
                        ),
                    },
                    defs_and_ret_constraint: Index::at(old(self)@.constraints.len() as int),
                },
            ),
            r == Constraint::Let(Index::at(old(self)@.let_constraints.len() as int), Slice::empty()),
            final(self)@.let_parts(r) == Some((defs_constraint, ret_constraint)),
            final(self)@.wf(),
            final(self)@.valid(r),
    {
        let ghost rigid = rigid_vars@;
        let ghost flex = flex_vars@;
        let defs_and_ret_constraint = self.push_defs_and_ret(defs_constraint, ret_constraint);
        let rigid_vars = self.variable_slice(rigid_vars);
        let flex_vars = self.variable_slice(flex_vars);
        let def_types = self.def_types_slice(def_types);
        let let_constraint = LetConstraint {
            rigid_vars,
            flex_vars,
            def_types,
            defs_and_ret_constraint,
        };
        let let_index = self.push_let(let_constraint);
        proof {
            assert(self@.variables == old(self)@.variables + (rigid + flex));
        }
        Constraint::Let(let_index, Slice::new(0, 0))
    }
    /// A let-scope for symbols imported from another module: the defs
    /// constraint is `True`, the ret constraint is `module_constraint`, and
    /// `pool_variables` (variables copied in from the other module, which must
    /// join the pool of the current rank) are attached to the returned `Let`.
    pub fn let_import_constraint(
        &mut self,
        rigid_vars: Vec<Variable>,
        def_types: Vec<(Symbol, Loc<Type>)>,
        module_constraint: Constraint,
        pool_variables: &[Variable],
    ) -> (r: Constraint)
        requires
            old(self)@.wf(),
            old(self)@.constraints.len() + 2 <= MAX_INDEX,
            old(self)@.variables.len() + rigid_vars@.len() + pool_variables@.len() <= MAX_INDEX,
            old(self)@.types.len() + def_types@.len() <= MAX_INDEX,
            old(self)@.loc_symbols.len() + def_types@.len() <= MAX_INDEX,
            old(self)@.let_constraints.len() < MAX_INDEX,
            rigid_vars@.len() <= MAX_SLICE_LEN,
            def_types@.len() <= MAX_SLICE_LEN,
            pool_variables@.len() <= MAX_SLICE_LEN,
            old(self)@.valid(module_constraint),
        ensures
            final(self)@ == old(self)@.with_let(
                Constraint::True,
                module_constraint,
                rigid_vars@ + pool_variables@,
                def_types@,
                LetConstraint {
                    rigid_vars: Slice::run(old(self)@.variables.len() as int, rigid_vars@.len() as int),
                    flex_vars: Slice::empty(),
                    def_types: DefTypes {
                        types: Slice::run(old(self)@.types.len() as int, def_types@.len() as int),
                        loc_symbols: Slice::run(
                            old(self)@.loc_symbols.len() as int,
                            def_types@.len() as int,
                        ),
                    },
                    defs_and_ret_constraint: Index::at(old(self)@.constraints.len() as int),
                },
            ),
            r == Constraint::Let(
                Index::at(old(self)@.let_constraints.len() as int),
                Slice::run(
                    (old(self)@.variables.len() + rigid_vars@.len()) as int,
                    pool_variables@.len() as int,
                ),
            ),
            final(self)@.let_parts(r) == Some((Constraint::True, module_constraint)),
            match r {
                Constraint::Let(_, pool) => pool.read(final(self)@.variables) == pool_variables@,
                _ => false,
            },
            final(self)@.wf(),
            final(self)@.valid(r),
    {
        let ghost rigid = rigid_vars@;
        let defs_and_ret_constraint = self.push_defs_and_ret(Constraint::True, module_constraint);
        let rigid_vars = self.variable_slice(rigid_vars);
        let def_types = self.def_types_slice(def_types);
        let let_constraint = LetConstraint {
            rigid_vars,
            flex_vars: Slice::new(0, 0),
            def_types,
            defs_and_ret_constraint,
        };
        let let_index = self.push_let(let_constraint);
        let mut pool: Vec<Variable> = Vec::new();
        let mut i: usize = 0;
        while i < pool_variables.len()
            invariant
                i <= pool_variables@.len(),
                pool@ == pool_variables@.take(i as int),
            decreases pool_variables@.len() - i,
        {
            pool.push(pool_variables[i]);
            i += 1;
            proof {
                assert(pool_variables@.take(i as int) == pool_variables@.take(i - 1).push(
                    pool_variables@[i - 1],
                ));
            }
        }
        proof {
            assert(pool_variables@.take(pool_variables@.len() as int) == pool_variables@);
        }
        let pool_slice = self.variable_slice(pool);
        proof {
            assert(self@.variables == old(self)@.variables + (rigid + pool_variables@));
            assert(pool_slice.read(self@.variables) == pool_variables@);
        }
        Constraint::Let(let_index, pool_slice)
    }

    /// A deferred exhaustiveness check of a pattern match, on the equality of
    /// `real_var` with either an expression expectation (`Ok`) or a pattern
    /// expectation (`Err`). The categories are stored anew.
    pub fn exhaustive(
        &mut self,
        real_var: Variable,
        real_region: Region,
        category_and_expectation: Result<
            (Category, Expected<Type>),
            (PatternCategory, PExpected<Type>),
        >,
        sketched_rows: SketchedRows,
        context: ExhaustiveContext,
        exhaustive: ExhaustiveMark,
    ) -> (r: Constraint)
        requires
            real_var.id <= MAX_EITHER,
            old(self)@.wf(),
            old(self)@.sketched_rows.len() < MAX_INDEX,
            match category_and_expectation {
                Ok(_) => {
                    &&& old(self)@.categories.len() < MAX_INDEX
                    &&& old(self)@.expectations.len() < MAX_INDEX
                    &&& old(self)@.eq.len() < MAX_INDEX
                },
                Err(_) => {
                    &&& old(self)@.pattern_categories.len() < MAX_INDEX
                    &&& old(self)@.pattern_expectations.len() < MAX_INDEX
                    &&& old(self)@.pattern_eq.len() < MAX_INDEX
                },
            },
        ensures
            ({
                let o = old(self)@;
                let real_handle = EitherIndex::<Type, Variable>::right(Index::at(real_var.id as int));
                let rows = ConstraintsView {
                    sketched_rows: o.sketched_rows.push(sketched_rows),
                    ..o
                };
                match category_and_expectation {
                    Ok((category, expected)) => {
                        &&& final(self)@ == (ConstraintsView {
                            categories: o.categories.push(category),
                            expectations: o.expectations.push(expected),
                            eq: o.eq.push(
                                Eq(
                                    real_handle,
                                    Index::at(o.expectations.len() as int),
                                    Index::at(o.categories.len() as int),
                                    real_region,
                                ),
                            ),
                            ..rows
                        })
                        &&& r == Constraint::Exhaustive(
                            Ok(Index::at(o.eq.len() as int)),
                            Index::at(o.sketched_rows.len() as int),
                            context,
                            exhaustive,
                        )
                    },
                    Err((category, expected)) => {
                        &&& final(self)@ == (ConstraintsView {
                            pattern_categories: o.pattern_categories.push(category),
                            pattern_expectations: o.pattern_expectations.push(expected),
                            pattern_eq: o.pattern_eq.push(
                                PatternEq(
                                    real_handle,
                                    Index::at(o.pattern_expectations.len() as int),
                                    Index::at(o.pattern_categories.len() as int),
                                    real_region,
                                ),
                            ),
                            ..rows
                        })
                        &&& r == Constraint::Exhaustive(
                            Err(Index::at(o.pattern_eq.len() as int)),
                            Index::at(o.sketched_rows.len() as int),
                            context,
                            exhaustive,
                        )
                    },
                }
            }),
            final(self)@.wf(),
    {
        let real_var = Self::push_type_variable(real_var);
        let sketched_rows = Index::push_new(&mut self.sketched_rows, sketched_rows);
        let equality = match category_and_expectation {
            Ok((category, expected)) => {
                let category = Index::push_new(&mut self.categories, category);
                let expected = Index::push_new(&mut self.expectations, expected);
                let equality = Eq(real_var, expected, category, real_region);
                Ok(Index::push_new(&mut self.eq, equality))
            },
            Err((category, expected)) => {
                let category = Index::push_new(&mut self.pattern_categories, category);
                let expected = Index::push_new(&mut self.pattern_expectations, expected);
                let equality = PatternEq(real_var, expected, category, real_region);
                Err(Index::push_new(&mut self.pattern_eq, equality))
            },
        };
        proof {
            lemma_payloads_grow(old(self)@, self@);
        }
        Constraint::Exhaustive(equality, sketched_rows, context, exhaustive)
    }

    /// A deferred check that the definitions `loc_symbols`, used at the
    /// regions `expr_regions`, do not form an illegal cycle.
    pub fn check_cycle(
        &mut self,
        loc_symbols: Vec<(Symbol, Region)>,
        expr_regions: Vec<Region>,
        cycle_mark: IllegalCycleMark,
    ) -> (r: Constraint)
        requires
            old(self)@.wf(),
            old(self)@.loc_symbols.len() + loc_symbols@.len() + expr_regions@.len() <= MAX_INDEX,
            old(self)@.cycles.len() < MAX_INDEX,
            loc_symbols@.len() <= MAX_SLICE_LEN,
            expr_regions@.len() <= MAX_SLICE_LEN,
        ensures
            final(self)@ == (ConstraintsView {
                loc_symbols: old(self)@.loc_symbols + loc_symbols@ + placeholder_pairs(expr_regions@),
                cycles: old(self)@.cycles.push(
                    Cycle {
                        def_names: Slice::run(
                            old(self)@.loc_symbols.len() as int,
                            loc_symbols@.len() as int,
                        ),
                        expr_regions: Slice::run(
                            (old(self)@.loc_symbols.len() + loc_symbols@.len()) as int,
                            expr_regions@.len() as int,
                        ),
                    },
                ),
                ..old(self)@
            }),
            r == Constraint::CheckCycle(Index::at(old(self)@.cycles.len() as int), cycle_mark),
            final(self)@.wf(),
    {
        let def_names = Slice::extend_new(&mut self.loc_symbols, loc_symbols);
        let mut pairs: Vec<(Symbol, Region)> = Vec::new();
        let mut i: usize = 0;
        while i < expr_regions.len()
            invariant
                i <= expr_regions@.len(),
                pairs@ == placeholder_pairs(expr_regions@.take(i as int)),
            decreases expr_regions@.len() - i,
        {
            pairs.push((Symbol::attr_attr(), expr_regions[i]));
            i += 1;
            proof {
                assert(expr_regions@.take(i as int) == expr_regions@.take(i - 1).push(
                    expr_regions@[i - 1],
                ));
            }
        }
        proof {
            assert(expr_regions@.take(expr_regions@.len() as int) == expr_regions@);
        }
        let regions = Slice::extend_new(&mut self.loc_symbols, pairs);
        let expr_regions = Slice::new(regions.start, regions.length);
        let cycle = Cycle { def_names, expr_regions };
        let cycle_index = Index::push_new(&mut self.cycles, cycle);
        proof {
            lemma_payloads_grow(old(self)@, self@);
        }
        Constraint::CheckCycle(cycle_index, cycle_mark)
    }
    /// Whether `constraint` contains `SaveTheEnvironment`, looking through
    /// let-scopes and conjunctions.
    pub fn contains_save_the_environment(&self, constraint: &Constraint) -> (r: bool)
        requires
            self@.wf(),
            self@.valid(*constraint),
        ensures
            r == self@.saves_environment(*constraint),
        decreases self@.depth(*constraint),
    {
        let n = self.constraints.len();
        let ghost len = n as int;
        match constraint {
            Constraint::SaveTheEnvironment => true,
            Constraint::Let(index, _) => {
                let let_constraint = &self.let_constraints[index.index()];
                let offset = let_constraint.defs_and_ret_constraint.index();
                let defs_constraint = &self.constraints[offset];
                let ret_constraint = &self.constraints[offset + 1];
                proof {
                    lemma_saves_below_limit(self@, *defs_constraint, offset as int, len);
                    lemma_saves_below_limit(self@, *ret_constraint, offset + 1, len);
                }
                self.contains_save_the_environment(defs_constraint)
                    || self.contains_save_the_environment(ret_constraint)
            },
            Constraint::And(slice) => {
                let start = slice.start();
                let end = start + slice.len();
                let mut found = false;
                let mut k = start;
                while k < end
                    invariant
                        self@.wf(),
                        start <= k <= end,
                        start == slice.start,
                        end == slice.end(),
                        end <= len,
                        len == self@.constraints.len(),
                        *constraint == Constraint::And(*slice),
                        found == self@.saves_among(start as int, k as int),
                    decreases end - k,
                {
                    if !found {
                        let c = &self.constraints[k];
                        proof {
                            lemma_saves_below_limit(self@, *c, k as int, len);
                        }
                        found = self.contains_save_the_environment(c);
                    }
                    k += 1;
                }
                found
            },
            _ => false,
        }
    }
    /// A summary of how many entries the main sequences hold, one line each.
    pub fn statistics(&self, module_id: ModuleId) -> (r: Result<String, core::fmt::Error>)
        ensures
            r is Ok,
            r->Ok_0@ == statistics_text(module_id, self@),
    {
        let mut buf = String::new();
        buf.append("Constraints statistics for module ModuleId { id: ");
        push_decimal(&mut buf, module_id.id as usize);
        buf.append(" }:\n   constraints length: ");
        push_decimal(&mut buf, self.constraints.len());
        buf.append(":\n   types length: ");
        push_decimal(&mut buf, self.types.len());
        buf.append(":\n   let_constraints length: ");
        push_decimal(&mut buf, self.let_constraints.len());
        buf.append(":\n   expectations length: ");
        push_decimal(&mut buf, self.expectations.len());
        buf.append(":\n   categories length: ");
        push_decimal(&mut buf, self.categories.len());
        buf.append(":\n");
        Ok(buf)
    }
}

impl Default for Constraints {
    fn default() -> (r: Constraints)
        ensures
            r@.initial(),
            r@.wf(),
    {
        Constraints::new()
    }
}

} // verus!
