//! Properties of the store that relate several calls.
use vstd::prelude::*;
use crate::constraint::{Constraint, LetConstraint};
use crate::model::{is_str_type, preset_category, preset_pattern_category, ConstraintsView};
use crate::region::Loc;
use crate::soa::{EitherIndex, Index, Slice, MAX_INDEX, MAX_SLICE_LEN};
use crate::symbol::Symbol;
use crate::types::{Category, PatternCategory, Type, Variable};

verus! {

/// Pushing a well-known leaf type (the empty record, the empty tag union or
/// the built-in string type) stores nothing, and gives the same handle on
/// every store: repeated calls return identical handles and never grow the
/// types.
pub proof fn law_preset_types_interned(a: ConstraintsView, b: ConstraintsView, typ: Type)
    requires
        typ == Type::EmptyRec || typ == Type::EmptyTagUnion || is_str_type(typ),
    ensures
        a.with_type(typ) == a,
        a.type_handle(typ) == b.type_handle(typ),
{
}

/// Pushing a well-known expression category stores nothing, and gives the
/// same handle on every store.
pub proof fn law_preset_categories_interned(a: ConstraintsView, b: ConstraintsView, category: Category)
    requires
        preset_category(category) is Some,
    ensures
        a.with_category(category) == a,
        a.category_index(category) == b.category_index(category),
{
}

/// Pushing a well-known pattern category stores nothing, and gives the same
/// handle on every store.
pub proof fn law_preset_pattern_categories_interned(
    a: ConstraintsView,
    b: ConstraintsView,
    category: PatternCategory,
)
    requires
        preset_pattern_category(category) is Some,
    ensures
        a.with_pattern_category(category) == a,
        a.pattern_category_index(category) == b.pattern_category_index(category),
{
}

/// Pushing a bare type variable never grows the types: its handle is the
/// variable's own number.
pub proof fn law_variable_stores_no_type(a: ConstraintsView, var: Variable)
    ensures
        a.with_type(Type::Variable(var)).types == a.types,
        a.type_handle(Type::Variable(var)) == EitherIndex::<Type, Variable>::right(
            Index::at(var.id as int),
        ),
{
}

/// A conjunction of no constraints is `True`; of one constraint, that
/// constraint itself; of two or more, an `And` over a run of that many
/// constraints which, read back, are the inputs in order.
pub proof fn law_conjunction_shape(a: ConstraintsView, cs: Seq<Constraint>)
    requires
        cs.len() <= MAX_SLICE_LEN,
        a.constraints.len() + cs.len() <= MAX_INDEX,
    ensures
        cs.len() == 0 ==> a.conjunction(cs) == Constraint::True && a.with_conjunction(cs) == a,
        cs.len() == 1 ==> a.conjunction(cs) == cs[0] && a.with_conjunction(cs) == a,
        cs.len() >= 2 ==> match a.conjunction(cs) {
            Constraint::And(slice) => slice.length == cs.len() && slice.read(
                a.with_conjunction(cs).constraints,
            ) == cs,
            _ => false,
        },
{
    if cs.len() >= 2 {
        assert((a.constraints + cs).subrange(
            a.constraints.len() as int,
            (a.constraints.len() + cs.len()) as int,
        ) == cs);
    }
}

/// A let-scope stores its defs and ret constraints next to each other:
/// reading back the scope's handle gives the defs constraint at the stored
/// position and the ret constraint right after it, whatever variables,
/// definitions or pool it carries.
pub proof fn law_let_scope_round_trip(
    a: ConstraintsView,
    defs_constraint: Constraint,
    ret_constraint: Constraint,
    vars: Seq<Variable>,
    def_types: Seq<(Symbol, Loc<Type>)>,
    scope: LetConstraint,
    pool: Slice<Variable>,
)
    requires
        scope.defs_and_ret_constraint == Index::<(Constraint, Constraint)>::at(
            a.constraints.len() as int,
        ),
        a.constraints.len() <= MAX_INDEX,
        a.let_constraints.len() < MAX_INDEX,
    ensures
        ({
            let b = a.with_let(defs_constraint, ret_constraint, vars, def_types, scope);
            let offset = a.constraints.len() as int;
            &&& b.constraints[offset] == defs_constraint
            &&& b.constraints[offset + 1] == ret_constraint
            &&& b.let_parts(Constraint::Let(Index::at(a.let_constraints.len() as int), pool)) == Some(
                (defs_constraint, ret_constraint),
            )
        }),
{
}

/// Whether a constraint contains `SaveTheEnvironment` depends on nothing
/// but the constraints it reaches, which never change: the answer for a
/// constraint of one store is the same in any store that extends it, and so
/// the same however often it is asked and whatever is built in between.
pub proof fn law_saves_environment_stable(a: ConstraintsView, b: ConstraintsView, c: Constraint)
    requires
        a.wf(),
        a.valid(c),
        a.constraints.is_prefix_of(b.constraints),
        a.let_constraints.is_prefix_of(b.let_constraints),
    ensures
        b.saves_environment(c) == a.saves_environment(c),
{
    lemma_saves_below_stable(a, b, c, a.constraints.len() as int);
    let limit = a.constraints.len() as int;
    assert(b.saves_below(c, limit) == b.saves_below(c, b.constraints.len() as int)) by {
        lemma_refers_below_extends(a, b, c, limit);
    }
}

proof fn lemma_refers_below_extends(a: ConstraintsView, b: ConstraintsView, c: Constraint, limit: int)
    requires
        a.refers_below(c, limit),
        a.let_constraints.is_prefix_of(b.let_constraints),
        limit <= b.constraints.len(),
    ensures
        b.refers_below(c, limit),
        b.saves_below(c, limit) == b.saves_below(c, b.constraints.len() as int),
{
    match c {
        Constraint::Let(i, _) => {
            assert(b.let_constraints[i.index as int] == a.let_constraints[i.index as int]);
        },
        _ => {},
    }
}

proof fn lemma_saves_below_stable(a: ConstraintsView, b: ConstraintsView, c: Constraint, limit: int)
    requires
        a.wf(),
        a.refers_below(c, limit),
        0 <= limit <= a.constraints.len(),
        a.constraints.is_prefix_of(b.constraints),
        a.let_constraints.is_prefix_of(b.let_constraints),
    ensures
        a.saves_below(c, limit) == b.saves_below(c, limit),
    decreases limit, 1int,
{
    match c {
        Constraint::Let(i, _) => {
            let k = i.index as int;
            assert(b.let_constraints[k] == a.let_constraints[k]);
            let offset = a.let_constraints[k].defs_and_ret_constraint.index as int;
            assert(b.constraints[offset] == a.constraints[offset]);
            assert(b.constraints[offset + 1] == a.constraints[offset + 1]);
            assert(a.refers_below(a.constraints[offset], offset));
            assert(a.refers_below(a.constraints[offset + 1], offset + 1));
            lemma_saves_below_stable(a, b, a.constraints[offset], offset);
            lemma_saves_below_stable(a, b, a.constraints[offset + 1], offset + 1);
        },
        Constraint::And(slice) => {
            lemma_saves_among_stable(a, b, slice.start as int, slice.end());
        },
        _ => {},
    }
}

proof fn lemma_saves_among_stable(a: ConstraintsView, b: ConstraintsView, lo: int, hi: int)
    requires
        a.wf(),
        0 <= hi <= a.constraints.len(),
        a.constraints.is_prefix_of(b.constraints),
        a.let_constraints.is_prefix_of(b.let_constraints),
    ensures
        a.saves_among(lo, hi) == b.saves_among(lo, hi),
    decreases hi, 0int,
{
    if 0 <= lo < hi {
        lemma_saves_among_stable(a, b, lo, hi - 1);
        assert(b.constraints[hi - 1] == a.constraints[hi - 1]);
        assert(a.refers_below(a.constraints[hi - 1], hi - 1));
        lemma_saves_below_stable(a, b, a.constraints[hi - 1], hi - 1);
    }
}

} // verus!
