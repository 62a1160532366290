use roc_constraint::constraint;
use roc_constraint::constraint::{Constraint, Constraints};
use roc_constraint::exhaustive::{ExhaustiveContext, SketchedRow, SketchedRows};
use roc_constraint::expected::{Expected, PExpected, PReason, Reason};
use roc_constraint::region::{Loc, Region};
use roc_constraint::soa::{EitherIndex, Index, Slice};
use roc_constraint::symbol::{ModuleId, Symbol, TagName};
use roc_constraint::types::{Category, ExhaustiveMark, IllegalCycleMark, PatternCategory, Type, Variable};

fn var(n: u32) -> Variable {
    Variable::new(n)
}

fn sym(module: u32, ident: u32) -> Symbol {
    Symbol::new(ModuleId::new(module), ident)
}

fn region(start: u32, end: u32) -> Region {
    Region::new(start, end)
}

fn no_expectation() -> Expected<Type> {
    Expected::NoExpectation(Type::Variable(var(99)))
}

fn left_index(h: EitherIndex<Type, Variable>) -> u32 {
    match h.split() {
        Ok(i) => i.index,
        Err(_) => panic!("expected a stored type"),
    }
}

fn right_index(h: EitherIndex<Type, Variable>) -> u32 {
    match h.split() {
        Ok(_) => panic!("expected a variable"),
        Err(i) => i.index,
    }
}

fn let_index(c: Constraint) -> (usize, Slice<Variable>) {
    match c {
        Constraint::Let(i, pool) => (i.index(), pool),
        other => panic!("expected a Let, got {:?}", other),
    }
}

fn let_parts(store: &Constraints, c: Constraint) -> (Constraint, Constraint) {
    let (i, _) = let_index(c);
    let offset = store.let_constraints[i].defs_and_ret_constraint.index();
    (store.constraints[offset], store.constraints[offset + 1])
}

fn lookup_constraint(store: &mut Constraints, ident: u32) -> Constraint {
    store.lookup(sym(3, ident), no_expectation(), region(ident, ident + 1))
}

#[test]
fn new_store_holds_presets() {
    let store = Constraints::new();
    assert_eq!(store.types.len(), 3);
    assert!(matches!(store.types[Constraints::EMPTY_RECORD as usize], Type::EmptyRec));
    assert!(matches!(store.types[Constraints::EMPTY_TAG_UNION as usize], Type::EmptyTagUnion));
    assert!(matches!(&store.types[Constraints::STR as usize], Type::Apply(s, args, r) if *s == Symbol::str_str() && args.is_empty() && *r == Region::zero()));
    assert_eq!(store.categories.len(), 14);
    assert!(matches!(store.categories[Constraints::CATEGORY_CHARACTER as usize], Category::Character));
    assert!(matches!(store.categories[Constraints::CATEGORY_IF as usize], Category::If));
    assert_eq!(store.pattern_categories.len(), 11);
    assert!(matches!(store.pattern_categories[Constraints::PCATEGORY_MAP as usize], PatternCategory::DictLiteral));
    assert!(store.constraints.is_empty());
    assert!(store.let_constraints.is_empty());
    let default = Constraints::default();
    assert_eq!(default.types.len(), 3);
    assert_eq!(default.categories.len(), 14);
}

#[test]
fn equal_types_on_empty_record_uses_preset() {
    let mut store = Constraints::new();
    let c = store.equal_types(Type::EmptyRec, no_expectation(), Category::Record, region(1, 5));
    match c {
        Constraint::Eq(constraint::Eq(t, e, cat, r)) => {
            assert_eq!(left_index(t), Constraints::EMPTY_RECORD);
            assert_eq!(e.index, 0);
            assert_eq!(cat.index, Constraints::CATEGORY_RECORD);
            assert_eq!(r, region(1, 5));
        }
        other => panic!("expected Eq, got {:?}", other),
    }
    assert_eq!(store.types.len(), 3);
    assert_eq!(store.categories.len(), 14);
    assert_eq!(store.expectations.len(), 1);
}

#[test]
fn and_of_none_and_of_one() {
    let mut store = Constraints::new();
    assert!(matches!(store.and_constraint(vec![]), Constraint::True));
    let c = lookup_constraint(&mut store, 7);
    let one = store.and_constraint(vec![c]);
    match one {
        Constraint::Lookup(s, e, r) => {
            assert_eq!(s, sym(3, 7));
            assert_eq!(e.index, 0);
            assert_eq!(r, region(7, 8));
        }
        other => panic!("expected the lookup back, got {:?}", other),
    }
    assert!(store.constraints.is_empty());
}

#[test]
fn nested_exists_scopes() {
    let mut store = Constraints::new();
    let inner = lookup_constraint(&mut store, 1);
    let first = store.exists_vars(vec![var(1), var(2)], inner);
    let outer = store.and_constraint(vec![first, Constraint::True]);
    let second = store.exists_vars(vec![], outer);
    let (i1, pool1) = let_index(first);
    let (i2, pool2) = let_index(second);
    assert_ne!(i1, i2);
    assert_eq!(pool1.len(), 0);
    assert_eq!(pool2.len(), 0);
    let l1 = store.let_constraints[i1];
    let l2 = store.let_constraints[i2];
    assert_eq!(l1.flex_vars.len(), 2);
    assert_eq!(l2.flex_vars.len(), 0);
    for l in [l1, l2] {
        assert_eq!(l.rigid_vars.len(), 0);
        assert_eq!(l.def_types.types.len(), 0);
        assert_eq!(l.def_types.loc_symbols.len(), 0);
    }
    let start = l1.flex_vars.start();
    assert_eq!(&store.variables[start..start + 2], &[var(1), var(2)]);
    let (d, r) = let_parts(&store, second);
    assert!(matches!(d, Constraint::And(s) if s.len() == 2));
    assert!(matches!(r, Constraint::True));
}

#[test]
fn preset_types_interned_on_repeat() {
    let mut store = Constraints::new();
    let a = store.push_type(Type::EmptyTagUnion);
    let b = store.push_type(Type::EmptyTagUnion);
    assert_eq!(left_index(a), Constraints::EMPTY_TAG_UNION);
    assert_eq!(left_index(b), Constraints::EMPTY_TAG_UNION);
    let s1 = store.push_type(Type::Apply(Symbol::str_str(), vec![], region(4, 9)));
    let s2 = store.push_type(Type::Apply(Symbol::str_str(), vec![], region(20, 30)));
    assert_eq!(left_index(s1), Constraints::STR);
    assert_eq!(left_index(s2), Constraints::STR);
    let r = store.push_type(Type::EmptyRec);
    assert_eq!(left_index(r), Constraints::EMPTY_RECORD);
    assert_eq!(store.types.len(), 3);
}

#[test]
fn other_types_are_appended() {
    let mut store = Constraints::new();
    let list = Type::Apply(sym(2, 5), vec![Type::EmptyRec], region(0, 3));
    let a = store.push_type(list);
    assert_eq!(left_index(a), 3);
    let str_with_arg = Type::Apply(Symbol::str_str(), vec![Type::EmptyRec], region(0, 3));
    let b = store.push_type(str_with_arg);
    assert_eq!(left_index(b), 4);
    let f = Type::Function(vec![], Box::new(Type::EmptyTagUnion), Box::new(Type::EmptyRec));
    let c = store.push_type(f);
    assert_eq!(left_index(c), 5);
    assert_eq!(store.types.len(), 6);
}

#[test]
fn preset_categories_interned_on_repeat() {
    let mut store = Constraints::new();
    let a = store.push_category(Category::When);
    let b = store.push_category(Category::When);
    assert_eq!(a.index, Constraints::CATEGORY_WHEN);
    assert_eq!(b.index, Constraints::CATEGORY_WHEN);
    let p = store.push_pattern_category(PatternCategory::PatternGuard);
    let q = store.push_pattern_category(PatternCategory::PatternGuard);
    assert_eq!(p.index, Constraints::PCATEGORY_PATTERNGUARD);
    assert_eq!(q.index, Constraints::PCATEGORY_PATTERNGUARD);
    assert_eq!(store.categories.len(), 14);
    assert_eq!(store.pattern_categories.len(), 11);
    let l1 = store.push_category(Category::Lookup(sym(3, 1)));
    let l2 = store.push_category(Category::Lookup(sym(3, 1)));
    assert_eq!(l1.index, 14);
    assert_eq!(l2.index, 15);
    let c = store.push_pattern_category(PatternCategory::Ctor(TagName { name: "Ok".to_string() }));
    assert_eq!(c.index, 11);
}

#[test]
fn variables_store_no_type() {
    let mut store = Constraints::new();
    for n in [0u32, 1, 77, 0x7fff_ffff] {
        let h = store.push_type(Type::Variable(var(n)));
        assert_eq!(right_index(h), n);
    }
    let c = store.equal_types_var(var(12), no_expectation(), Category::Str, region(0, 1));
    match c {
        Constraint::Eq(constraint::Eq(t, _, cat, _)) => {
            assert_eq!(right_index(t), 12);
            assert_eq!(cat.index, Constraints::CATEGORY_STR);
        }
        other => panic!("expected Eq on a variable, got {:?}", other),
    }
    assert_eq!(store.types.len(), 3);
}

#[test]
fn and_of_many_reads_back_in_order() {
    let mut store = Constraints::new();
    let a = lookup_constraint(&mut store, 1);
    let b = lookup_constraint(&mut store, 2);
    let c = lookup_constraint(&mut store, 3);
    let first = store.and_constraint(vec![Constraint::True, Constraint::SaveTheEnvironment]);
    let all = store.and_constraint(vec![a, b, c]);
    match all {
        Constraint::And(slice) => {
            assert_eq!(slice.start(), 2);
            assert_eq!(slice.len(), 3);
            let idents: Vec<u32> = store.constraints[2..5]
                .iter()
                .map(|c| match c {
                    Constraint::Lookup(s, _, _) => s.ident_id,
                    _ => 0,
                })
                .collect();
            assert_eq!(idents, vec![1, 2, 3]);
        }
        other => panic!("expected And, got {:?}", other),
    }
    assert!(matches!(first, Constraint::And(s) if s.start() == 0 && s.len() == 2));
    assert_eq!(store.constraints.len(), 5);
}

#[test]
fn let_constraint_round_trip() {
    let mut store = Constraints::new();
    let d = lookup_constraint(&mut store, 1);
    let r = store.is_open_type(Type::Variable(var(5)));
    let defs = vec![
        (sym(3, 10), Loc::at(region(0, 4), Type::EmptyRec)),
        (sym(3, 11), Loc::at(region(5, 9), Type::Variable(var(8)))),
    ];
    let c = store.let_constraint(vec![var(1)], vec![var(2), var(3)], defs, d, r);
    let (dd, rr) = let_parts(&store, c);
    assert!(matches!(dd, Constraint::Lookup(s, _, _) if s == sym(3, 1)));
    assert!(matches!(rr, Constraint::IsOpenType(t) if right_index(t) == 5));
    let (i, pool) = let_index(c);
    assert_eq!(pool.len(), 0);
    let l = store.let_constraints[i];
    assert_eq!(l.defs_and_ret_constraint.index(), 0);
    assert_eq!((l.rigid_vars.start(), l.rigid_vars.len()), (0, 1));
    assert_eq!((l.flex_vars.start(), l.flex_vars.len()), (1, 2));
    assert_eq!(store.variables, vec![var(1), var(2), var(3)]);
    assert_eq!((l.def_types.types.start(), l.def_types.types.len()), (3, 2));
    assert!(matches!(store.types[3], Type::EmptyRec));
    assert!(matches!(store.types[4], Type::Variable(v) if v == var(8)));
    assert_eq!(store.loc_symbols, vec![(sym(3, 10), region(0, 4)), (sym(3, 11), region(5, 9))]);
}

#[test]
fn let_import_attaches_pool_in_order() {
    let mut store = Constraints::new();
    let module = lookup_constraint(&mut store, 4);
    let defs = vec![(sym(3, 20), Loc::at(region(1, 2), Type::EmptyTagUnion))];
    let pool = [var(40), var(41), var(42)];
    let c = store.let_import_constraint(vec![var(30)], defs, module, &pool);
    let (i, slice) = let_index(c);
    assert_eq!(slice.len(), 3);
    assert_eq!(&store.variables[slice.start()..slice.start() + slice.len()], &pool);
    let (d, r) = let_parts(&store, c);
    assert!(matches!(d, Constraint::True));
    assert!(matches!(r, Constraint::Lookup(s, _, _) if s == sym(3, 4)));
    let l = store.let_constraints[i];
    assert_eq!(l.flex_vars.len(), 0);
    assert_eq!(l.rigid_vars.len(), 1);
    assert_eq!(store.variables, vec![var(30), var(40), var(41), var(42)]);
}

#[test]
fn let_import_with_empty_pool() {
    let mut store = Constraints::new();
    let c = store.let_import_constraint(vec![], vec![], Constraint::True, &[]);
    let (_, slice) = let_index(c);
    assert_eq!(slice.len(), 0);
}

#[test]
fn exists_many_joins_its_constraints() {
    let mut store = Constraints::new();
    let a = lookup_constraint(&mut store, 1);
    let b = lookup_constraint(&mut store, 2);
    let c = store.exists_many(vec![var(6)], vec![a, b]);
    let (d, r) = let_parts(&store, c);
    assert!(matches!(d, Constraint::And(s) if s.start() == 0 && s.len() == 2));
    assert!(matches!(r, Constraint::True));
    let single = lookup_constraint(&mut store, 3);
    let c2 = store.exists_many(vec![], vec![single]);
    let (d2, _) = let_parts(&store, c2);
    assert!(matches!(d2, Constraint::Lookup(s, _, _) if s == sym(3, 3)));
}

#[test]
fn save_the_environment_is_found_through_scopes() {
    let mut store = Constraints::new();
    let plain = lookup_constraint(&mut store, 1);
    assert!(!store.contains_save_the_environment(&plain));
    assert!(store.contains_save_the_environment(&Constraint::SaveTheEnvironment));
    assert!(!store.contains_save_the_environment(&Constraint::True));
    let inner = store.and_constraint(vec![plain, Constraint::SaveTheEnvironment]);
    let scoped = store.exists_vars(vec![var(1)], inner);
    let outer = store.let_constraint(vec![], vec![], vec![], Constraint::True, scoped);
    assert!(store.contains_save_the_environment(&outer));
    assert!(store.contains_save_the_environment(&outer));
    let without = store.and_constraint(vec![plain, Constraint::True, plain]);
    let scoped2 = store.exists_vars(vec![], without);
    assert!(!store.contains_save_the_environment(&scoped2));
    // building more leaves the answers unchanged
    let _ = store.and_constraint(vec![scoped2, Constraint::SaveTheEnvironment]);
    assert!(store.contains_save_the_environment(&outer));
    assert!(!store.contains_save_the_environment(&scoped2));
}

#[test]
fn equal_types_with_storage_pairs_two_equalities() {
    let mut store = Constraints::new();
    let c = store.equal_types_with_storage(Type::EmptyRec, no_expectation(), Category::List, region(2, 3), var(50));
    match c {
        Constraint::And(slice) => {
            assert_eq!((slice.start(), slice.len()), (0, 2));
            match (store.constraints[0], store.constraints[1]) {
                (Constraint::Eq(constraint::Eq(t1, e1, c1, _)), Constraint::Eq(constraint::Eq(t2, e2, c2, _))) => {
                    assert_eq!(left_index(t1), Constraints::EMPTY_RECORD);
                    assert_eq!(right_index(t2), 50);
                    assert_eq!(e1.index, e2.index);
                    assert_eq!(c1.index, Constraints::CATEGORY_LIST);
                    assert_eq!(c2.index, 14);
                    assert!(matches!(store.categories[14], Category::Storage));
                }
                _ => panic!("expected two equalities"),
            }
        }
        other => panic!("expected And, got {:?}", other),
    }
    assert_eq!(store.expectations.len(), 1);
}

#[test]
fn pattern_constraints() {
    let mut store = Constraints::new();
    let expected = PExpected::ForReason(PReason::WhenMatch { index: 0 }, Type::Variable(var(3)), region(0, 1));
    let p = store.equal_pattern_types(Type::EmptyRec, expected, PatternCategory::EmptyRecord, region(0, 2));
    match p {
        Constraint::Pattern(t, e, c, _) => {
            assert_eq!(left_index(t), Constraints::EMPTY_RECORD);
            assert_eq!(e.index, 0);
            assert_eq!(c.index, Constraints::PCATEGORY_EMPTYRECORD);
        }
        other => panic!("expected Pattern, got {:?}", other),
    }
    let q = store.pattern_presence(
        Type::Variable(var(4)),
        PExpected::NoExpectation(Type::EmptyTagUnion),
        PatternCategory::EmptyRecord,
        region(0, 2),
    );
    match q {
        Constraint::PatternPresence(t, e, c, _) => {
            assert_eq!(right_index(t), 4);
            assert_eq!(e.index, 1);
            assert_eq!(c.index, 11);
        }
        other => panic!("expected PatternPresence, got {:?}", other),
    }
    assert_eq!(store.pattern_categories.len(), 12);
}

#[test]
fn includes_tag_stores_union_payload_and_category() {
    let mut store = Constraints::new();
    let c = store.includes_tag(
        Type::EmptyTagUnion,
        TagName { name: "Just".to_string() },
        vec![Type::Variable(var(1)), Type::EmptyRec],
        PatternCategory::Ctor(TagName { name: "Just".to_string() }),
        region(3, 8),
    );
    let i = match c {
        Constraint::IncludesTag(i) => i.index(),
        other => panic!("expected IncludesTag, got {:?}", other),
    };
    let tag = &store.includes_tags[i];
    assert_eq!(tag.type_index.index, 3);
    assert_eq!((tag.types.start(), tag.types.len()), (4, 2));
    assert_eq!(tag.pattern_category.index, 11);
    assert_eq!(tag.tag_name.name, "Just");
    assert_eq!(store.types.len(), 6);
    let empty = store.includes_tag(Type::EmptyRec, TagName { name: "None".to_string() }, vec![], PatternCategory::Str, region(0, 0));
    let j = match empty {
        Constraint::IncludesTag(j) => j.index(),
        _ => panic!("expected IncludesTag"),
    };
    assert_eq!((store.includes_tags[j].types.start(), store.includes_tags[j].types.len()), (7, 0));
}

#[test]
fn exhaustive_records_either_kind_of_equality() {
    let mut store = Constraints::new();
    let rows = SketchedRows { rows: vec![SketchedRow { region: region(1, 2), has_guard: false }], overall_region: region(0, 9) };
    let mark = ExhaustiveMark { variable: var(70) };
    let c = store.exhaustive(var(5), region(0, 9), Ok((Category::When, no_expectation())), rows, ExhaustiveContext::BadCase, mark);
    match c {
        Constraint::Exhaustive(Ok(e), rows, ctx, m) => {
            assert_eq!(e.index, 0);
            assert_eq!(rows.index, 0);
            assert_eq!(ctx, ExhaustiveContext::BadCase);
            assert_eq!(m, mark);
            let constraint::Eq(t, _, cat, _) = store.eq[0];
            assert_eq!(right_index(t), 5);
            assert_eq!(cat.index, 14);
        }
        other => panic!("expected an expression check, got {:?}", other),
    }
    let rows2 = SketchedRows { rows: vec![], overall_region: region(0, 1) };
    let p = store.exhaustive(
        var(6),
        region(0, 1),
        Err((PatternCategory::Int, PExpected::NoExpectation(Type::EmptyRec))),
        rows2,
        ExhaustiveContext::BadArg,
        mark,
    );
    assert!(matches!(p, Constraint::Exhaustive(Err(e), rows, _, _) if e.index == 0 && rows.index == 1));
    assert_eq!(store.pattern_eq.len(), 1);
    assert_eq!(store.pattern_categories.len(), 12);
    assert_eq!(store.eq.len(), 1);
}

#[test]
fn check_cycle_stores_regions_with_placeholder() {
    let mut store = Constraints::new();
    let mark = IllegalCycleMark { variable: var(9) };
    let c = store.check_cycle(vec![(sym(3, 1), region(0, 1)), (sym(3, 2), region(2, 3))], vec![region(10, 11)], mark);
    let i = match c {
        Constraint::CheckCycle(i, m) => {
            assert_eq!(m, mark);
            i.index()
        }
        other => panic!("expected CheckCycle, got {:?}", other),
    };
    let cycle = store.cycles[i];
    assert_eq!((cycle.def_names.start(), cycle.def_names.len()), (0, 2));
    assert_eq!((cycle.expr_regions.start(), cycle.expr_regions.len()), (2, 1));
    assert_eq!(store.loc_symbols[2], (Symbol::attr_attr(), region(10, 11)));
}

#[test]
fn store_and_store_index_record_the_file() {
    let mut store = Constraints::new();
    let c = store.store(Type::EmptyRec, var(3), "module.roc", 12);
    assert!(matches!(c, Constraint::Store(t, v, s, 12) if left_index(t) == 0 && v == var(3) && s.index == 0));
    let d = store.store_index(EitherIndex::from_right(Index::new(8)), var(4), "other.roc", 2);
    assert!(matches!(d, Constraint::Store(t, v, s, 2) if right_index(t) == 8 && v == var(4) && s.index == 1));
    assert_eq!(store.strings, vec!["module.roc", "other.roc"]);
}

#[test]
fn statistics_reports_lengths() {
    let mut store = Constraints::new();
    let a = lookup_constraint(&mut store, 1);
    let _ = store.exists_vars(vec![var(1)], a);
    let text = store.statistics(ModuleId::new(105)).unwrap();
    assert_eq!(
        text,
        "Constraints statistics for module ModuleId { id: 105 }:\n   constraints length: 2:\n   types length: 3:\n   let_constraints length: 1:\n   expectations length: 1:\n   categories length: 14:\n"
    );
    assert!(text.starts_with(&format!("Constraints statistics for module {:?}:", ModuleId::new(105))));
}

#[test]
fn handles_and_either_split() {
    let mut v: Vec<u8> = vec![1, 2];
    let i = Index::push_new(&mut v, 9);
    assert_eq!(i.index(), 2);
    let s = Slice::extend_new(&mut v, vec![4, 5, 6]);
    assert_eq!((s.start(), s.len()), (3, 3));
    assert_eq!(v, vec![1, 2, 9, 4, 5, 6]);
    let e: EitherIndex<u8, u16> = EitherIndex::from_right(Index::new(4));
    assert!(matches!(e.split(), Err(i) if i.index == 4));
    let f: EitherIndex<u8, u16> = EitherIndex::from_left(Index::new(1));
    assert!(matches!(f.split(), Ok(i) if i.index == 1));
    let empty: Slice<u8> = Slice::default();
    assert!(empty.is_empty());
    let top: EitherIndex<u8, u16> = EitherIndex::from_right(Index::new(0x7fff_ffff));
    assert!(matches!(top.split(), Err(i) if i.index == 0x7fff_ffff));
    let top_left: EitherIndex<u8, u16> = EitherIndex::from_left(Index::new(0x7fff_ffff));
    assert!(matches!(top_left.split(), Ok(i) if i.index == 0x7fff_ffff));
}

#[test]
fn constraint_fits_three_words() {
    assert!(std::mem::size_of::<Constraint>() <= 3 * std::mem::size_of::<usize>());
    assert_eq!(std::mem::size_of::<EitherIndex<Type, Variable>>(), 4);
}

#[test]
fn reasons_carry_into_expectations() {
    let mut store = Constraints::new();
    let expected = Expected::ForReason(Reason::IfCondition, Type::EmptyTagUnion, region(0, 4));
    let c = store.equal_types(Type::Variable(var(2)), expected, Category::If, region(0, 4));
    assert!(matches!(c, Constraint::Eq(constraint::Eq(t, e, cat, _)) if right_index(t) == 2 && e.index == 0 && cat.index == Constraints::CATEGORY_IF));
    assert!(matches!(store.expectations[0], Expected::ForReason(Reason::IfCondition, Type::EmptyTagUnion, _)));
}
