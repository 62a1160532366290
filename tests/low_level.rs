use roc_constraint::low_level::HigherOrder;
use roc_constraint::symbol::{ModuleId, Symbol};

fn s(n: u32) -> Symbol {
    Symbol::new(ModuleId::new(7), n)
}

#[test]
fn arity_and_argument_positions() {
    let cases = [
        (HigherOrder::ListMap { xs: s(0) }, 1, 2, 1),
        (HigherOrder::ListMap2 { xs: s(0), ys: s(1) }, 2, 3, 2),
        (HigherOrder::ListMap3 { xs: s(0), ys: s(1), zs: s(2) }, 3, 4, 3),
        (HigherOrder::ListMap4 { xs: s(0), ys: s(1), zs: s(2), ws: s(3) }, 4, 5, 4),
        (HigherOrder::ListMapWithIndex { xs: s(0) }, 2, 2, 1),
        (HigherOrder::ListKeepIf { xs: s(0) }, 1, 2, 1),
        (HigherOrder::ListWalk { xs: s(0), state: s(1) }, 2, 3, 2),
        (HigherOrder::ListWalkUntil { xs: s(0), state: s(1) }, 2, 3, 2),
        (HigherOrder::ListWalkBackwards { xs: s(0), state: s(1) }, 2, 3, 2),
        (HigherOrder::ListKeepOks { xs: s(0) }, 1, 2, 1),
        (HigherOrder::ListKeepErrs { xs: s(0) }, 1, 2, 1),
        (HigherOrder::ListSortWith { xs: s(0) }, 2, 2, 1),
        (HigherOrder::ListAny { xs: s(0) }, 1, 2, 1),
        (HigherOrder::ListAll { xs: s(0) }, 1, 2, 1),
        (HigherOrder::ListFindUnsafe { xs: s(0) }, 1, 2, 1),
        (HigherOrder::DictWalk { xs: s(0), state: s(1) }, 2, 3, 2),
    ];
    for (op, arity, closure, function) in cases {
        assert_eq!(op.function_arity(), arity, "{:?}", op);
        assert_eq!(op.closure_data_index(), closure, "{:?}", op);
        assert_eq!(op.function_index(), function, "{:?}", op);
    }
}
