use soroban_cost_lints::hir::{
    Expr, ExprKind, HirId, HirIdSet, LitKind, Node, Pat, PatKind, QPath, Res, Ty,
};
use soroban_cost_lints::loops::{depends_on_loop_state, enclosing_loop};
use soroban_cost_lints::visit::{BindingCollector, LocalReadCollector};

fn id(local_id: u32) -> HirId {
    HirId { owner: 7, local_id }
}

fn expr(kind: ExprKind) -> Expr {
    Expr { hir_id: id(1000), kind }
}

fn local(binding: u32) -> Expr {
    expr(ExprKind::Path(QPath::Resolved { qualified: false, res: Res::Local(id(binding)) }))
}

fn method(receiver: Expr, name: &str, args: Vec<Expr>) -> Expr {
    expr(ExprKind::MethodCall { segment: name.to_string(), receiver: Box::new(receiver), args })
}

fn binding(local_id: u32) -> Node {
    Node::Pat(Pat { kind: PatKind::Binding(id(local_id)), nodes: vec![] })
}

fn tuple(nodes: Vec<Node>) -> Pat {
    Pat { kind: PatKind::Other, nodes }
}

fn set(ids: &[u32]) -> HirIdSet {
    let mut set = HirIdSet::new();
    for i in ids {
        set.insert(id(*i));
    }
    set
}

fn reads(expr: &Expr) -> Vec<HirId> {
    let mut collector = LocalReadCollector::default();
    collector.visit_expr(expr);
    collector.reads
}

#[test]
fn sets_tell_owners_and_places_apart() {
    let mut set = HirIdSet::default();
    assert!(set.insert(HirId { owner: 0, local_id: u32::MAX }));
    assert!(!set.insert(HirId { owner: 0, local_id: u32::MAX }));
    assert!(set.insert(HirId { owner: u32::MAX, local_id: 0 }));
    assert!(set.contains(&HirId { owner: 0, local_id: u32::MAX }));
    assert!(set.contains(&HirId { owner: u32::MAX, local_id: 0 }));
    assert!(!set.contains(&HirId { owner: 0, local_id: 0 }));
    assert!(!set.contains(&HirId { owner: 1, local_id: 0 }));
    assert!(!set.contains(&HirId { owner: u32::MAX, local_id: u32::MAX }));
}

#[test]
fn peels_every_reference() {
    let env = || Ty::Adt("soroban_sdk::Env".to_string());
    assert_eq!(env().adt_path_text(), Some("soroban_sdk::Env"));
    let twice = Ty::Ref(Box::new(Ty::Ref(Box::new(env()))));
    assert_eq!(twice.adt_path_text(), Some("soroban_sdk::Env"));
    assert!(matches!(twice.peel_refs(), Ty::Adt(_)));
    assert_eq!(Ty::Ref(Box::new(Ty::Other)).adt_path_text(), None);
    assert!(matches!(Ty::Other.peel_refs(), Ty::Other));
}

#[test]
fn collects_nested_bindings() {
    // (a, (b, c))
    let pat = tuple(vec![binding(1), Node::Pat(tuple(vec![binding(2), binding(3)]))]);
    let mut collector = BindingCollector::default();
    collector.visit_pat(&pat);
    for i in 1..=3 {
        assert!(collector.bindings.contains(&id(i)));
    }
    assert!(!collector.bindings.contains(&id(4)));
}

#[test]
fn collects_a_binding_and_its_subpattern() {
    // whole @ (part, _)
    let pat = Pat {
        kind: PatKind::Binding(id(1)),
        nodes: vec![Node::Pat(tuple(vec![binding(2)]))],
    };
    let mut collector = BindingCollector::default();
    collector.visit_pat(&pat);
    assert!(collector.bindings.contains(&id(1)));
    assert!(collector.bindings.contains(&id(2)));
}

#[test]
fn collects_bindings_across_visits() {
    let mut collector = BindingCollector::default();
    collector.visit_pat(&tuple(vec![binding(1)]));
    collector.visit_expr(&expr(ExprKind::Loop(vec![binding(2)])));
    collector.visit_expr(&method(
        expr(ExprKind::Other(vec![binding(3)])),
        "f",
        vec![expr(ExprKind::Call {
            callee: Box::new(expr(ExprKind::Other(vec![binding(4)]))),
            args: vec![expr(ExprKind::Other(vec![binding(5)]))],
        })],
    ));
    for i in 1..=5 {
        assert!(collector.bindings.contains(&id(i)));
    }
}

#[test]
fn looks_into_closures_for_reads_alone() {
    let closure = || expr(ExprKind::Closure(vec![binding(1), Node::Expr(local(2))]));
    let mut collector = BindingCollector::default();
    collector.visit_expr(&closure());
    assert!(!collector.bindings.contains(&id(1)));
    assert_eq!(reads(&closure()), vec![id(2)]);
    assert_eq!(
        reads(&method(local(3), "map", vec![closure(), local(4)])),
        vec![id(3), id(2), id(4)]
    );
}

#[test]
fn collects_reads_in_order() {
    // a.f(b, g(c, a)).h(d)
    let inner = expr(ExprKind::Call {
        callee: Box::new(expr(ExprKind::Path(QPath::TypeRelative))),
        args: vec![local(3), local(1)],
    });
    let call = method(method(local(1), "f", vec![local(2), inner]), "h", vec![local(4)]);
    assert_eq!(reads(&call), vec![id(1), id(2), id(3), id(1), id(4)]);
}

#[test]
fn collects_reads_inside_patterns() {
    let mut collector = LocalReadCollector::default();
    collector.visit_pat(&tuple(vec![binding(1), Node::Expr(local(2))]));
    assert_eq!(collector.reads, vec![id(2)]);
}

#[test]
fn other_paths_and_literals_are_no_reads() {
    let item = QPath::Resolved { qualified: false, res: Res::Other };
    assert_eq!(reads(&expr(ExprKind::Path(item))), vec![]);
    let qualified = QPath::Resolved { qualified: true, res: Res::Local(id(1)) };
    assert_eq!(reads(&expr(ExprKind::Path(qualified))), vec![]);
    assert_eq!(reads(&expr(ExprKind::Path(QPath::TypeRelative))), vec![]);
    assert_eq!(reads(&expr(ExprKind::Lit(LitKind::Str("x".to_string())))), vec![]);
    assert_eq!(reads(&expr(ExprKind::Lit(LitKind::Other))), vec![]);
}

#[test]
fn calls_on_loop_variables_depend_on_the_loop() {
    // for i in .. { env.ledger().f(i) }
    let loop_expr = expr(ExprKind::Loop(vec![binding(1)]));
    let call = method(local(2), "f", vec![local(1)]);
    assert!(depends_on_loop_state(&Some(set(&[])), &loop_expr, &call));
    let constant = method(local(2), "f", vec![]);
    assert!(!depends_on_loop_state(&Some(set(&[])), &loop_expr, &constant));
}

#[test]
fn calls_on_mutated_variables_depend_on_the_loop() {
    let loop_expr = expr(ExprKind::Loop(vec![]));
    let call = method(local(2), "f", vec![local(3)]);
    assert!(depends_on_loop_state(&Some(set(&[3])), &loop_expr, &call));
    assert!(depends_on_loop_state(&Some(set(&[2, 9])), &loop_expr, &call));
    assert!(!depends_on_loop_state(&Some(set(&[9])), &loop_expr, &call));
    assert!(!depends_on_loop_state(&Some(set(&[])), &loop_expr, &call));
}

#[test]
fn without_a_verdict_every_call_depends_on_the_loop() {
    let loop_expr = expr(ExprKind::Loop(vec![]));
    let call = expr(ExprKind::Lit(LitKind::Other));
    assert!(depends_on_loop_state(&None, &loop_expr, &call));
}

#[test]
fn only_a_loop_encloses() {
    assert!(enclosing_loop(&None).is_none());
    assert!(enclosing_loop(&Some(expr(ExprKind::Closure(vec![])))).is_none());
    let found = Some(Expr { hir_id: id(42), kind: ExprKind::Loop(vec![]) });
    assert_eq!(enclosing_loop(&found).map(|e| e.hir_id), Some(id(42)));
}

#[test]
fn closure_bodies_in_the_loop_do_not_change_dependence() {
    // loop { let f = || { .. }; h.f(..) }
    let loop_with = |body| {
        let closure = Node::Expr(expr(ExprKind::Closure(body)));
        expr(ExprKind::Loop(vec![Node::Expr(expr(ExprKind::Other(vec![closure])))]))
    };
    let call = method(local(1), "f", vec![local(2)]);
    for body in [vec![], vec![binding(1)], vec![binding(2), Node::Expr(local(3))]] {
        assert!(!depends_on_loop_state(&Some(set(&[3])), &loop_with(body), &call));
    }
}

#[test]
fn closures_that_a_call_is_given_make_it_dependent() {
    // for i in 0..n { h.f(|| i) }
    let loop_expr = expr(ExprKind::Loop(vec![binding(2)]));
    let call_with = |read| {
        method(local(1), "f", vec![expr(ExprKind::Closure(vec![Node::Expr(local(read))]))])
    };
    assert!(depends_on_loop_state(&Some(set(&[])), &loop_expr, &call_with(2)));
    assert!(depends_on_loop_state(&Some(set(&[3])), &loop_expr, &call_with(3)));
    assert!(!depends_on_loop_state(&Some(set(&[3])), &loop_expr, &call_with(4)));
}
