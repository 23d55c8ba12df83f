use soroban_cost_lints::hir::{
    Expr, ExprKind, HirId, HirIdSet, LitKind, Node, Pat, PatKind, QPath, Res, Ty,
};
use soroban_cost_lints::passes::host_call::is_host_function;
use soroban_cost_lints::passes::storage_in_loop::is_storage_access;
use soroban_cost_lints::report::{Advice, Applicability, Diagnostic, Fact, Question};
use soroban_cost_lints::{
    register_lints, Facts, HostInLoop, LatePass, Lint, LintStore, RedundantEnvClone,
    SorobanStorageInLoop, Step, SymbolNewForShortLiteral, UnnecessaryHostFunctionCall,
    HOST_IN_LOOP, REDUNDANT_ENV_CLONE, SOROBAN_STORAGE_IN_LOOP, SYMBOL_NEW_FOR_SHORT_LITERAL,
    UNNECESSARY_HOST_FUNCTION_CALL,
};

const EXPR: u32 = 1;
const RECEIVER: u32 = 2;
const CALLEE: u32 = 3;
const FIRST: u32 = 4;
const SECOND: u32 = 5;
const LOOP: u32 = 6;
const ENV: u32 = 100;
const INDEX: u32 = 101;
const COUNTER: u32 = 102;

fn id(local_id: u32) -> HirId {
    HirId { owner: 3, local_id }
}

fn local(hir_id: u32, binding: u32) -> Expr {
    let res = Res::Local(id(binding));
    Expr { hir_id: id(hir_id), kind: ExprKind::Path(QPath::Resolved { qualified: false, res }) }
}

fn method(name: &str, args: Vec<Expr>) -> Expr {
    Expr {
        hir_id: id(EXPR),
        kind: ExprKind::MethodCall {
            segment: name.to_string(),
            receiver: Box::new(local(RECEIVER, ENV)),
            args,
        },
    }
}

fn for_loop() -> Expr {
    let index = Node::Pat(Pat { kind: PatKind::Binding(id(INDEX)), nodes: vec![] });
    Expr { hir_id: id(LOOP), kind: ExprKind::Loop(vec![index]) }
}

fn adt(path: &str) -> Ty {
    Ty::Adt(path.to_string())
}

fn ids(list: &[u32]) -> HirIdSet {
    let mut set = HirIdSet::new();
    for i in list {
        set.insert(id(*i));
    }
    set
}

fn string(hir_id: u32, text: &str) -> Expr {
    Expr { hir_id: id(hir_id), kind: ExprKind::Lit(LitKind::Str(text.to_string())) }
}

fn call(args: Vec<Expr>) -> Expr {
    let callee = Expr { hir_id: id(CALLEE), kind: ExprKind::Path(QPath::TypeRelative) };
    Expr { hir_id: id(EXPR), kind: ExprKind::Call { callee: Box::new(callee), args } }
}

fn symbol_new(text: &str) -> Expr {
    call(vec![local(FIRST, ENV), string(SECOND, text)])
}

/// What is known of a method call in a `for` loop that mutates `COUNTER`.
fn in_loop(receiver: &str) -> Facts {
    let mut facts = Facts::new();
    facts.receiver_ty = Fact::Known(adt(receiver));
    facts.enclosing = Fact::Known(Some(for_loop()));
    facts.mutated = Fact::Known(Some(ids(&[COUNTER])));
    facts
}

fn callee(path: &str, snippet: Option<&str>) -> Facts {
    let mut facts = Facts::new();
    facts.callee_path = Fact::Known(Some(path.to_string()));
    facts.snippet = Fact::Known(snippet.map(|s| s.to_string()));
    facts
}

fn asked(step: Step) -> Question {
    match step {
        Step::Ask(question) => question,
        other => panic!("{other:?}"),
    }
}

fn reported(step: Step) -> Diagnostic {
    match step {
        Step::Report(diagnostic) => diagnostic,
        other => panic!("{other:?}"),
    }
}

fn quiet(step: Step) -> bool {
    matches!(step, Step::Quiet)
}

fn passes() -> Vec<LatePass> {
    let mut store = LintStore::new();
    register_lints(&mut store);
    store.late_passes
}

/// The lints that report on an expression.
fn lints_on(expr: &Expr, facts: &Facts) -> Vec<Lint> {
    passes()
        .iter()
        .filter_map(|pass| match pass.check_expr(expr, facts) {
            Step::Report(diagnostic) => Some(diagnostic.lint),
            _ => None,
        })
        .collect()
}

fn help(diagnostic: &Diagnostic) -> &'static str {
    match diagnostic.advice {
        Advice::Help(help) => help,
        _ => panic!("{diagnostic:?}"),
    }
}

#[test]
fn storage_in_loop_is_reported() {
    let found = reported(
        SorobanStorageInLoop
            .check_expr(&method("get", vec![]), &in_loop("soroban_sdk::storage::Persistent")),
    );
    assert_eq!(found.lint, SOROBAN_STORAGE_IN_LOOP);
    assert_eq!(found.hir_id, id(EXPR));
    assert_eq!(found.message, "storage operation inside a loop");
    assert_eq!(
        help(&found),
        "move storage operations out of the loop or accumulate mutations in memory first"
    );
}

#[test]
fn storage_in_loop_covers_every_accessor_and_method() {
    for name in ["Storage", "Instance", "Persistent", "Temporary"] {
        for segment in ["get", "set", "has", "remove", "extend_ttl", "anything"] {
            let facts = in_loop(&format!("soroban_sdk::storage::{name}"));
            assert_eq!(
                lints_on(&method(segment, vec![]), &facts),
                vec![SOROBAN_STORAGE_IN_LOOP]
            );
        }
    }
}

#[test]
fn env_storage_in_loop_is_reported() {
    let facts = in_loop("soroban_sdk::Env");
    assert_eq!(lints_on(&method("storage", vec![]), &facts), vec![SOROBAN_STORAGE_IN_LOOP]);
    assert_eq!(lints_on(&method("storages", vec![]), &facts), vec![]);
    assert_eq!(lints_on(&method("ledger", vec![]), &facts), vec![]);
}

#[test]
fn storage_pass_asks_for_the_receiver_and_then_the_loop() {
    let expr = method("get", vec![]);
    let mut facts = Facts::new();
    let pass = SorobanStorageInLoop;
    assert_eq!(asked(pass.check_expr(&expr, &facts)), Question::ReceiverType(id(RECEIVER)));
    facts.receiver_ty = Fact::Known(adt("soroban_sdk::storage::Instance"));
    assert_eq!(asked(pass.check_expr(&expr, &facts)), Question::Enclosing(id(EXPR)));
    facts.enclosing = Fact::Known(Some(for_loop()));
    assert_eq!(reported(pass.check_expr(&expr, &facts)).lint, SOROBAN_STORAGE_IN_LOOP);
}

#[test]
fn other_receivers_settle_without_the_loop() {
    let expr = method("get", vec![]);
    for ty in [adt("alloc::vec::Vec"), Ty::Other, Ty::Ref(Box::new(Ty::Other))] {
        let mut facts = Facts::new();
        facts.receiver_ty = Fact::Known(ty);
        for pass in passes() {
            assert!(quiet(pass.check_expr(&expr, &facts)));
        }
    }
}

#[test]
fn nothing_in_a_loop_lint_without_a_loop() {
    for receiver in [
        "soroban_sdk::storage::Storage",
        "soroban_sdk::ledger::Ledger",
        "soroban_env_host::host::Host",
    ] {
        let mut facts = in_loop(receiver);
        facts.enclosing = Fact::Known(None);
        assert_eq!(lints_on(&method("get", vec![]), &facts), vec![]);
        let closure = Expr { hir_id: id(LOOP), kind: ExprKind::Closure(vec![]) };
        facts.enclosing = Fact::Known(Some(closure));
        assert_eq!(lints_on(&method("get", vec![]), &facts), vec![]);
    }
}

#[test]
fn env_clone_is_reported_anywhere() {
    let mut facts = Facts::new();
    facts.receiver_ty = Fact::Known(adt("soroban_sdk::Env"));
    let found = reported(RedundantEnvClone.check_expr(&method("clone", vec![]), &facts));
    assert_eq!(found.lint, REDUNDANT_ENV_CLONE);
    assert_eq!(found.hir_id, id(EXPR));
    assert_eq!(found.message, "redundant clone on Env object");
    assert_eq!(help(&found), "pass Env by reference or value instead of cloning");
    assert_eq!(
        lints_on(&method("clone", vec![]), &in_loop("soroban_sdk::Env")),
        vec![REDUNDANT_ENV_CLONE]
    );
}

#[test]
fn env_clone_pass_looks_at_clone_alone() {
    let facts = Facts::new();
    assert!(quiet(RedundantEnvClone.check_expr(&method("cloned", vec![]), &facts)));
    assert!(quiet(RedundantEnvClone.check_expr(&method("to_owned", vec![]), &facts)));
    assert_eq!(
        asked(RedundantEnvClone.check_expr(&method("clone", vec![]), &facts)),
        Question::ReceiverType(id(RECEIVER))
    );
    let mut facts = Facts::new();
    facts.receiver_ty = Fact::Known(adt("soroban_sdk::Address"));
    assert!(quiet(RedundantEnvClone.check_expr(&method("clone", vec![]), &facts)));
}

#[test]
fn references_to_the_receiver_do_not_matter() {
    let mut facts = Facts::new();
    facts.receiver_ty =
        Fact::Known(Ty::Ref(Box::new(Ty::Ref(Box::new(adt("soroban_sdk::Env"))))));
    assert_eq!(lints_on(&method("clone", vec![]), &facts), vec![REDUNDANT_ENV_CLONE]);
}

#[test]
fn invariant_host_call_is_reported() {
    let found = reported(
        UnnecessaryHostFunctionCall
            .check_expr(&method("sequence", vec![]), &in_loop("soroban_sdk::ledger::Ledger")),
    );
    assert_eq!(found.lint, UNNECESSARY_HOST_FUNCTION_CALL);
    assert_eq!(found.hir_id, id(EXPR));
    assert_eq!(found.message, "unnecessary host function call inside loop");
    assert_eq!(help(&found), "call this function outside the loop and reuse the result");
}

#[test]
fn varying_host_calls_are_not_reported() {
    let facts = in_loop("soroban_sdk::crypto::Crypto");
    assert_eq!(lints_on(&method("sha256", vec![local(FIRST, INDEX)]), &facts), vec![]);
    assert_eq!(lints_on(&method("sha256", vec![local(FIRST, COUNTER)]), &facts), vec![]);
    assert_eq!(
        lints_on(&method("sha256", vec![local(FIRST, ENV)]), &facts),
        vec![UNNECESSARY_HOST_FUNCTION_CALL]
    );
}

#[test]
fn reads_inside_a_closure_count() {
    // for i in 0..n { h.f(|| i) }
    let closure = |binding| Expr {
        hir_id: id(FIRST),
        kind: ExprKind::Closure(vec![Node::Expr(local(SECOND, binding))]),
    };
    let facts = in_loop("soroban_sdk::crypto::Crypto");
    assert_eq!(lints_on(&method("f", vec![closure(INDEX)]), &facts), vec![]);
    assert_eq!(lints_on(&method("f", vec![closure(COUNTER)]), &facts), vec![]);
    assert_eq!(
        lints_on(&method("f", vec![closure(ENV)]), &facts),
        vec![UNNECESSARY_HOST_FUNCTION_CALL]
    );
}

#[test]
fn bindings_inside_a_closure_are_not_seen() {
    let mut facts = in_loop("soroban_sdk::crypto::Crypto");
    let index = Node::Pat(Pat { kind: PatKind::Binding(id(INDEX)), nodes: vec![] });
    let closure = Expr { hir_id: id(SECOND), kind: ExprKind::Closure(vec![index]) };
    let kind = ExprKind::Loop(vec![Node::Expr(closure)]);
    facts.enclosing = Fact::Known(Some(Expr { hir_id: id(LOOP), kind }));
    assert_eq!(
        lints_on(&method("f", vec![local(FIRST, INDEX)]), &facts),
        vec![UNNECESSARY_HOST_FUNCTION_CALL]
    );
}

#[test]
fn types_that_only_resemble_the_sdk_are_left_alone() {
    for (name, receiver) in [
        ("clone", "my_soroban_sdk::Env"),
        ("storage", "my_soroban_sdk::Env"),
        ("get", "my_soroban_sdk::storage::Instance"),
        ("sequence", "my_soroban_sdk::ledger::Ledger"),
        ("invoke", "ghost::Host"),
    ] {
        assert_eq!(lints_on(&method(name, vec![]), &in_loop(receiver)), vec![], "{receiver}");
    }
    let facts = callee("my_soroban_sdk::Symbol::new", Some("x"));
    assert_eq!(lints_on(&symbol_new("balance"), &facts), vec![]);
}

#[test]
fn host_calls_without_a_mutation_verdict_are_not_reported() {
    let mut facts = in_loop("soroban_sdk::ledger::Ledger");
    facts.mutated = Fact::Known(None);
    assert_eq!(lints_on(&method("sequence", vec![]), &facts), vec![]);
}

#[test]
fn host_call_pass_asks_step_by_step() {
    let expr = method("sequence", vec![]);
    let pass = UnnecessaryHostFunctionCall;
    let mut facts = Facts::new();
    assert_eq!(asked(pass.check_expr(&expr, &facts)), Question::ReceiverType(id(RECEIVER)));
    facts.receiver_ty = Fact::Known(adt("soroban_sdk::ledger::Ledger"));
    assert_eq!(asked(pass.check_expr(&expr, &facts)), Question::Enclosing(id(EXPR)));
    facts.enclosing = Fact::Known(Some(for_loop()));
    assert_eq!(asked(pass.check_expr(&expr, &facts)), Question::Mutated(id(LOOP)));
    facts.mutated = Fact::Known(Some(ids(&[])));
    assert_eq!(reported(pass.check_expr(&expr, &facts)).lint, UNNECESSARY_HOST_FUNCTION_CALL);
}

#[test]
fn env_host_methods() {
    let env = "soroban_sdk::Env";
    assert!(is_host_function("current_contract_address", env));
    for name in ["ledger", "crypto", "invoke_contract", "authorize_as_current_contract"] {
        assert!(!is_host_function(name, env));
    }
    assert!(!is_host_function("current_contract_address", "soroban_sdk::Address"));
    assert_eq!(
        lints_on(&method("current_contract_address", vec![]), &in_loop(env)),
        vec![UNNECESSARY_HOST_FUNCTION_CALL]
    );
}

#[test]
fn storage_and_host_calls_are_told_apart() {
    assert!(is_storage_access("get", "soroban_sdk::storage::Temporary"));
    assert!(!is_host_function("get", "soroban_sdk::storage::Temporary"));
    assert!(is_host_function("publish", "soroban_sdk::events::Events"));
    assert!(!is_storage_access("publish", "soroban_sdk::events::Events"));
    assert!(is_storage_access("storage", "soroban_sdk::Env"));
    assert!(!is_storage_access("current_contract_address", "soroban_sdk::Env"));
}

#[test]
fn host_in_loop_is_reported() {
    let expr = method("invoke", vec![local(FIRST, INDEX)]);
    let found =
        reported(HostInLoop.check_expr(&expr, &in_loop("soroban_env_host::host::Host")));
    assert_eq!(found.lint, HOST_IN_LOOP);
    assert_eq!(found.hir_id, id(EXPR));
    assert_eq!(found.message, "use of Host object inside a loop");
    assert_eq!(help(&found), "consider moving the Host usage outside the loop if possible");
}

#[test]
fn host_pass_never_asks_for_mutations() {
    let expr = method("invoke", vec![]);
    let mut facts = Facts::new();
    assert_eq!(asked(HostInLoop.check_expr(&expr, &facts)), Question::ReceiverType(id(RECEIVER)));
    facts.receiver_ty = Fact::Known(adt("host::Host"));
    assert_eq!(asked(HostInLoop.check_expr(&expr, &facts)), Question::Enclosing(id(EXPR)));
    facts.enclosing = Fact::Known(Some(for_loop()));
    assert_eq!(reported(HostInLoop.check_expr(&expr, &facts)).lint, HOST_IN_LOOP);
}

#[test]
fn short_symbol_gets_a_suggestion() {
    let facts = callee("soroban_sdk::Symbol::new", Some("\"balance\""));
    let found = reported(SymbolNewForShortLiteral.check_expr(&symbol_new("balance"), &facts));
    assert_eq!(found.lint, SYMBOL_NEW_FOR_SHORT_LITERAL);
    assert_eq!(found.hir_id, id(EXPR));
    assert_eq!(
        found.message,
        "Symbol::new called with a short literal that could use symbol_short! macro"
    );
    match found.advice {
        Advice::Suggestion { help, replacement, applicability } => {
            assert_eq!(help, "use symbol_short! macro for compile-time symbol creation");
            assert_eq!(replacement, "symbol_short!(\"balance\")");
            assert_eq!(applicability, Applicability::MachineApplicable);
        }
        other => panic!("{other:?}"),
    }
}

#[test]
fn short_symbol_without_source_text_gets_a_note() {
    let facts = callee("soroban_sdk::Symbol::new", None);
    let found = reported(SymbolNewForShortLiteral.check_expr(&symbol_new("balance"), &facts));
    assert_eq!(help(&found), "use symbol_short! macro for compile-time symbol creation");
}

#[test]
fn symbol_pass_asks_for_the_callee_and_then_the_text() {
    let expr = symbol_new("abcdefghi");
    let pass = SymbolNewForShortLiteral;
    let mut facts = Facts::new();
    assert_eq!(asked(pass.check_expr(&expr, &facts)), Question::CalleePath(id(CALLEE)));
    facts.callee_path = Fact::Known(Some("soroban_sdk::Symbol::new".to_string()));
    assert_eq!(asked(pass.check_expr(&expr, &facts)), Question::Snippet(id(SECOND)));
    facts.snippet = Fact::Known(None);
    assert_eq!(reported(pass.check_expr(&expr, &facts)).lint, SYMBOL_NEW_FOR_SHORT_LITERAL);
}

#[test]
fn other_symbols_are_left_alone() {
    let facts = callee("soroban_sdk::Symbol::new", Some("x"));
    let pass = SymbolNewForShortLiteral;
    for text in ["", "abcdefghij", "a-b", "é"] {
        assert!(quiet(pass.check_expr(&symbol_new(text), &facts)), "{text}");
    }
    // The second argument is no literal.
    assert!(quiet(pass.check_expr(&call(vec![local(FIRST, ENV), local(SECOND, INDEX)]), &facts)));
    let number = Expr { hir_id: id(SECOND), kind: ExprKind::Lit(LitKind::Other) };
    assert!(quiet(pass.check_expr(&call(vec![local(FIRST, ENV), number]), &facts)));
    // There are not two arguments.
    assert!(quiet(pass.check_expr(&call(vec![string(FIRST, "a")]), &facts)));
    let three = vec![local(FIRST, ENV), string(SECOND, "a"), string(7, "b")];
    assert!(quiet(pass.check_expr(&call(three), &facts)));
}

#[test]
fn other_callees_are_left_alone() {
    let pass = SymbolNewForShortLiteral;
    let facts = callee("soroban_sdk::String::from_str", Some("x"));
    assert!(quiet(pass.check_expr(&symbol_new("balance"), &facts)));
    let mut facts = callee("soroban_sdk::Symbol::new", Some("x"));
    facts.callee_path = Fact::Known(None);
    assert!(quiet(pass.check_expr(&symbol_new("balance"), &facts)));
    // The callee is no path.
    let expr = Expr {
        hir_id: id(EXPR),
        kind: ExprKind::Call {
            callee: Box::new(method("f", vec![])),
            args: vec![local(FIRST, ENV), string(SECOND, "a")],
        },
    };
    assert!(quiet(pass.check_expr(&expr, &Facts::new())));
}

#[test]
fn expressions_that_are_no_calls_are_left_alone() {
    for expr in [for_loop(), local(EXPR, ENV), string(EXPR, "a")] {
        for pass in passes() {
            assert!(quiet(pass.check_expr(&expr, &Facts::new())));
        }
    }
}

#[test]
fn a_verdict_does_not_change_with_more_facts() {
    let expr = method("clone", vec![]);
    let mut facts = Facts::new();
    facts.receiver_ty = Fact::Known(adt("soroban_sdk::Env"));
    assert_eq!(lints_on(&expr, &facts), vec![REDUNDANT_ENV_CLONE]);
    facts.enclosing = Fact::Known(Some(for_loop()));
    facts.mutated = Fact::Known(None);
    facts.callee_path = Fact::Known(None);
    facts.snippet = Fact::Known(None);
    assert_eq!(lints_on(&expr, &facts), vec![REDUNDANT_ENV_CLONE]);
    for pass in passes() {
        assert!(!matches!(pass.check_expr(&expr, &facts), Step::Ask(_)));
    }
}
