//! What holds of the lints as a whole.
use crate::hir::{Expr, ExprKind, HirId, HirIdSet, Node, Pat, Ty};
use crate::lints::{self, Lint};
use crate::loops;
use crate::passes::env_clone::RedundantEnvClone;
use crate::passes::host_call::{self, UnnecessaryHostFunctionCall};
use crate::passes::host_in_loop::HostInLoop;
use crate::passes::storage_in_loop::{self, SorobanStorageInLoop};
use crate::passes::symbol_new::SymbolNewForShortLiteral;
use crate::paths;
use crate::report::{AdviceView, Fact, Facts, Question};
use crate::store::{self, LatePass};
use crate::symbols;
use crate::visit::{self, Closures};
use vstd::prelude::*;

verus! {

/// The lints that are registered are those that the registry describes, in the same order.
pub proof fn law_registration_matches_metadata()
    ensures
        store::registered_lints() == lints::metadata().map_values(
            |entry: lints::LintMetadata| entry.lint,
        ),
{
    assert(store::registered_lints() =~= lints::metadata().map_values(
        |entry: lints::LintMetadata| entry.lint,
    ));
}

/// Every lint has exactly one entry in the registry, so it has exactly one category.
pub proof fn law_one_category_per_lint(lint: Lint)
    ensures
        exists|i: int|
            0 <= i < lints::metadata().len() && #[trigger] lints::metadata()[i].lint == lint,
        forall|i: int, j: int|
            0 <= i < lints::metadata().len() && 0 <= j < lints::metadata().len()
                && #[trigger] lints::metadata()[i].lint == lint
                && #[trigger] lints::metadata()[j].lint == lint ==> i == j,
{
    let entries = lints::metadata();
    assert(entries[0].lint is SorobanStorageInLoop);
    assert(entries[1].lint is RedundantEnvClone);
    assert(entries[2].lint is UnnecessaryHostFunctionCall);
    assert(entries[3].lint is HostInLoop);
    assert(entries[4].lint is SymbolNewForShortLiteral);
}

/// Every lint is registered exactly once, and exactly one registered pass is there for it.
pub proof fn law_one_pass_per_lint(lint: Lint)
    ensures
        exists|i: int|
            0 <= i < store::registered_lints().len()
                && #[trigger] store::registered_lints()[i] == lint
                && store::registered_passes()[i].lint_of() == lint,
        store::registered_lints().no_duplicates(),
        forall|i: int, j: int|
            0 <= i < store::registered_passes().len() && 0 <= j < store::registered_passes().len()
                && #[trigger] store::registered_passes()[i].lint_of() == lint
                && #[trigger] store::registered_passes()[j].lint_of() == lint ==> i == j,
{
    let registered = store::registered_lints();
    assert(registered[0] is SorobanStorageInLoop);
    assert(registered[1] is RedundantEnvClone);
    assert(registered[2] is UnnecessaryHostFunctionCall);
    assert(registered[3] is HostInLoop);
    assert(registered[4] is SymbolNewForShortLiteral);
}

/// A pass reports the expression that it was given, under its own lint.
pub proof fn law_report_names_its_lint(pass: LatePass, expr: Expr, facts: Facts)
    ensures
        pass.verdict(expr, facts) matches Some(diagnostic) ==> diagnostic.lint == pass.lint_of()
            && diagnostic.hir_id == expr.hir_id,
{
}

/// The answer to `question` is not among `facts`.
pub open spec fn unanswered(facts: Facts, question: Question) -> bool {
    match question {
        Question::ReceiverType(_) => facts.receiver_ty is Unknown,
        Question::Enclosing(_) => facts.enclosing is Unknown,
        Question::Mutated(_) => facts.mutated is Unknown,
        Question::CalleePath(_) => facts.callee_path is Unknown,
        Question::Snippet(_) => facts.snippet is Unknown,
    }
}

/// A pass never asks what it has been told, and asks nothing once everything is known.
pub proof fn law_questions_are_open(pass: LatePass, expr: Expr, facts: Facts)
    ensures
        pass.question(expr, facts) matches Some(question) ==> unanswered(facts, question),
        facts.complete() ==> pass.question(expr, facts) is None,
{
}

/// Every question is about the expression under check, one of its parts, or the loop that it
/// sits in.
pub proof fn law_questions_are_to_the_point(pass: LatePass, expr: Expr, facts: Facts)
    ensures
        match pass.question(expr, facts) {
            Some(Question::ReceiverType(hir_id)) => {
                expr.kind matches ExprKind::MethodCall { receiver, .. } && receiver.hir_id == hir_id
            },
            Some(Question::Enclosing(hir_id)) => hir_id == expr.hir_id,
            Some(Question::Mutated(hir_id)) => {
                facts.enclosing_loop() matches Some(loop_expr) && loop_expr.hir_id == hir_id
            },
            Some(Question::CalleePath(hir_id)) => {
                expr.kind matches ExprKind::Call { callee, .. } && callee.kind is Path
                    && callee.hir_id == hir_id
            },
            Some(Question::Snippet(hir_id)) => {
                expr.kind matches ExprKind::Call { args, .. } && args@.len() == 2
                    && args@[1].hir_id == hir_id
            },
            None => true,
        },
{
}

/// Expressions that are neither calls nor method calls are left alone, with nothing asked.
pub proof fn law_only_calls_are_looked_at(pass: LatePass, expr: Expr, facts: Facts)
    requires
        !(expr.kind is MethodCall),
        !(expr.kind is Call),
    ensures
        pass.question(expr, facts) is None,
        pass.verdict(expr, facts) is None,
{
}

/// Once a pass has come to a verdict, being told more does not change it.
pub proof fn law_verdict_is_stable(pass: LatePass, expr: Expr, facts: Facts, more: Facts)
    requires
        facts.extended_by(more),
        pass.question(expr, facts) is None,
    ensures
        pass.question(expr, more) is None,
        pass.verdict(expr, more) == pass.verdict(expr, facts),
{
}

/// Paths are matched by whole segments: what stands before the segments, if anything does, ends
/// with `::`.
pub proof fn law_paths_match_whole_segments(full: Seq<char>, segments: Seq<Seq<char>>)
    requires
        segments.len() > 0,
    ensures
        paths::path_matches(full, segments) == (full == paths::path_text(segments)
            || exists|before: Seq<char>|
            full == #[trigger] (before + "::"@) + paths::path_text(segments)),
{
    let text = paths::path_text(segments);
    let suffix = "::"@ + text;
    if suffix.is_suffix_of(full) {
        let before = full.take(full.len() - suffix.len());
        assert(full =~= before + full.subrange(full.len() - suffix.len(), full.len() as int));
        assert(before + suffix =~= (before + "::"@) + text);
    }
    if exists|before: Seq<char>| full == #[trigger] (before + "::"@) + text {
        let before = choose|before: Seq<char>| full == #[trigger] (before + "::"@) + text;
        assert(full.subrange(full.len() - suffix.len(), full.len() as int) =~= suffix);
    }
}

/// The last two characters of `full`.
spec fn ending(full: Seq<char>) -> (char, char) {
    (full[full.len() - 2], full.last())
}

/// A path that matches `segments` ends as the last segment does.
proof fn lemma_ending(full: Seq<char>, segments: Seq<Seq<char>>)
    requires
        paths::path_matches(full, segments),
        segments.len() > 0,
        segments.last().len() >= 2,
    ensures
        ending(full) == ending(segments.last()),
{
    let text = paths::path_text(segments);
    let last = segments.last();
    assert(text.len() >= last.len());
    assert(text[text.len() - 1] == last[last.len() - 1]);
    assert(text[text.len() - 2] == last[last.len() - 2]);
    if full != text {
        let suffix = "::"@ + text;
        let end = full.subrange(full.len() - suffix.len(), full.len() as int);
        assert(end[suffix.len() - 1] == full[full.len() - 1]);
        assert(end[suffix.len() - 2] == full[full.len() - 2]);
    }
}

/// How the paths of the storage accessors end.
proof fn lemma_storage_ending(full: Seq<char>)
    requires
        paths::any_path_matches(full, paths::storage_type_paths()),
    ensures
        ending(full) == ('g', 'e') || ending(full) == ('c', 'e') || ending(full) == ('n', 't')
            || ending(full) == ('r', 'y'),
{
    reveal_strlit("Storage");
    reveal_strlit("Instance");
    reveal_strlit("Persistent");
    reveal_strlit("Temporary");
    let table = paths::storage_type_paths();
    let i = choose|i: int|
        0 <= i < table.len() && paths::path_matches(full, #[trigger] table[i]);
    lemma_ending(full, table[i]);
}

/// How the paths of the host accessors end.
proof fn lemma_host_ending(full: Seq<char>)
    requires
        paths::any_path_matches(full, paths::host_type_paths()),
    ensures
        ending(full) == ('e', 'r') || ending(full) == ('t', 'o') || ending(full) == ('a', 't')
            || ending(full) == ('8', '1') || ending(full) == ('5', '4') || ending(full) == (
            'n',
            'g',
        ) || ending(full) == ('t', 's') || ending(full) == ('s', 's') || ending(full) == ('e', 't'),
{
    reveal_strlit("Ledger");
    reveal_strlit("Crypto");
    reveal_strlit("CryptoHazmat");
    reveal_strlit("Bls12_381");
    reveal_strlit("Bn254");
    reveal_strlit("Prng");
    reveal_strlit("Events");
    reveal_strlit("Deployer");
    reveal_strlit("DeployerWithAddress");
    reveal_strlit("DeployerWithAsset");
    let table = paths::host_type_paths();
    let i = choose|i: int|
        0 <= i < table.len() && paths::path_matches(full, #[trigger] table[i]);
    lemma_ending(full, table[i]);
}

/// How the path of the environment handle ends.
proof fn lemma_env_ending(full: Seq<char>)
    requires
        paths::path_matches(full, paths::env_path()),
    ensures
        ending(full) == ('n', 'v'),
{
    reveal_strlit("Env");
    lemma_ending(full, paths::env_path());
}

/// No type is at once a storage accessor, a host accessor, the environment handle or the host
/// object.
pub proof fn law_type_families_are_disjoint(full: Seq<char>)
    ensures
        !(paths::any_path_matches(full, paths::storage_type_paths()) && paths::any_path_matches(
            full,
            paths::host_type_paths(),
        )),
        paths::path_matches(full, paths::env_path()) ==> !paths::any_path_matches(
            full,
            paths::storage_type_paths(),
        ) && !paths::any_path_matches(full, paths::host_type_paths()),
        paths::path_matches(full, paths::host_path()) ==> !paths::any_path_matches(
            full,
            paths::storage_type_paths(),
        ) && !paths::any_path_matches(full, paths::host_type_paths()) && !paths::path_matches(
            full,
            paths::env_path(),
        ),
{
    if paths::any_path_matches(full, paths::storage_type_paths()) {
        lemma_storage_ending(full);
    }
    if paths::any_path_matches(full, paths::host_type_paths()) {
        lemma_host_ending(full);
    }
    if paths::path_matches(full, paths::env_path()) {
        lemma_env_ending(full);
    }
    if paths::path_matches(full, paths::host_path()) {
        reveal_strlit("Host");
        lemma_ending(full, paths::host_path());
    }
}

/// Of the methods on `Env` itself, the storage lint looks at `storage` alone.
pub proof fn law_env_storage_access(segment: Seq<char>, full: Seq<char>)
    requires
        paths::path_matches(full, paths::env_path()),
    ensures
        storage_in_loop::storage_access(segment, full) == (segment == "storage"@),
{
    law_type_families_are_disjoint(full);
}

/// Of the methods on `Env` itself, the host call lint looks at `current_contract_address`
/// alone: neither at the accessors (`ledger`, `crypto`, ...), which only build a wrapper, nor
/// at the methods that take arguments.
pub proof fn law_env_host_function(segment: Seq<char>, full: Seq<char>)
    requires
        paths::path_matches(full, paths::env_path()),
    ensures
        host_call::host_function(segment, full) == (segment == "current_contract_address"@),
{
    law_type_families_are_disjoint(full);
    let names = paths::env_host_method_names();
    assert(names[0] == "current_contract_address"@);
}

/// The names that the lints look for on `Env` are different names.
proof fn lemma_method_names_differ()
    ensures
        "clone"@ != "storage"@,
        "clone"@ != "current_contract_address"@,
        "storage"@ != "current_contract_address"@,
{
    reveal_strlit("clone");
    reveal_strlit("storage");
    reveal_strlit("current_contract_address");
    assert("clone"@.len() == 5);
    assert("storage"@.len() == 7);
    assert("current_contract_address"@.len() == 24);
}

/// Storage operations are left to the lint that is there for them: no call is both a storage
/// access and a host call.
pub proof fn law_storage_is_not_a_host_function(segment: Seq<char>, full: Seq<char>)
    ensures
        !(storage_in_loop::storage_access(segment, full) && host_call::host_function(
            segment,
            full,
        )),
{
    law_type_families_are_disjoint(full);
    if paths::path_matches(full, paths::env_path()) {
        law_env_storage_access(segment, full);
        law_env_host_function(segment, full);
        lemma_method_names_differ();
    }
}

/// At most one pass reports on an expression.
pub proof fn law_one_report_per_expression(a: LatePass, b: LatePass, expr: Expr, facts: Facts)
    requires
        a.verdict(expr, facts) is Some,
        b.verdict(expr, facts) is Some,
    ensures
        a.lint_of() == b.lint_of(),
{
    if let Some(full) = facts.receiver_path() {
        law_type_families_are_disjoint(full);
        if let ExprKind::MethodCall { segment, .. } = expr.kind {
            law_storage_is_not_a_host_function(segment@, full);
            if paths::path_matches(full, paths::env_path()) {
                law_env_storage_access(segment@, full);
                law_env_host_function(segment@, full);
            }
        }
    }
    lemma_method_names_differ();
}

/// References do not matter: a pass treats a receiver of type `&T` as one of type `T`.
pub proof fn law_references_are_transparent(
    pass: LatePass,
    expr: Expr,
    facts: Facts,
    ty: Ty,
    through: Facts,
)
    requires
        facts.receiver_ty == Fact::Known(ty),
        through == (Facts { receiver_ty: Fact::Known(Ty::Ref(Box::new(ty))), ..facts }),
    ensures
        pass.question(expr, through) == pass.question(expr, facts),
        pass.verdict(expr, through) == pass.verdict(expr, facts),
{
    assert(Ty::Ref(Box::new(ty)).peeled() == ty.peeled());
}

/// Taking off the references leaves no reference.
pub proof fn law_peeled_is_no_reference(ty: Ty)
    ensures
        !(ty.peeled() is Ref),
        ty.peeled().peeled() == ty.peeled(),
    decreases ty,
{
    if let Ty::Ref(inner) = ty {
        law_peeled_is_no_reference(*inner);
    }
}

/// A lint that speaks of loops reports nothing on an expression that sits in no loop, or whose
/// nearest surroundings are a closure.
pub proof fn law_loop_lints_need_a_loop(pass: LatePass, expr: Expr, facts: Facts)
    requires
        pass.lint_of() is SorobanStorageInLoop || pass.lint_of() is UnnecessaryHostFunctionCall
            || pass.lint_of() is HostInLoop,
        facts.enclosing matches Fact::Known(enclosing) ==> (enclosing matches Some(around) ==> !(
        around.kind is Loop)),
    ensures
        pass.verdict(expr, facts) is None,
{
}

/// The other lints do not care where an expression sits.
pub proof fn law_other_lints_ignore_loops(
    pass: LatePass,
    expr: Expr,
    facts: Facts,
    enclosing: Fact<Option<Expr>>,
    mutated: Fact<Option<HirIdSet>>,
)
    requires
        pass.lint_of() is RedundantEnvClone || pass.lint_of() is SymbolNewForShortLiteral,
    ensures
        ({
            let elsewhere = Facts { enclosing, mutated, ..facts };
            &&& pass.question(expr, elsewhere) == pass.question(expr, facts)
            &&& pass.verdict(expr, elsewhere) == pass.verdict(expr, facts)
        }),
{
}

/// Every method call on a storage accessor inside a loop is reported, whatever the method.
pub proof fn law_storage_calls_in_loops_are_reported(expr: Expr, facts: Facts)
    requires
        expr.kind is MethodCall,
        facts.receiver_path() matches Some(full) && paths::any_path_matches(
            full,
            paths::storage_type_paths(),
        ),
        facts.enclosing_loop() is Some,
    ensures
        SorobanStorageInLoop::question(expr, facts) is None,
        SorobanStorageInLoop::verdict(expr, facts) is Some,
{
}

/// Any use of a `Host` object in a loop is reported: neither the method, nor the arguments, nor
/// what the loop mutates is looked at.
pub proof fn law_host_uses_in_loops_are_reported(expr: Expr, facts: Facts)
    requires
        expr.kind is MethodCall,
        facts.receiver_path() matches Some(full) && paths::path_matches(full, paths::host_path()),
        facts.enclosing_loop() is Some,
    ensures
        HostInLoop::question(expr, facts) is None,
        HostInLoop::verdict(expr, facts) is Some,
{
}

/// Every `clone` of an `Env` is reported.
pub proof fn law_env_clones_are_reported(expr: Expr, facts: Facts)
    requires
        expr.kind matches ExprKind::MethodCall { segment, .. } && segment@ == "clone"@,
        facts.receiver_path() matches Some(full) && paths::path_matches(full, paths::env_path()),
    ensures
        RedundantEnvClone::question(expr, facts) is None,
        RedundantEnvClone::verdict(expr, facts) is Some,
{
}

/// A host call that is reported as unnecessary reads no local variable that the loop is seen to
/// introduce and none that it is known to mutate, not even in the body of a closure.
pub proof fn law_reported_host_call_is_invariant(
    expr: Expr,
    facts: Facts,
    loop_expr: Expr,
    hir_id: HirId,
)
    requires
        UnnecessaryHostFunctionCall::verdict(expr, facts) is Some,
        facts.enclosing_loop() == Some(loop_expr),
        visit::reads(visit::read_visits(expr)).contains(hir_id),
    ensures
        !visit::bindings(visit::binding_visits(loop_expr)).contains(hir_id),
        facts.mutated matches Fact::Known(Some(mutated)) && !mutated@.contains(hir_id),
{
    let read = visit::reads(visit::read_visits(expr));
    let i = choose|i: int| 0 <= i < read.len() && read[i] == hir_id;
    if let Fact::Known(Some(mutated)) = facts.mutated {
        assert(!loops::varies(loop_expr, mutated@, read[i]));
    }
}

/// A host call in a loop that reads no local variable at all is reported as soon as the
/// mutation analysis gives a verdict.
pub proof fn law_constant_host_calls_are_reported(expr: Expr, facts: Facts)
    requires
        UnnecessaryHostFunctionCall::suspects(expr, facts),
        facts.enclosing_loop() is Some,
        facts.mutated matches Fact::Known(mutated) && mutated is Some,
        visit::reads(visit::read_visits(expr)).len() == 0,
    ensures
        UnnecessaryHostFunctionCall::verdict(expr, facts) is Some,
{
}

/// Where the mutation analysis gives no verdict, no host call is reported.
pub proof fn law_no_verdict_no_report(expr: Expr, facts: Facts)
    requires
        facts.mutated == Fact::<Option<HirIdSet>>::Known(None),
    ensures
        UnnecessaryHostFunctionCall::verdict(expr, facts) is None,
{
}

/// A loop that mutates more leaves no call less dependent.
pub proof fn law_more_mutation_keeps_dependence(
    fewer: HirIdSet,
    more: HirIdSet,
    loop_expr: Expr,
    call: Expr,
)
    requires
        fewer@.subset_of(more@),
        loops::loop_dependent(Some(fewer), loop_expr, call),
    ensures
        loops::loop_dependent(Some(more), loop_expr, call),
{
    let read = visit::reads(visit::read_visits(call));
    let i = choose|i: int|
        0 <= i < read.len() && loops::varies(loop_expr, fewer@, #[trigger] read[i]);
    assert(loops::varies(loop_expr, more@, read[i]));
}

/// Bindings in the body of a closure are not seen: whatever it holds, the closure introduces no
/// local variable.
pub proof fn law_closure_bindings_are_not_seen(closure: Expr)
    requires
        closure.kind is Closure,
    ensures
        visit::bindings(visit::binding_visits(closure)) == Set::<HirId>::empty(),
{
    let node = Node::Expr(closure);
    assert(visit::binding_visits(closure) =~= seq![node]);
    visit::lemma_bindings_single(node);
}

/// Reads in the body of a closure are seen: a closure reads what stands in its body reads.
pub proof fn law_closure_reads_are_seen(closure: Expr, body: Seq<Node>, i: int, hir_id: HirId)
    requires
        closure.kind matches ExprKind::Closure(nodes) && nodes@ == body,
        0 <= i < body.len(),
        visit::reads(visit::node_visits(body[i], Closures::Enter)).contains(hir_id),
    ensures
        visit::reads(visit::read_visits(closure)).contains(hir_id),
{
    let own = seq![Node::Expr(closure)];
    let inside = visit::nodes_visits(body, Closures::Enter);
    lemma_nodes_reads_part(body, i, hir_id);
    visit::lemma_reads_add(own, inside);
    lemma_contains_either(visit::reads(own), visit::reads(inside), hir_id);
}

/// What the node at place `i` reads, all of them read together.
proof fn lemma_nodes_reads_part(nodes: Seq<Node>, i: int, hir_id: HirId)
    requires
        0 <= i < nodes.len(),
        visit::reads(visit::node_visits(nodes[i], Closures::Enter)).contains(hir_id),
    ensures
        visit::reads(visit::nodes_visits(nodes, Closures::Enter)).contains(hir_id),
    decreases nodes.len(),
{
    let before = visit::nodes_visits(nodes.drop_last(), Closures::Enter);
    let last = visit::node_visits(nodes.last(), Closures::Enter);
    visit::lemma_reads_add(before, last);
    if i < nodes.len() - 1 {
        lemma_nodes_reads_part(nodes.drop_last(), i, hir_id);
    }
    lemma_contains_either(visit::reads(before), visit::reads(last), hir_id);
}

/// The two expressions are the same, but for what stands in the bodies of closures and for
/// names, paths and values, which introduce nothing.
pub open spec fn expr_alike(a: Expr, b: Expr) -> bool
    decreases a,
{
    match (a.kind, b.kind) {
        (
            ExprKind::MethodCall { receiver: a_receiver, args: a_args, .. },
            ExprKind::MethodCall { receiver: b_receiver, args: b_args, .. },
        ) => expr_alike(*a_receiver, *b_receiver) && exprs_alike(a_args@, b_args@),
        (
            ExprKind::Call { callee: a_callee, args: a_args },
            ExprKind::Call { callee: b_callee, args: b_args },
        ) => expr_alike(*a_callee, *b_callee) && exprs_alike(a_args@, b_args@),
        (ExprKind::Path(_), ExprKind::Path(_)) => true,
        (ExprKind::Lit(_), ExprKind::Lit(_)) => true,
        (ExprKind::Loop(a_nodes), ExprKind::Loop(b_nodes)) => nodes_alike(a_nodes@, b_nodes@),
        (ExprKind::Closure(_), ExprKind::Closure(_)) => true,
        (ExprKind::Other(a_nodes), ExprKind::Other(b_nodes)) => nodes_alike(a_nodes@, b_nodes@),
        _ => false,
    }
}

/// The two lists hold expressions that are alike, one by one.
pub open spec fn exprs_alike(a: Seq<Expr>, b: Seq<Expr>) -> bool
    decreases a,
{
    a.len() == b.len() && (a.len() == 0 || exprs_alike(a.drop_last(), b.drop_last()) && expr_alike(
        a.last(),
        b.last(),
    ))
}

/// The two patterns introduce the same, and what stands inside them is alike.
pub open spec fn pat_alike(a: Pat, b: Pat) -> bool
    decreases a,
{
    a.kind == b.kind && nodes_alike(a.nodes@, b.nodes@)
}

/// The two nodes are alike.
pub open spec fn node_alike(a: Node, b: Node) -> bool
    decreases a,
{
    match (a, b) {
        (Node::Expr(a), Node::Expr(b)) => expr_alike(a, b),
        (Node::Pat(a), Node::Pat(b)) => pat_alike(a, b),
        _ => false,
    }
}

/// The two lists hold nodes that are alike, one by one.
pub open spec fn nodes_alike(a: Seq<Node>, b: Seq<Node>) -> bool
    decreases a,
{
    a.len() == b.len() && (a.len() == 0 || nodes_alike(a.drop_last(), b.drop_last()) && node_alike(
        a.last(),
        b.last(),
    ))
}

/// The two walks introduce the same local variables.
spec fn same_bindings(a: Seq<Node>, b: Seq<Node>) -> bool {
    visit::bindings(a) == visit::bindings(b)
}

proof fn lemma_same_bindings_add(a: Seq<Node>, b: Seq<Node>, c: Seq<Node>, d: Seq<Node>)
    requires
        same_bindings(a, b),
        same_bindings(c, d),
    ensures
        same_bindings(a + c, b + d),
{
    visit::lemma_bindings_add(a, c);
    visit::lemma_bindings_add(b, d);
}

proof fn lemma_same_bindings_single(a: Node, b: Node)
    requires
        visit::binding_of(a) == visit::binding_of(b),
    ensures
        same_bindings(seq![a], seq![b]),
{
    visit::lemma_bindings_single(a);
    visit::lemma_bindings_single(b);
}

proof fn lemma_expr_alike(a: Expr, b: Expr)
    requires
        expr_alike(a, b),
    ensures
        same_bindings(visit::expr_visits(a, Closures::Skip), visit::expr_visits(b, Closures::Skip)),
    decreases a,
{
    let own_a = seq![Node::Expr(a)];
    let own_b = seq![Node::Expr(b)];
    lemma_same_bindings_single(Node::Expr(a), Node::Expr(b));
    match (a.kind, b.kind) {
        (
            ExprKind::MethodCall { receiver: a_receiver, args: a_args, .. },
            ExprKind::MethodCall { receiver: b_receiver, args: b_args, .. },
        ) => {
            let a_chain = visit::expr_visits(*a_receiver, Closures::Skip);
            let b_chain = visit::expr_visits(*b_receiver, Closures::Skip);
            let a_rest = visit::exprs_visits(a_args@, Closures::Skip);
            let b_rest = visit::exprs_visits(b_args@, Closures::Skip);
            lemma_expr_alike(*a_receiver, *b_receiver);
            lemma_exprs_alike(a_args@, b_args@);
            lemma_same_bindings_add(a_chain, b_chain, a_rest, b_rest);
            lemma_same_bindings_add(own_a, own_b, a_chain + a_rest, b_chain + b_rest);
        },
        (
            ExprKind::Call { callee: a_callee, args: a_args },
            ExprKind::Call { callee: b_callee, args: b_args },
        ) => {
            let a_chain = visit::expr_visits(*a_callee, Closures::Skip);
            let b_chain = visit::expr_visits(*b_callee, Closures::Skip);
            let a_rest = visit::exprs_visits(a_args@, Closures::Skip);
            let b_rest = visit::exprs_visits(b_args@, Closures::Skip);
            lemma_expr_alike(*a_callee, *b_callee);
            lemma_exprs_alike(a_args@, b_args@);
            lemma_same_bindings_add(a_chain, b_chain, a_rest, b_rest);
            lemma_same_bindings_add(own_a, own_b, a_chain + a_rest, b_chain + b_rest);
        },
        (ExprKind::Loop(a_nodes), ExprKind::Loop(b_nodes)) => {
            lemma_nodes_alike(a_nodes@, b_nodes@);
            lemma_same_bindings_add(
                own_a,
                own_b,
                visit::nodes_visits(a_nodes@, Closures::Skip),
                visit::nodes_visits(b_nodes@, Closures::Skip),
            );
        },
        (ExprKind::Other(a_nodes), ExprKind::Other(b_nodes)) => {
            lemma_nodes_alike(a_nodes@, b_nodes@);
            lemma_same_bindings_add(
                own_a,
                own_b,
                visit::nodes_visits(a_nodes@, Closures::Skip),
                visit::nodes_visits(b_nodes@, Closures::Skip),
            );
        },
        _ => {
            assert(visit::expr_visits(a, Closures::Skip) =~= own_a);
            assert(visit::expr_visits(b, Closures::Skip) =~= own_b);
        },
    }
}

proof fn lemma_exprs_alike(a: Seq<Expr>, b: Seq<Expr>)
    requires
        exprs_alike(a, b),
    ensures
        same_bindings(
            visit::exprs_visits(a, Closures::Skip),
            visit::exprs_visits(b, Closures::Skip),
        ),
    decreases a,
{
    if a.len() > 0 {
        lemma_exprs_alike(a.drop_last(), b.drop_last());
        lemma_expr_alike(a.last(), b.last());
        lemma_same_bindings_add(
            visit::exprs_visits(a.drop_last(), Closures::Skip),
            visit::exprs_visits(b.drop_last(), Closures::Skip),
            visit::expr_visits(a.last(), Closures::Skip),
            visit::expr_visits(b.last(), Closures::Skip),
        );
    }
}

proof fn lemma_node_alike(a: Node, b: Node)
    requires
        node_alike(a, b),
    ensures
        same_bindings(visit::node_visits(a, Closures::Skip), visit::node_visits(b, Closures::Skip)),
    decreases a,
{
    match (a, b) {
        (Node::Expr(a_expr), Node::Expr(b_expr)) => {
            lemma_expr_alike(a_expr, b_expr);
        },
        (Node::Pat(a_pat), Node::Pat(b_pat)) => {
            lemma_same_bindings_single(a, b);
            lemma_nodes_alike(a_pat.nodes@, b_pat.nodes@);
            lemma_same_bindings_add(
                seq![a],
                seq![b],
                visit::nodes_visits(a_pat.nodes@, Closures::Skip),
                visit::nodes_visits(b_pat.nodes@, Closures::Skip),
            );
        },
        _ => {},
    }
}

proof fn lemma_nodes_alike(a: Seq<Node>, b: Seq<Node>)
    requires
        nodes_alike(a, b),
    ensures
        same_bindings(
            visit::nodes_visits(a, Closures::Skip),
            visit::nodes_visits(b, Closures::Skip),
        ),
    decreases a,
{
    if a.len() > 0 {
        lemma_nodes_alike(a.drop_last(), b.drop_last());
        lemma_node_alike(a.last(), b.last());
        lemma_same_bindings_add(
            visit::nodes_visits(a.drop_last(), Closures::Skip),
            visit::nodes_visits(b.drop_last(), Closures::Skip),
            visit::node_visits(a.last(), Closures::Skip),
            visit::node_visits(b.last(), Closures::Skip),
        );
    }
}

/// Rewriting the bodies of closures in the loop, however deep they stand, does not change
/// whether a call depends on the loop.
pub proof fn law_closure_bodies_in_the_loop_do_not_matter(
    mutated: Option<HirIdSet>,
    loop_a: Expr,
    loop_b: Expr,
    call: Expr,
)
    requires
        expr_alike(loop_a, loop_b),
    ensures
        loops::loop_dependent(mutated, loop_a, call) == loops::loop_dependent(
            mutated,
            loop_b,
            call,
        ),
{
    lemma_expr_alike(loop_a, loop_b);
    if let Some(mutated_ids) = mutated {
        let read = visit::reads(visit::read_visits(call));
        assert forall|i: int| 0 <= i < read.len() implies loops::varies(
            loop_a,
            mutated_ids@,
            #[trigger] read[i],
        ) == loops::varies(loop_b, mutated_ids@, read[i]) by {}
    }
}

/// What stands at place `i` is walked as part of the whole.
proof fn lemma_nodes_visits_part(nodes: Seq<Node>, i: int)
    requires
        0 <= i < nodes.len(),
    ensures
        visit::bindings(visit::node_visits(nodes[i], Closures::Skip)).subset_of(
            visit::bindings(visit::nodes_visits(nodes, Closures::Skip)),
        ),
    decreases nodes.len(),
{
    visit::lemma_bindings_add(
        visit::nodes_visits(nodes.drop_last(), Closures::Skip),
        visit::node_visits(nodes.last(), Closures::Skip),
    );
    if i < nodes.len() - 1 {
        lemma_nodes_visits_part(nodes.drop_last(), i);
    }
}

/// A pattern introduces the local variable that it names itself, and all that the patterns
/// inside it introduce.
pub proof fn law_nested_bindings_are_captured(pat: Pat, i: int)
    ensures
        visit::binding_of(Node::Pat(pat)) matches Some(hir_id) ==> visit::bindings(
            visit::pat_visits(pat, Closures::Skip),
        ).contains(hir_id),
        0 <= i < pat.nodes@.len() ==> visit::bindings(
            visit::node_visits(pat.nodes@[i], Closures::Skip),
        ).subset_of(visit::bindings(visit::pat_visits(pat, Closures::Skip))),
{
    let node = Node::Pat(pat);
    visit::lemma_bindings_add(seq![node], visit::nodes_visits(pat.nodes@, Closures::Skip));
    visit::lemma_bindings_single(node);
    if 0 <= i < pat.nodes@.len() {
        lemma_nodes_visits_part(pat.nodes@, i);
    }
}

/// A loop introduces all that its body introduces.
pub proof fn law_loop_bindings_are_captured(loop_expr: Expr, i: int)
    requires
        loop_expr.kind matches ExprKind::Loop(nodes) && 0 <= i < nodes@.len(),
    ensures
        loop_expr.kind matches ExprKind::Loop(nodes) && visit::bindings(
            visit::node_visits(nodes@[i], Closures::Skip),
        ).subset_of(visit::bindings(visit::binding_visits(loop_expr))),
{
    if let ExprKind::Loop(nodes) = loop_expr.kind {
        lemma_nodes_visits_part(nodes@, i);
        visit::lemma_bindings_add(
            seq![Node::Expr(loop_expr)],
            visit::nodes_visits(nodes@, Closures::Skip),
        );
    }
}

/// What the expression at place `i` reads, all of them read together.
proof fn lemma_exprs_reads_part(exprs: Seq<Expr>, i: int, hir_id: HirId)
    requires
        0 <= i < exprs.len(),
        visit::reads(visit::read_visits(exprs[i])).contains(hir_id),
    ensures
        visit::reads(visit::exprs_visits(exprs, Closures::Enter)).contains(hir_id),
    decreases exprs.len(),
{
    let before = visit::exprs_visits(exprs.drop_last(), Closures::Enter);
    let last = visit::read_visits(exprs.last());
    visit::lemma_reads_add(before, last);
    if i < exprs.len() - 1 {
        lemma_exprs_reads_part(exprs.drop_last(), i, hir_id);
    }
    lemma_contains_either(visit::reads(before), visit::reads(last), hir_id);
}

/// What one of two sequences holds, both in a row hold.
proof fn lemma_contains_either(a: Seq<HirId>, b: Seq<HirId>, hir_id: HirId)
    ensures
        (a + b).contains(hir_id) == (a.contains(hir_id) || b.contains(hir_id)),
{
    if a.contains(hir_id) {
        let i = choose|i: int| 0 <= i < a.len() && a[i] == hir_id;
        assert((a + b)[i] == hir_id);
    }
    if b.contains(hir_id) {
        let i = choose|i: int| 0 <= i < b.len() && b[i] == hir_id;
        assert((a + b)[a.len() + i] == hir_id);
    }
    if (a + b).contains(hir_id) {
        let i = choose|i: int| 0 <= i < (a + b).len() && (a + b)[i] == hir_id;
        if i < a.len() {
            assert(a[i] == hir_id);
        } else {
            assert(b[i - a.len()] == hir_id);
        }
    }
}

/// A method call reads what its receiver chain reads and what its arguments read.
pub proof fn law_calls_read_receiver_and_arguments(
    expr: Expr,
    receiver: Expr,
    args: Seq<Expr>,
    hir_id: HirId,
)
    requires
        expr.kind matches ExprKind::MethodCall { receiver: r, args: a, .. } && *r == receiver && a@
            == args,
        visit::reads(visit::read_visits(receiver)).contains(hir_id) || exists|i: int|
            0 <= i < args.len() && visit::reads(#[trigger] visit::read_visits(args[i])).contains(
                hir_id,
            ),
    ensures
        visit::reads(visit::read_visits(expr)).contains(hir_id),
{
    let own = seq![Node::Expr(expr)];
    let chain = visit::read_visits(receiver);
    let rest = visit::exprs_visits(args, Closures::Enter);
    visit::lemma_reads_add(chain, rest);
    visit::lemma_reads_add(own, chain + rest);
    lemma_contains_either(visit::reads(chain), visit::reads(rest), hir_id);
    lemma_contains_either(visit::reads(own), visit::reads(chain + rest), hir_id);
    if !visit::reads(chain).contains(hir_id) {
        let i = choose|i: int|
            0 <= i < args.len() && visit::reads(#[trigger] visit::read_visits(args[i])).contains(
                hir_id,
            );
        lemma_exprs_reads_part(args, i, hir_id);
    }
}

/// The symbol lint offers a replacement exactly where the source text of the literal is at
/// hand; the replacement can be applied by machine and quotes that text.
pub proof fn law_symbol_advice(expr: Expr, facts: Facts)
    requires
        SymbolNewForShortLiteral::verdict(expr, facts) is Some,
    ensures
        facts.snippet matches Fact::Known(snippet) && match SymbolNewForShortLiteral::verdict(
            expr,
            facts,
        )->0.advice {
            AdviceView::Suggestion { replacement, applicability, .. } => {
                &&& snippet matches Some(text)
                &&& replacement == "symbol_short!("@ + text@ + ")"@
                &&& applicability is MachineApplicable
            },
            AdviceView::Help(_) => snippet is None,
        },
{
}

/// Only the symbol lint ever offers a replacement; the others leave the fix to the reader.
pub proof fn law_only_symbols_have_suggestions(pass: LatePass, expr: Expr, facts: Facts)
    ensures
        pass.verdict(expr, facts) matches Some(diagnostic) && diagnostic.advice is Suggestion
            ==> pass.lint_of() is SymbolNewForShortLiteral,
{
}

/// A short symbol takes as many bytes as it has characters, nine at most.
pub proof fn law_short_symbols_fit(text: Seq<char>)
    requires
        symbols::valid_short_symbol(text),
    ensures
        1 <= vstd::utf8::encode_utf8(text).len() <= 9,
{
    symbols::lemma_symbol_chars_take_a_byte(text);
}

} // verus!
