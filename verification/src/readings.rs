//! Which local variables a walk finds, stated over the tree that is walked.
use crate::hir::{Expr, ExprKind, HirId, HirIdSet, Node, Pat, PatKind, QPath, Res};
use crate::loops;
use crate::visit::{self, Closures};
use vstd::prelude::*;

verus! {

/// Somewhere in `expr`, at whatever depth and be it in the body of a closure, stands a plain
/// path to the local variable `hir_id`.
pub open spec fn mentions(expr: Expr, hir_id: HirId) -> bool
    decreases expr,
{
    match expr.kind {
        ExprKind::Path(path) => path == (QPath::Resolved {
            qualified: false,
            res: Res::Local(hir_id),
        }),
        ExprKind::Lit(_) => false,
        ExprKind::MethodCall { receiver, args, .. } => {
            ||| mentions(*receiver, hir_id)
            ||| exists|i: int| 0 <= i < args@.len() && mentions(#[trigger] args@[i], hir_id)
        },
        ExprKind::Call { callee, args } => {
            ||| mentions(*callee, hir_id)
            ||| exists|i: int| 0 <= i < args@.len() && mentions(#[trigger] args@[i], hir_id)
        },
        ExprKind::Loop(nodes) => exists|i: int|
            0 <= i < nodes@.len() && node_mentions(#[trigger] nodes@[i], hir_id),
        ExprKind::Closure(nodes) => exists|i: int|
            0 <= i < nodes@.len() && node_mentions(#[trigger] nodes@[i], hir_id),
        ExprKind::Other(nodes) => exists|i: int|
            0 <= i < nodes@.len() && node_mentions(#[trigger] nodes@[i], hir_id),
    }
}

/// Somewhere in `node` stands a plain path to the local variable `hir_id`.
pub open spec fn node_mentions(node: Node, hir_id: HirId) -> bool
    decreases node,
{
    match node {
        Node::Expr(expr) => mentions(expr, hir_id),
        Node::Pat(pat) => exists|i: int|
            0 <= i < pat.nodes@.len() && node_mentions(#[trigger] pat.nodes@[i], hir_id),
    }
}

/// Somewhere in `expr`, at whatever depth but not in the body of a closure, stands a pattern
/// that introduces the local variable `hir_id`.
pub open spec fn introduces(expr: Expr, hir_id: HirId) -> bool
    decreases expr,
{
    match expr.kind {
        ExprKind::Path(_) => false,
        ExprKind::Lit(_) => false,
        ExprKind::Closure(_) => false,
        ExprKind::MethodCall { receiver, args, .. } => {
            ||| introduces(*receiver, hir_id)
            ||| exists|i: int| 0 <= i < args@.len() && introduces(#[trigger] args@[i], hir_id)
        },
        ExprKind::Call { callee, args } => {
            ||| introduces(*callee, hir_id)
            ||| exists|i: int| 0 <= i < args@.len() && introduces(#[trigger] args@[i], hir_id)
        },
        ExprKind::Loop(nodes) => exists|i: int|
            0 <= i < nodes@.len() && node_introduces(#[trigger] nodes@[i], hir_id),
        ExprKind::Other(nodes) => exists|i: int|
            0 <= i < nodes@.len() && node_introduces(#[trigger] nodes@[i], hir_id),
    }
}

/// Somewhere in `node`, the bodies of closures left out, stands a pattern that introduces the
/// local variable `hir_id`.
pub open spec fn node_introduces(node: Node, hir_id: HirId) -> bool
    decreases node,
{
    match node {
        Node::Expr(expr) => introduces(expr, hir_id),
        Node::Pat(pat) => {
            ||| pat.kind == PatKind::Binding(hir_id)
            ||| exists|i: int|
                0 <= i < pat.nodes@.len() && node_introduces(#[trigger] pat.nodes@[i], hir_id)
        },
    }
}

proof fn lemma_contains_add(a: Seq<HirId>, b: Seq<HirId>, hir_id: HirId)
    ensures
        (a + b).contains(hir_id) == (a.contains(hir_id) || b.contains(hir_id)),
{
    if a.contains(hir_id) {
        let i = choose|i: int| 0 <= i < a.len() && a[i] == hir_id;
        assert((a + b)[i] == hir_id);
    }
    if b.contains(hir_id) {
        let i = choose|i: int| 0 <= i < b.len() && b[i] == hir_id;
        assert((a + b)[a.len() + i] == hir_id);
    }
}

/// The read walk over an expression finds a local variable exactly where the expression
/// mentions it, whatever it stands behind: a borrow, an operator, a field, a tuple, a block, a
/// call, a loop or a closure.
pub proof fn law_reads_are_mentions(expr: Expr, hir_id: HirId)
    ensures
        visit::reads(visit::read_visits(expr)).contains(hir_id) == mentions(expr, hir_id),
    decreases expr,
{
    let own = seq![Node::Expr(expr)];
    visit::lemma_reads_single(Node::Expr(expr));
    match expr.kind {
        ExprKind::MethodCall { receiver, args, .. } => {
            let chain = visit::read_visits(*receiver);
            let rest = visit::exprs_visits(args@, Closures::Enter);
            law_reads_are_mentions(*receiver, hir_id);
            lemma_exprs_reads(args@, hir_id);
            visit::lemma_reads_add(chain, rest);
            visit::lemma_reads_add(own, chain + rest);
            lemma_contains_add(visit::reads(chain), visit::reads(rest), hir_id);
            lemma_contains_add(visit::reads(own), visit::reads(chain + rest), hir_id);
        },
        ExprKind::Call { callee, args } => {
            let chain = visit::read_visits(*callee);
            let rest = visit::exprs_visits(args@, Closures::Enter);
            law_reads_are_mentions(*callee, hir_id);
            lemma_exprs_reads(args@, hir_id);
            visit::lemma_reads_add(chain, rest);
            visit::lemma_reads_add(own, chain + rest);
            lemma_contains_add(visit::reads(chain), visit::reads(rest), hir_id);
            lemma_contains_add(visit::reads(own), visit::reads(chain + rest), hir_id);
        },
        ExprKind::Path(path) => {
            assert(visit::read_visits(expr) =~= own);
            if path == (QPath::Resolved { qualified: false, res: Res::Local(hir_id) }) {
                assert(seq![hir_id][0] == hir_id);
            }
        },
        ExprKind::Lit(_) => {
            assert(visit::read_visits(expr) =~= own);
        },
        ExprKind::Loop(nodes) | ExprKind::Closure(nodes) | ExprKind::Other(nodes) => {
            let inside = visit::nodes_visits(nodes@, Closures::Enter);
            lemma_nodes_reads(nodes@, hir_id);
            visit::lemma_reads_add(own, inside);
            lemma_contains_add(visit::reads(own), visit::reads(inside), hir_id);
        },
    }
}

proof fn lemma_exprs_reads(exprs: Seq<Expr>, hir_id: HirId)
    ensures
        visit::reads(visit::exprs_visits(exprs, Closures::Enter)).contains(hir_id) == exists|
            i: int,
        |
            0 <= i < exprs.len() && mentions(#[trigger] exprs[i], hir_id),
    decreases exprs,
{
    if exprs.len() > 0 {
        let init = exprs.drop_last();
        let before = visit::exprs_visits(init, Closures::Enter);
        let last = visit::read_visits(exprs.last());
        lemma_exprs_reads(init, hir_id);
        law_reads_are_mentions(exprs.last(), hir_id);
        visit::lemma_reads_add(before, last);
        lemma_contains_add(visit::reads(before), visit::reads(last), hir_id);
        assert(forall|i: int| 0 <= i < init.len() ==> init[i] == #[trigger] exprs[i]);
        if exists|i: int| 0 <= i < exprs.len() && mentions(#[trigger] exprs[i], hir_id) {
            let i = choose|i: int| 0 <= i < exprs.len() && mentions(#[trigger] exprs[i], hir_id);
            if i < init.len() {
                assert(mentions(init[i], hir_id));
            }
        }
        if exists|i: int| 0 <= i < init.len() && mentions(#[trigger] init[i], hir_id) {
            let i = choose|i: int| 0 <= i < init.len() && mentions(#[trigger] init[i], hir_id);
            assert(mentions(exprs[i], hir_id));
        }
    }
}

proof fn lemma_nodes_reads(nodes: Seq<Node>, hir_id: HirId)
    ensures
        visit::reads(visit::nodes_visits(nodes, Closures::Enter)).contains(hir_id) == exists|
            i: int,
        |
            0 <= i < nodes.len() && node_mentions(#[trigger] nodes[i], hir_id),
    decreases nodes,
{
    if nodes.len() > 0 {
        let init = nodes.drop_last();
        let before = visit::nodes_visits(init, Closures::Enter);
        let last = visit::node_visits(nodes.last(), Closures::Enter);
        lemma_nodes_reads(init, hir_id);
        lemma_node_reads(nodes.last(), hir_id);
        visit::lemma_reads_add(before, last);
        lemma_contains_add(visit::reads(before), visit::reads(last), hir_id);
        if exists|i: int| 0 <= i < nodes.len() && node_mentions(#[trigger] nodes[i], hir_id) {
            let i = choose|i: int|
                0 <= i < nodes.len() && node_mentions(#[trigger] nodes[i], hir_id);
            if i < init.len() {
                assert(node_mentions(init[i], hir_id));
            }
        }
        if exists|i: int| 0 <= i < init.len() && node_mentions(#[trigger] init[i], hir_id) {
            let i = choose|i: int|
                0 <= i < init.len() && node_mentions(#[trigger] init[i], hir_id);
            assert(node_mentions(nodes[i], hir_id));
        }
    }
}

proof fn lemma_node_reads(node: Node, hir_id: HirId)
    ensures
        visit::reads(visit::node_visits(node, Closures::Enter)).contains(hir_id) == node_mentions(
            node,
            hir_id,
        ),
    decreases node,
{
    match node {
        Node::Expr(expr) => {
            law_reads_are_mentions(expr, hir_id);
        },
        Node::Pat(pat) => {
            let inside = visit::nodes_visits(pat.nodes@, Closures::Enter);
            visit::lemma_reads_single(node);
            lemma_nodes_reads(pat.nodes@, hir_id);
            visit::lemma_reads_add(seq![node], inside);
            lemma_contains_add(visit::reads(seq![node]), visit::reads(inside), hir_id);
        },
    }
}

/// The expressions inside a pattern are read with it.
pub proof fn law_pattern_reads_are_mentions(pat: Pat, hir_id: HirId)
    ensures
        visit::reads(visit::pat_visits(pat, Closures::Enter)).contains(hir_id) == node_mentions(
            Node::Pat(pat),
            hir_id,
        ),
{
    lemma_node_reads(Node::Pat(pat), hir_id);
}

/// The binding walk over an expression finds a local variable exactly where the expression
/// introduces it, outside the bodies of closures.
pub proof fn law_bindings_are_introductions(expr: Expr, hir_id: HirId)
    ensures
        visit::bindings(visit::binding_visits(expr)).contains(hir_id) == introduces(expr, hir_id),
    decreases expr,
{
    let own = seq![Node::Expr(expr)];
    visit::lemma_bindings_single(Node::Expr(expr));
    match expr.kind {
        ExprKind::MethodCall { receiver, args, .. } => {
            let chain = visit::binding_visits(*receiver);
            let rest = visit::exprs_visits(args@, Closures::Skip);
            law_bindings_are_introductions(*receiver, hir_id);
            lemma_exprs_bindings(args@, hir_id);
            visit::lemma_bindings_add(chain, rest);
            visit::lemma_bindings_add(own, chain + rest);
        },
        ExprKind::Call { callee, args } => {
            let chain = visit::binding_visits(*callee);
            let rest = visit::exprs_visits(args@, Closures::Skip);
            law_bindings_are_introductions(*callee, hir_id);
            lemma_exprs_bindings(args@, hir_id);
            visit::lemma_bindings_add(chain, rest);
            visit::lemma_bindings_add(own, chain + rest);
        },
        ExprKind::Path(_) | ExprKind::Lit(_) | ExprKind::Closure(_) => {
            assert(visit::binding_visits(expr) =~= own);
        },
        ExprKind::Loop(nodes) | ExprKind::Other(nodes) => {
            lemma_nodes_bindings(nodes@, hir_id);
            visit::lemma_bindings_add(own, visit::nodes_visits(nodes@, Closures::Skip));
        },
    }
}

proof fn lemma_exprs_bindings(exprs: Seq<Expr>, hir_id: HirId)
    ensures
        visit::bindings(visit::exprs_visits(exprs, Closures::Skip)).contains(hir_id) == exists|
            i: int,
        |
            0 <= i < exprs.len() && introduces(#[trigger] exprs[i], hir_id),
    decreases exprs,
{
    if exprs.len() == 0 {
        visit::lemma_bindings_empty();
    } else {
        let init = exprs.drop_last();
        lemma_exprs_bindings(init, hir_id);
        law_bindings_are_introductions(exprs.last(), hir_id);
        visit::lemma_bindings_add(
            visit::exprs_visits(init, Closures::Skip),
            visit::binding_visits(exprs.last()),
        );
        if exists|i: int| 0 <= i < exprs.len() && introduces(#[trigger] exprs[i], hir_id) {
            let i = choose|i: int|
                0 <= i < exprs.len() && introduces(#[trigger] exprs[i], hir_id);
            if i < init.len() {
                assert(introduces(init[i], hir_id));
            }
        }
        if exists|i: int| 0 <= i < init.len() && introduces(#[trigger] init[i], hir_id) {
            let i = choose|i: int| 0 <= i < init.len() && introduces(#[trigger] init[i], hir_id);
            assert(introduces(exprs[i], hir_id));
        }
    }
}

proof fn lemma_nodes_bindings(nodes: Seq<Node>, hir_id: HirId)
    ensures
        visit::bindings(visit::nodes_visits(nodes, Closures::Skip)).contains(hir_id) == exists|
            i: int,
        |
            0 <= i < nodes.len() && node_introduces(#[trigger] nodes[i], hir_id),
    decreases nodes,
{
    if nodes.len() == 0 {
        visit::lemma_bindings_empty();
    } else {
        let init = nodes.drop_last();
        lemma_nodes_bindings(init, hir_id);
        lemma_node_bindings(nodes.last(), hir_id);
        visit::lemma_bindings_add(
            visit::nodes_visits(init, Closures::Skip),
            visit::node_visits(nodes.last(), Closures::Skip),
        );
        if exists|i: int| 0 <= i < nodes.len() && node_introduces(#[trigger] nodes[i], hir_id) {
            let i = choose|i: int|
                0 <= i < nodes.len() && node_introduces(#[trigger] nodes[i], hir_id);
            if i < init.len() {
                assert(node_introduces(init[i], hir_id));
            }
        }
        if exists|i: int| 0 <= i < init.len() && node_introduces(#[trigger] init[i], hir_id) {
            let i = choose|i: int|
                0 <= i < init.len() && node_introduces(#[trigger] init[i], hir_id);
            assert(node_introduces(nodes[i], hir_id));
        }
    }
}

proof fn lemma_node_bindings(node: Node, hir_id: HirId)
    ensures
        visit::bindings(visit::node_visits(node, Closures::Skip)).contains(hir_id)
            == node_introduces(node, hir_id),
    decreases node,
{
    match node {
        Node::Expr(expr) => {
            law_bindings_are_introductions(expr, hir_id);
        },
        Node::Pat(pat) => {
            visit::lemma_bindings_single(node);
            lemma_nodes_bindings(pat.nodes@, hir_id);
            visit::lemma_bindings_add(
                seq![node],
                visit::nodes_visits(pat.nodes@, Closures::Skip),
            );
        },
    }
}

/// The binding walk over a pattern finds the local variable that the pattern names, and those
/// that what stands inside it introduces.
pub proof fn law_pattern_bindings_are_introductions(pat: Pat, hir_id: HirId)
    ensures
        visit::bindings(visit::pat_visits(pat, Closures::Skip)).contains(hir_id)
            == node_introduces(Node::Pat(pat), hir_id),
{
    lemma_node_bindings(Node::Pat(pat), hir_id);
}

/// A call depends on a loop exactly where some local variable that the call mentions is
/// introduced by the loop or mutated in it, or where nothing is known of the mutations.
pub proof fn law_dependence(mutated: Option<HirIdSet>, loop_expr: Expr, call: Expr)
    ensures
        loops::loop_dependent(mutated, loop_expr, call) == match mutated {
            None => true,
            Some(ids) => exists|hir_id: HirId| #[trigger]
                mentions(call, hir_id) && (introduces(loop_expr, hir_id) || ids@.contains(hir_id)),
        },
{
    if let Some(ids) = mutated {
        let read = visit::reads(visit::read_visits(call));
        if loops::loop_dependent(mutated, loop_expr, call) {
            let i = choose|i: int|
                0 <= i < read.len() && loops::varies(loop_expr, ids@, #[trigger] read[i]);
            assert(read.contains(read[i]));
            law_reads_are_mentions(call, read[i]);
            law_bindings_are_introductions(loop_expr, read[i]);
        }
        assert forall|hir_id: HirId| #[trigger]
            mentions(call, hir_id) && (introduces(loop_expr, hir_id) || ids@.contains(
                hir_id,
            )) implies loops::loop_dependent(mutated, loop_expr, call) by {
            law_reads_are_mentions(call, hir_id);
            law_bindings_are_introductions(loop_expr, hir_id);
            let i = choose|i: int| 0 <= i < read.len() && read[i] == hir_id;
            assert(loops::varies(loop_expr, ids@, read[i]));
        }
    }
}

/// What the parts of an expression read, one part after the other.
pub open spec fn reads_in_order(nodes: Seq<Node>) -> Seq<HirId> {
    nodes.map_values(
        |node: Node|
            match node {
                Node::Expr(expr) => visit::reads(visit::read_visits(expr)),
                Node::Pat(pat) => visit::reads(visit::pat_visits(pat, Closures::Enter)),
            },
    ).flatten()
}

/// The reads of an expression are those of its parts, in the order in which the parts stand:
/// the receiver or callee first, then the arguments from left to right.
pub proof fn law_reads_come_in_order(expr: Expr)
    ensures
        visit::reads(visit::read_visits(expr)) == match expr.kind {
            ExprKind::Path(QPath::Resolved { qualified: false, res: Res::Local(hir_id) }) => seq![
                hir_id,
            ],
            ExprKind::Path(_) => Seq::empty(),
            ExprKind::Lit(_) => Seq::empty(),
            ExprKind::MethodCall { receiver, args, .. } => reads_in_order(
                seq![Node::Expr(*receiver)] + args@.map_values(|arg: Expr| Node::Expr(arg)),
            ),
            ExprKind::Call { callee, args } => reads_in_order(
                seq![Node::Expr(*callee)] + args@.map_values(|arg: Expr| Node::Expr(arg)),
            ),
            ExprKind::Loop(nodes) => reads_in_order(nodes@),
            ExprKind::Closure(nodes) => reads_in_order(nodes@),
            ExprKind::Other(nodes) => reads_in_order(nodes@),
        },
{
    let own = seq![Node::Expr(expr)];
    visit::lemma_reads_single(Node::Expr(expr));
    match expr.kind {
        ExprKind::MethodCall { receiver, args, .. } => {
            lemma_call_reads(expr, *receiver, args@);
        },
        ExprKind::Call { callee, args } => {
            lemma_call_reads(expr, *callee, args@);
        },
        ExprKind::Path(_) | ExprKind::Lit(_) => {
            assert(visit::read_visits(expr) =~= own);
        },
        ExprKind::Loop(nodes) | ExprKind::Closure(nodes) | ExprKind::Other(nodes) => {
            lemma_nodes_in_order(nodes@);
            visit::lemma_reads_add(own, visit::nodes_visits(nodes@, Closures::Enter));
        },
    }
}

/// The reads of a pattern are those of its parts, in the order in which the parts stand.
pub proof fn law_pattern_reads_come_in_order(pat: Pat)
    ensures
        visit::reads(visit::pat_visits(pat, Closures::Enter)) == reads_in_order(pat.nodes@),
{
    visit::lemma_reads_single(Node::Pat(pat));
    lemma_nodes_in_order(pat.nodes@);
    visit::lemma_reads_add(
        seq![Node::Pat(pat)],
        visit::nodes_visits(pat.nodes@, Closures::Enter),
    );
}

proof fn lemma_call_reads(expr: Expr, head: Expr, args: Seq<Expr>)
    requires
        visit::read_visits(expr) == seq![Node::Expr(expr)] + (visit::read_visits(head)
            + visit::exprs_visits(args, Closures::Enter)),
        visit::read_of(Node::Expr(expr)) is None,
    ensures
        visit::reads(visit::read_visits(expr)) == reads_in_order(
            seq![Node::Expr(head)] + args.map_values(|arg: Expr| Node::Expr(arg)),
        ),
{
    let own = seq![Node::Expr(expr)];
    let chain = visit::read_visits(head);
    let rest = visit::exprs_visits(args, Closures::Enter);
    let arg_nodes = args.map_values(|arg: Expr| Node::Expr(arg));
    visit::lemma_reads_single(Node::Expr(expr));
    visit::lemma_reads_add(chain, rest);
    visit::lemma_reads_add(own, chain + rest);
    lemma_exprs_as_nodes(args);
    lemma_nodes_in_order(seq![Node::Expr(head)] + arg_nodes);
    lemma_nodes_visits_cons(Node::Expr(head), arg_nodes);
}

/// A list of expressions is walked like the list of nodes that they make up.
proof fn lemma_exprs_as_nodes(exprs: Seq<Expr>)
    ensures
        visit::exprs_visits(exprs, Closures::Enter) == visit::nodes_visits(
            exprs.map_values(|e: Expr| Node::Expr(e)),
            Closures::Enter,
        ),
    decreases exprs.len(),
{
    let nodes = exprs.map_values(|e: Expr| Node::Expr(e));
    if exprs.len() > 0 {
        lemma_exprs_as_nodes(exprs.drop_last());
        assert(nodes.drop_last() =~= exprs.drop_last().map_values(|e: Expr| Node::Expr(e)));
        assert(nodes.last() == Node::Expr(exprs.last()));
        assert(visit::node_visits(nodes.last(), Closures::Enter) == visit::expr_visits(
            exprs.last(),
            Closures::Enter,
        ));
    }
}

proof fn lemma_nodes_visits_cons(first: Node, rest: Seq<Node>)
    ensures
        visit::nodes_visits(seq![first] + rest, Closures::Enter) == visit::node_visits(
            first,
            Closures::Enter,
        ) + visit::nodes_visits(rest, Closures::Enter),
    decreases rest.len(),
{
    let all = seq![first] + rest;
    if rest.len() == 0 {
        assert(all.drop_last() =~= Seq::empty());
        assert(all.last() == first);
        assert(visit::nodes_visits(all.drop_last(), Closures::Enter) =~= Seq::empty());
    } else {
        assert(all.drop_last() =~= seq![first] + rest.drop_last());
        assert(all.last() == rest.last());
        lemma_nodes_visits_cons(first, rest.drop_last());
    }
    assert(visit::nodes_visits(all, Closures::Enter) =~= visit::node_visits(first, Closures::Enter)
        + visit::nodes_visits(rest, Closures::Enter));
}

proof fn lemma_nodes_in_order(nodes: Seq<Node>)
    ensures
        visit::reads(visit::nodes_visits(nodes, Closures::Enter)) == reads_in_order(nodes),
    decreases nodes.len(),
{
    let f = |node: Node|
        match node {
            Node::Expr(expr) => visit::reads(visit::read_visits(expr)),
            Node::Pat(pat) => visit::reads(visit::pat_visits(pat, Closures::Enter)),
        };
    if nodes.len() > 0 {
        let init = nodes.drop_last();
        lemma_nodes_in_order(init);
        visit::lemma_reads_add(
            visit::nodes_visits(init, Closures::Enter),
            visit::node_visits(nodes.last(), Closures::Enter),
        );
        let parts = nodes.map_values(f);
        parts.lemma_flatten_and_flatten_alt_are_equivalent();
        parts.drop_last().lemma_flatten_and_flatten_alt_are_equivalent();
        assert(parts.drop_last() =~= init.map_values(f));
        assert(parts.last() == f(nodes.last()));
    }
}

/// `part` stands directly inside `expr`.
pub open spec fn stands_in(part: Node, expr: Expr) -> bool {
    match expr.kind {
        ExprKind::MethodCall { receiver, args, .. } => {
            ||| part == Node::Expr(*receiver)
            ||| exists|i: int| 0 <= i < args@.len() && part == Node::Expr(#[trigger] args@[i])
        },
        ExprKind::Call { callee, args } => {
            ||| part == Node::Expr(*callee)
            ||| exists|i: int| 0 <= i < args@.len() && part == Node::Expr(#[trigger] args@[i])
        },
        ExprKind::Loop(nodes) => nodes@.contains(part),
        ExprKind::Closure(nodes) => nodes@.contains(part),
        ExprKind::Other(nodes) => nodes@.contains(part),
        ExprKind::Path(_) => false,
        ExprKind::Lit(_) => false,
    }
}

/// An expression reads whatever stands directly inside it reads, at every place: the receiver
/// or callee and each argument of a call, and each part of any other expression, be it an
/// operator, a borrow, a field access, a tuple, a block, a loop or a closure.
pub proof fn law_parts_are_read(expr: Expr, part: Node, hir_id: HirId)
    requires
        stands_in(part, expr),
        visit::reads(visit::node_visits(part, Closures::Enter)).contains(hir_id),
    ensures
        visit::reads(visit::read_visits(expr)).contains(hir_id),
{
    law_reads_are_mentions(expr, hir_id);
    lemma_node_reads(part, hir_id);
    assert(node_mentions(part, hir_id));
    match expr.kind {
        ExprKind::MethodCall { receiver, args, .. } => {
            if part != Node::Expr(*receiver) {
                let i = choose|i: int|
                    0 <= i < args@.len() && part == Node::Expr(#[trigger] args@[i]);
                assert(mentions(args@[i], hir_id));
            }
        },
        ExprKind::Call { callee, args } => {
            if part != Node::Expr(*callee) {
                let i = choose|i: int|
                    0 <= i < args@.len() && part == Node::Expr(#[trigger] args@[i]);
                assert(mentions(args@[i], hir_id));
            }
        },
        ExprKind::Loop(nodes) | ExprKind::Closure(nodes) | ExprKind::Other(nodes) => {
            let i = choose|i: int| 0 <= i < nodes@.len() && nodes@[i] == part;
            assert(node_mentions(nodes@[i], hir_id));
        },
        _ => {},
    }
}

} // verus!
