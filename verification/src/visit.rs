//! Walks over expression trees.
use crate::hir::{Expr, ExprKind, HirId, HirIdSet, Node, Pat, PatKind, QPath, Res};
use vstd::prelude::*;

verus! {

/// What a walk does with the body of a closure.
pub enum Closures {
    /// It leaves the body out.
    Skip,
    /// It goes through the body like through anything else.
    Enter,
}

/// The nodes that a walk over `expr` comes by, in the order of the walk: the expression
/// itself, then what stands inside it.
pub open spec fn expr_visits(expr: Expr, closures: Closures) -> Seq<Node>
    decreases expr,
{
    seq![Node::Expr(expr)] + match expr.kind {
        ExprKind::MethodCall { segment, receiver, args } => expr_visits(*receiver, closures)
            + exprs_visits(args@, closures),
        ExprKind::Call { callee, args } => expr_visits(*callee, closures) + exprs_visits(
            args@,
            closures,
        ),
        ExprKind::Path(_) => Seq::empty(),
        ExprKind::Lit(_) => Seq::empty(),
        ExprKind::Loop(nodes) => nodes_visits(nodes@, closures),
        ExprKind::Closure(nodes) => match closures {
            Closures::Skip => Seq::empty(),
            Closures::Enter => nodes_visits(nodes@, closures),
        },
        ExprKind::Other(nodes) => nodes_visits(nodes@, closures),
    }
}

/// The nodes that a walk over a pattern comes by, in the order of the walk.
pub open spec fn pat_visits(pat: Pat, closures: Closures) -> Seq<Node>
    decreases pat,
{
    seq![Node::Pat(pat)] + nodes_visits(pat.nodes@, closures)
}

/// The walks over `exprs`, one after the other.
pub open spec fn exprs_visits(exprs: Seq<Expr>, closures: Closures) -> Seq<Node>
    decreases exprs,
{
    if exprs.len() == 0 {
        Seq::empty()
    } else {
        exprs_visits(exprs.drop_last(), closures) + expr_visits(exprs.last(), closures)
    }
}

/// The walks over `nodes`, one after the other.
pub open spec fn nodes_visits(nodes: Seq<Node>, closures: Closures) -> Seq<Node>
    decreases nodes,
{
    if nodes.len() == 0 {
        Seq::empty()
    } else {
        nodes_visits(nodes.drop_last(), closures) + node_visits(nodes.last(), closures)
    }
}

/// The nodes that a walk over `node` comes by.
pub open spec fn node_visits(node: Node, closures: Closures) -> Seq<Node>
    decreases node,
{
    match node {
        Node::Expr(expr) => expr_visits(expr, closures),
        Node::Pat(pat) => pat_visits(pat, closures),
    }
}

/// The walk that looks for bindings. It leaves out the bodies of closures.
pub open spec fn binding_visits(expr: Expr) -> Seq<Node> {
    expr_visits(expr, Closures::Skip)
}

/// The walk that looks for reads. It goes through the bodies of closures: what a closure reads
/// is read where the closure stands.
pub open spec fn read_visits(expr: Expr) -> Seq<Node> {
    expr_visits(expr, Closures::Enter)
}

/// The local variable that `node` itself introduces, if any.
pub open spec fn binding_of(node: Node) -> Option<HirId> {
    match node {
        Node::Pat(pat) => match pat.kind {
            PatKind::Binding(hir_id) => Some(hir_id),
            PatKind::Other => None,
        },
        Node::Expr(_) => None,
    }
}

/// The local variable that `node` itself reads, if any.
pub open spec fn read_of(node: Node) -> Option<HirId> {
    match node {
        Node::Expr(expr) => match expr.kind {
            ExprKind::Path(QPath::Resolved { qualified: false, res: Res::Local(hir_id) }) => Some(
                hir_id,
            ),
            _ => None,
        },
        Node::Pat(_) => None,
    }
}

/// The local variables that the nodes of a walk introduce.
pub open spec fn bindings(visits: Seq<Node>) -> Set<HirId> {
    Set::new(
        |hir_id: HirId|
            exists|i: int|
                0 <= i < visits.len() && #[trigger] binding_of(visits[i]) == Some(hir_id),
    )
}

/// The local variables that the nodes of a walk read, in the order of the walk.
pub open spec fn reads(visits: Seq<Node>) -> Seq<HirId>
    decreases visits.len(),
{
    if visits.len() == 0 {
        Seq::empty()
    } else {
        let before = reads(visits.drop_last());
        match read_of(visits.last()) {
            Some(hir_id) => before.push(hir_id),
            None => before,
        }
    }
}

/// Two walks in a row introduce what each of them introduces.
pub(crate) proof fn lemma_bindings_add(a: Seq<Node>, b: Seq<Node>)
    ensures
        bindings(a + b) == bindings(a).union(bindings(b)),
{
    assert forall|hir_id: HirId| #[trigger]
        bindings(a + b).contains(hir_id) == bindings(a).union(bindings(b)).contains(hir_id) by {
        if bindings(a).contains(hir_id) {
            let i = choose|i: int|
                0 <= i < a.len() && #[trigger] binding_of(a[i]) == Some(hir_id);
            assert((a + b)[i] == a[i]);
        }
        if bindings(b).contains(hir_id) {
            let i = choose|i: int|
                0 <= i < b.len() && #[trigger] binding_of(b[i]) == Some(hir_id);
            assert((a + b)[a.len() + i] == b[i]);
        }
        if bindings(a + b).contains(hir_id) {
            let i = choose|i: int|
                0 <= i < (a + b).len() && #[trigger] binding_of((a + b)[i]) == Some(hir_id);
            if i < a.len() {
                assert(binding_of(a[i]) == Some(hir_id));
            } else {
                assert(binding_of(b[i - a.len()]) == Some(hir_id));
            }
        }
    }
    assert(bindings(a + b) =~= bindings(a).union(bindings(b)));
}

/// Two walks in a row read what the first reads, then what the second reads.
pub(crate) proof fn lemma_reads_add(a: Seq<Node>, b: Seq<Node>)
    ensures
        reads(a + b) == reads(a) + reads(b),
    decreases b.len(),
{
    if b.len() == 0 {
        assert(a + b =~= a);
    } else {
        assert((a + b).drop_last() =~= a + b.drop_last());
        lemma_reads_add(a, b.drop_last());
    }
}

/// Collects the local variables that a subtree introduces, such as the variable of a `for`
/// loop or a `let` inside its body.
pub struct BindingCollector {
    pub bindings: HirIdSet,
}

impl Default for BindingCollector {
    /// A collector that has seen nothing.
    fn default() -> (collector: Self)
        ensures
            collector.bindings@ == Set::<HirId>::empty(),
    {
        BindingCollector { bindings: HirIdSet::new() }
    }
}

impl BindingCollector {
    /// Records the local variables that `pat` introduces, itself and in the patterns inside
    /// it, so that `(a, b)` yields both `a` and `b`.
    pub fn visit_pat(&mut self, pat: &Pat)
        ensures
            final(self).bindings@ == old(self).bindings@.union(
                bindings(pat_visits(*pat, Closures::Skip)),
            ),
        decreases *pat,
    {
        if let PatKind::Binding(hir_id) = pat.kind {
            self.bindings.insert(hir_id);
        }
        self.visit_nodes(&pat.nodes);
        proof {
            let head = seq![Node::Pat(*pat)];
            lemma_bindings_add(head, nodes_visits(pat.nodes@, Closures::Skip));
            lemma_bindings_single(head[0]);
        }
    }

    /// Records the local variables that `expr` introduces in what stands inside it, the bodies of
    /// closures left out.
    pub fn visit_expr(&mut self, expr: &Expr)
        ensures
            final(self).bindings@ == old(self).bindings@.union(bindings(binding_visits(*expr))),
        decreases *expr,
    {
        proof {
            lemma_bindings_single(Node::Expr(*expr));
        }
        match &expr.kind {
            ExprKind::MethodCall { segment: _, receiver, args } => {
                self.visit_expr(receiver);
                self.visit_exprs(args);
                proof {
                    lemma_bindings_add(
                        expr_visits(**receiver, Closures::Skip),
                        exprs_visits(args@, Closures::Skip),
                    );
                    lemma_bindings_add(
                        seq![Node::Expr(*expr)],
                        expr_visits(**receiver, Closures::Skip) + exprs_visits(
                            args@,
                            Closures::Skip,
                        ),
                    );
                }
            },
            ExprKind::Call { callee, args } => {
                self.visit_expr(callee);
                self.visit_exprs(args);
                proof {
                    lemma_bindings_add(
                        expr_visits(**callee, Closures::Skip),
                        exprs_visits(args@, Closures::Skip),
                    );
                    lemma_bindings_add(
                        seq![Node::Expr(*expr)],
                        expr_visits(**callee, Closures::Skip) + exprs_visits(
                            args@,
                            Closures::Skip,
                        ),
                    );
                }
            },
            ExprKind::Loop(nodes) | ExprKind::Other(nodes) => {
                self.visit_nodes(nodes);
                proof {
                    lemma_bindings_add(
                        seq![Node::Expr(*expr)],
                        nodes_visits(nodes@, Closures::Skip),
                    );
                }
            },
            ExprKind::Path(_) | ExprKind::Lit(_) | ExprKind::Closure(_) => {
                proof {
                    lemma_bindings_add(seq![Node::Expr(*expr)], Seq::empty());
                    lemma_bindings_empty();
                }
            },
        }
    }

    fn visit_exprs(&mut self, exprs: &Vec<Expr>)
        ensures
            final(self).bindings@ == old(self).bindings@.union(
                bindings(exprs_visits(exprs@, Closures::Skip)),
            ),
        decreases *exprs,
    {
        let mut i: usize = 0;
        proof {
            lemma_bindings_empty();
        }
        while i < exprs.len()
            invariant
                i <= exprs.len(),
                self.bindings@ =~= old(self).bindings@.union(
                    bindings(exprs_visits(exprs@.take(i as int), Closures::Skip)),
                ),
            decreases exprs.len() - i,
        {
            self.visit_expr(&exprs[i]);
            proof {
                let seen = exprs@.take(i + 1);
                assert(seen.drop_last() =~= exprs@.take(i as int));
                lemma_bindings_add(
                    exprs_visits(seen.drop_last(), Closures::Skip),
                    expr_visits(seen.last(), Closures::Skip),
                );
            }
            i += 1;
        }
        assert(exprs@.take(i as int) =~= exprs@);
    }

    fn visit_nodes(&mut self, nodes: &Vec<Node>)
        ensures
            final(self).bindings@ == old(self).bindings@.union(
                bindings(nodes_visits(nodes@, Closures::Skip)),
            ),
        decreases *nodes,
    {
        let mut i: usize = 0;
        proof {
            lemma_bindings_empty();
        }
        while i < nodes.len()
            invariant
                i <= nodes.len(),
                self.bindings@ =~= old(self).bindings@.union(
                    bindings(nodes_visits(nodes@.take(i as int), Closures::Skip)),
                ),
            decreases nodes.len() - i,
        {
            match &nodes[i] {
                Node::Expr(expr) => self.visit_expr(expr),
                Node::Pat(pat) => self.visit_pat(pat),
            }
            proof {
                let seen = nodes@.take(i + 1);
                assert(seen.drop_last() =~= nodes@.take(i as int));
                lemma_bindings_add(
                    nodes_visits(seen.drop_last(), Closures::Skip),
                    node_visits(seen.last(), Closures::Skip),
                );
            }
            i += 1;
        }
        assert(nodes@.take(i as int) =~= nodes@);
    }
}

/// Collects the local variables that a subtree reads.
pub struct LocalReadCollector {
    pub reads: Vec<HirId>,
}

impl Default for LocalReadCollector {
    /// A collector that has seen nothing.
    fn default() -> (collector: Self)
        ensures
            collector.reads@ == Seq::<HirId>::empty(),
    {
        LocalReadCollector { reads: Vec::new() }
    }
}

impl LocalReadCollector {
    /// Records the local variables that `expr` reads, itself and in what stands inside it, the
    /// bodies of closures included, in the order of the walk.
    pub fn visit_expr(&mut self, expr: &Expr)
        ensures
            final(self).reads@ == old(self).reads@ + reads(read_visits(*expr)),
        decreases *expr,
    {
        if let ExprKind::Path(QPath::Resolved { qualified: false, res: Res::Local(hir_id) }) =
            &expr.kind {
            self.reads.push(*hir_id);
        }
        let ghost own = reads(seq![Node::Expr(*expr)]);
        proof {
            lemma_reads_single(Node::Expr(*expr));
            assert(self.reads@ =~= old(self).reads@ + own);
        }
        match &expr.kind {
            ExprKind::MethodCall { segment: _, receiver, args } => {
                self.visit_expr(receiver);
                self.visit_exprs(args);
                proof {
                    lemma_reads_add(
                        expr_visits(**receiver, Closures::Enter),
                        exprs_visits(args@, Closures::Enter),
                    );
                    lemma_reads_add(
                        seq![Node::Expr(*expr)],
                        expr_visits(**receiver, Closures::Enter) + exprs_visits(
                            args@,
                            Closures::Enter,
                        ),
                    );
                }
            },
            ExprKind::Call { callee, args } => {
                self.visit_expr(callee);
                self.visit_exprs(args);
                proof {
                    lemma_reads_add(
                        expr_visits(**callee, Closures::Enter),
                        exprs_visits(args@, Closures::Enter),
                    );
                    lemma_reads_add(
                        seq![Node::Expr(*expr)],
                        expr_visits(**callee, Closures::Enter) + exprs_visits(
                            args@,
                            Closures::Enter,
                        ),
                    );
                }
            },
            ExprKind::Loop(nodes) | ExprKind::Closure(nodes) | ExprKind::Other(nodes) => {
                self.visit_nodes(nodes);
                proof {
                    lemma_reads_add(seq![Node::Expr(*expr)], nodes_visits(nodes@, Closures::Enter));
                }
            },
            ExprKind::Path(_) | ExprKind::Lit(_) => {
                proof {
                    lemma_reads_add(seq![Node::Expr(*expr)], Seq::empty());
                }
            },
        }
    }

    /// Records the local variables that the expressions inside `pat` read.
    pub fn visit_pat(&mut self, pat: &Pat)
        ensures
            final(self).reads@ == old(self).reads@ + reads(pat_visits(*pat, Closures::Enter)),
        decreases *pat,
    {
        self.visit_nodes(&pat.nodes);
        proof {
            lemma_reads_single(Node::Pat(*pat));
            lemma_reads_add(seq![Node::Pat(*pat)], nodes_visits(pat.nodes@, Closures::Enter));
        }
    }

    fn visit_exprs(&mut self, exprs: &Vec<Expr>)
        ensures
            final(self).reads@ == old(self).reads@ + reads(exprs_visits(exprs@, Closures::Enter)),
        decreases *exprs,
    {
        let mut i: usize = 0;
        while i < exprs.len()
            invariant
                i <= exprs.len(),
                self.reads@ =~= old(self).reads@ + reads(
                    exprs_visits(exprs@.take(i as int), Closures::Enter),
                ),
            decreases exprs.len() - i,
        {
            self.visit_expr(&exprs[i]);
            proof {
                let seen = exprs@.take(i + 1);
                assert(seen.drop_last() =~= exprs@.take(i as int));
                lemma_reads_add(
                    exprs_visits(seen.drop_last(), Closures::Enter),
                    expr_visits(seen.last(), Closures::Enter),
                );
            }
            i += 1;
        }
        assert(exprs@.take(i as int) =~= exprs@);
    }

    fn visit_nodes(&mut self, nodes: &Vec<Node>)
        ensures
            final(self).reads@ == old(self).reads@ + reads(nodes_visits(nodes@, Closures::Enter)),
        decreases *nodes,
    {
        let mut i: usize = 0;
        while i < nodes.len()
            invariant
                i <= nodes.len(),
                self.reads@ =~= old(self).reads@ + reads(
                    nodes_visits(nodes@.take(i as int), Closures::Enter),
                ),
            decreases nodes.len() - i,
        {
            match &nodes[i] {
                Node::Expr(expr) => self.visit_expr(expr),
                Node::Pat(pat) => self.visit_pat(pat),
            }
            proof {
                let seen = nodes@.take(i + 1);
                assert(seen.drop_last() =~= nodes@.take(i as int));
                lemma_reads_add(
                    nodes_visits(seen.drop_last(), Closures::Enter),
                    node_visits(seen.last(), Closures::Enter),
                );
            }
            i += 1;
        }
        assert(nodes@.take(i as int) =~= nodes@);
    }
}

/// A walk over one node reads what that node reads.
pub(crate) proof fn lemma_reads_single(node: Node)
    ensures
        reads(seq![node]) == match read_of(node) {
            Some(hir_id) => seq![hir_id],
            None => Seq::empty(),
        },
{
    reveal_with_fuel(reads, 2);
    assert(seq![node].drop_last() =~= Seq::empty());
    if let Some(hir_id) = read_of(node) {
        assert(reads(seq![node]) =~= seq![hir_id]);
    }
}

/// A walk over nothing introduces nothing.
pub(crate) proof fn lemma_bindings_empty()
    ensures
        bindings(Seq::empty()) == Set::<HirId>::empty(),
{
    assert(bindings(Seq::empty()) =~= Set::<HirId>::empty());
}

/// A walk over one node introduces what that node introduces.
pub(crate) proof fn lemma_bindings_single(node: Node)
    ensures
        bindings(seq![node]) == match binding_of(node) {
            Some(hir_id) => set![hir_id],
            None => Set::empty(),
        },
{
    assert forall|hir_id: HirId| #[trigger]
        bindings(seq![node]).contains(hir_id) == (binding_of(node) == Some(hir_id)) by {
        if binding_of(node) == Some(hir_id) {
            assert(binding_of(seq![node][0]) == Some(hir_id));
        }
    }
    match binding_of(node) {
        Some(hir_id) => {
            assert(bindings(seq![node]) =~= set![hir_id]);
        },
        None => {
            assert(bindings(seq![node]) =~= Set::<HirId>::empty());
        },
    }
}

} // verus!
