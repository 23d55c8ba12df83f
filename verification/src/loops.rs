//! Whether an expression sits in a loop, and whether it depends on what the loop changes.
use crate::hir::{Expr, ExprKind, HirId, HirIdSet};
use crate::visit::{self, BindingCollector, LocalReadCollector};
use vstd::prelude::*;

verus! {

/// The local variable `hir_id` can differ from one iteration of `loop_expr` to the next: the
/// loop introduces it, or it is among the `mutated` ones.
pub open spec fn varies(loop_expr: Expr, mutated: Set<HirId>, hir_id: HirId) -> bool {
    visit::bindings(visit::binding_visits(loop_expr)).contains(hir_id) || mutated.contains(hir_id)
}

/// `call` reads something that can differ from one iteration of `loop_expr` to the next, or
/// nothing is known of what the loop mutates.
pub open spec fn loop_dependent(
    mutated: Option<HirIdSet>,
    loop_expr: Expr,
    call: Expr,
) -> bool {
    match mutated {
        None => true,
        Some(mutated) => exists|i: int|
            0 <= i < visit::reads(visit::read_visits(call)).len() && varies(
                loop_expr,
                mutated@,
                #[trigger] visit::reads(visit::read_visits(call))[i],
            ),
    }
}

/// Whether `call`, its receiver chain and arguments included, reads anything that changes
/// from iteration to iteration of `loop_expr`.
///
/// Such a call does real work in each iteration, so hoisting it out of the loop would change
/// behaviour and it must not be reported. `mutated` is the answer of the mutation analysis
/// for the loop. Where that analysis gives no verdict (`None`), the call counts as dependent
/// and stays unreported.
///
/// What a closure reads counts as read by the call that it stands in.
///
/// Known gaps, all of which cause a call to be reported rather than skipped: bindings and
/// mutations inside a closure body nested in the loop are not seen, and mutation through a raw
/// pointer or interior mutability (`RefCell`, `Cell`) is not tracked.
pub fn depends_on_loop_state(
    mutated: &Option<HirIdSet>,
    loop_expr: &Expr,
    call: &Expr,
) -> (depends: bool)
    ensures
        depends == loop_dependent(*mutated, *loop_expr, *call),
{
    let mutated_ids = match mutated {
        Some(ids) => ids,
        None => return true,
    };

    let mut bound = BindingCollector::default();
    bound.visit_expr(loop_expr);

    let mut read = LocalReadCollector::default();
    read.visit_expr(call);

    proof {
        assert(bound.bindings@ =~= visit::bindings(visit::binding_visits(*loop_expr)));
        assert(read.reads@ =~= visit::reads(visit::read_visits(*call)));
    }
    let mut i: usize = 0;
    while i < read.reads.len()
        invariant
            i <= read.reads.len(),
            *mutated == Some(*mutated_ids),
            bound.bindings@ == visit::bindings(visit::binding_visits(*loop_expr)),
            read.reads@ == visit::reads(visit::read_visits(*call)),
            forall|j: int|
                0 <= j < i ==> !varies(*loop_expr, mutated_ids@, #[trigger] read.reads@[j]),
        decreases read.reads.len() - i,
    {
        let hir_id: HirId = read.reads[i];
        if bound.bindings.contains(&hir_id) || mutated_ids.contains(&hir_id) {
            assert(varies(
                *loop_expr,
                mutated_ids@,
                visit::reads(visit::read_visits(*call))[i as int],
            ));
            return true;
        }
        i += 1;
    }
    false
}

/// The loop that an expression sits in, given the nearest loop or reusable closure around it.
pub open spec fn loop_of(enclosing: Option<Expr>) -> Option<Expr> {
    match enclosing {
        Some(expr) if expr.kind is Loop => Some(expr),
        _ => None,
    }
}

/// The loop whose body an expression sits in directly, if there is one.
///
/// `enclosing` is the nearest loop, or closure that can be called more than once, around the
/// expression. An expression inside a closure that the loop calls does not count as inside
/// the loop: the closure may well be defined elsewhere, and its receiver is out of reach for
/// [`depends_on_loop_state`].
pub fn enclosing_loop(enclosing: &Option<Expr>) -> (loop_expr: Option<&Expr>)
    ensures
        loop_of(*enclosing) == match loop_expr {
            Some(expr) => Some(*expr),
            None => None,
        },
{
    match enclosing {
        Some(expr) => match &expr.kind {
            ExprKind::Loop(_) => Some(expr),
            _ => None,
        },
        None => None,
    }
}

} // verus!
