//! Host calls inside a loop that could be made once, outside it.
use crate::hir::{Expr, ExprKind};
use crate::lints::UNNECESSARY_HOST_FUNCTION_CALL;
use crate::loops::{self, depends_on_loop_state, enclosing_loop};
use crate::paths::{self, is_env, matches_any_path, soroban_env_host_methods, soroban_host_types};
use crate::report::{
    self, Advice, AdviceView, Diagnostic, DiagnosticView, Fact, Facts, Question, Step,
};
use crate::text::same_text;
use vstd::prelude::*;

verus! {

/// A method call of this name, on a receiver whose type has this definition path, is a
/// metered host call: the type is a host accessor, or the call is one of the host calls that
/// live on `Env` itself.
pub open spec fn host_function(segment: Seq<char>, full: Seq<char>) -> bool {
    ||| paths::any_path_matches(full, paths::host_type_paths())
    ||| paths::path_matches(full, paths::env_path()) && paths::env_host_method_names().contains(
        segment,
    )
}

/// Whether `name` is one of `names`.
fn contains_text(names: &[&str], name: &str) -> (found: bool)
    ensures
        found == names.deep_view().contains(name@),
{
    let ghost views = names.deep_view();
    let mut i: usize = 0;
    while i < names.len()
        invariant
            views == names.deep_view(),
            views.len() == names.len(),
            i <= names.len(),
            forall|j: int| 0 <= j < i ==> #[trigger] views[j] != name@,
        decreases names.len() - i,
    {
        assert(views[i as int] == names@[i as int]@);
        if same_text(names[i], name) {
            return true;
        }
        i += 1;
    }
    false
}

/// Whether such a call is a metered host call.
pub fn is_host_function(segment: &str, full: &str) -> (host: bool)
    ensures
        host == host_function(segment@, full@),
{
    matches_any_path(full, soroban_host_types()) || is_env(full) && contains_text(
        soroban_env_host_methods(),
        segment,
    )
}

/// The pass behind [`UNNECESSARY_HOST_FUNCTION_CALL`].
#[derive(Debug, Clone, Copy, PartialEq, Eq, Structural)]
pub struct UnnecessaryHostFunctionCall;

impl UnnecessaryHostFunctionCall {
    /// `expr` is a method call that is known to be a metered host call.
    pub open spec fn suspects(expr: Expr, facts: Facts) -> bool {
        &&& expr.kind matches ExprKind::MethodCall { segment, .. }
        &&& facts.receiver_path() matches Some(full)
        &&& host_function(segment@, full)
    }

    /// What the pass has to know before it can decide on `expr`.
    pub open spec fn question(expr: Expr, facts: Facts) -> Option<Question> {
        match expr.kind {
            ExprKind::MethodCall { receiver, .. } if facts.receiver_ty is Unknown => Some(
                Question::ReceiverType(receiver.hir_id),
            ),
            _ if Self::suspects(expr, facts) => if facts.enclosing is Unknown {
                Some(Question::Enclosing(expr.hir_id))
            } else {
                match facts.enclosing_loop() {
                    Some(loop_expr) if facts.mutated is Unknown => Some(
                        Question::Mutated(loop_expr.hir_id),
                    ),
                    _ => None,
                }
            },
            _ => None,
        }
    }

    /// The pass has found `expr` to be a host call in a loop that reads nothing which varies
    /// from one iteration to the next.
    pub open spec fn hoistable(expr: Expr, facts: Facts) -> bool {
        &&& Self::suspects(expr, facts)
        &&& facts.enclosing_loop() matches Some(loop_expr)
        &&& facts.mutated matches Fact::Known(mutated)
        &&& !loops::loop_dependent(mutated, loop_expr, expr)
    }

    /// What the pass reports on `expr`.
    pub open spec fn verdict(expr: Expr, facts: Facts) -> Option<DiagnosticView> {
        if Self::hoistable(expr, facts) {
            Some(
                DiagnosticView {
                    lint: UNNECESSARY_HOST_FUNCTION_CALL,
                    hir_id: expr.hir_id,
                    message: "unnecessary host function call inside loop"@,
                    advice: AdviceView::Help(
                        "call this function outside the loop and reuse the result"@,
                    ),
                },
            )
        } else {
            None
        }
    }

    /// Flags a metered host call inside a loop whose result is the same in every iteration, so
    /// that it could be computed once and reused.
    ///
    /// The receiver must be a host accessor, or the call one of the constant-result `Env`
    /// methods. The call is only reported when it is inside a loop *and* does not read state
    /// that varies in the loop; the latter keeps calls whose inputs change each iteration from
    /// being flagged.
    pub fn check_expr(&self, expr: &Expr, facts: &Facts) -> (step: Step)
        ensures
            step@ == report::next_step(
                Self::question(*expr, *facts),
                Self::verdict(*expr, *facts),
            ),
    {
        if let ExprKind::MethodCall { segment, receiver, args: _ } = &expr.kind {
            let receiver_ty = match &facts.receiver_ty {
                Fact::Known(ty) => ty,
                Fact::Unknown => return Step::Ask(Question::ReceiverType(receiver.hir_id)),
            };
            let is_host = match receiver_ty.adt_path_text() {
                Some(full) => is_host_function(segment.as_str(), full),
                None => false,
            };
            if is_host {
                let enclosing = match &facts.enclosing {
                    Fact::Known(enclosing) => enclosing,
                    Fact::Unknown => return Step::Ask(Question::Enclosing(expr.hir_id)),
                };
                if let Some(loop_expr) = enclosing_loop(enclosing) {
                    let mutated = match &facts.mutated {
                        Fact::Known(mutated) => mutated,
                        Fact::Unknown => return Step::Ask(Question::Mutated(loop_expr.hir_id)),
                    };
                    if !depends_on_loop_state(mutated, loop_expr, expr) {
                        return Step::Report(
                            Diagnostic {
                                lint: UNNECESSARY_HOST_FUNCTION_CALL,
                                hir_id: expr.hir_id,
                                message: "unnecessary host function call inside loop",
                                advice: Advice::Help(
                                    "call this function outside the loop and reuse the result",
                                ),
                            },
                        );
                    }
                }
            }
        }
        Step::Quiet
    }
}

} // verus!
