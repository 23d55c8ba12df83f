//! Use of the host object inside a loop.
use crate::hir::{Expr, ExprKind};
use crate::lints::HOST_IN_LOOP;
use crate::loops::enclosing_loop;
use crate::paths::{self, is_host};
use crate::report::{
    self, Advice, AdviceView, Diagnostic, DiagnosticView, Fact, Facts, Question, Step,
};
use vstd::prelude::*;

verus! {

/// The pass behind [`HOST_IN_LOOP`].
#[derive(Debug, Clone, Copy, PartialEq, Eq, Structural)]
pub struct HostInLoop;

impl HostInLoop {
    /// `expr` is a method call whose receiver is known to be a host object.
    pub open spec fn suspects(expr: Expr, facts: Facts) -> bool {
        &&& expr.kind is MethodCall
        &&& facts.receiver_path() matches Some(full)
        &&& paths::path_matches(full, paths::host_path())
    }

    /// What the pass has to know before it can decide on `expr`.
    pub open spec fn question(expr: Expr, facts: Facts) -> Option<Question> {
        match expr.kind {
            ExprKind::MethodCall { receiver, .. } if facts.receiver_ty is Unknown => Some(
                Question::ReceiverType(receiver.hir_id),
            ),
            _ if Self::suspects(expr, facts) && facts.enclosing is Unknown => Some(
                Question::Enclosing(expr.hir_id),
            ),
            _ => None,
        }
    }

    /// What the pass reports on `expr`.
    pub open spec fn verdict(expr: Expr, facts: Facts) -> Option<DiagnosticView> {
        if Self::suspects(expr, facts) && facts.enclosing_loop() is Some {
            Some(
                DiagnosticView {
                    lint: HOST_IN_LOOP,
                    hir_id: expr.hir_id,
                    message: "use of Host object inside a loop"@,
                    advice: AdviceView::Help(
                        "consider moving the Host usage outside the loop if possible"@,
                    ),
                },
            )
        } else {
            None
        }
    }

    /// Flags any method call whose receiver is a `Host` object inside a loop.
    ///
    /// Unlike the pass for host accessors, this one does not ask whether the call varies from
    /// iteration to iteration: any `Host` use in a loop is surfaced, with a note that it be
    /// moved out where possible.
    pub fn check_expr(&self, expr: &Expr, facts: &Facts) -> (step: Step)
        ensures
            step@ == report::next_step(
                Self::question(*expr, *facts),
                Self::verdict(*expr, *facts),
            ),
    {
        if let ExprKind::MethodCall { segment: _, receiver, args: _ } = &expr.kind {
            let receiver_ty = match &facts.receiver_ty {
                Fact::Known(ty) => ty,
                Fact::Unknown => return Step::Ask(Question::ReceiverType(receiver.hir_id)),
            };
            let is_host_receiver = match receiver_ty.adt_path_text() {
                Some(full) => is_host(full),
                None => false,
            };
            if is_host_receiver {
                let enclosing = match &facts.enclosing {
                    Fact::Known(enclosing) => enclosing,
                    Fact::Unknown => return Step::Ask(Question::Enclosing(expr.hir_id)),
                };
                if enclosing_loop(enclosing).is_some() {
                    return Step::Report(
                        Diagnostic {
                            lint: HOST_IN_LOOP,
                            hir_id: expr.hir_id,
                            message: "use of Host object inside a loop",
                            advice: Advice::Help(
                                "consider moving the Host usage outside the loop if possible",
                            ),
                        },
                    );
                }
            }
        }
        Step::Quiet
    }
}

} // verus!
