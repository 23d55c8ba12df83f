//! Clones of the environment handle.
use crate::hir::{Expr, ExprKind};
use crate::lints::REDUNDANT_ENV_CLONE;
use crate::paths::{self, is_env};
use crate::report::{
    self, Advice, AdviceView, Diagnostic, DiagnosticView, Fact, Facts, Question, Step,
};
use crate::text::same_text;
use vstd::prelude::*;

verus! {

/// The pass behind [`REDUNDANT_ENV_CLONE`].
#[derive(Debug, Clone, Copy, PartialEq, Eq, Structural)]
pub struct RedundantEnvClone;

impl RedundantEnvClone {
    /// `expr` is a call of a method named `clone`.
    pub open spec fn suspects(expr: Expr) -> bool {
        expr.kind matches ExprKind::MethodCall { segment, .. } && segment@ == "clone"@
    }

    /// What the pass has to know before it can decide on `expr`.
    pub open spec fn question(expr: Expr, facts: Facts) -> Option<Question> {
        match expr.kind {
            ExprKind::MethodCall { receiver, .. } if Self::suspects(expr)
                && facts.receiver_ty is Unknown => Some(Question::ReceiverType(receiver.hir_id)),
            _ => None,
        }
    }

    /// What the pass reports on `expr`.
    pub open spec fn verdict(expr: Expr, facts: Facts) -> Option<DiagnosticView> {
        if Self::suspects(expr) && (facts.receiver_path() matches Some(full)
            && paths::path_matches(full, paths::env_path())) {
            Some(
                DiagnosticView {
                    lint: REDUNDANT_ENV_CLONE,
                    hir_id: expr.hir_id,
                    message: "redundant clone on Env object"@,
                    advice: AdviceView::Help("pass Env by reference or value instead of cloning"@),
                },
            )
        } else {
            None
        }
    }

    /// Flags a `.clone()` call whose receiver is an `Env`.
    ///
    /// `Env` is a cheap handle to the host and is almost always better passed by reference or
    /// value than cloned; the clone adds needless work.
    pub fn check_expr(&self, expr: &Expr, facts: &Facts) -> (step: Step)
        ensures
            step@ == report::next_step(
                Self::question(*expr, *facts),
                Self::verdict(*expr, *facts),
            ),
    {
        if let ExprKind::MethodCall { segment, receiver, args: _ } = &expr.kind {
            if same_text(segment.as_str(), "clone") {
                let receiver_ty = match &facts.receiver_ty {
                    Fact::Known(ty) => ty,
                    Fact::Unknown => return Step::Ask(Question::ReceiverType(receiver.hir_id)),
                };
                let is_env_receiver = match receiver_ty.adt_path_text() {
                    Some(full) => is_env(full),
                    None => false,
                };
                if is_env_receiver {
                    return Step::Report(
                        Diagnostic {
                            lint: REDUNDANT_ENV_CLONE,
                            hir_id: expr.hir_id,
                            message: "redundant clone on Env object",
                            advice: Advice::Help(
                                "pass Env by reference or value instead of cloning",
                            ),
                        },
                    );
                }
            }
        }
        Step::Quiet
    }
}

} // verus!
