//! Storage operations inside a loop.
use crate::hir::{Expr, ExprKind};
use crate::lints::SOROBAN_STORAGE_IN_LOOP;
use crate::loops::enclosing_loop;
use crate::paths::{self, is_env, matches_any_path, soroban_storage_types};
use crate::report::{
    self, Advice, AdviceView, Diagnostic, DiagnosticView, Fact, Facts, Question, Step,
};
use crate::text::same_text;
use vstd::prelude::*;

verus! {

/// A method call of this name, on a receiver whose type has this definition path, goes to
/// storage: the type is a storage accessor, or the call is `Env::storage`.
pub open spec fn storage_access(segment: Seq<char>, full: Seq<char>) -> bool {
    ||| paths::any_path_matches(full, paths::storage_type_paths())
    ||| paths::path_matches(full, paths::env_path()) && segment == "storage"@
}

/// Whether such a call goes to storage.
pub fn is_storage_access(segment: &str, full: &str) -> (access: bool)
    ensures
        access == storage_access(segment@, full@),
{
    matches_any_path(full, soroban_storage_types()) || is_env(full) && same_text(
        segment,
        "storage",
    )
}

/// The pass behind [`SOROBAN_STORAGE_IN_LOOP`].
#[derive(Debug, Clone, Copy, PartialEq, Eq, Structural)]
pub struct SorobanStorageInLoop;

impl SorobanStorageInLoop {
    /// `expr` is a method call that is known to go to storage.
    pub open spec fn suspects(expr: Expr, facts: Facts) -> bool {
        &&& expr.kind matches ExprKind::MethodCall { segment, .. }
        &&& facts.receiver_path() matches Some(full)
        &&& storage_access(segment@, full)
    }

    /// What the pass has to know before it can decide on `expr`.
    pub open spec fn question(expr: Expr, facts: Facts) -> Option<Question> {
        match expr.kind {
            ExprKind::MethodCall { receiver, .. } if facts.receiver_ty is Unknown => Some(
                Question::ReceiverType(receiver.hir_id),
            ),
            _ if Self::suspects(expr, facts) && facts.enclosing is Unknown => Some(
                Question::Enclosing(expr.hir_id),
            ),
            _ => None,
        }
    }

    /// What the pass reports on `expr`.
    pub open spec fn verdict(expr: Expr, facts: Facts) -> Option<DiagnosticView> {
        if Self::suspects(expr, facts) && facts.enclosing_loop() is Some {
            Some(
                DiagnosticView {
                    lint: SOROBAN_STORAGE_IN_LOOP,
                    hir_id: expr.hir_id,
                    message: "storage operation inside a loop"@,
                    advice: AdviceView::Help(
                        "move storage operations out of the loop or accumulate mutations in memory first"@,
                    ),
                },
            )
        } else {
            None
        }
    }

    /// Flags a method call whose receiver is a storage accessor (or `Env::storage`) when it
    /// sits inside a loop.
    ///
    /// Storage access is metered on every iteration, so performing it in a loop multiplies the
    /// cost. No replacement is offered because the fix (hoisting or batching) depends on the
    /// context, so the advice is only a note.
    pub fn check_expr(&self, expr: &Expr, facts: &Facts) -> (step: Step)
        ensures
            step@ == report::next_step(
                Self::question(*expr, *facts),
                Self::verdict(*expr, *facts),
            ),
    {
        if let ExprKind::MethodCall { segment, receiver, args: _ } = &expr.kind {
            let receiver_ty = match &facts.receiver_ty {
                Fact::Known(ty) => ty,
                Fact::Unknown => return Step::Ask(Question::ReceiverType(receiver.hir_id)),
            };
            let is_storage = match receiver_ty.adt_path_text() {
                Some(full) => is_storage_access(segment.as_str(), full),
                None => false,
            };
            if is_storage {
                let enclosing = match &facts.enclosing {
                    Fact::Known(enclosing) => enclosing,
                    Fact::Unknown => return Step::Ask(Question::Enclosing(expr.hir_id)),
                };
                if enclosing_loop(enclosing).is_some() {
                    return Step::Report(
                        Diagnostic {
                            lint: SOROBAN_STORAGE_IN_LOOP,
                            hir_id: expr.hir_id,
                            message: "storage operation inside a loop",
                            advice: Advice::Help(
                                "move storage operations out of the loop or accumulate mutations in memory first",
                            ),
                        },
                    );
                }
            }
        }
        Step::Quiet
    }
}

} // verus!
