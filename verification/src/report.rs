//! What a lint pass knows, what it asks, and what it reports.
use crate::hir::{Expr, HirId, HirIdSet, Ty};
use crate::lints::Lint;
use crate::loops;
use vstd::prelude::*;

verus! {

/// Something that the compiler knows and a pass may not know yet.
#[derive(Debug)]
pub enum Fact<T> {
    Unknown,
    Known(T),
}

/// What a pass has been told about the expression under check.
pub struct Facts {
    /// The type of the receiver of a method call.
    pub receiver_ty: Fact<Ty>,
    /// The nearest loop, or closure that can be called more than once, around the expression.
    pub enclosing: Fact<Option<Expr>>,
    /// The local variables that the enclosing loop mutates; `None` where the analysis gives no
    /// verdict.
    pub mutated: Fact<Option<HirIdSet>>,
    /// The definition path of what a call calls; `None` where the callee names no definition.
    pub callee_path: Fact<Option<String>>,
    /// The source text of the second argument; `None` where there is none to quote.
    pub snippet: Fact<Option<String>>,
}

impl Facts {
    /// Nothing is known yet.
    pub fn new() -> (facts: Self)
        ensures
            facts.receiver_ty is Unknown,
            facts.enclosing is Unknown,
            facts.mutated is Unknown,
            facts.callee_path is Unknown,
            facts.snippet is Unknown,
    {
        Facts {
            receiver_ty: Fact::Unknown,
            enclosing: Fact::Unknown,
            mutated: Fact::Unknown,
            callee_path: Fact::Unknown,
            snippet: Fact::Unknown,
        }
    }

    /// Everything is known.
    pub open spec fn complete(self) -> bool {
        &&& self.receiver_ty is Known
        &&& self.enclosing is Known
        &&& self.mutated is Known
        &&& self.callee_path is Known
        &&& self.snippet is Known
    }

    /// Whatever `self` knows, `other` knows too, and the same of it.
    pub open spec fn extended_by(self, other: Facts) -> bool {
        &&& self.receiver_ty is Known ==> other.receiver_ty == self.receiver_ty
        &&& self.enclosing is Known ==> other.enclosing == self.enclosing
        &&& self.mutated is Known ==> other.mutated == self.mutated
        &&& self.callee_path is Known ==> other.callee_path == self.callee_path
        &&& self.snippet is Known ==> other.snippet == self.snippet
    }

    /// The definition path of the receiver's type behind its references, where it is known
    /// and has one.
    pub open spec fn receiver_path(self) -> Option<Seq<char>> {
        match self.receiver_ty {
            Fact::Known(ty) => ty.adt_path(),
            Fact::Unknown => None,
        }
    }

    /// The loop that the expression is known to sit in.
    pub open spec fn enclosing_loop(self) -> Option<Expr> {
        match self.enclosing {
            Fact::Known(enclosing) => loops::loop_of(enclosing),
            Fact::Unknown => None,
        }
    }
}

/// What a pass can ask of the compiler. Each question names the node that it is about.
#[derive(Debug, Clone, Copy, PartialEq, Eq, Structural)]
pub enum Question {
    /// The type of this expression, a receiver.
    ReceiverType(HirId),
    /// The nearest loop, or closure that can be called more than once, around this expression.
    Enclosing(HirId),
    /// The local variables that this loop mutates.
    Mutated(HirId),
    /// The definition path of what this path expression, a callee, names.
    CalleePath(HirId),
    /// The source text of this expression.
    Snippet(HirId),
}

/// How far a suggestion can be trusted.
#[derive(Debug, Clone, Copy, PartialEq, Eq, Structural)]
pub enum Applicability {
    MachineApplicable,
    MaybeIncorrect,
    HasPlaceholders,
    Unspecified,
}

/// What a diagnostic advises.
#[derive(Debug)]
pub enum Advice {
    /// A note without a place of its own.
    Help(&'static str),
    /// A replacement for the reported expression.
    Suggestion { help: &'static str, replacement: String, applicability: Applicability },
}

/// The text of an [`Advice`].
pub enum AdviceView {
    Help(Seq<char>),
    Suggestion { help: Seq<char>, replacement: Seq<char>, applicability: Applicability },
}

impl View for Advice {
    type V = AdviceView;

    open spec fn view(&self) -> AdviceView {
        match *self {
            Advice::Help(help) => AdviceView::Help(help@),
            Advice::Suggestion { help, replacement, applicability } => AdviceView::Suggestion {
                help: help@,
                replacement: replacement@,
                applicability,
            },
        }
    }
}

/// A finding.
#[derive(Debug)]
pub struct Diagnostic {
    /// The lint that reports.
    pub lint: Lint,
    /// The expression that is reported.
    pub hir_id: HirId,
    /// What is wrong with it.
    pub message: &'static str,
    /// What to do about it.
    pub advice: Advice,
}

/// The text of a [`Diagnostic`].
pub struct DiagnosticView {
    pub lint: Lint,
    pub hir_id: HirId,
    pub message: Seq<char>,
    pub advice: AdviceView,
}

impl View for Diagnostic {
    type V = DiagnosticView;

    open spec fn view(&self) -> DiagnosticView {
        DiagnosticView {
            lint: self.lint,
            hir_id: self.hir_id,
            message: self.message@,
            advice: self.advice@,
        }
    }
}

/// What a pass does next with an expression.
#[derive(Debug)]
pub enum Step {
    /// It asks, and wants to be called again once the answer is known.
    Ask(Question),
    /// It reports, and is done.
    Report(Diagnostic),
    /// It has nothing to report, and is done.
    Quiet,
}

/// The text of a [`Step`].
pub enum StepView {
    Ask(Question),
    Report(DiagnosticView),
    Quiet,
}

impl View for Step {
    type V = StepView;

    open spec fn view(&self) -> StepView {
        match *self {
            Step::Ask(question) => StepView::Ask(question),
            Step::Report(diagnostic) => StepView::Report(diagnostic@),
            Step::Quiet => StepView::Quiet,
        }
    }
}

/// The step of a pass that still has `question` to ask, and otherwise comes to `verdict`.
pub open spec fn next_step(
    question: Option<Question>,
    verdict: Option<DiagnosticView>,
) -> StepView {
    match question {
        Some(question) => StepView::Ask(question),
        None => match verdict {
            Some(diagnostic) => StepView::Report(diagnostic),
            None => StepView::Quiet,
        },
    }
}

} // verus!
