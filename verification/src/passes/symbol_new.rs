//! Symbols built at run time from a short literal.
use crate::hir::{Expr, ExprKind, LitKind};
use crate::lints::SYMBOL_NEW_FOR_SHORT_LITERAL;
use crate::paths::{self, is_symbol_new};
use crate::report::{
    self, Advice, AdviceView, Applicability, Diagnostic, DiagnosticView, Fact, Facts, Question,
    Step,
};
use crate::symbols::{self, is_valid_short_symbol};
use vstd::prelude::*;

verus! {

/// The invocation of `symbol_short!` on the argument that reads `snippet`.
pub open spec fn symbol_short(snippet: Seq<char>) -> Seq<char> {
    "symbol_short!("@ + snippet + ")"@
}

/// Writes the invocation of `symbol_short!` on the argument that reads `snippet`.
pub fn symbol_short_call(snippet: &str) -> (call: String)
    ensures
        call@ == symbol_short(snippet@),
{
    let mut call = String::new();
    call.append("symbol_short!(");
    call.append(snippet);
    call.append(")");
    assert(call@ =~= symbol_short(snippet@));
    call
}

/// The pass behind [`SYMBOL_NEW_FOR_SHORT_LITERAL`].
#[derive(Debug, Clone, Copy, PartialEq, Eq, Structural)]
pub struct SymbolNewForShortLiteral;

impl SymbolNewForShortLiteral {
    /// `expr` calls a path with two arguments.
    pub open spec fn candidate(expr: Expr) -> bool {
        expr.kind matches ExprKind::Call { callee, args } && args@.len() == 2
            && callee.kind is Path
    }

    /// The second argument of `expr` is a string literal that a short symbol can hold.
    pub open spec fn short_literal(expr: Expr) -> bool {
        &&& expr.kind matches ExprKind::Call { args, .. }
        &&& args@[1].kind matches ExprKind::Lit(LitKind::Str(text))
        &&& symbols::valid_short_symbol(text@)
    }

    /// The callee is known to be `Symbol::new`.
    pub open spec fn calls_symbol_new(facts: Facts) -> bool {
        facts.callee_path matches Fact::Known(Some(full)) && paths::path_matches(
            full@,
            paths::symbol_new_path(),
        )
    }

    /// `expr` is known to build a symbol at run time from a short literal.
    pub open spec fn suspects(expr: Expr, facts: Facts) -> bool {
        Self::candidate(expr) && Self::calls_symbol_new(facts) && Self::short_literal(expr)
    }

    /// What the pass has to know before it can decide on `expr`.
    pub open spec fn question(expr: Expr, facts: Facts) -> Option<Question> {
        match expr.kind {
            ExprKind::Call { callee, args } => if Self::candidate(expr)
                && facts.callee_path is Unknown {
                Some(Question::CalleePath(callee.hir_id))
            } else if Self::suspects(expr, facts) && facts.snippet is Unknown {
                Some(Question::Snippet(args@[1].hir_id))
            } else {
                None
            },
            _ => None,
        }
    }

    /// What the pass reports on `expr`.
    pub open spec fn verdict(expr: Expr, facts: Facts) -> Option<DiagnosticView> {
        match facts.snippet {
            Fact::Known(snippet) if Self::suspects(expr, facts) => Some(
                DiagnosticView {
                    lint: SYMBOL_NEW_FOR_SHORT_LITERAL,
                    hir_id: expr.hir_id,
                    message:
                        "Symbol::new called with a short literal that could use symbol_short! macro"@,
                    advice: match snippet {
                        Some(snippet) => AdviceView::Suggestion {
                            help: "use symbol_short! macro for compile-time symbol creation"@,
                            replacement: symbol_short(snippet@),
                            applicability: Applicability::MachineApplicable,
                        },
                        None => AdviceView::Help(
                            "use symbol_short! macro for compile-time symbol creation"@,
                        ),
                    },
                },
            ),
            _ => None,
        }
    }

    /// Flags `Symbol::new(&env, "literal")` when the literal is short enough to build at
    /// compile time with the `symbol_short!` macro.
    ///
    /// `Symbol::new` constructs the symbol at run time, which is metered; `symbol_short!`
    /// produces it as a compile-time constant instead. Where the source text of the literal
    /// is available the advice is a replacement that can be applied by machine; otherwise it
    /// is a note.
    pub fn check_expr(&self, expr: &Expr, facts: &Facts) -> (step: Step)
        ensures
            step@ == report::next_step(
                Self::question(*expr, *facts),
                Self::verdict(*expr, *facts),
            ),
    {
        let (callee, args) = match &expr.kind {
            ExprKind::Call { callee, args } => (callee, args),
            _ => return Step::Quiet,
        };
        if args.len() != 2 {
            return Step::Quiet;
        }
        match &callee.kind {
            ExprKind::Path(_) => {},
            _ => return Step::Quiet,
        }
        let callee_path = match &facts.callee_path {
            Fact::Known(callee_path) => callee_path,
            Fact::Unknown => return Step::Ask(Question::CalleePath(callee.hir_id)),
        };
        let full = match callee_path {
            Some(full) => full,
            None => return Step::Quiet,
        };
        if !is_symbol_new(full.as_str()) {
            return Step::Quiet;
        }
        let literal = match &args[1].kind {
            ExprKind::Lit(LitKind::Str(literal)) => literal,
            _ => return Step::Quiet,
        };
        if !is_valid_short_symbol(literal.as_str()) {
            return Step::Quiet;
        }
        let snippet = match &facts.snippet {
            Fact::Known(snippet) => snippet,
            Fact::Unknown => return Step::Ask(Question::Snippet(args[1].hir_id)),
        };
        let help = "use symbol_short! macro for compile-time symbol creation";
        let advice = match snippet {
            Some(snippet) => Advice::Suggestion {
                help,
                replacement: symbol_short_call(snippet.as_str()),
                applicability: Applicability::MachineApplicable,
            },
            None => Advice::Help(help),
        };
        Step::Report(
            Diagnostic {
                lint: SYMBOL_NEW_FOR_SHORT_LITERAL,
                hir_id: expr.hir_id,
                message:
                    "Symbol::new called with a short literal that could use symbol_short! macro",
                advice,
            },
        )
    }
}

} // verus!
