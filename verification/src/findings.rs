//! What each lint asks and reports, stated over the trees, types and paths that it is given.
use crate::hir::{Expr, ExprKind, HirId, LitKind};
use crate::lints::{self, Lint};
use crate::loops;
use crate::naming;
use crate::passes::env_clone::RedundantEnvClone;
use crate::passes::host_call::UnnecessaryHostFunctionCall;
use crate::passes::host_in_loop::HostInLoop;
use crate::passes::storage_in_loop::SorobanStorageInLoop;
use crate::passes::symbol_new::SymbolNewForShortLiteral;
use crate::readings;
use crate::report::{
    self, Advice, AdviceView, Applicability, DiagnosticView, Fact, Facts, Question, Step, StepView,
};
use crate::store::{self, LatePass};
use vstd::prelude::*;

verus! {

/// The expression is known to sit in the body of `loop_expr`, which is a loop.
pub open spec fn sits_in(facts: Facts, loop_expr: Expr) -> bool {
    facts.enclosing == Fact::Known(Some(loop_expr)) && loop_expr.kind is Loop
}

/// The loop around an expression is the nearest loop or closure around it, where that is a loop.
pub proof fn law_enclosing_loop(enclosing: Option<Expr>, loop_expr: Expr)
    ensures
        (loops::loop_of(enclosing) == Some(loop_expr)) == (enclosing == Some(loop_expr)
            && loop_expr.kind is Loop),
{
}

/// An expression is known to sit in a loop exactly where the nearest loop or closure around it
/// is known and is that loop.
pub proof fn law_known_enclosing_loop(facts: Facts, loop_expr: Expr)
    ensures
        (facts.enclosing_loop() == Some(loop_expr)) == sits_in(facts, loop_expr),
{
}

/// The receiver is known to be a storage accessor.
pub open spec fn on_storage(facts: Facts) -> bool {
    exists|full: Seq<char>| #[trigger]
        naming::receiver_has_path(facts, full) && naming::storage_type(full)
}

/// The receiver is known to be a host accessor.
pub open spec fn on_host_accessor(facts: Facts) -> bool {
    exists|full: Seq<char>| #[trigger]
        naming::receiver_has_path(facts, full) && naming::host_type(full)
}

/// The receiver is known to be the environment handle.
pub open spec fn on_env(facts: Facts) -> bool {
    exists|full: Seq<char>| #[trigger]
        naming::receiver_has_path(facts, full) && naming::names(full, "soroban_sdk::Env"@)
}

/// The receiver is known to be a host object.
pub open spec fn on_host(facts: Facts) -> bool {
    exists|full: Seq<char>| #[trigger]
        naming::receiver_has_path(facts, full) && naming::names(full, "host::Host"@)
}

/// `expr` is a call of a method with this name.
pub open spec fn calls_method(expr: Expr, name: Seq<char>) -> bool {
    expr.kind matches ExprKind::MethodCall { segment, .. } && segment@ == name
}

/// The expression is known to sit in a loop.
pub open spec fn in_loop(facts: Facts) -> bool {
    facts.enclosing matches Fact::Known(Some(expr)) && expr.kind is Loop
}

/// The families of receivers, over the one path that the receiver's type has, if any.
proof fn lemma_receivers(facts: Facts)
    ensures
        match facts.receiver_path() {
            Some(full) => {
                &&& on_storage(facts) == naming::storage_type(full)
                &&& on_host_accessor(facts) == naming::host_type(full)
                &&& on_env(facts) == naming::names(full, "soroban_sdk::Env"@)
                &&& on_host(facts) == naming::names(full, "host::Host"@)
            },
            None => {
                &&& !on_storage(facts)
                &&& !on_host_accessor(facts)
                &&& !on_env(facts)
                &&& !on_host(facts)
            },
        },
{
    assert forall|full: Seq<char>| #[trigger]
        naming::receiver_has_path(facts, full) == (facts.receiver_path() == Some(full)) by {
        naming::law_receiver_path(facts, full);
    }
    if let Some(full) = facts.receiver_path() {
        assert(naming::receiver_has_path(facts, full));
    }
}

/// A storage report comes exactly on a method call in a loop whose receiver is a storage
/// accessor, or which is `storage` on the environment handle. It names the call.
pub proof fn law_storage_reports(expr: Expr, facts: Facts, step: StepView)
    requires
        step == report::next_step(
            SorobanStorageInLoop::question(expr, facts),
            SorobanStorageInLoop::verdict(expr, facts),
        ),
    ensures
        step is Report <==> {
            &&& expr.kind is MethodCall
            &&& on_storage(facts) || on_env(facts) && calls_method(expr, "storage"@)
            &&& in_loop(facts)
        },
        step matches StepView::Report(found) ==> {
            &&& found.lint == Lint::SorobanStorageInLoop
            &&& found.hir_id == expr.hir_id
            &&& found.message == "storage operation inside a loop"@
            &&& found.advice == AdviceView::Help(
                "move storage operations out of the loop or accumulate mutations in memory first"@,
            )
        },
{
    lemma_receivers(facts);
    if let ExprKind::MethodCall { segment, .. } = expr.kind {
        if let Some(full) = facts.receiver_path() {
            naming::law_storage_access(segment@, full);
        }
    }
}

/// The storage pass asks for the receiver's type of every method call, and for the loop around
/// those that go to storage. It asks nothing else.
pub proof fn law_storage_questions(expr: Expr, facts: Facts, step: StepView)
    requires
        step == report::next_step(
            SorobanStorageInLoop::question(expr, facts),
            SorobanStorageInLoop::verdict(expr, facts),
        ),
    ensures
        step is Ask <==> {
            &&& expr.kind is MethodCall
            &&& {
                ||| facts.receiver_ty is Unknown
                ||| facts.enclosing is Unknown && (on_storage(facts) || on_env(facts)
                    && calls_method(expr, "storage"@))
            }
        },
        step matches StepView::Ask(asked) ==> asked == if facts.receiver_ty is Unknown {
            Question::ReceiverType(expr.kind->receiver.hir_id)
        } else {
            Question::Enclosing(expr.hir_id)
        },
{
    lemma_receivers(facts);
    if let ExprKind::MethodCall { segment, .. } = expr.kind {
        if let Some(full) = facts.receiver_path() {
            naming::law_storage_access(segment@, full);
        }
    }
}

/// A clone report comes exactly on a call of a method named `clone` whose receiver is the
/// environment handle, be it behind references, in a loop or not. It names the call.
pub proof fn law_clone_reports(expr: Expr, facts: Facts, step: StepView)
    requires
        step == report::next_step(
            RedundantEnvClone::question(expr, facts),
            RedundantEnvClone::verdict(expr, facts),
        ),
    ensures
        step is Report <==> calls_method(expr, "clone"@) && on_env(facts),
        step matches StepView::Report(found) ==> {
            &&& found.lint == Lint::RedundantEnvClone
            &&& found.hir_id == expr.hir_id
            &&& found.message == "redundant clone on Env object"@
            &&& found.advice == AdviceView::Help(
                "pass Env by reference or value instead of cloning"@,
            )
        },
{
    lemma_receivers(facts);
    if let Some(full) = facts.receiver_path() {
        naming::law_known_paths(full);
    }
}

/// The clone pass asks for the receiver's type of a method call named `clone`, and nothing else.
pub proof fn law_clone_questions(expr: Expr, facts: Facts, step: StepView)
    requires
        step == report::next_step(
            RedundantEnvClone::question(expr, facts),
            RedundantEnvClone::verdict(expr, facts),
        ),
    ensures
        step is Ask <==> calls_method(expr, "clone"@) && facts.receiver_ty is Unknown,
        step matches StepView::Ask(asked) ==> asked == Question::ReceiverType(
            expr.kind->receiver.hir_id,
        ),
{
}

/// A report on the host object comes exactly on a method call in a loop whose receiver is a
/// host object, whatever the method and its arguments. It names the call.
pub proof fn law_host_reports(expr: Expr, facts: Facts, step: StepView)
    requires
        step == report::next_step(
            HostInLoop::question(expr, facts),
            HostInLoop::verdict(expr, facts),
        ),
    ensures
        step is Report <==> expr.kind is MethodCall && on_host(facts) && in_loop(facts),
        step matches StepView::Report(found) ==> {
            &&& found.lint == Lint::HostInLoop
            &&& found.hir_id == expr.hir_id
            &&& found.message == "use of Host object inside a loop"@
            &&& found.advice == AdviceView::Help(
                "consider moving the Host usage outside the loop if possible"@,
            )
        },
{
    lemma_receivers(facts);
    if let Some(full) = facts.receiver_path() {
        naming::law_known_paths(full);
    }
}

/// The pass for the host object asks for the receiver's type of every method call, and for the
/// loop around those on a host object. It asks nothing else.
pub proof fn law_host_questions(expr: Expr, facts: Facts, step: StepView)
    requires
        step == report::next_step(
            HostInLoop::question(expr, facts),
            HostInLoop::verdict(expr, facts),
        ),
    ensures
        step is Ask <==> expr.kind is MethodCall && (facts.receiver_ty is Unknown
            || facts.enclosing is Unknown && on_host(facts)),
        step matches StepView::Ask(asked) ==> asked == if facts.receiver_ty is Unknown {
            Question::ReceiverType(expr.kind->receiver.hir_id)
        } else {
            Question::Enclosing(expr.hir_id)
        },
{
    lemma_receivers(facts);
    if let Some(full) = facts.receiver_path() {
        naming::law_known_paths(full);
    }
}

/// The environment handle is no host object: the pass for the host object never reports a
/// method call on it, with arguments or without.
pub proof fn law_no_host_report_on_env(expr: Expr, facts: Facts)
    requires
        on_env(facts),
    ensures
        !on_host(facts),
        HostInLoop::verdict(expr, facts) is None,
{
    lemma_receivers(facts);
    if let Some(full) = facts.receiver_path() {
        naming::law_known_paths(full);
        reveal_strlit("soroban_sdk::Env");
        reveal_strlit("host::Host");
        assert(full.last() == 'v');
        if naming::names(full, "host::Host"@) {
            assert(full.last() == 't');
        }
    }
}

/// A report on a host call comes exactly on a method call in a loop whose receiver is a host
/// accessor, or which is `current_contract_address` on the environment handle, where the
/// mutations of the loop are known and the call mentions no local variable, however deep inside
/// it, that the loop introduces or mutates. It names the call.
pub proof fn law_host_call_reports(expr: Expr, facts: Facts, step: StepView)
    requires
        step == report::next_step(
            UnnecessaryHostFunctionCall::question(expr, facts),
            UnnecessaryHostFunctionCall::verdict(expr, facts),
        ),
    ensures
        step is Report <==> {
            &&& expr.kind is MethodCall
            &&& on_host_accessor(facts) || on_env(facts) && calls_method(
                expr,
                "current_contract_address"@,
            )
            &&& facts.enclosing matches Fact::Known(Some(loop_expr))
            &&& loop_expr.kind is Loop
            &&& facts.mutated matches Fact::Known(Some(ids))
            &&& forall|hir_id: HirId| #[trigger]
                readings::mentions(expr, hir_id) ==> !readings::introduces(loop_expr, hir_id)
                    && !ids@.contains(hir_id)
        },
        step matches StepView::Report(found) ==> {
            &&& found.lint == Lint::UnnecessaryHostFunctionCall
            &&& found.hir_id == expr.hir_id
            &&& found.message == "unnecessary host function call inside loop"@
            &&& found.advice == AdviceView::Help(
                "call this function outside the loop and reuse the result"@,
            )
        },
{
    lemma_receivers(facts);
    if let ExprKind::MethodCall { segment, .. } = expr.kind {
        if let Some(full) = facts.receiver_path() {
            naming::law_host_function(segment@, full);
        }
    }
    if let Fact::Known(Some(loop_expr)) = facts.enclosing {
        if let Fact::Known(mutated) = facts.mutated {
            readings::law_dependence(mutated, loop_expr, expr);
        }
    }
}

/// The pass for host calls asks for the receiver's type of every method call, for the loop
/// around those that go to the host, and for the mutations of that loop. It asks nothing else.
pub proof fn law_host_call_questions(expr: Expr, facts: Facts, step: StepView)
    requires
        step == report::next_step(
            UnnecessaryHostFunctionCall::question(expr, facts),
            UnnecessaryHostFunctionCall::verdict(expr, facts),
        ),
    ensures
        step is Ask <==> {
            &&& expr.kind is MethodCall
            &&& {
                ||| facts.receiver_ty is Unknown
                ||| {
                    &&& on_host_accessor(facts) || on_env(facts) && calls_method(
                        expr,
                        "current_contract_address"@,
                    )
                    &&& facts.enclosing is Unknown || in_loop(facts) && facts.mutated is Unknown
                }
            }
        },
        step matches StepView::Ask(asked) ==> asked == if facts.receiver_ty is Unknown {
            Question::ReceiverType(expr.kind->receiver.hir_id)
        } else {
            match facts.enclosing {
                Fact::Known(Some(loop_expr)) => Question::Mutated(loop_expr.hir_id),
                _ => Question::Enclosing(expr.hir_id),
            }
        },
{
    lemma_receivers(facts);
    if let ExprKind::MethodCall { segment, .. } = expr.kind {
        if let Some(full) = facts.receiver_path() {
            naming::law_host_function(segment@, full);
        }
    }
}

/// A call that mentions, anywhere inside it, a local variable that the loop around it
/// introduces or mutates is never reported as one that could be made outside the loop.
pub proof fn law_varying_host_calls_are_not_reported(
    expr: Expr,
    facts: Facts,
    loop_expr: Expr,
    hir_id: HirId,
)
    requires
        sits_in(facts, loop_expr),
        readings::mentions(expr, hir_id),
        readings::introduces(loop_expr, hir_id) || (facts.mutated matches Fact::Known(Some(ids))
            && ids@.contains(hir_id)),
    ensures
        UnnecessaryHostFunctionCall::verdict(expr, facts) is None,
{
    if let Fact::Known(mutated) = facts.mutated {
        readings::law_dependence(mutated, loop_expr, expr);
    }
}

/// `expr` calls a path with two arguments, whatever the first of them is.
pub open spec fn calls_path_with_two(expr: Expr) -> bool {
    expr.kind matches ExprKind::Call { callee, args } && callee.kind is Path && args@.len() == 2
}

/// `expr` calls something with a second argument that is a literal of short symbol text.
pub open spec fn second_is_short_literal(expr: Expr) -> bool {
    &&& expr.kind matches ExprKind::Call { args, .. }
    &&& args@[1].kind matches ExprKind::Lit(LitKind::Str(text))
    &&& naming::fits_short_symbol(text@)
}

/// The callee is known to be the constructor of symbols.
pub open spec fn callee_is_symbol_new(facts: Facts) -> bool {
    facts.callee_path matches Fact::Known(Some(full)) && naming::names(
        full@,
        "soroban_sdk::Symbol::new"@,
    )
}

proof fn lemma_symbol_calls(expr: Expr, facts: Facts)
    ensures
        SymbolNewForShortLiteral::candidate(expr) == calls_path_with_two(expr),
        SymbolNewForShortLiteral::short_literal(expr) == second_is_short_literal(expr),
        SymbolNewForShortLiteral::calls_symbol_new(facts) == callee_is_symbol_new(facts),
{
    if let ExprKind::Call { args, .. } = expr.kind {
        if let ExprKind::Lit(LitKind::Str(text)) = args@[1].kind {
            naming::law_short_symbols(text@);
        }
    }
    if let Fact::Known(Some(full)) = facts.callee_path {
        naming::law_known_paths(full@);
    }
}

/// A symbol report comes exactly on a call of `Symbol::new` by its path, with two arguments
/// of which the second is a literal of one to nine symbol characters, once the source text has
/// been asked for. The first argument has no say. The report names the call, and offers to
/// replace it where there is source text to quote.
pub proof fn law_symbol_reports(expr: Expr, facts: Facts, step: StepView)
    requires
        step == report::next_step(
            SymbolNewForShortLiteral::question(expr, facts),
            SymbolNewForShortLiteral::verdict(expr, facts),
        ),
    ensures
        step is Report <==> {
            &&& calls_path_with_two(expr)
            &&& callee_is_symbol_new(facts)
            &&& second_is_short_literal(expr)
            &&& facts.snippet is Known
        },
        step matches StepView::Report(found) ==> {
            &&& found.lint == Lint::SymbolNewForShortLiteral
            &&& found.hir_id == expr.hir_id
            &&& found.message
                == "Symbol::new called with a short literal that could use symbol_short! macro"@
            &&& match facts.snippet {
                Fact::Known(Some(snippet)) => found.advice == (AdviceView::Suggestion {
                    help: "use symbol_short! macro for compile-time symbol creation"@,
                    replacement: ("symbol_short!("@ + snippet@) + ")"@,
                    applicability: Applicability::MachineApplicable,
                }),
                _ => found.advice == AdviceView::Help(
                    "use symbol_short! macro for compile-time symbol creation"@,
                ),
            }
        },
{
    lemma_symbol_calls(expr, facts);
}

/// The symbol pass asks for the path behind the callee of a call with two arguments, and for the
/// source text of the literal of a call that it will report. It asks nothing else.
pub proof fn law_symbol_questions(expr: Expr, facts: Facts, step: StepView)
    requires
        step == report::next_step(
            SymbolNewForShortLiteral::question(expr, facts),
            SymbolNewForShortLiteral::verdict(expr, facts),
        ),
    ensures
        step is Ask <==> {
            &&& calls_path_with_two(expr)
            &&& {
                ||| facts.callee_path is Unknown
                ||| facts.snippet is Unknown && callee_is_symbol_new(facts)
                    && second_is_short_literal(expr)
            }
        },
        step matches StepView::Ask(asked) ==> (expr.kind matches ExprKind::Call { callee, args }
            && asked == if facts.callee_path is Unknown {
            Question::CalleePath(callee.hir_id)
        } else {
            Question::Snippet(args@[1].hir_id)
        }),
{
    lemma_symbol_calls(expr, facts);
}

/// `a` and `b` call the same thing with two arguments, of which the second is the same.
pub open spec fn calls_alike(a: Expr, b: Expr) -> bool {
    &&& a.kind matches ExprKind::Call { callee: a_callee, args: a_args }
    &&& b.kind matches ExprKind::Call { callee: b_callee, args: b_args }
    &&& a_callee == b_callee
    &&& a_args@.len() == b_args@.len() == 2
    &&& a_args@[1] == b_args@[1]
}

/// Two calls that differ in their first argument alone are treated alike by the symbol pass.
pub proof fn law_first_argument_has_no_say(a: Expr, b: Expr, facts: Facts)
    requires
        a.hir_id == b.hir_id,
        calls_alike(a, b),
    ensures
        SymbolNewForShortLiteral::question(a, facts) == SymbolNewForShortLiteral::question(
            b,
            facts,
        ),
        SymbolNewForShortLiteral::verdict(a, facts) == SymbolNewForShortLiteral::verdict(b, facts),
{
}

/// A pass with something to ask asks it; one without reports what it has found, and is quiet
/// where it has found nothing.
pub proof fn law_next_step(
    question: Option<Question>,
    verdict: Option<DiagnosticView>,
    asked: Question,
    found: DiagnosticView,
)
    ensures
        (report::next_step(question, verdict) == StepView::Ask(asked)) == (question == Some(
            asked,
        )),
        (report::next_step(question, verdict) == StepView::Report(found)) == (question is None
            && verdict == Some(found)),
        (report::next_step(question, verdict) == StepView::Quiet) == (question is None
            && verdict is None),
{
}

/// The text of a step is the whole of it: the question asked, or every part of the finding.
pub proof fn law_step_text(step: Step)
    ensures
        match step {
            Step::Ask(question) => step@ == StepView::Ask(question),
            Step::Quiet => step@ == StepView::Quiet,
            Step::Report(found) => {
                &&& step@ matches StepView::Report(text)
                &&& text.lint == found.lint
                &&& text.hir_id == found.hir_id
                &&& text.message == found.message@
                &&& match found.advice {
                    Advice::Help(help) => text.advice == AdviceView::Help(help@),
                    Advice::Suggestion { help, replacement, applicability } => text.advice == (
                    AdviceView::Suggestion {
                        help: help@,
                        replacement: replacement@,
                        applicability,
                    }),
                }
            },
        },
{
}

/// A pass does what the lint that it carries does.
pub proof fn law_passes_do_their_lint(pass: LatePass, expr: Expr, facts: Facts)
    ensures
        pass.lint_of() is SorobanStorageInLoop ==> {
            &&& pass.question(expr, facts) == SorobanStorageInLoop::question(expr, facts)
            &&& pass.verdict(expr, facts) == SorobanStorageInLoop::verdict(expr, facts)
        },
        pass.lint_of() is RedundantEnvClone ==> {
            &&& pass.question(expr, facts) == RedundantEnvClone::question(expr, facts)
            &&& pass.verdict(expr, facts) == RedundantEnvClone::verdict(expr, facts)
        },
        pass.lint_of() is UnnecessaryHostFunctionCall ==> {
            &&& pass.question(expr, facts) == UnnecessaryHostFunctionCall::question(expr, facts)
            &&& pass.verdict(expr, facts) == UnnecessaryHostFunctionCall::verdict(expr, facts)
        },
        pass.lint_of() is HostInLoop ==> {
            &&& pass.question(expr, facts) == HostInLoop::question(expr, facts)
            &&& pass.verdict(expr, facts) == HostInLoop::verdict(expr, facts)
        },
        pass.lint_of() is SymbolNewForShortLiteral ==> {
            &&& pass.question(expr, facts) == SymbolNewForShortLiteral::question(expr, facts)
            &&& pass.verdict(expr, facts) == SymbolNewForShortLiteral::verdict(expr, facts)
        },
        pass is SorobanStorageInLoop <==> pass.lint_of() is SorobanStorageInLoop,
        pass is RedundantEnvClone <==> pass.lint_of() is RedundantEnvClone,
        pass is UnnecessaryHostFunctionCall <==> pass.lint_of() is UnnecessaryHostFunctionCall,
        pass is HostInLoop <==> pass.lint_of() is HostInLoop,
        pass is SymbolNewForShortLiteral <==> pass.lint_of() is SymbolNewForShortLiteral,
{
}

/// Each lint goes by its own name and no other lint does.
pub proof fn law_lint_names(lint: Lint)
    ensures
        lint.name_text() == "SOROBAN_STORAGE_IN_LOOP"@ <==> lint is SorobanStorageInLoop,
        lint.name_text() == "REDUNDANT_ENV_CLONE"@ <==> lint is RedundantEnvClone,
        lint.name_text() == "UNNECESSARY_HOST_FUNCTION_CALL"@
            <==> lint is UnnecessaryHostFunctionCall,
        lint.name_text() == "HOST_IN_LOOP"@ <==> lint is HostInLoop,
        lint.name_text() == "SYMBOL_NEW_FOR_SHORT_LITERAL"@ <==> lint is SymbolNewForShortLiteral,
{
    reveal_strlit("SOROBAN_STORAGE_IN_LOOP");
    reveal_strlit("REDUNDANT_ENV_CLONE");
    reveal_strlit("UNNECESSARY_HOST_FUNCTION_CALL");
    reveal_strlit("HOST_IN_LOOP");
    reveal_strlit("SYMBOL_NEW_FOR_SHORT_LITERAL");
    assert("SOROBAN_STORAGE_IN_LOOP"@.len() == 23);
    assert("REDUNDANT_ENV_CLONE"@.len() == 19);
    assert("UNNECESSARY_HOST_FUNCTION_CALL"@.len() == 30);
    assert("HOST_IN_LOOP"@.len() == 12);
    assert("SYMBOL_NEW_FOR_SHORT_LITERAL"@.len() == 28);
}

/// Each lint describes itself in its own words and no other lint does.
pub proof fn law_lint_descriptions(lint: Lint)
    ensures
        lint.desc_text() == "storage operations inside a loop"@ <==> lint is SorobanStorageInLoop,
        lint.desc_text() == "redundant clone on Env object"@ <==> lint is RedundantEnvClone,
        lint.desc_text() == "unnecessary host function call inside loop"@
            <==> lint is UnnecessaryHostFunctionCall,
        lint.desc_text() == "use of Host object inside a loop"@ <==> lint is HostInLoop,
        lint.desc_text()
            == "Symbol::new used with a short literal that could use symbol_short! macro"@
            <==> lint is SymbolNewForShortLiteral,
{
    reveal_strlit("storage operations inside a loop");
    reveal_strlit("redundant clone on Env object");
    reveal_strlit("unnecessary host function call inside loop");
    reveal_strlit("use of Host object inside a loop");
    reveal_strlit("Symbol::new used with a short literal that could use symbol_short! macro");
    assert("storage operations inside a loop"@[0] == 's');
    assert("redundant clone on Env object"@[0] == 'r');
    assert("unnecessary host function call inside loop"@[1] == 'n');
    assert("use of Host object inside a loop"@[1] == 's');
    assert("use of Host object inside a loop"@[0] == 'u');
    assert("unnecessary host function call inside loop"@[0] == 'u');
    assert("Symbol::new used with a short literal that could use symbol_short! macro"@[0] == 'S');
}

/// The registry puts each lint under the budget that it speaks to: storage in loops under
/// storage, clones of the environment under memory, work for the host under compute and symbols
/// under symbols.
pub proof fn law_categories(i: int)
    requires
        0 <= i < lints::metadata().len(),
    ensures
        lints::metadata()[i].category is StorageOperations
            <==> lints::metadata()[i].lint is SorobanStorageInLoop,
        lints::metadata()[i].category is Memory <==> lints::metadata()[i].lint is RedundantEnvClone,
        lints::metadata()[i].category is Compute
            <==> lints::metadata()[i].lint is UnnecessaryHostFunctionCall
            || lints::metadata()[i].lint is HostInLoop,
        lints::metadata()[i].category is SymbolOperations
            <==> lints::metadata()[i].lint is SymbolNewForShortLiteral,
{
    let entries = lints::metadata();
    assert(entries[0].lint is SorobanStorageInLoop);
    assert(entries[1].lint is RedundantEnvClone);
    assert(entries[2].lint is UnnecessaryHostFunctionCall);
    assert(entries[3].lint is HostInLoop);
    assert(entries[4].lint is SymbolNewForShortLiteral);
}

/// The place of a lint in the order of registration.
pub open spec fn rank(lint: Lint) -> int {
    match lint {
        Lint::SorobanStorageInLoop => 0,
        Lint::RedundantEnvClone => 1,
        Lint::UnnecessaryHostFunctionCall => 2,
        Lint::HostInLoop => 3,
        Lint::SymbolNewForShortLiteral => 4,
    }
}

/// Lints and passes are registered in step: each lint at its rank, and beside it a pass that is
/// there for it.
pub proof fn law_registration_order(lint: Lint)
    ensures
        store::registered_lints().len() == store::registered_passes().len() == 5,
        store::registered_lints()[rank(lint)] == lint,
        store::registered_passes()[rank(lint)].lint_of() == lint,
{
}

} // verus!
