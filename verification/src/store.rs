//! What the compiler registers for this crate.
use crate::hir::Expr;
use crate::lints::{
    Lint, HOST_IN_LOOP, REDUNDANT_ENV_CLONE, SOROBAN_STORAGE_IN_LOOP, SYMBOL_NEW_FOR_SHORT_LITERAL,
    UNNECESSARY_HOST_FUNCTION_CALL,
};
use crate::passes::env_clone::RedundantEnvClone;
use crate::passes::host_call::UnnecessaryHostFunctionCall;
use crate::passes::host_in_loop::HostInLoop;
use crate::passes::storage_in_loop::SorobanStorageInLoop;
use crate::passes::symbol_new::SymbolNewForShortLiteral;
use crate::report::{self, DiagnosticView, Facts, Question, Step};
use vstd::prelude::*;

verus! {

/// A lint pass of this crate.
#[derive(Debug, Clone, Copy, PartialEq, Eq, Structural)]
pub enum LatePass {
    SorobanStorageInLoop(SorobanStorageInLoop),
    RedundantEnvClone(RedundantEnvClone),
    UnnecessaryHostFunctionCall(UnnecessaryHostFunctionCall),
    HostInLoop(HostInLoop),
    SymbolNewForShortLiteral(SymbolNewForShortLiteral),
}

impl LatePass {
    /// The lint that the pass is there for.
    pub open spec fn lint_of(self) -> Lint {
        match self {
            LatePass::SorobanStorageInLoop(_) => SOROBAN_STORAGE_IN_LOOP,
            LatePass::RedundantEnvClone(_) => REDUNDANT_ENV_CLONE,
            LatePass::UnnecessaryHostFunctionCall(_) => UNNECESSARY_HOST_FUNCTION_CALL,
            LatePass::HostInLoop(_) => HOST_IN_LOOP,
            LatePass::SymbolNewForShortLiteral(_) => SYMBOL_NEW_FOR_SHORT_LITERAL,
        }
    }

    /// What the pass has to know before it can decide on `expr`.
    pub open spec fn question(self, expr: Expr, facts: Facts) -> Option<Question> {
        match self {
            LatePass::SorobanStorageInLoop(_) => SorobanStorageInLoop::question(expr, facts),
            LatePass::RedundantEnvClone(_) => RedundantEnvClone::question(expr, facts),
            LatePass::UnnecessaryHostFunctionCall(_) => UnnecessaryHostFunctionCall::question(
                expr,
                facts,
            ),
            LatePass::HostInLoop(_) => HostInLoop::question(expr, facts),
            LatePass::SymbolNewForShortLiteral(_) => SymbolNewForShortLiteral::question(
                expr,
                facts,
            ),
        }
    }

    /// What the pass reports on `expr`.
    pub open spec fn verdict(self, expr: Expr, facts: Facts) -> Option<DiagnosticView> {
        match self {
            LatePass::SorobanStorageInLoop(_) => SorobanStorageInLoop::verdict(expr, facts),
            LatePass::RedundantEnvClone(_) => RedundantEnvClone::verdict(expr, facts),
            LatePass::UnnecessaryHostFunctionCall(_) => UnnecessaryHostFunctionCall::verdict(
                expr,
                facts,
            ),
            LatePass::HostInLoop(_) => HostInLoop::verdict(expr, facts),
            LatePass::SymbolNewForShortLiteral(_) => SymbolNewForShortLiteral::verdict(
                expr,
                facts,
            ),
        }
    }

    /// The lints that the pass can report.
    pub fn get_lints(&self) -> (lints: Vec<Lint>)
        ensures
            lints@ == seq![self.lint_of()],
    {
        let lint = match self {
            LatePass::SorobanStorageInLoop(_) => SOROBAN_STORAGE_IN_LOOP,
            LatePass::RedundantEnvClone(_) => REDUNDANT_ENV_CLONE,
            LatePass::UnnecessaryHostFunctionCall(_) => UNNECESSARY_HOST_FUNCTION_CALL,
            LatePass::HostInLoop(_) => HOST_IN_LOOP,
            LatePass::SymbolNewForShortLiteral(_) => SYMBOL_NEW_FOR_SHORT_LITERAL,
        };
        let mut lints: Vec<Lint> = Vec::new();
        lints.push(lint);
        assert(lints@ =~= seq![self.lint_of()]);
        lints
    }

    /// What the pass does next with `expr`.
    pub fn check_expr(&self, expr: &Expr, facts: &Facts) -> (step: Step)
        ensures
            step@ == report::next_step(
                self.question(*expr, *facts),
                self.verdict(*expr, *facts),
            ),
    {
        match self {
            LatePass::SorobanStorageInLoop(pass) => pass.check_expr(expr, facts),
            LatePass::RedundantEnvClone(pass) => pass.check_expr(expr, facts),
            LatePass::UnnecessaryHostFunctionCall(pass) => pass.check_expr(expr, facts),
            LatePass::HostInLoop(pass) => pass.check_expr(expr, facts),
            LatePass::SymbolNewForShortLiteral(pass) => pass.check_expr(expr, facts),
        }
    }
}

/// The lints and passes that have been registered, in the order of registration.
#[derive(Debug)]
pub struct LintStore {
    pub lints: Vec<Lint>,
    pub late_passes: Vec<LatePass>,
}

impl LintStore {
    /// A store in which nothing is registered.
    pub fn new() -> (store: Self)
        ensures
            store.lints@ == Seq::<Lint>::empty(),
            store.late_passes@ == Seq::<LatePass>::empty(),
    {
        LintStore { lints: Vec::new(), late_passes: Vec::new() }
    }
}

/// The lints that [`register_lints`] registers.
pub open spec fn registered_lints() -> Seq<Lint> {
    seq![
        SOROBAN_STORAGE_IN_LOOP,
        REDUNDANT_ENV_CLONE,
        UNNECESSARY_HOST_FUNCTION_CALL,
        HOST_IN_LOOP,
        SYMBOL_NEW_FOR_SHORT_LITERAL,
    ]
}

/// The passes that [`register_lints`] registers.
pub open spec fn registered_passes() -> Seq<LatePass> {
    seq![
        LatePass::SorobanStorageInLoop(SorobanStorageInLoop),
        LatePass::RedundantEnvClone(RedundantEnvClone),
        LatePass::UnnecessaryHostFunctionCall(UnnecessaryHostFunctionCall),
        LatePass::HostInLoop(HostInLoop),
        LatePass::SymbolNewForShortLiteral(SymbolNewForShortLiteral),
    ]
}

/// Registers every lint and its pass, behind what the store already holds.
///
/// The set of lints registered here stays in sync with
/// [`lint_metadata`](crate::lints::lint_metadata).
pub fn register_lints(lint_store: &mut LintStore)
    ensures
        final(lint_store).lints@ == old(lint_store).lints@ + registered_lints(),
        final(lint_store).late_passes@ == old(lint_store).late_passes@ + registered_passes(),
{
    lint_store.lints.push(SOROBAN_STORAGE_IN_LOOP);
    lint_store.lints.push(REDUNDANT_ENV_CLONE);
    lint_store.lints.push(UNNECESSARY_HOST_FUNCTION_CALL);
    lint_store.lints.push(HOST_IN_LOOP);
    lint_store.lints.push(SYMBOL_NEW_FOR_SHORT_LITERAL);
    lint_store.late_passes.push(LatePass::SorobanStorageInLoop(SorobanStorageInLoop));
    lint_store.late_passes.push(LatePass::RedundantEnvClone(RedundantEnvClone));
    lint_store.late_passes.push(
        LatePass::UnnecessaryHostFunctionCall(UnnecessaryHostFunctionCall),
    );
    lint_store.late_passes.push(LatePass::HostInLoop(HostInLoop));
    lint_store.late_passes.push(LatePass::SymbolNewForShortLiteral(SymbolNewForShortLiteral));
    proof {
        assert(lint_store.lints@ =~= old(lint_store).lints@ + registered_lints());
        assert(lint_store.late_passes@ =~= old(lint_store).late_passes@ + registered_passes());
    }
}

} // verus!
