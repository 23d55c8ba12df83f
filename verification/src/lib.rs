//! Soroban cost-analysis lints.
//!
//! Soroban meters execution against a CPU and memory budget. The lints here flag *structural*
//! anti-patterns whose cost does not depend on runtime input, so they can be caught statically:
//!
//! - [`SOROBAN_STORAGE_IN_LOOP`]: storage reads or writes performed inside a loop.
//! - [`REDUNDANT_ENV_CLONE`]: cloning the `Env` handle when a reference would do.
//! - [`UNNECESSARY_HOST_FUNCTION_CALL`]: a metered host call inside a loop whose result is
//!   invariant across iterations and could be hoisted out.
//! - [`HOST_IN_LOOP`]: use of a `Host` object inside a loop.
//! - [`SYMBOL_NEW_FOR_SHORT_LITERAL`]: `Symbol::new` on a literal short enough for the
//!   compile-time `symbol_short!` macro.
//!
//! Each lint is assigned a [`LintCategory`] and described in [`lint_metadata`].
//!
//! # How a lint runs
//!
//! A lint is a [`Lint`], a marker struct, and a `check_expr` on that struct. `check_expr` looks
//! at an expression tree ([`hir`]) and at the [`Facts`] that it has been told, and answers with
//! a [`Step`]: a question for the compiler, a finding, or nothing. The driver around this crate
//! lowers the compiler's trees, answers the questions and emits the findings.
//!
//! Receiver types are matched against the definition paths of the SDK ([`paths`]), so the lints
//! key off the SDK's public types rather than fragile name heuristics.
//!
//! What holds of the lints as a whole is stated and proved in [`laws`]. What each of them asks
//! and reports is stated in [`findings`], on what [`readings`] says of the trees and [`naming`] of
//! the paths.
pub mod findings;
pub mod hir;
pub mod laws;
pub mod lints;
pub mod loops;
pub mod naming;
pub mod passes;
pub mod paths;
pub mod readings;
pub mod report;
pub mod store;
pub mod symbols;
mod text;
pub mod visit;

pub use lints::{
    lint_metadata, Lint, LintCategory, LintMetadata, HOST_IN_LOOP, REDUNDANT_ENV_CLONE,
    SOROBAN_STORAGE_IN_LOOP, SYMBOL_NEW_FOR_SHORT_LITERAL, UNNECESSARY_HOST_FUNCTION_CALL,
};
pub use passes::env_clone::RedundantEnvClone;
pub use passes::host_call::UnnecessaryHostFunctionCall;
pub use passes::host_in_loop::HostInLoop;
pub use passes::storage_in_loop::SorobanStorageInLoop;
pub use passes::symbol_new::SymbolNewForShortLiteral;
pub use report::{Facts, Step};
pub use store::{register_lints, LatePass, LintStore};
pub use symbols::is_valid_short_symbol;
