//! The lint passes.
//!
//! A pass looks at one expression at a time. `check_expr` says what it does next, given what it
//! has been told so far: ask the compiler something, report, or leave the expression alone.
pub mod env_clone;
pub mod host_call;
pub mod host_in_loop;
pub mod storage_in_loop;
pub mod symbol_new;
