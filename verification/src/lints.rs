//! The lints, and the registry that describes them.
use vstd::prelude::*;

verus! {

/// How a lint reports by default.
#[derive(Debug, Clone, Copy, PartialEq, Eq, Structural)]
pub enum Level {
    Allow,
    Warn,
    Deny,
    Forbid,
}

/// A lint that this crate ships.
#[derive(Debug, Clone, Copy, PartialEq, Eq, Structural)]
pub enum Lint {
    SorobanStorageInLoop,
    RedundantEnvClone,
    UnnecessaryHostFunctionCall,
    HostInLoop,
    SymbolNewForShortLiteral,
}

/// Storage reads or writes performed inside a loop.
pub const SOROBAN_STORAGE_IN_LOOP: Lint = Lint::SorobanStorageInLoop;

/// Cloning the `Env` handle when a reference would do.
pub const REDUNDANT_ENV_CLONE: Lint = Lint::RedundantEnvClone;

/// A metered host call inside a loop whose result is the same in every iteration.
pub const UNNECESSARY_HOST_FUNCTION_CALL: Lint = Lint::UnnecessaryHostFunctionCall;

/// Use of a `Host` object inside a loop.
pub const HOST_IN_LOOP: Lint = Lint::HostInLoop;

/// `Symbol::new` on a literal short enough for the compile-time `symbol_short!` macro.
pub const SYMBOL_NEW_FOR_SHORT_LITERAL: Lint = Lint::SymbolNewForShortLiteral;

impl Lint {
    /// The name under which the compiler knows the lint.
    pub open spec fn name_text(self) -> Seq<char> {
        match self {
            Lint::SorobanStorageInLoop => "SOROBAN_STORAGE_IN_LOOP"@,
            Lint::RedundantEnvClone => "REDUNDANT_ENV_CLONE"@,
            Lint::UnnecessaryHostFunctionCall => "UNNECESSARY_HOST_FUNCTION_CALL"@,
            Lint::HostInLoop => "HOST_IN_LOOP"@,
            Lint::SymbolNewForShortLiteral => "SYMBOL_NEW_FOR_SHORT_LITERAL"@,
        }
    }

    /// One line on what the lint finds.
    pub open spec fn desc_text(self) -> Seq<char> {
        match self {
            Lint::SorobanStorageInLoop => "storage operations inside a loop"@,
            Lint::RedundantEnvClone => "redundant clone on Env object"@,
            Lint::UnnecessaryHostFunctionCall => "unnecessary host function call inside loop"@,
            Lint::HostInLoop => "use of Host object inside a loop"@,
            Lint::SymbolNewForShortLiteral =>
                "Symbol::new used with a short literal that could use symbol_short! macro"@,
        }
    }

    /// The name under which the compiler knows the lint.
    pub fn name(self) -> (name: &'static str)
        ensures
            name@ == self.name_text(),
    {
        match self {
            Lint::SorobanStorageInLoop => "SOROBAN_STORAGE_IN_LOOP",
            Lint::RedundantEnvClone => "REDUNDANT_ENV_CLONE",
            Lint::UnnecessaryHostFunctionCall => "UNNECESSARY_HOST_FUNCTION_CALL",
            Lint::HostInLoop => "HOST_IN_LOOP",
            Lint::SymbolNewForShortLiteral => "SYMBOL_NEW_FOR_SHORT_LITERAL",
        }
    }

    /// The level that the lint has unless the user sets another.
    pub fn default_level(self) -> (level: Level)
        ensures
            level == Level::Warn,
    {
        Level::Warn
    }

    /// One line on what the lint finds.
    pub fn desc(self) -> (desc: &'static str)
        ensures
            desc@ == self.desc_text(),
    {
        match self {
            Lint::SorobanStorageInLoop => "storage operations inside a loop",
            Lint::RedundantEnvClone => "redundant clone on Env object",
            Lint::UnnecessaryHostFunctionCall => "unnecessary host function call inside loop",
            Lint::HostInLoop => "use of Host object inside a loop",
            Lint::SymbolNewForShortLiteral =>
                "Symbol::new used with a short literal that could use symbol_short! macro",
        }
    }
}

/// The cost dimension a lint speaks to.
///
/// Every lint is tagged with exactly one category, so that findings can be grouped by the
/// kind of budget they affect. The mapping lives in [`lint_metadata`].
#[derive(Debug, Clone, Copy, PartialEq, Eq, Structural)]
pub enum LintCategory {
    /// Reads and writes to Soroban storage (instance, persistent, temporary).
    StorageOperations,
    /// CPU-metered work, such as redundant host calls.
    Compute,
    /// Memory allocation and copying, such as needless clones.
    Memory,
    /// Creation and expiry of storage entries.
    EntryLifecycle,
    /// Construction and handling of `Symbol` values.
    SymbolOperations,
}

/// An entry of the lint registry: a lint paired with its [`LintCategory`].
#[derive(Debug, Clone, Copy, PartialEq, Eq, Structural)]
pub struct LintMetadata {
    /// The lint this entry describes.
    pub lint: Lint,
    /// The cost dimension the lint is grouped under.
    pub category: LintCategory,
}

/// The entries of the registry.
pub open spec fn metadata() -> Seq<LintMetadata> {
    seq![
        LintMetadata {
            lint: SOROBAN_STORAGE_IN_LOOP,
            category: LintCategory::StorageOperations,
        },
        LintMetadata { lint: REDUNDANT_ENV_CLONE, category: LintCategory::Memory },
        LintMetadata { lint: UNNECESSARY_HOST_FUNCTION_CALL, category: LintCategory::Compute },
        LintMetadata { lint: HOST_IN_LOOP, category: LintCategory::Compute },
        LintMetadata {
            lint: SYMBOL_NEW_FOR_SHORT_LITERAL,
            category: LintCategory::SymbolOperations,
        },
    ]
}

/// The registry of every lint of this crate, each paired with its [`LintCategory`].
///
/// This is the single source of truth for lint metadata.
pub fn lint_metadata() -> (entries: &'static [LintMetadata])
    ensures
        entries@ == metadata(),
{
    let entries: &'static [LintMetadata] = &[
        LintMetadata {
            lint: SOROBAN_STORAGE_IN_LOOP,
            category: LintCategory::StorageOperations,
        },
        LintMetadata { lint: REDUNDANT_ENV_CLONE, category: LintCategory::Memory },
        LintMetadata { lint: UNNECESSARY_HOST_FUNCTION_CALL, category: LintCategory::Compute },
        LintMetadata { lint: HOST_IN_LOOP, category: LintCategory::Compute },
        LintMetadata {
            lint: SYMBOL_NEW_FOR_SHORT_LITERAL,
            category: LintCategory::SymbolOperations,
        },
    ];
    assert(entries@ =~= metadata());
    entries
}

} // verus!
