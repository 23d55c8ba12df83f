use soroban_cost_lints::lints::Level;
use soroban_cost_lints::{
    lint_metadata, register_lints, HostInLoop, LatePass, Lint, LintCategory, LintMetadata,
    LintStore, RedundantEnvClone, SorobanStorageInLoop, SymbolNewForShortLiteral,
    UnnecessaryHostFunctionCall, HOST_IN_LOOP, REDUNDANT_ENV_CLONE, SOROBAN_STORAGE_IN_LOOP,
    SYMBOL_NEW_FOR_SHORT_LITERAL, UNNECESSARY_HOST_FUNCTION_CALL,
};

fn all_lints() -> Vec<Lint> {
    vec![
        SOROBAN_STORAGE_IN_LOOP,
        REDUNDANT_ENV_CLONE,
        UNNECESSARY_HOST_FUNCTION_CALL,
        HOST_IN_LOOP,
        SYMBOL_NEW_FOR_SHORT_LITERAL,
    ]
}

#[test]
fn metadata_gives_each_lint_its_category() {
    assert_eq!(
        lint_metadata(),
        &[
            LintMetadata {
                lint: SOROBAN_STORAGE_IN_LOOP,
                category: LintCategory::StorageOperations
            },
            LintMetadata { lint: REDUNDANT_ENV_CLONE, category: LintCategory::Memory },
            LintMetadata { lint: UNNECESSARY_HOST_FUNCTION_CALL, category: LintCategory::Compute },
            LintMetadata { lint: HOST_IN_LOOP, category: LintCategory::Compute },
            LintMetadata {
                lint: SYMBOL_NEW_FOR_SHORT_LITERAL,
                category: LintCategory::SymbolOperations
            },
        ]
    );
}

#[test]
fn registers_every_lint_and_its_pass() {
    let mut store = LintStore::new();
    register_lints(&mut store);
    assert_eq!(store.lints, all_lints());
    assert_eq!(
        store.late_passes,
        vec![
            LatePass::SorobanStorageInLoop(SorobanStorageInLoop),
            LatePass::RedundantEnvClone(RedundantEnvClone),
            LatePass::UnnecessaryHostFunctionCall(UnnecessaryHostFunctionCall),
            LatePass::HostInLoop(HostInLoop),
            LatePass::SymbolNewForShortLiteral(SymbolNewForShortLiteral),
        ]
    );
}

#[test]
fn registers_behind_what_is_there() {
    let mut store = LintStore {
        lints: vec![HOST_IN_LOOP],
        late_passes: vec![LatePass::HostInLoop(HostInLoop)],
    };
    register_lints(&mut store);
    assert_eq!(store.lints.len(), 6);
    assert_eq!(store.lints[0], HOST_IN_LOOP);
    assert_eq!(&store.lints[1..], &all_lints()[..]);
    assert_eq!(store.late_passes.len(), 6);
    assert_eq!(store.late_passes[0], LatePass::HostInLoop(HostInLoop));
}

#[test]
fn registration_is_in_sync_with_the_metadata() {
    let mut store = LintStore::new();
    register_lints(&mut store);
    let described: Vec<Lint> = lint_metadata().iter().map(|entry| entry.lint).collect();
    assert_eq!(store.lints, described);
    let reported: Vec<Lint> =
        store.late_passes.iter().flat_map(|pass| pass.get_lints()).collect();
    assert_eq!(store.lints, reported);
}

#[test]
fn lints_warn_by_default() {
    for lint in all_lints() {
        assert_eq!(lint.default_level(), Level::Warn);
    }
}

#[test]
fn lints_have_names_and_descriptions() {
    let texts: Vec<(&str, &str)> =
        all_lints().into_iter().map(|lint| (lint.name(), lint.desc())).collect();
    assert_eq!(
        texts,
        vec![
            ("SOROBAN_STORAGE_IN_LOOP", "storage operations inside a loop"),
            ("REDUNDANT_ENV_CLONE", "redundant clone on Env object"),
            ("UNNECESSARY_HOST_FUNCTION_CALL", "unnecessary host function call inside loop"),
            ("HOST_IN_LOOP", "use of Host object inside a loop"),
            (
                "SYMBOL_NEW_FOR_SHORT_LITERAL",
                "Symbol::new used with a short literal that could use symbol_short! macro"
            ),
        ]
    );
}
