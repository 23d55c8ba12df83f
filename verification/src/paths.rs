//! The definition paths of the SDK types that the lints know.
use crate::text::{ends_with, same_text};
use vstd::prelude::*;

verus! {

/// The segments of a path as text, with `::` between them.
pub open spec fn path_text(segments: Seq<Seq<char>>) -> Seq<char>
    decreases segments.len(),
{
    if segments.len() == 0 {
        Seq::empty()
    } else if segments.len() == 1 {
        segments.first()
    } else {
        path_text(segments.drop_last()) + "::"@ + segments.last()
    }
}

/// The last segments of the definition path `full` are `segments`: it is the path that they
/// make up, or that path behind a `::`.
pub open spec fn path_matches(full: Seq<char>, segments: Seq<Seq<char>>) -> bool {
    ||| segments.len() == 0
    ||| full == path_text(segments)
    ||| ("::"@ + path_text(segments)).is_suffix_of(full)
}

/// The last segments of the definition path `full` are those of one of `paths`.
pub open spec fn any_path_matches(full: Seq<char>, paths: Seq<Seq<Seq<char>>>) -> bool {
    exists|i: int| 0 <= i < paths.len() && path_matches(full, #[trigger] paths[i])
}

/// The text of the path with these segments.
fn join_segments(segments: &[&str]) -> (text: String)
    ensures
        text@ == path_text(segments.deep_view()),
{
    let ghost views = segments.deep_view();
    let mut text = String::new();
    let mut i: usize = 0;
    while i < segments.len()
        invariant
            views == segments.deep_view(),
            views.len() == segments.len(),
            i <= segments.len(),
            text@ == path_text(views.take(i as int)),
        decreases segments.len() - i,
    {
        if i > 0 {
            text.append("::");
        }
        text.append(segments[i]);
        proof {
            let seen = views.take(i + 1);
            assert(seen.drop_last() =~= views.take(i as int));
            assert(seen.last() == segments@[i as int]@);
            assert(text@ =~= path_text(seen));
        }
        i += 1;
    }
    assert(views.take(i as int) =~= views);
    text
}

/// Whether the last segments of the definition path `full` are `segments`.
///
/// Segments are compared whole: `a::soroban_sdk::Env` ends with the segments `soroban_sdk` and
/// `Env`, `my_soroban_sdk::Env` does not.
pub fn match_soroban_def_path(full: &str, segments: &[&str]) -> (matched: bool)
    ensures
        matched == path_matches(full@, segments.deep_view()),
{
    if segments.len() == 0 {
        return true;
    }
    let text = join_segments(segments);
    if same_text(full, text.as_str()) {
        return true;
    }
    let mut suffix = String::new();
    suffix.append("::");
    suffix.append(text.as_str());
    assert(suffix@ =~= "::"@ + path_text(segments.deep_view()));
    ends_with(full, suffix.as_str())
}

/// Whether the last segments of the definition path `full` are those of one of `paths`.
pub fn matches_any_path(full: &str, paths: &[&[&str]]) -> (matched: bool)
    ensures
        matched == any_path_matches(full@, paths.deep_view()),
{
    let ghost views = paths.deep_view();
    let mut i: usize = 0;
    while i < paths.len()
        invariant
            views == paths.deep_view(),
            views.len() == paths.len(),
            i <= paths.len(),
            forall|j: int| 0 <= j < i ==> !path_matches(full@, #[trigger] views[j]),
        decreases paths.len() - i,
    {
        assert(views[i as int] == paths@[i as int].deep_view());
        if match_soroban_def_path(full, paths[i]) {
            return true;
        }
        i += 1;
    }
    false
}

/// The path of the SDK's environment handle.
pub open spec fn env_path() -> Seq<Seq<char>> {
    seq!["soroban_sdk"@, "Env"@]
}

/// The path of the host object.
pub open spec fn host_path() -> Seq<Seq<char>> {
    seq!["host"@, "Host"@]
}

/// The path of the constructor that builds a symbol at run time.
pub open spec fn symbol_new_path() -> Seq<Seq<char>> {
    seq!["soroban_sdk"@, "Symbol"@, "new"@]
}

/// The paths of the storage accessor types.
pub open spec fn storage_type_paths() -> Seq<Seq<Seq<char>>> {
    seq![
        seq!["soroban_sdk"@, "storage"@, "Storage"@],
        seq!["soroban_sdk"@, "storage"@, "Instance"@],
        seq!["soroban_sdk"@, "storage"@, "Persistent"@],
        seq!["soroban_sdk"@, "storage"@, "Temporary"@],
    ]
}

/// The paths of the host accessor types.
pub open spec fn host_type_paths() -> Seq<Seq<Seq<char>>> {
    seq![
        seq!["soroban_sdk"@, "ledger"@, "Ledger"@],
        seq!["soroban_sdk"@, "crypto"@, "Crypto"@],
        seq!["soroban_sdk"@, "crypto"@, "CryptoHazmat"@],
        seq!["soroban_sdk"@, "crypto"@, "bls12_381"@, "Bls12_381"@],
        seq!["soroban_sdk"@, "crypto"@, "bn254"@, "Bn254"@],
        seq!["soroban_sdk"@, "prng"@, "Prng"@],
        seq!["soroban_sdk"@, "events"@, "Events"@],
        seq!["soroban_sdk"@, "deploy"@, "Deployer"@],
        seq!["soroban_sdk"@, "deploy"@, "DeployerWithAddress"@],
        seq!["soroban_sdk"@, "deploy"@, "DeployerWithAsset"@],
    ]
}

/// The names of the host calls that live on the environment handle itself.
pub open spec fn env_host_method_names() -> Seq<Seq<char>> {
    seq!["current_contract_address"@]
}

/// Soroban storage accessor types. Every method call on one of these reaches the host's
/// storage subsystem.
pub fn soroban_storage_types() -> (paths: &'static [&'static [&'static str]])
    ensures
        paths.deep_view() == storage_type_paths(),
{
    let paths: &'static [&'static [&'static str]] = &[
        &["soroban_sdk", "storage", "Storage"],
        &["soroban_sdk", "storage", "Instance"],
        &["soroban_sdk", "storage", "Persistent"],
        &["soroban_sdk", "storage", "Temporary"],
    ];
    assert(paths.deep_view() =~~= storage_type_paths());
    paths
}

/// Soroban host accessor types reachable from `Env`. A method call on any of them crosses the
/// guest/host boundary and is metered, so repeating it inside a loop with unchanged inputs is
/// wasted CPU budget.
///
/// The storage accessors are deliberately absent: storage operations in a loop have a lint of
/// their own.
pub fn soroban_host_types() -> (paths: &'static [&'static [&'static str]])
    ensures
        paths.deep_view() == host_type_paths(),
{
    let paths: &'static [&'static [&'static str]] = &[
        &["soroban_sdk", "ledger", "Ledger"],
        &["soroban_sdk", "crypto", "Crypto"],
        &["soroban_sdk", "crypto", "CryptoHazmat"],
        &["soroban_sdk", "crypto", "bls12_381", "Bls12_381"],
        &["soroban_sdk", "crypto", "bn254", "Bn254"],
        &["soroban_sdk", "prng", "Prng"],
        &["soroban_sdk", "events", "Events"],
        &["soroban_sdk", "deploy", "Deployer"],
        &["soroban_sdk", "deploy", "DeployerWithAddress"],
        &["soroban_sdk", "deploy", "DeployerWithAsset"],
    ];
    assert(paths.deep_view() =~~= host_type_paths());
    paths
}

/// Host calls that live directly on `Env` rather than on an accessor type, and whose result is
/// constant for the whole invocation.
///
/// The accessor methods themselves (`Env::ledger`, `Env::crypto`, ...) are not listed: they
/// only build a wrapper value, the metered work happens in the method called on the wrapper.
/// `Env` methods that take arguments, such as `invoke_contract` or
/// `authorize_as_current_contract`, are also left out because their cost is inherent to what
/// the loop is doing.
pub fn soroban_env_host_methods() -> (names: &'static [&'static str])
    ensures
        names.deep_view() == env_host_method_names(),
{
    let names: &'static [&'static str] = &["current_contract_address"];
    assert(names.deep_view() =~~= env_host_method_names());
    names
}

/// Whether `full` is the definition path of the environment handle.
pub(crate) fn is_env(full: &str) -> (matched: bool)
    ensures
        matched == path_matches(full@, env_path()),
{
    let segments: &'static [&'static str] = &["soroban_sdk", "Env"];
    assert(segments.deep_view() =~~= env_path());
    match_soroban_def_path(full, segments)
}

/// Whether `full` is the definition path of the host object.
pub(crate) fn is_host(full: &str) -> (matched: bool)
    ensures
        matched == path_matches(full@, host_path()),
{
    let segments: &'static [&'static str] = &["host", "Host"];
    assert(segments.deep_view() =~~= host_path());
    match_soroban_def_path(full, segments)
}

/// Whether `full` is the definition path of `Symbol::new`.
pub(crate) fn is_symbol_new(full: &str) -> (matched: bool)
    ensures
        matched == path_matches(full@, symbol_new_path()),
{
    let segments: &'static [&'static str] = &["soroban_sdk", "Symbol", "new"];
    assert(segments.deep_view() =~~= symbol_new_path());
    match_soroban_def_path(full, segments)
}

} // verus!
