//! Which types, calls and symbols the lints know, stated over the texts that name them.
use crate::hir::Ty;
use crate::laws;
use crate::passes::{host_call, storage_in_loop, symbol_new};
use crate::paths;
use crate::report::{Fact, Facts};
use crate::symbols;
use vstd::prelude::*;

verus! {

/// The definition path `full` is `path`, or `path` behind other segments.
pub open spec fn names(full: Seq<char>, path: Seq<char>) -> bool {
    ||| full == path
    ||| exists|before: Seq<char>| full == #[trigger] (before + "::"@) + path
}

/// The path that segments make up: nothing without segments, a segment by itself, and one more
/// segment behind a `::` where others come before it.
pub proof fn law_path_text(segments: Seq<Seq<char>>, segment: Seq<char>)
    ensures
        paths::path_text(Seq::empty()) == Seq::<char>::empty(),
        paths::path_text(seq![segment]) == segment,
        segments.len() > 0 ==> paths::path_text(segments.push(segment)) == (paths::path_text(
            segments,
        ) + "::"@) + segment,
{
    assert(seq![segment].first() == segment);
    if segments.len() > 0 {
        assert(segments.push(segment).drop_last() =~= segments);
        assert(segments.push(segment).last() == segment);
    }
}

/// A definition path matches segments exactly where it names the path that they make up. No
/// segments at all match every path.
pub proof fn law_matching_is_naming(full: Seq<char>, segments: Seq<Seq<char>>)
    ensures
        paths::path_matches(full, segments) == (segments.len() == 0 || names(
            full,
            paths::path_text(segments),
        )),
{
    if segments.len() > 0 {
        laws::law_paths_match_whole_segments(full, segments);
    }
}

/// A definition path matches one of several paths exactly where it matches the last of them or
/// one of the others; it matches none of no paths.
pub proof fn law_any_path(full: Seq<char>, paths: Seq<Seq<Seq<char>>>, path: Seq<Seq<char>>)
    ensures
        !paths::any_path_matches(full, Seq::empty()),
        paths::any_path_matches(full, paths.push(path)) == (paths::any_path_matches(full, paths)
            || paths::path_matches(full, path)),
{
    let more = paths.push(path);
    assert(more[paths.len() as int] == path);
    if paths::any_path_matches(full, paths) {
        let i = choose|i: int|
            0 <= i < paths.len() && paths::path_matches(full, #[trigger] paths[i]);
        assert(more[i] == paths[i]);
    }
    if paths::any_path_matches(full, more) {
        let i = choose|i: int|
            0 <= i < more.len() && paths::path_matches(full, #[trigger] more[i]);
        if i < paths.len() {
            assert(paths[i] == more[i]);
        }
    }
}

proof fn lemma_two_segments(a: Seq<char>, b: Seq<char>)
    ensures
        paths::path_text(seq![a, b]) == (a + "::"@) + b,
{
    law_path_text(seq![a], b);
    assert(seq![a].push(b) =~= seq![a, b]);
    assert(seq![a].first() == a);
}

proof fn lemma_three_segments(a: Seq<char>, b: Seq<char>, c: Seq<char>)
    ensures
        paths::path_text(seq![a, b, c]) == (((a + "::"@) + b) + "::"@) + c,
{
    lemma_two_segments(a, b);
    law_path_text(seq![a, b], c);
    assert(seq![a, b].push(c) =~= seq![a, b, c]);
}

proof fn lemma_four_segments(a: Seq<char>, b: Seq<char>, c: Seq<char>, d: Seq<char>)
    ensures
        paths::path_text(seq![a, b, c, d]) == (((((a + "::"@) + b) + "::"@) + c) + "::"@) + d,
{
    lemma_three_segments(a, b, c);
    law_path_text(seq![a, b, c], d);
    assert(seq![a, b, c].push(d) =~= seq![a, b, c, d]);
}

/// What counts as the environment handle, as the host object and as the constructor of symbols.
pub proof fn law_known_paths(full: Seq<char>)
    ensures
        paths::path_matches(full, paths::env_path()) == names(full, "soroban_sdk::Env"@),
        paths::path_matches(full, paths::host_path()) == names(full, "host::Host"@),
        paths::path_matches(full, paths::symbol_new_path()) == names(
            full,
            "soroban_sdk::Symbol::new"@,
        ),
{
    reveal_strlit("::");
    reveal_strlit("soroban_sdk");
    reveal_strlit("Env");
    reveal_strlit("soroban_sdk::Env");
    reveal_strlit("host");
    reveal_strlit("Host");
    reveal_strlit("host::Host");
    reveal_strlit("Symbol");
    reveal_strlit("new");
    reveal_strlit("soroban_sdk::Symbol::new");
    lemma_two_segments("soroban_sdk"@, "Env"@);
    assert(paths::path_text(paths::env_path()) =~= "soroban_sdk::Env"@);
    lemma_two_segments("host"@, "Host"@);
    assert(paths::path_text(paths::host_path()) =~= "host::Host"@);
    lemma_three_segments("soroban_sdk"@, "Symbol"@, "new"@);
    assert(paths::path_text(paths::symbol_new_path()) =~= "soroban_sdk::Symbol::new"@);
    law_matching_is_naming(full, paths::env_path());
    law_matching_is_naming(full, paths::host_path());
    law_matching_is_naming(full, paths::symbol_new_path());
}

/// `full` names a type through which storage is read and written.
pub open spec fn storage_type(full: Seq<char>) -> bool {
    ||| names(full, "soroban_sdk::storage::Storage"@)
    ||| names(full, "soroban_sdk::storage::Instance"@)
    ||| names(full, "soroban_sdk::storage::Persistent"@)
    ||| names(full, "soroban_sdk::storage::Temporary"@)
}

/// The storage accessors are these types and no others.
pub proof fn law_storage_types(full: Seq<char>)
    ensures
        paths::any_path_matches(full, paths::storage_type_paths()) == storage_type(full),
{
    let known = paths::storage_type_paths();
    assert(paths::path_text(known[0]) =~= "soroban_sdk::storage::Storage"@) by {
        reveal_strlit("::");
        reveal_strlit("soroban_sdk");
        reveal_strlit("storage");
        reveal_strlit("Storage");
        reveal_strlit("soroban_sdk::storage::Storage");
        lemma_three_segments("soroban_sdk"@, "storage"@, "Storage"@);
    }
    law_matching_is_naming(full, known[0]);
    assert(paths::path_text(known[1]) =~= "soroban_sdk::storage::Instance"@) by {
        reveal_strlit("::");
        reveal_strlit("soroban_sdk");
        reveal_strlit("storage");
        reveal_strlit("Instance");
        reveal_strlit("soroban_sdk::storage::Instance");
        lemma_three_segments("soroban_sdk"@, "storage"@, "Instance"@);
    }
    law_matching_is_naming(full, known[1]);
    assert(paths::path_text(known[2]) =~= "soroban_sdk::storage::Persistent"@) by {
        reveal_strlit("::");
        reveal_strlit("soroban_sdk");
        reveal_strlit("storage");
        reveal_strlit("Persistent");
        reveal_strlit("soroban_sdk::storage::Persistent");
        lemma_three_segments("soroban_sdk"@, "storage"@, "Persistent"@);
    }
    law_matching_is_naming(full, known[2]);
    assert(paths::path_text(known[3]) =~= "soroban_sdk::storage::Temporary"@) by {
        reveal_strlit("::");
        reveal_strlit("soroban_sdk");
        reveal_strlit("storage");
        reveal_strlit("Temporary");
        reveal_strlit("soroban_sdk::storage::Temporary");
        lemma_three_segments("soroban_sdk"@, "storage"@, "Temporary"@);
    }
    law_matching_is_naming(full, known[3]);
}

/// `full` names a type whose methods cross over to the host.
pub open spec fn host_type(full: Seq<char>) -> bool {
    ||| names(full, "soroban_sdk::ledger::Ledger"@)
    ||| names(full, "soroban_sdk::crypto::Crypto"@)
    ||| names(full, "soroban_sdk::crypto::CryptoHazmat"@)
    ||| names(full, "soroban_sdk::crypto::bls12_381::Bls12_381"@)
    ||| names(full, "soroban_sdk::crypto::bn254::Bn254"@)
    ||| names(full, "soroban_sdk::prng::Prng"@)
    ||| names(full, "soroban_sdk::events::Events"@)
    ||| names(full, "soroban_sdk::deploy::Deployer"@)
    ||| names(full, "soroban_sdk::deploy::DeployerWithAddress"@)
    ||| names(full, "soroban_sdk::deploy::DeployerWithAsset"@)
}

/// The host accessors are these types and no others.
pub proof fn law_host_types(full: Seq<char>)
    ensures
        paths::any_path_matches(full, paths::host_type_paths()) == host_type(full),
{
    let known = paths::host_type_paths();
    assert(paths::path_text(known[0]) =~= "soroban_sdk::ledger::Ledger"@) by {
        reveal_strlit("::");
        reveal_strlit("soroban_sdk");
        reveal_strlit("ledger");
        reveal_strlit("Ledger");
        reveal_strlit("soroban_sdk::ledger::Ledger");
        lemma_three_segments("soroban_sdk"@, "ledger"@, "Ledger"@);
    }
    law_matching_is_naming(full, known[0]);
    assert(paths::path_text(known[1]) =~= "soroban_sdk::crypto::Crypto"@) by {
        reveal_strlit("::");
        reveal_strlit("soroban_sdk");
        reveal_strlit("crypto");
        reveal_strlit("Crypto");
        reveal_strlit("soroban_sdk::crypto::Crypto");
        lemma_three_segments("soroban_sdk"@, "crypto"@, "Crypto"@);
    }
    law_matching_is_naming(full, known[1]);
    assert(paths::path_text(known[2]) =~= "soroban_sdk::crypto::CryptoHazmat"@) by {
        reveal_strlit("::");
        reveal_strlit("soroban_sdk");
        reveal_strlit("crypto");
        reveal_strlit("CryptoHazmat");
        reveal_strlit("soroban_sdk::crypto::CryptoHazmat");
        lemma_three_segments("soroban_sdk"@, "crypto"@, "CryptoHazmat"@);
    }
    law_matching_is_naming(full, known[2]);
    assert(paths::path_text(known[3]) =~= "soroban_sdk::crypto::bls12_381::Bls12_381"@) by {
        reveal_strlit("::");
        reveal_strlit("soroban_sdk");
        reveal_strlit("crypto");
        reveal_strlit("bls12_381");
        reveal_strlit("Bls12_381");
        reveal_strlit("soroban_sdk::crypto::bls12_381::Bls12_381");
        lemma_four_segments("soroban_sdk"@, "crypto"@, "bls12_381"@, "Bls12_381"@);
    }
    law_matching_is_naming(full, known[3]);
    assert(paths::path_text(known[4]) =~= "soroban_sdk::crypto::bn254::Bn254"@) by {
        reveal_strlit("::");
        reveal_strlit("soroban_sdk");
        reveal_strlit("crypto");
        reveal_strlit("bn254");
        reveal_strlit("Bn254");
        reveal_strlit("soroban_sdk::crypto::bn254::Bn254");
        lemma_four_segments("soroban_sdk"@, "crypto"@, "bn254"@, "Bn254"@);
    }
    law_matching_is_naming(full, known[4]);
    assert(paths::path_text(known[5]) =~= "soroban_sdk::prng::Prng"@) by {
        reveal_strlit("::");
        reveal_strlit("soroban_sdk");
        reveal_strlit("prng");
        reveal_strlit("Prng");
        reveal_strlit("soroban_sdk::prng::Prng");
        lemma_three_segments("soroban_sdk"@, "prng"@, "Prng"@);
    }
    law_matching_is_naming(full, known[5]);
    assert(paths::path_text(known[6]) =~= "soroban_sdk::events::Events"@) by {
        reveal_strlit("::");
        reveal_strlit("soroban_sdk");
        reveal_strlit("events");
        reveal_strlit("Events");
        reveal_strlit("soroban_sdk::events::Events");
        lemma_three_segments("soroban_sdk"@, "events"@, "Events"@);
    }
    law_matching_is_naming(full, known[6]);
    assert(paths::path_text(known[7]) =~= "soroban_sdk::deploy::Deployer"@) by {
        reveal_strlit("::");
        reveal_strlit("soroban_sdk");
        reveal_strlit("deploy");
        reveal_strlit("Deployer");
        reveal_strlit("soroban_sdk::deploy::Deployer");
        lemma_three_segments("soroban_sdk"@, "deploy"@, "Deployer"@);
    }
    law_matching_is_naming(full, known[7]);
    assert(paths::path_text(known[8]) =~= "soroban_sdk::deploy::DeployerWithAddress"@) by {
        reveal_strlit("::");
        reveal_strlit("soroban_sdk");
        reveal_strlit("deploy");
        reveal_strlit("DeployerWithAddress");
        reveal_strlit("soroban_sdk::deploy::DeployerWithAddress");
        lemma_three_segments("soroban_sdk"@, "deploy"@, "DeployerWithAddress"@);
    }
    law_matching_is_naming(full, known[8]);
    assert(paths::path_text(known[9]) =~= "soroban_sdk::deploy::DeployerWithAsset"@) by {
        reveal_strlit("::");
        reveal_strlit("soroban_sdk");
        reveal_strlit("deploy");
        reveal_strlit("DeployerWithAsset");
        reveal_strlit("soroban_sdk::deploy::DeployerWithAsset");
        lemma_three_segments("soroban_sdk"@, "deploy"@, "DeployerWithAsset"@);
    }
    law_matching_is_naming(full, known[9]);
}

/// A method call is a storage access exactly where its receiver is a storage accessor, whatever
/// the method, or where it is `storage` on the environment handle. Nothing else is: neither
/// another method of the environment nor a method of another type, whatever its name.
pub proof fn law_storage_access(segment: Seq<char>, full: Seq<char>)
    ensures
        storage_in_loop::storage_access(segment, full) == (storage_type(full) || names(
            full,
            "soroban_sdk::Env"@,
        ) && segment == "storage"@),
{
    law_known_paths(full);
    law_storage_types(full);
}

/// A method call is a host call exactly where its receiver is a host accessor, whatever the
/// method, or where it is `current_contract_address` on the environment handle.
pub proof fn law_host_function(segment: Seq<char>, full: Seq<char>)
    ensures
        host_call::host_function(segment, full) == (host_type(full) || names(
            full,
            "soroban_sdk::Env"@,
        ) && segment == "current_contract_address"@),
{
    law_known_paths(full);
    law_host_types(full);
    assert(paths::env_host_method_names()[0] == "current_contract_address"@);
}

/// The type `ty`, behind whatever references, is a struct, enum or union with the definition
/// path `full`.
pub open spec fn has_path(ty: Ty, full: Seq<char>) -> bool
    decreases ty,
{
    match ty {
        Ty::Ref(inner) => has_path(*inner, full),
        Ty::Adt(path) => path@ == full,
        Ty::Other => false,
    }
}

/// Taking off the references of a type leaves what stands behind them, and leaves a type that
/// is no reference as it is.
pub proof fn law_peeling(ty: Ty)
    ensures
        ty matches Ty::Ref(inner) ==> ty.peeled() == inner.peeled(),
        !(ty is Ref) ==> ty.peeled() == ty,
{
}

/// The definition path of a type is the one that the type has behind its references. A type
/// without one, such as an integer or a tuple, has none however many references stand before it.
pub proof fn law_type_path(ty: Ty, full: Seq<char>)
    ensures
        (ty.adt_path() == Some(full)) == has_path(ty, full),
    decreases ty,
{
    if let Ty::Ref(inner) = ty {
        law_type_path(*inner, full);
    }
}

/// The receiver is known to be of a type with the definition path `full`.
pub open spec fn receiver_has_path(facts: Facts, full: Seq<char>) -> bool {
    facts.receiver_ty matches Fact::Known(ty) && has_path(ty, full)
}

/// The receiver's path is known exactly where the receiver's type is known and has that path
/// behind its references.
pub proof fn law_receiver_path(facts: Facts, full: Seq<char>)
    ensures
        (facts.receiver_path() == Some(full)) == receiver_has_path(facts, full),
{
    if let Fact::Known(ty) = facts.receiver_ty {
        law_type_path(ty, full);
    }
}

/// The characters of symbols.
pub open spec fn symbol_alphabet() -> Seq<char> {
    "abcdefghijklmnopqrstuvwxyzABCDEFGHIJKLMNOPQRSTUVWXYZ0123456789_"@
}

/// The characters that a symbol can hold are those of the alphabet and no others.
pub proof fn law_symbol_alphabet(c: char)
    ensures
        symbols::symbol_char(c) == symbol_alphabet().contains(c),
{
    reveal_strlit("abcdefghijklmnopqrstuvwxyzABCDEFGHIJKLMNOPQRSTUVWXYZ0123456789_");
    let alphabet = symbol_alphabet();
    assert(alphabet.len() == 63);
    if 'a' <= c <= 'z' {
        assert(alphabet[c as int - 'a' as int] == c);
    }
    if 'A' <= c <= 'Z' {
        assert(alphabet[26 + (c as int - 'A' as int)] == c);
    }
    if '0' <= c <= '9' {
        assert(alphabet[52 + (c as int - '0' as int)] == c);
    }
    if c == '_' {
        assert(alphabet[62] == c);
    }
}

/// `text` has one to nine characters, all of them of the symbol alphabet.
pub open spec fn fits_short_symbol(text: Seq<char>) -> bool {
    &&& 0 < text.len() < 10
    &&& forall|c: char| #[trigger] text.contains(c) ==> symbol_alphabet().contains(c)
}

/// The texts that a short symbol can hold are those of one to nine characters of the alphabet
/// and no others.
pub proof fn law_short_symbols(text: Seq<char>)
    ensures
        symbols::valid_short_symbol(text) == fits_short_symbol(text),
{
    if symbols::valid_short_symbol(text) {
        assert forall|c: char| #[trigger] text.contains(c) implies symbol_alphabet().contains(
            c,
        ) by {
            let i = choose|i: int| 0 <= i < text.len() && text[i] == c;
            assert(symbols::symbol_char(text[i]));
            law_symbol_alphabet(c);
        }
    }
    if fits_short_symbol(text) {
        assert forall|i: int| 0 <= i < text.len() implies #[trigger] symbols::symbol_char(
            text[i],
        ) by {
            assert(text.contains(text[i]));
            law_symbol_alphabet(text[i]);
        }
    }
}

/// The replacement opens the macro, quotes the argument as it stands, and closes the macro.
pub proof fn law_symbol_short(snippet: Seq<char>)
    ensures
        symbol_new::symbol_short(snippet).len() == snippet.len() + 15,
        symbol_new::symbol_short(snippet).take(14) == "symbol_short!("@,
        symbol_new::symbol_short(snippet).skip(14).drop_last() == snippet,
        symbol_new::symbol_short(snippet).last() == ')',
{
    reveal_strlit("symbol_short!(");
    reveal_strlit(")");
    assert(symbol_new::symbol_short(snippet).skip(14).drop_last() =~= snippet);
}

} // verus!
