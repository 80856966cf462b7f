//! Where the compiled module of a canister lies within a build directory.

use vstd::prelude::*;
use vstd::string::StringExecFns;

verus! {

/// The path, below the build directory, of the module of the canister `name`
/// built under the profile `target`.
pub open spec fn spec_canister_wasm_file(name: Seq<char>, target: Seq<char>) -> Seq<char> {
    "wasm32-unknown-unknown/"@ + target + "/"@ + name + ".wasm"@
}

/// The path, below the build directory, of the module of the canister `name`
/// built under the profile `target`.
pub fn canister_wasm_file(name: &str, target: &str) -> (path: String)
    ensures
        path@ == spec_canister_wasm_file(name@, target@),
{
    String::from_str("wasm32-unknown-unknown/").concat(target).concat("/").concat(name).concat(
        ".wasm",
    )
}

/// The path, below the build directory, of the released module of this
/// ledger's canister.
pub fn mu_smart_contract_wasm_file() -> (path: String)
    ensures
        path@ == spec_canister_wasm_file("mu_smart_contract"@, "canister-release"@),
{
    canister_wasm_file("mu_smart_contract", "canister-release")
}

} // verus!
