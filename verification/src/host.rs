//! The two things that the registry has from the Soroban host: the
//! comparison of addresses and the making of host strings.
//!
//! Nothing in this module is proved. Each function makes one call into the
//! Soroban SDK and states what the SDK documents of that call; the registry
//! is verified against these statements. Both calls work on host values
//! alone: neither touches a contract's storage, and neither needs a contract
//! to be running. The host ends them only where its budget is used up.

use soroban_sdk::Address;
use soroban_sdk::Env;
use vstd::prelude::*;

verus! {

/// `soroban_sdk::Env`, the handle to the host. Verus sees nothing inside it;
/// the registry passes it on to make a host string and states nothing of it.
#[verifier::external_type_specification]
#[verifier::external_body]
pub struct ExEnv(soroban_sdk::Env);

/// `soroban_sdk::Address`, a host value that identifies an account or a
/// contract. Verus sees nothing inside it.
#[verifier::external_type_specification]
#[verifier::external_body]
pub struct ExAddress(soroban_sdk::Address);

/// `soroban_sdk::String`, a host value that holds a text. Verus sees nothing
/// inside it.
#[verifier::external_type_specification]
#[verifier::external_body]
pub struct ExString(soroban_sdk::String);

/// The host string that `soroban_sdk::String::from_str` makes of a text: the
/// same string for the same text.
pub uninterp spec fn host_string(text: Seq<char>) -> soroban_sdk::String;

/// `Address`'s `==`: whether the two are the same address. The SDK compares
/// the host objects behind the two handles, so two handles to one account or
/// contract are equal.
#[verifier::external_body]
pub(crate) fn same_address(a: &Address, b: &Address) -> (r: bool)
    ensures
        r == (*a == *b),
{
    a == b
}

/// `String::from_str`: the host string that holds the given text.
#[verifier::external_body]
pub(crate) fn string_from_str(env: &Env, text: &str) -> (r: soroban_sdk::String)
    ensures
        r == host_string(text@),
{
    soroban_sdk::String::from_str(env, text)
}

} // verus!
