//! The account type of the Soroban host, carried through the bond rules.
use vstd::prelude::*;

verus! {

/// `soroban_sdk::Address` is an account or contract identifier owned by the
/// host. The bond rules never look inside one: they store the address of the
/// bond owner and of the administrator and hand it back unchanged.
#[verifier::external_type_specification]
#[verifier::external_body]
pub struct ExAddress(soroban_sdk::Address);

} // verus!
