//! Error values shared by the modules of this crate.

use crate::types::owner::OwnerError;
use cosmwasm_std::StdError;
use vstd::prelude::*;

verus! {

/// `cosmwasm_std::StdError`, carried through the verified code as an opaque
/// value: nothing in this crate looks inside one or makes one.
#[verifier::external_type_specification]
#[verifier::external_body]
pub struct ExStdError(StdError);

/// Why an entry point of the contract failed.
#[derive(Debug, PartialEq)]
pub enum ContractError {
    /// The address validator rejected an identifier; this is its error.
    Std(StdError),
    /// The owner state machine refused the call.
    Owner(OwnerError),
    /// The contract's state was asked for before it was ever saved.
    StateNotFound,
    /// The contract's name and version were asked for before they were ever
    /// saved.
    VersionNotFound,
    /// A migration from a contract of another name.
    DifferentContract,
    /// A migration from a version that is newer than this one.
    NewerVersion,
}

} // verus!
