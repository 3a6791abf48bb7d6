//! What the contract keeps between calls.

use crate::types::account::AccountId;
use crate::types::owner::OwnerStore;
use cosmwasm_std::DenomUnit;
use vstd::prelude::*;

verus! {

/// The name under which the contract records itself.
pub const CONTRACT_NAME: &'static str = "crates.io:json-template";

/// The version under which the contract records itself.
pub const CONTRACT_VERSION: &'static str = "0.1.0";

/// The key of the owner's record.
pub const OWNER_KEY: &'static str = "owner";

/// The key of the contract's state.
pub const STATE_KEY: &'static str = "state";

/// The contract's own state: one field for each setter.
#[derive(Debug, PartialEq)]
pub struct State {
    pub opt_addr: Option<AccountId>,
    pub opt_uint128: Option<u128>,
    pub opt_vec_numbers: Option<Vec<i32>>,
    pub vec_opt_strings: Vec<Option<String>>,
    pub vec_denom_units: Vec<DenomUnit>,
}

/// The name and the version of the contract that wrote the storage.
#[derive(Debug, PartialEq)]
pub struct ContractVersion {
    pub contract: String,
    pub version: String,
}

/// Everything that the contract persists: the owner's record, the state and
/// the version, each absent until it is first saved. An entry point gets the
/// storage as it was read, changes it, and whoever called writes it back.
#[derive(Debug, PartialEq)]
pub struct ContractStorage {
    pub owner: OwnerStore,
    pub state: Option<State>,
    pub version: Option<ContractVersion>,
}

impl ContractStorage {
    /// A storage in which nothing has been saved.
    pub fn empty() -> (storage: ContractStorage)
        ensures
            storage.owner@ is None,
            storage.state is None,
            storage.version is None,
    {
        ContractStorage { owner: OwnerStore::empty(), state: None, version: None }
    }
}

} // verus!
