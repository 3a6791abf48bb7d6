//! Moving the storage of an earlier version over to this one.

use crate::error::ContractError;
use crate::msg::MigrateMsg;
use crate::response::{new_response, reports};
use crate::state::{ContractStorage, ContractVersion, CONTRACT_NAME, CONTRACT_VERSION};
use crate::text::{comes_after, text_after};
use cosmwasm_std::{Empty, Response};
use vstd::prelude::*;

verus! {

/// What [`migrate`] does. The storage must say which contract wrote it. A
/// contract of another name is refused, and so is a version that comes after
/// this one in the order of strings; both leave the storage as it was.
/// Otherwise the storage records this contract's name and version, keeps the
/// rest, and the response is empty.
pub open spec fn migrate_gives(
    before: ContractStorage,
    after: ContractStorage,
    result: Result<Response<Empty>, ContractError>,
) -> bool {
    match before.version {
        None => after == before && result == Err::<Response<Empty>, ContractError>(
            ContractError::VersionNotFound,
        ),
        Some(found) => if found.contract@ != CONTRACT_NAME@ {
            after == before && result == Err::<Response<Empty>, ContractError>(
                ContractError::DifferentContract,
            )
        } else if comes_after(found.version@, CONTRACT_VERSION@) {
            after == before && result == Err::<Response<Empty>, ContractError>(
                ContractError::NewerVersion,
            )
        } else {
            &&& after.owner == before.owner
            &&& after.state == before.state
            &&& after.version matches Some(version) && version.contract@ == CONTRACT_NAME@
                && version.version@ == CONTRACT_VERSION@
            &&& result matches Ok(response) && reports(response, Seq::empty())
        },
    }
}

/// Takes over the storage of the same contract in this or an older version.
pub fn migrate(storage: &mut ContractStorage, _msg: MigrateMsg) -> (result: Result<
    Response<Empty>,
    ContractError,
>)
    ensures
        migrate_gives(*old(storage), *final(storage), result),
{
    let found = match &storage.version {
        Some(found) => found,
        None => {
            return Err(ContractError::VersionNotFound);
        },
    };
    // ensure we are migrating from an allowed contract
    if !(found.contract == CONTRACT_NAME.to_owned()) {
        return Err(ContractError::DifferentContract);
    }
    // a string compare, not a semver compare
    if text_after(found.version.as_str(), CONTRACT_VERSION) {
        return Err(ContractError::NewerVersion);
    }
    // set the new version
    storage.version = Some(
        ContractVersion {
            contract: CONTRACT_NAME.to_owned(),
            version: CONTRACT_VERSION.to_owned(),
        },
    );

    Ok(new_response())
}

} // verus!
