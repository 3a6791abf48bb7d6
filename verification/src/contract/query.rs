//! Reading what the contract holds.

use crate::error::ContractError;
use crate::msg::{
    GetBoolResponse, GetDenomUnitResponse, GetNumberResponse, GetObjectResponse,
    GetOwnerResponse, GetStateResponse, GetStringResponse, QueryMessage1Response,
    QueryMessage2Response, QueryMsg, QueryResponse,
};
use crate::state::{ContractStorage, OWNER_KEY};
use crate::types::object::Object;
use crate::types::owner::{Owner, OwnerError};
use cosmwasm_std::{DenomUnit, StdError};
use vstd::prelude::*;

verus! {

/// What [`owner`] answers: the owner's record, or that there is none yet.
pub open spec fn owner_gives(
    storage: ContractStorage,
    result: Result<GetOwnerResponse, ContractError>,
) -> bool {
    match result {
        Ok(response) => storage.owner@ == Some(response.owner_response@),
        Err(e) => storage.owner@ is None && e == ContractError::Owner(OwnerError::NotInitialized),
    }
}

/// What [`state`] answers: the state as it was saved, or that there is none
/// yet.
pub open spec fn state_gives(storage: ContractStorage) -> Result<GetStateResponse, ContractError> {
    match storage.state {
        Some(state) => Ok(GetStateResponse { state }),
        None => Err(ContractError::StateNotFound),
    }
}

/// What [`query`] answers: the owner's record, the state, or the value that
/// the message carried, in the answer that belongs to the message.
pub open spec fn query_gives(
    storage: ContractStorage,
    msg: QueryMsg,
    result: Result<QueryResponse, ContractError>,
) -> bool {
    match msg {
        QueryMsg::GetOwner {  } => match result {
            Ok(QueryResponse::GetOwner(response)) => owner_gives(storage, Ok(response)),
            Ok(_) => false,
            Err(e) => owner_gives(storage, Err(e)),
        },
        QueryMsg::GetState {  } => match state_gives(storage) {
            Ok(response) => result == Ok::<QueryResponse, ContractError>(
                QueryResponse::GetState(response),
            ),
            Err(e) => result == Err::<QueryResponse, ContractError>(e),
        },
        QueryMsg::GetObject { object } => result == Ok::<QueryResponse, ContractError>(
            QueryResponse::GetObject(GetObjectResponse { object }),
        ),
        QueryMsg::GetDenomUnit(value) => result == Ok::<QueryResponse, ContractError>(
            QueryResponse::GetDenomUnit(GetDenomUnitResponse(value)),
        ),
        QueryMsg::GetString(value) => result == Ok::<QueryResponse, ContractError>(
            QueryResponse::GetString(GetStringResponse(value)),
        ),
        QueryMsg::GetNumber(value) => result == Ok::<QueryResponse, ContractError>(
            QueryResponse::GetNumber(GetNumberResponse(value)),
        ),
        QueryMsg::GetBool(value) => result == Ok::<QueryResponse, ContractError>(
            QueryResponse::GetBool(GetBoolResponse(value)),
        ),
        QueryMsg::QueryMessage1 => result == Ok::<QueryResponse, ContractError>(
            QueryResponse::QueryMessage1(QueryMessage1Response),
        ),
        QueryMsg::QueryMessage2 => result == Ok::<QueryResponse, ContractError>(
            QueryResponse::QueryMessage2(QueryMessage2Response {  }),
        ),
    }
}

/// Answers `msg` from the storage as it was read.
pub fn query(storage: ContractStorage, msg: QueryMsg) -> (result: Result<
    QueryResponse,
    ContractError,
>)
    ensures
        query_gives(storage, msg, result),
{
    match msg {
        QueryMsg::GetOwner {  } => match owner(&storage) {
            Ok(response) => Ok(QueryResponse::GetOwner(response)),
            Err(e) => Err(e),
        },
        QueryMsg::GetState {  } => match state(storage) {
            Ok(response) => Ok(QueryResponse::GetState(response)),
            Err(e) => Err(e),
        },
        QueryMsg::GetObject { object: value } => match object(value) {
            Ok(response) => Ok(QueryResponse::GetObject(response)),
            Err(e) => Err(ContractError::Std(e)),
        },
        QueryMsg::GetDenomUnit(value) => match denom_unit(value) {
            Ok(response) => Ok(QueryResponse::GetDenomUnit(response)),
            Err(e) => Err(ContractError::Std(e)),
        },
        QueryMsg::GetString(value) => match string(value) {
            Ok(response) => Ok(QueryResponse::GetString(response)),
            Err(e) => Err(ContractError::Std(e)),
        },
        QueryMsg::GetNumber(value) => match number(value) {
            Ok(response) => Ok(QueryResponse::GetNumber(response)),
            Err(e) => Err(ContractError::Std(e)),
        },
        QueryMsg::GetBool(value) => match bool(value) {
            Ok(response) => Ok(QueryResponse::GetBool(response)),
            Err(e) => Err(ContractError::Std(e)),
        },
        QueryMsg::QueryMessage1 => match query_message_1() {
            Ok(response) => Ok(QueryResponse::QueryMessage1(response)),
            Err(e) => Err(ContractError::Std(e)),
        },
        QueryMsg::QueryMessage2 => match query_message_2() {
            Ok(response) => Ok(QueryResponse::QueryMessage2(response)),
            Err(e) => Err(ContractError::Std(e)),
        },
    }
}

/// The owner's record.
pub fn owner(storage: &ContractStorage) -> (result: Result<GetOwnerResponse, ContractError>)
    ensures
        owner_gives(*storage, result),
{
    match Owner::new(OWNER_KEY).query(&storage.owner) {
        Ok(owner_response) => Ok(GetOwnerResponse { owner_response }),
        Err(e) => Err(ContractError::Owner(e)),
    }
}

/// The contract's state.
pub fn state(storage: ContractStorage) -> (result: Result<GetStateResponse, ContractError>)
    ensures
        result == state_gives(storage),
{
    match storage.state {
        Some(state) => Ok(GetStateResponse { state }),
        None => Err(ContractError::StateNotFound),
    }
}

/// The object, as it came.
pub fn object(value: Object) -> (result: Result<GetObjectResponse, StdError>)
    ensures
        result == Ok::<GetObjectResponse, StdError>((GetObjectResponse { object: value })),
{
    Ok(GetObjectResponse { object: value })
}

/// The denomination unit, as it came.
pub fn denom_unit(value: DenomUnit) -> (result: Result<GetDenomUnitResponse, StdError>)
    ensures
        result == Ok::<GetDenomUnitResponse, StdError>(GetDenomUnitResponse(value)),
{
    Ok(GetDenomUnitResponse(value))
}

/// The string, as it came.
pub fn string(value: String) -> (result: Result<GetStringResponse, StdError>)
    ensures
        result == Ok::<GetStringResponse, StdError>(GetStringResponse(value)),
{
    Ok(GetStringResponse(value))
}

/// The number, as it came.
pub fn number(value: u32) -> (result: Result<GetNumberResponse, StdError>)
    ensures
        result == Ok::<GetNumberResponse, StdError>(GetNumberResponse(value)),
{
    Ok(GetNumberResponse(value))
}

/// The truth value, as it came.
pub fn bool(value: bool) -> (result: Result<GetBoolResponse, StdError>)
    ensures
        result == Ok::<GetBoolResponse, StdError>(GetBoolResponse(value)),
{
    Ok(GetBoolResponse(value))
}

/// The first fixed answer.
pub fn query_message_1() -> (result: Result<QueryMessage1Response, StdError>)
    ensures
        result == Ok::<QueryMessage1Response, StdError>(QueryMessage1Response),
{
    Ok(QueryMessage1Response)
}

/// The second fixed answer.
pub fn query_message_2() -> (result: Result<QueryMessage2Response, StdError>)
    ensures
        result == Ok::<QueryMessage2Response, StdError>((QueryMessage2Response {  })),
{
    Ok(QueryMessage2Response {  })
}

} // verus!
