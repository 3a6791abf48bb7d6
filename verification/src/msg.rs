//! The messages that the entry points take and the answers that queries give.

use crate::state::State;
use crate::types::object::Object;
use crate::types::owner::{OwnerResponse, OwnerUpdate};
use cosmwasm_std::DenomUnit;
use vstd::prelude::*;

verus! {

/// The message of `instantiate`.
#[derive(Debug, PartialEq)]
pub struct InstantiateMsg {
    pub opt_uint128: Option<u128>,
}

/// The messages of `execute`.
#[derive(Debug, PartialEq)]
pub enum ExecuteMsg {
    /// Sets the optional address, after validating it.
    SetOptAddr { new_opt_addr: Option<String> },
    /// Sets the optional number.
    SetOptUint128 { new_opt_uint128: Option<u128> },
    /// Sets the optional list of numbers.
    SetOptVecNumbers { new_opt_vec_numbers: Option<Vec<i32>> },
    /// Sets the list of optional strings.
    SetVecOptStrings { new_vec_opt_strings: Vec<Option<String>> },
    /// Sets the list of denomination units.
    SetVecDenomUnits { new_vec_denom_units: Vec<DenomUnit> },
    /// Does nothing.
    ExecuteMessage,
    /// Does nothing.
    Empty {},
    /// Does nothing.
    String(String),
    /// Updates the owner's record.
    UpdateOwner(OwnerUpdate),
}

/// The messages of `query`.
#[derive(Debug, PartialEq)]
pub enum QueryMsg {
    /// Asks for the owner's record.
    GetOwner {},
    /// Asks for the contract's state.
    GetState {},
    /// Asks for `object` back.
    GetObject { object: Object },
    /// Asks for the denomination unit back.
    GetDenomUnit(DenomUnit),
    /// Asks for the string back.
    GetString(String),
    /// Asks for the number back.
    GetNumber(u32),
    /// Asks for the truth value back.
    GetBool(bool),
    /// Asks for the first fixed answer.
    QueryMessage1,
    /// Asks for the second fixed answer.
    QueryMessage2,
}

/// The answer to `GetOwner`.
#[derive(Debug, PartialEq)]
pub struct GetOwnerResponse {
    pub owner_response: OwnerResponse,
}

/// The answer to `GetState`.
#[derive(Debug, PartialEq)]
pub struct GetStateResponse {
    pub state: State,
}

/// The answer to `GetObject`.
#[derive(Debug, PartialEq)]
pub struct GetObjectResponse {
    pub object: Object,
}

/// The answer to `QueryMessage1`.
#[derive(Debug, PartialEq)]
pub struct QueryMessage1Response;

/// The answer to `QueryMessage2`.
#[derive(Debug, PartialEq)]
pub struct QueryMessage2Response {}

/// The answer to `GetDenomUnit`.
#[derive(Debug, PartialEq)]
pub struct GetDenomUnitResponse(pub DenomUnit);

/// The answer to `GetString`.
#[derive(Debug, PartialEq)]
pub struct GetStringResponse(pub String);

/// The answer to `GetNumber`.
#[derive(Debug, PartialEq)]
pub struct GetNumberResponse(pub u32);

/// The answer to `GetBool`.
#[derive(Debug, PartialEq)]
pub struct GetBoolResponse(pub bool);

/// The answer to a query, whichever it was.
#[derive(Debug, PartialEq)]
pub enum QueryResponse {
    GetOwner(GetOwnerResponse),
    GetState(GetStateResponse),
    GetObject(GetObjectResponse),
    GetDenomUnit(GetDenomUnitResponse),
    GetString(GetStringResponse),
    GetNumber(GetNumberResponse),
    GetBool(GetBoolResponse),
    QueryMessage1(QueryMessage1Response),
    QueryMessage2(QueryMessage2Response),
}

/// The message of `migrate`.
#[derive(Debug, PartialEq)]
pub struct MigrateMsg {
    pub object: Object,
}

} // verus!
