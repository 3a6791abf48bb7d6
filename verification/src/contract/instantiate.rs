//! Setting the contract up.

use crate::error::ContractError;
use crate::msg::InstantiateMsg;
use crate::response::{add_attribute, attributes_of, new_response, reports};
use crate::state::{
    ContractStorage, ContractVersion, State, CONTRACT_NAME, CONTRACT_VERSION, OWNER_KEY,
};
use crate::text::{number_or_none, number_or_none_text};
use crate::types::account::AccountId;
use crate::types::owner::{accepts, initialize_gives, may_return, Owner, OwnerError};
use cosmwasm_std::{Empty, Response, StdError};
use vstd::prelude::*;

verus! {

/// The state of a contract that `sender` has just set up: the sender as the
/// optional address, and every other field empty.
pub open spec fn initial_state(state: State, sender: Seq<char>) -> bool {
    &&& state.opt_addr matches Some(addr) && addr@ == sender
    &&& state.opt_uint128 is None
    &&& state.opt_vec_numbers is None
    &&& state.vec_opt_strings@.len() == 0
    &&& state.vec_denom_units@.len() == 0
}

/// What [`instantiate`] does. If the validator accepts the sender's own
/// identifier, the sender becomes the owner, with the status `initializer`;
/// the state and the contract's name and version are saved; and the response
/// reports the method, the sender and the number of the message, which is
/// not stored. If the validator rejects it, its error comes back and the
/// storage is left as it was.
pub open spec fn instantiate_gives<V: Fn(&str) -> Result<AccountId, StdError>>(
    validate: V,
    sender: Seq<char>,
    msg: InstantiateMsg,
    before: ContractStorage,
    after: ContractStorage,
    result: Result<Response<Empty>, ContractError>,
) -> bool {
    match result {
        Ok(response) => {
            &&& initialize_gives(
                validate,
                sender,
                Some("initializer"@),
                before.owner@,
                after.owner@,
                Ok(()),
            )
            &&& after.state matches Some(state) && initial_state(state, sender)
            &&& after.version matches Some(version) && version.contract@ == CONTRACT_NAME@
                && version.version@ == CONTRACT_VERSION@
            &&& reports(
                response,
                seq![
                    ("method"@, "instantiate"@),
                    ("opt_addr"@, sender),
                    ("opt_uint128"@, number_or_none(msg.opt_uint128)),
                ],
            )
        },
        Err(e) => {
            &&& e matches ContractError::Owner(OwnerError::Validation(reason)) && may_return(
                validate,
                sender,
                Err(reason),
            )
            &&& after == before
        },
    }
}

/// Sets the contract up on behalf of `sender`, who becomes its owner.
pub fn instantiate<V: Fn(&str) -> Result<AccountId, StdError>>(
    storage: &mut ContractStorage,
    validate: V,
    sender: &AccountId,
    msg: InstantiateMsg,
) -> (result: Result<Response<Empty>, ContractError>)
    requires
        accepts(validate, sender@),
    ensures
        instantiate_gives(validate, sender@, msg, *old(storage), *final(storage), result),
{
    let owner = Owner::new(OWNER_KEY);
    match owner.initialize(
        &mut storage.owner,
        validate,
        sender.as_str().to_owned(),
        Some("initializer".to_owned()),
    ) {
        Ok(_) => {},
        Err(e) => {
            return Err(ContractError::Owner(e));
        },
    }

    let state = State {
        opt_addr: Some(sender.clone()),
        opt_uint128: None,
        opt_vec_numbers: None,
        vec_opt_strings: Vec::new(),
        vec_denom_units: Vec::new(),
    };
    storage.version = Some(
        ContractVersion {
            contract: CONTRACT_NAME.to_owned(),
            version: CONTRACT_VERSION.to_owned(),
        },
    );
    storage.state = Some(state);

    let number = number_or_none_text(msg.opt_uint128);
    proof {
        reveal_strlit("method");
        reveal_strlit("opt_addr");
        reveal_strlit("opt_uint128");
    }
    let response = new_response();
    let response = add_attribute(response, "method", "instantiate");
    let response = add_attribute(response, "opt_addr", sender.as_str());
    let response = add_attribute(response, "opt_uint128", number.as_str());
    assert(attributes_of(response) =~= seq![
        ("method"@, "instantiate"@),
        ("opt_addr"@, sender@),
        ("opt_uint128"@, number_or_none(msg.opt_uint128)),
    ]);
    Ok(response)
}

} // verus!
