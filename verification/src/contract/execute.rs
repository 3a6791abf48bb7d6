//! Changing what the contract holds.

use crate::error::ContractError;
use crate::msg::ExecuteMsg;
use crate::response::{add_attribute, attributes_of, new_response, reports};
use crate::state::{ContractStorage, State, OWNER_KEY};
use crate::text::{number_or_none, number_or_none_text};
use crate::types::account::AccountId;
use crate::types::owner::{accepts, may_return, update_gives, Event, Owner, OwnerUpdate, Record};
use cosmwasm_std::{DenomUnit, Empty, Response, StdError};
use vstd::prelude::*;

verus! {

/// How an optional string is reported: as it is, or as `None`.
pub open spec fn text_or_none(value: Option<String>) -> Seq<char> {
    match value {
        Some(text) => text@,
        None => "None"@,
    }
}

/// What [`set_opt_addr`] does. Without a saved state it fails and changes
/// nothing. With one, an address is validated first: the state gets what the
/// validator returned, or the validator's error comes back and nothing
/// changes. No address needs no validation. The response reports the
/// address as it was given.
pub open spec fn set_opt_addr_gives<V: Fn(&str) -> Result<AccountId, StdError>>(
    validate: V,
    new_opt_addr: Option<String>,
    before: ContractStorage,
    after: ContractStorage,
    result: Result<Response<Empty>, ContractError>,
) -> bool {
    match before.state {
        None => after == before && result == Err::<Response<Empty>, ContractError>(
            ContractError::StateNotFound,
        ),
        Some(state) => match result {
            Ok(response) => {
                &&& match new_opt_addr {
                    Some(raw) => exists|validated: AccountId| #[trigger]
                        may_return(validate, raw@, Ok(validated)) && after == (ContractStorage {
                            state: Some(State { opt_addr: Some(validated), ..state }),
                            ..before
                        }),
                    None => after == (ContractStorage {
                        state: Some(State { opt_addr: None, ..state }),
                        ..before
                    }),
                }
                &&& reports(response, seq![("new_opt_addr"@, text_or_none(new_opt_addr))])
            },
            Err(e) => {
                &&& new_opt_addr matches Some(raw) && e matches ContractError::Std(reason)
                    && may_return(validate, raw@, Err(reason))
                &&& after == before
            },
        },
    }
}

/// Sets the optional address of the state, after validating it.
pub fn set_opt_addr<V: Fn(&str) -> Result<AccountId, StdError>>(
    storage: &mut ContractStorage,
    validate: V,
    new_opt_addr: Option<String>,
) -> (result: Result<Response<Empty>, ContractError>)
    requires
        new_opt_addr matches Some(raw) ==> accepts(validate, raw@),
    ensures
        set_opt_addr_gives(validate, new_opt_addr, *old(storage), *final(storage), result),
{
    if storage.state.is_none() {
        return Err(ContractError::StateNotFound);
    }
    let opt_addr = match &new_opt_addr {
        Some(raw) => {
            let outcome = validate(raw.as_str());
            assert(may_return(validate, raw@, outcome));
            match outcome {
                Ok(validated) => Some(validated),
                Err(reason) => {
                    return Err(ContractError::Std(reason));
                },
            }
        },
        None => None,
    };
    match &mut storage.state {
        Some(state) => {
            state.opt_addr = opt_addr;
        },
        None => {},
    }
    proof {
        reveal_strlit("new_opt_addr");
    }
    let response = new_response();
    let response = match &new_opt_addr {
        Some(raw) => add_attribute(response, "new_opt_addr", raw.as_str()),
        None => add_attribute(response, "new_opt_addr", "None"),
    };
    assert(attributes_of(response) =~= seq![("new_opt_addr"@, text_or_none(new_opt_addr))]);
    Ok(response)
}

/// What a setter does that needs no validation: without a saved state it
/// fails and changes nothing; with one, the state becomes `next` and the
/// response reports the one attribute `key` with `value`.
pub open spec fn setter_gives(
    next: spec_fn(State) -> State,
    key: Seq<char>,
    value: Seq<char>,
    before: ContractStorage,
    after: ContractStorage,
    result: Result<Response<Empty>, ContractError>,
) -> bool {
    match before.state {
        None => after == before && result == Err::<Response<Empty>, ContractError>(
            ContractError::StateNotFound,
        ),
        Some(state) => {
            &&& after == (ContractStorage { state: Some(next(state)), ..before })
            &&& result matches Ok(response) && reports(response, seq![(key, value)])
        },
    }
}

/// What [`set_opt_uint128`] does: it replaces the optional number and
/// reports it in decimal, or as `None`.
pub open spec fn set_opt_uint128_gives(
    new_opt_uint128: Option<u128>,
    before: ContractStorage,
    after: ContractStorage,
    result: Result<Response<Empty>, ContractError>,
) -> bool {
    setter_gives(
        |state: State| State { opt_uint128: new_opt_uint128, ..state },
        "new_opt_uint128"@,
        number_or_none(new_opt_uint128),
        before,
        after,
        result,
    )
}

/// What [`set_opt_vec_numbers`] does: it replaces the optional list of
/// numbers and reports a fixed text.
pub open spec fn set_opt_vec_numbers_gives(
    new_opt_vec_numbers: Option<Vec<i32>>,
    before: ContractStorage,
    after: ContractStorage,
    result: Result<Response<Empty>, ContractError>,
) -> bool {
    setter_gives(
        |state: State| State { opt_vec_numbers: new_opt_vec_numbers, ..state },
        "new_opt_vec_numbers"@,
        "new_vec_numbers"@,
        before,
        after,
        result,
    )
}

/// What [`set_vec_opt_strings`] does: it replaces the list of optional
/// strings and reports a fixed text.
pub open spec fn set_vec_opt_strings_gives(
    new_vec_opt_strings: Vec<Option<String>>,
    before: ContractStorage,
    after: ContractStorage,
    result: Result<Response<Empty>, ContractError>,
) -> bool {
    setter_gives(
        |state: State| State { vec_opt_strings: new_vec_opt_strings, ..state },
        "new_vec_opt_strings"@,
        "new_vec_opt_strings"@,
        before,
        after,
        result,
    )
}

/// What [`set_vec_denom_units`] does: it replaces the list of denomination
/// units and reports a fixed text.
pub open spec fn set_vec_denom_units_gives(
    new_vec_denom_units: Vec<DenomUnit>,
    before: ContractStorage,
    after: ContractStorage,
    result: Result<Response<Empty>, ContractError>,
) -> bool {
    setter_gives(
        |state: State| State { vec_denom_units: new_vec_denom_units, ..state },
        "new_vec_denom_units"@,
        "new_vec_denom_units"@,
        before,
        after,
        result,
    )
}

/// Sets the optional number of the state, and reports it in decimal.
pub fn set_opt_uint128(storage: &mut ContractStorage, new_opt_uint128: Option<u128>) -> (result:
    Result<Response<Empty>, ContractError>)
    ensures
        set_opt_uint128_gives(new_opt_uint128, *old(storage), *final(storage), result),
{
    match &mut storage.state {
        Some(state) => {
            state.opt_uint128 = new_opt_uint128;
        },
        None => {
            return Err(ContractError::StateNotFound);
        },
    }
    let number = number_or_none_text(new_opt_uint128);
    proof {
        reveal_strlit("new_opt_uint128");
    }
    let response = add_attribute(new_response(), "new_opt_uint128", number.as_str());
    assert(attributes_of(response) =~= seq![
        ("new_opt_uint128"@, number_or_none(new_opt_uint128)),
    ]);
    Ok(response)
}

/// Sets the optional list of numbers of the state.
pub fn set_opt_vec_numbers(
    storage: &mut ContractStorage,
    new_opt_vec_numbers: Option<Vec<i32>>,
) -> (result: Result<Response<Empty>, ContractError>)
    ensures
        set_opt_vec_numbers_gives(new_opt_vec_numbers, *old(storage), *final(storage), result),
{
    match &mut storage.state {
        Some(state) => {
            state.opt_vec_numbers = new_opt_vec_numbers;
        },
        None => {
            return Err(ContractError::StateNotFound);
        },
    }
    proof {
        reveal_strlit("new_opt_vec_numbers");
    }
    let response = add_attribute(new_response(), "new_opt_vec_numbers", "new_vec_numbers");
    assert(attributes_of(response) =~= seq![("new_opt_vec_numbers"@, "new_vec_numbers"@)]);
    Ok(response)
}

/// Sets the list of optional strings of the state.
pub fn set_vec_opt_strings(
    storage: &mut ContractStorage,
    new_vec_opt_strings: Vec<Option<String>>,
) -> (result: Result<Response<Empty>, ContractError>)
    ensures
        set_vec_opt_strings_gives(new_vec_opt_strings, *old(storage), *final(storage), result),
{
    match &mut storage.state {
        Some(state) => {
            state.vec_opt_strings = new_vec_opt_strings;
        },
        None => {
            return Err(ContractError::StateNotFound);
        },
    }
    proof {
        reveal_strlit("new_vec_opt_strings");
    }
    let response = add_attribute(new_response(), "new_vec_opt_strings", "new_vec_opt_strings");
    assert(attributes_of(response) =~= seq![("new_vec_opt_strings"@, "new_vec_opt_strings"@)]);
    Ok(response)
}

/// Sets the list of denomination units of the state.
pub fn set_vec_denom_units(
    storage: &mut ContractStorage,
    new_vec_denom_units: Vec<DenomUnit>,
) -> (result: Result<Response<Empty>, ContractError>)
    ensures
        set_vec_denom_units_gives(new_vec_denom_units, *old(storage), *final(storage), result),
{
    match &mut storage.state {
        Some(state) => {
            state.vec_denom_units = new_vec_denom_units;
        },
        None => {
            return Err(ContractError::StateNotFound);
        },
    }
    proof {
        reveal_strlit("new_vec_denom_units");
    }
    let response = add_attribute(new_response(), "new_vec_denom_units", "new_vec_denom_units");
    assert(attributes_of(response) =~= seq![("new_vec_denom_units"@, "new_vec_denom_units"@)]);
    Ok(response)
}

/// How an optional status is reported: as it is, or as the empty text.
pub open spec fn status_or_empty(status: Option<Seq<char>>) -> Seq<char> {
    match status {
        Some(text) => text,
        None => Seq::empty(),
    }
}

/// The attributes under which an update of the owner's record is reported:
/// the action, the record as it is stored now, and who asked.
pub open spec fn update_owner_attributes(record: Record, sender: Seq<char>) -> Seq<
    (Seq<char>, Seq<char>),
> {
    seq![
        ("action"@, "update_owner"@),
        ("owner"@, record.owner),
        ("status"@, status_or_empty(record.status)),
        ("sender"@, sender),
    ]
}

/// What [`update_owner`] does: the owner state machine decides, as
/// [`update_gives`] says. Where it stores a new record, the response
/// reports that record and the sender; where it refuses, its error comes
/// back. The state and the version are never touched.
pub open spec fn update_owner_gives<V: Fn(&str) -> Result<AccountId, StdError>>(
    validate: V,
    sender: Seq<char>,
    update: Event,
    before: ContractStorage,
    after: ContractStorage,
    result: Result<Response<Empty>, ContractError>,
) -> bool {
    match result {
        Ok(response) => {
            &&& after.owner@ matches Some(record) && update_gives(
                validate,
                before.owner@,
                sender,
                update,
                after.owner@,
                Ok(record),
            ) && reports(response, update_owner_attributes(record, sender))
            &&& after.state == before.state
            &&& after.version == before.version
        },
        Err(e) => {
            &&& e matches ContractError::Owner(reason) && update_gives(
                validate,
                before.owner@,
                sender,
                update,
                after.owner@,
                Err(reason),
            )
            &&& after == before
        },
    }
}

/// Updates the owner's record on behalf of `sender`.
pub fn update_owner<V: Fn(&str) -> Result<AccountId, StdError>>(
    storage: &mut ContractStorage,
    validate: V,
    sender: &AccountId,
    update: OwnerUpdate,
) -> (result: Result<Response<Empty>, ContractError>)
    requires
        (update@ matches Event::UpdateOwner { new_owner } ==> accepts(validate, new_owner)),
    ensures
        update_owner_gives(validate, sender@, update@, *old(storage), *final(storage), result),
{
    let owner = Owner::new(OWNER_KEY);
    let res = match owner.update(&mut storage.owner, validate, sender, update) {
        Ok(res) => res,
        Err(e) => {
            return Err(ContractError::Owner(e));
        },
    };
    proof {
        reveal_strlit("action");
        reveal_strlit("owner");
        reveal_strlit("status");
        reveal_strlit("sender");
    }
    let response = new_response();
    let response = add_attribute(response, "action", "update_owner");
    let response = add_attribute(response, "owner", res.owner.as_str());
    let response = match &res.status {
        Some(status) => add_attribute(response, "status", status.as_str()),
        None => add_attribute(response, "status", ""),
    };
    let response = add_attribute(response, "sender", sender.as_str());
    proof {
        reveal_strlit("");
        assert(""@ =~= Seq::<char>::empty());
        assert(attributes_of(response) =~= update_owner_attributes(res@, sender@));
    }
    Ok(response)
}

/// What [`execute`] does: what the handler of the message does. The three
/// messages without a handler change nothing and give an empty response.
pub open spec fn execute_gives<V: Fn(&str) -> Result<AccountId, StdError>>(
    validate: V,
    sender: Seq<char>,
    msg: ExecuteMsg,
    before: ContractStorage,
    after: ContractStorage,
    result: Result<Response<Empty>, ContractError>,
) -> bool {
    match msg {
        ExecuteMsg::SetOptAddr { new_opt_addr } => set_opt_addr_gives(
            validate,
            new_opt_addr,
            before,
            after,
            result,
        ),
        ExecuteMsg::SetOptUint128 { new_opt_uint128 } => set_opt_uint128_gives(
            new_opt_uint128,
            before,
            after,
            result,
        ),
        ExecuteMsg::SetOptVecNumbers { new_opt_vec_numbers } => set_opt_vec_numbers_gives(
            new_opt_vec_numbers,
            before,
            after,
            result,
        ),
        ExecuteMsg::SetVecOptStrings { new_vec_opt_strings } => set_vec_opt_strings_gives(
            new_vec_opt_strings,
            before,
            after,
            result,
        ),
        ExecuteMsg::SetVecDenomUnits { new_vec_denom_units } => set_vec_denom_units_gives(
            new_vec_denom_units,
            before,
            after,
            result,
        ),
        ExecuteMsg::UpdateOwner(update) => update_owner_gives(
            validate,
            sender,
            update@,
            before,
            after,
            result,
        ),
        _ => {
            &&& after == before
            &&& result matches Ok(response) && reports(response, Seq::empty())
        },
    }
}

/// The identifier that [`execute`] hands to the validator for `msg`, if any.
pub open spec fn validated_by(msg: ExecuteMsg) -> Option<Seq<char>> {
    match msg {
        ExecuteMsg::SetOptAddr { new_opt_addr: Some(raw) } => Some(raw@),
        ExecuteMsg::UpdateOwner(OwnerUpdate::UpdateOwner { new_owner }) => Some(new_owner@),
        _ => None,
    }
}

/// Carries out `msg` on behalf of `sender`.
pub fn execute<V: Fn(&str) -> Result<AccountId, StdError>>(
    storage: &mut ContractStorage,
    validate: V,
    sender: &AccountId,
    msg: ExecuteMsg,
) -> (result: Result<Response<Empty>, ContractError>)
    requires
        validated_by(msg) matches Some(raw) ==> accepts(validate, raw),
    ensures
        execute_gives(validate, sender@, msg, *old(storage), *final(storage), result),
{
    match msg {
        ExecuteMsg::SetOptAddr { new_opt_addr } => set_opt_addr(storage, validate, new_opt_addr),
        ExecuteMsg::SetOptUint128 { new_opt_uint128 } => set_opt_uint128(
            storage,
            new_opt_uint128,
        ),
        ExecuteMsg::SetOptVecNumbers { new_opt_vec_numbers } => set_opt_vec_numbers(
            storage,
            new_opt_vec_numbers,
        ),
        ExecuteMsg::SetVecOptStrings { new_vec_opt_strings } => set_vec_opt_strings(
            storage,
            new_vec_opt_strings,
        ),
        ExecuteMsg::SetVecDenomUnits { new_vec_denom_units } => set_vec_denom_units(
            storage,
            new_vec_denom_units,
        ),
        ExecuteMsg::UpdateOwner(update) => update_owner(storage, validate, sender, update),
        ExecuteMsg::ExecuteMessage => Ok(new_response()),
        ExecuteMsg::Empty {  } => Ok(new_response()),
        ExecuteMsg::String(_) => Ok(new_response()),
    }
}

/// A message that fails changes nothing: the storage is as it was before.
pub proof fn lemma_failure_changes_nothing<V: Fn(&str) -> Result<AccountId, StdError>>(
    validate: V,
    sender: Seq<char>,
    msg: ExecuteMsg,
    before: ContractStorage,
    after: ContractStorage,
    result: Result<Response<Empty>, ContractError>,
)
    requires
        execute_gives(validate, sender, msg, before, after, result),
        result is Err,
    ensures
        after == before,
{
}

/// Only an update of the owner touches the owner's record, and it touches
/// nothing else; every other message leaves the owner's record and the
/// version as they were.
pub proof fn lemma_owner_record_is_guarded<V: Fn(&str) -> Result<AccountId, StdError>>(
    validate: V,
    sender: Seq<char>,
    msg: ExecuteMsg,
    before: ContractStorage,
    after: ContractStorage,
    result: Result<Response<Empty>, ContractError>,
)
    requires
        execute_gives(validate, sender, msg, before, after, result),
    ensures
        msg is UpdateOwner ==> after.state == before.state,
        msg !is UpdateOwner ==> after.owner == before.owner,
        after.version == before.version,
{
}

} // verus!
