//! Building the response of an entry point.
//!
//! A response is a `cosmwasm_std::Response`. Verus cannot look inside one, so
//! what it holds is named here, and the two functions of its crate that this
//! library calls are stated over those names.

use cosmwasm_std::{Empty, Response};
use vstd::prelude::*;

verus! {

/// `cosmwasm_std::Empty`, the placeholder for "no custom message".
#[verifier::external_type_specification]
#[verifier::external_body]
pub struct ExEmpty(Empty);

/// `cosmwasm_std::Response`, opaque to the verifier.
#[verifier::external_type_specification]
#[verifier::external_body]
#[verifier::reject_recursive_types(T)]
pub struct ExResponse<T>(Response<T>);

/// The attributes of a response, in the order in which they were added, each
/// as its key and its value.
pub uninterp spec fn attributes_of(response: Response<Empty>) -> Seq<(Seq<char>, Seq<char>)>;

/// The number of messages that a response carries.
pub uninterp spec fn message_count(response: Response<Empty>) -> nat;

/// The number of events that a response carries beside its attributes.
pub uninterp spec fn event_count(response: Response<Empty>) -> nat;

/// Whether a response carries a data payload.
pub uninterp spec fn has_data(response: Response<Empty>) -> bool;

/// A response that holds exactly the attributes `attributes`, in that order,
/// and nothing else: no message, no event, no data.
pub open spec fn reports(response: Response<Empty>, attributes: Seq<(Seq<char>, Seq<char>)>) -> bool {
    &&& attributes_of(response) == attributes
    &&& message_count(response) == 0
    &&& event_count(response) == 0
    &&& !has_data(response)
}

/// Calls `Response::new`, which returns the default response: its lists of
/// messages, attributes and events are empty and it has no data.
#[verifier::external_body]
pub(crate) fn new_response() -> (response: Response<Empty>)
    ensures
        reports(response, Seq::empty()),
{
    Response::new()
}

/// Whether an attribute key is one of those that the chain keeps for
/// itself: the keys that begin with an underscore.
pub open spec fn reserved(key: Seq<char>) -> bool {
    key.len() > 0 && key[0] == '_'
}

/// Calls `Response::add_attribute`, which appends one attribute made of
/// `key` and `value` to the list of attributes and touches nothing else. In
/// a debug build it panics on a reserved key, so such a key is not accepted.
#[verifier::external_body]
pub(crate) fn add_attribute(response: Response<Empty>, key: &str, value: &str) -> (extended:
    Response<Empty>)
    requires
        !reserved(key@),
    ensures
        attributes_of(extended) == attributes_of(response).push((key@, value@)),
        message_count(extended) == message_count(response),
        event_count(extended) == event_count(response),
        has_data(extended) == has_data(response),
{
    response.add_attribute(key, value)
}

} // verus!
