//! The owner state machine.
//!
//! One record names the current owner and an optional status. Only the
//! current owner may replace the owner or change the status, and a call that
//! fails leaves the record as it was.

use crate::types::account::AccountId;
use cosmwasm_std::StdError;
use vstd::prelude::*;

verus! {

/// What a stored record says: the owner's identifier and the status, if one
/// is set. This is the mathematical value of an [`OwnerState`] and of an
/// [`OwnerResponse`].
pub struct Record {
    pub owner: Seq<char>,
    pub status: Option<Seq<char>>,
}

/// The mathematical value of an [`OwnerUpdate`].
pub enum Event {
    UpdateOwner { new_owner: Seq<char> },
    UpdateStatus { new_status: Seq<char> },
    ClearStatus,
}

/// The text of an optional string.
pub open spec fn text_of(value: Option<String>) -> Option<Seq<char>> {
    match value {
        Some(text) => Some(text@),
        None => None,
    }
}

/// Whether the validator can be called on the identifier `raw`.
pub open spec fn accepts<V: Fn(&str) -> Result<AccountId, StdError>>(
    validate: V,
    raw: Seq<char>,
) -> bool {
    forall|input: &str| input@ == raw ==> call_requires(validate, (input,))
}

/// Whether `outcome` is something that the validator may return for the
/// identifier `raw`.
pub open spec fn may_return<V: Fn(&str) -> Result<AccountId, StdError>>(
    validate: V,
    raw: Seq<char>,
    outcome: Result<AccountId, StdError>,
) -> bool {
    exists|input: &str| input@ == raw && call_ensures(validate, (input,), outcome)
}

/// What the state machine answers when `caller` asks for `event` while
/// `stored` is in the store: the record to store next, or the reason why the
/// store stays as it is. Only for an `UpdateOwner` by the owner is there a
/// choice, and it is the validator's: the new owner is what it returned for
/// the proposed identifier, and its error is passed on.
pub open spec fn transition_gives<V: Fn(&str) -> Result<AccountId, StdError>>(
    validate: V,
    stored: Option<Record>,
    caller: Seq<char>,
    event: Event,
    result: Result<Record, OwnerError>,
) -> bool {
    match stored {
        None => result == Err::<Record, OwnerError>(OwnerError::NotInitialized),
        Some(before) => if before.owner != caller {
            result == Err::<Record, OwnerError>(OwnerError::NotOwner)
        } else {
            match event {
                Event::UpdateOwner { new_owner } => match result {
                    Ok(after) => exists|validated: AccountId| #[trigger]
                        may_return(validate, new_owner, Ok(validated)) && after == Record {
                            owner: validated@,
                            status: before.status,
                        },
                    Err(e) => e matches OwnerError::Validation(reason) && may_return(
                        validate,
                        new_owner,
                        Err(reason),
                    ),
                },
                Event::UpdateStatus { new_status } => result == Ok::<Record, OwnerError>(
                    Record { owner: before.owner, status: Some(new_status) },
                ),
                Event::ClearStatus => result == Ok::<Record, OwnerError>(
                    Record { owner: before.owner, status: None },
                ),
            }
        },
    }
}

/// What one call of [`Owner::update`] does: it answers as
/// [`transition_gives`] says, stores the new record where there is one, and
/// leaves the store alone where it fails.
pub open spec fn update_gives<V: Fn(&str) -> Result<AccountId, StdError>>(
    validate: V,
    before: Option<Record>,
    caller: Seq<char>,
    event: Event,
    after: Option<Record>,
    result: Result<Record, OwnerError>,
) -> bool {
    &&& transition_gives(validate, before, caller, event, result)
    &&& after == match result {
        Ok(record) => Some(record),
        Err(_) => before,
    }
}

/// What one call of [`Owner::initialize`] does: if the validator accepts
/// `raw`, the store holds the owner that it returned and `status`, whatever
/// it held before; if not, the validator's error comes back and the store is
/// left alone.
pub open spec fn initialize_gives<V: Fn(&str) -> Result<AccountId, StdError>>(
    validate: V,
    raw: Seq<char>,
    status: Option<Seq<char>>,
    before: Option<Record>,
    after: Option<Record>,
    result: Result<(), OwnerError>,
) -> bool {
    match result {
        Ok(_) => exists|validated: AccountId| #[trigger]
            may_return(validate, raw, Ok(validated)) && after == Some(
                Record { owner: validated@, status },
            ),
        Err(e) => e matches OwnerError::Validation(reason) && may_return(
            validate,
            raw,
            Err(reason),
        ) && after == before,
    }
}

/// What [`Owner::query`] answers on a store that holds `stored`.
pub open spec fn query_gives(stored: Option<Record>) -> Result<Record, OwnerError> {
    match stored {
        Some(record) => Ok(record),
        None => Err(OwnerError::NotInitialized),
    }
}

/// The result of an operation that reports a record, as a mathematical value.
pub open spec fn reported(result: Result<OwnerResponse, OwnerError>) -> Result<Record, OwnerError> {
    match result {
        Ok(response) => Ok(response@),
        Err(e) => Err(e),
    }
}

/// The record that is persisted.
#[derive(Debug, PartialEq)]
pub struct OwnerState {
    pub owner: AccountId,
    pub status: Option<String>,
}

impl View for OwnerState {
    type V = Record;

    open spec fn view(&self) -> Record {
        Record { owner: self.owner@, status: text_of(self.status) }
    }
}

impl OwnerState {
    /// The record with the owner that an address validator returned and with
    /// `status`, or the validator's error as a [`OwnerError::Validation`].
    pub fn validated(outcome: Result<AccountId, StdError>, status: Option<String>) -> (made: Result<
        OwnerState,
        OwnerError,
    >)
        ensures
            match outcome {
                Ok(owner) => made matches Ok(state) && state@ == (Record {
                    owner: owner@,
                    status: text_of(status),
                }),
                Err(reason) => made == Err::<OwnerState, OwnerError>(
                    OwnerError::Validation(reason),
                ),
            },
    {
        match outcome {
            Ok(owner) => Ok(OwnerState { owner, status }),
            Err(reason) => Err(OwnerError::Validation(reason)),
        }
    }
}

impl Clone for OwnerState {
    fn clone(&self) -> (copy: OwnerState)
        ensures
            copy@ == self@,
    {
        let status = match &self.status {
            Some(text) => Some(text.clone()),
            None => None,
        };
        OwnerState { owner: self.owner.clone(), status }
    }
}

/// Why an operation of [`Owner`] failed.
#[derive(Debug, PartialEq)]
pub enum OwnerError {
    /// The caller is not the current owner.
    NotOwner,
    /// The address validator rejected an identifier; this is its error.
    Validation(StdError),
    /// No record has been stored yet.
    NotInitialized,
}

/// A change that the owner asks for.
#[derive(Debug, PartialEq)]
pub enum OwnerUpdate {
    /// Hands the ownership to `new_owner`, at once.
    UpdateOwner { new_owner: String },
    /// Replaces the status.
    UpdateStatus { new_status: String },
    /// Removes the status.
    ClearStatus,
}

impl View for OwnerUpdate {
    type V = Event;

    open spec fn view(&self) -> Event {
        match self {
            OwnerUpdate::UpdateOwner { new_owner } => Event::UpdateOwner { new_owner: new_owner@ },
            OwnerUpdate::UpdateStatus { new_status } => Event::UpdateStatus {
                new_status: new_status@,
            },
            OwnerUpdate::ClearStatus => Event::ClearStatus,
        }
    }
}

impl Clone for OwnerUpdate {
    fn clone(&self) -> (copy: OwnerUpdate)
        ensures
            copy@ == self@,
    {
        match self {
            OwnerUpdate::UpdateOwner { new_owner } => OwnerUpdate::UpdateOwner {
                new_owner: new_owner.clone(),
            },
            OwnerUpdate::UpdateStatus { new_status } => OwnerUpdate::UpdateStatus {
                new_status: new_status.clone(),
            },
            OwnerUpdate::ClearStatus => OwnerUpdate::ClearStatus,
        }
    }
}

/// What [`Owner::query`] returns: the stored record, with the owner as text.
#[derive(Debug, PartialEq)]
pub struct OwnerResponse {
    pub owner: String,
    pub status: Option<String>,
}

impl View for OwnerResponse {
    type V = Record;

    open spec fn view(&self) -> Record {
        Record { owner: self.owner@, status: text_of(self.status) }
    }
}

impl Clone for OwnerResponse {
    fn clone(&self) -> (copy: OwnerResponse)
        ensures
            copy@ == self@,
    {
        let status = match &self.status {
            Some(text) => Some(text.clone()),
            None => None,
        };
        OwnerResponse { owner: self.owner.clone(), status }
    }
}

/// The place where the record is kept between calls: empty until the first
/// [`Owner::initialize`], and holding exactly one record from then on.
#[derive(Debug, PartialEq)]
pub struct OwnerStore {
    record: Option<OwnerState>,
}

impl View for OwnerStore {
    type V = Option<Record>;

    closed spec fn view(&self) -> Option<Record> {
        match self.record {
            Some(state) => Some(state@),
            None => None,
        }
    }
}

impl OwnerStore {
    /// A store that holds no record.
    pub fn empty() -> (store: OwnerStore)
        ensures
            store@ is None,
    {
        OwnerStore { record: None }
    }

    /// A store that holds `state`.
    pub fn holding(state: OwnerState) -> (store: OwnerStore)
        ensures
            store@ == Some(state@),
    {
        OwnerStore { record: Some(state) }
    }

    /// A copy of the record, if there is one.
    pub fn may_load(&self) -> (found: Option<OwnerState>)
        ensures
            match found {
                Some(state) => self@ == Some(state@),
                None => self@ is None,
            },
    {
        match &self.record {
            Some(state) => Some(state.clone()),
            None => None,
        }
    }

    /// A copy of the record; fails with `NotInitialized` on an empty store.
    pub fn load(&self) -> (found: Result<OwnerState, OwnerError>)
        ensures
            match found {
                Ok(state) => self@ == Some(state@),
                Err(e) => self@ is None && e == OwnerError::NotInitialized,
            },
    {
        match &self.record {
            Some(state) => Ok(state.clone()),
            None => Err(OwnerError::NotInitialized),
        }
    }

    /// Replaces whatever the store holds by `state`.
    pub fn save(&mut self, state: OwnerState)
        ensures
            final(self)@ == Some(state@),
    {
        self.record = Some(state);
    }
}

/// The state machine, bound to the key under which its record is persisted.
pub struct Owner<'a> {
    namespace: &'a str,
}

impl<'a> Owner<'a> {
    /// The text of the key under which the record is persisted.
    pub closed spec fn key(&self) -> Seq<char> {
        self.namespace@
    }

    /// A state machine whose record is persisted under `namespace`.
    pub fn new(namespace: &'a str) -> (owner: Owner<'a>)
        ensures
            owner.key() == namespace@,
    {
        Owner { namespace }
    }

    /// The key under which the record is persisted.
    pub fn namespace(&self) -> (key: &'a str)
        ensures
            key@ == self.key(),
    {
        self.namespace
    }

    fn state(&self, store: &OwnerStore) -> (found: Result<OwnerState, OwnerError>)
        ensures
            match found {
                Ok(state) => store@ == Some(state@),
                Err(e) => store@ is None && e == OwnerError::NotInitialized,
            },
    {
        store.load()
    }

    /// The current owner.
    pub fn current(&self, store: &OwnerStore) -> (found: Result<AccountId, OwnerError>)
        ensures
            match found {
                Ok(owner) => store@ matches Some(record) && owner@ == record.owner,
                Err(e) => store@ is None && e == OwnerError::NotInitialized,
            },
    {
        Ok(self.state(store)?.owner)
    }

    /// The current status.
    pub fn status(&self, store: &OwnerStore) -> (found: Result<Option<String>, OwnerError>)
        ensures
            match found {
                Ok(status) => store@ matches Some(record) && text_of(status) == record.status,
                Err(e) => store@ is None && e == OwnerError::NotInitialized,
            },
    {
        Ok(self.state(store)?.status)
    }

    /// Whether `addr` is the current owner.
    pub fn is_owner(&self, store: &OwnerStore, addr: &AccountId) -> (found: Result<
        bool,
        OwnerError,
    >)
        ensures
            match found {
                Ok(is_owner) => store@ matches Some(record) && is_owner == (record.owner == addr@),
                Err(e) => store@ is None && e == OwnerError::NotInitialized,
            },
    {
        Ok(self.current(store)? == *addr)
    }

    /// The stored record, in the shape in which it is reported.
    pub fn query(&self, store: &OwnerStore) -> (found: Result<OwnerResponse, OwnerError>)
        ensures
            reported(found) == query_gives(store@),
    {
        Ok(
            OwnerResponse {
                owner: self.current(store)?.into_string(),
                status: self.status(store)?,
            },
        )
    }

    /// Stores the first record: `owner`, once the validator has accepted it,
    /// and `status`. A record that is already there is replaced. If the
    /// validator rejects `owner`, its error comes back and the store is left
    /// as it was.
    pub fn initialize<V: Fn(&str) -> Result<AccountId, StdError>>(
        &self,
        store: &mut OwnerStore,
        validate: V,
        owner: String,
        status: Option<String>,
    ) -> (done: Result<(), OwnerError>)
        requires
            accepts(validate, owner@),
        ensures
            initialize_gives(
                validate,
                owner@,
                text_of(status),
                old(store)@,
                final(store)@,
                done,
            ),
            done is Err ==> *final(store) == *old(store),
    {
        let outcome = validate(owner.as_str());
        assert(may_return(validate, owner@, outcome));
        let new_state = OwnerState::validated(outcome, status)?;
        store.save(new_state);
        Ok(())
    }

    /// Applies `update` on behalf of `sender` and returns the record as it is
    /// stored afterwards. Only the current owner may ask for an update; a
    /// new owner is stored as the validator returned it. On any failure the
    /// store is left as it was.
    pub fn update<V: Fn(&str) -> Result<AccountId, StdError>>(
        &self,
        store: &mut OwnerStore,
        validate: V,
        sender: &AccountId,
        update: OwnerUpdate,
    ) -> (updated: Result<OwnerResponse, OwnerError>)
        requires
            (update@ matches Event::UpdateOwner { new_owner } ==> accepts(validate, new_owner)),
        ensures
            update_gives(
                validate,
                old(store)@,
                sender@,
                update@,
                final(store)@,
                reported(updated),
            ),
            updated is Err ==> *final(store) == *old(store),
            old(store)@ matches Some(record) && record.owner != sender@ ==> updated == Err::<
                OwnerResponse,
                OwnerError,
            >(OwnerError::NotOwner),
    {
        let new_state = self.transition_state(store, validate, sender, update)?;
        store.save(new_state);
        self.query(store)
    }

    fn transition_state<V: Fn(&str) -> Result<AccountId, StdError>>(
        &self,
        store: &OwnerStore,
        validate: V,
        sender: &AccountId,
        event: OwnerUpdate,
    ) -> (next: Result<OwnerState, OwnerError>)
        requires
            (event@ matches Event::UpdateOwner { new_owner } ==> accepts(validate, new_owner)),
        ensures
            match next {
                Ok(state) => transition_gives(validate, store@, sender@, event@, Ok(state@)),
                Err(e) => transition_gives(validate, store@, sender@, event@, Err(e)),
            },
    {
        self.assert_owner(store, sender)?;

        let new_state = match event {
            OwnerUpdate::UpdateOwner { new_owner } => {
                let outcome = validate(new_owner.as_str());
                assert(may_return(validate, new_owner@, outcome));
                OwnerState::validated(outcome, self.status(store)?)?
            },
            OwnerUpdate::UpdateStatus { new_status } => OwnerState {
                owner: self.current(store)?,
                status: Some(new_status),
            },
            OwnerUpdate::ClearStatus => OwnerState { owner: self.current(store)?, status: None },
        };
        Ok(new_state)
    }

    /// Succeeds if `caller` is the current owner, and fails with `NotOwner`
    /// if it is another account.
    pub fn assert_owner(&self, store: &OwnerStore, caller: &AccountId) -> (checked: Result<
        (),
        OwnerError,
    >)
        ensures
            match checked {
                Ok(_) => store@ matches Some(record) && record.owner == caller@,
                Err(OwnerError::NotOwner) => store@ matches Some(record) && record.owner
                    != caller@,
                Err(OwnerError::NotInitialized) => store@ is None,
                Err(OwnerError::Validation(_)) => false,
            },
    {
        if !self.is_owner(store, caller)? {
            Err(OwnerError::NotOwner)
        } else {
            Ok(())
        }
    }
}

/// Whoever is not the current owner is refused with `NotOwner`, whatever
/// they ask for, and the stored record stays as it was.
pub proof fn lemma_stranger_is_refused<V: Fn(&str) -> Result<AccountId, StdError>>(
    validate: V,
    stored: Record,
    caller: Seq<char>,
    event: Event,
    after: Option<Record>,
    result: Result<Record, OwnerError>,
)
    requires
        caller != stored.owner,
        update_gives(validate, Some(stored), caller, event, after, result),
    ensures
        result == Err::<Record, OwnerError>(OwnerError::NotOwner),
        after == Some(stored),
{
}

/// Clearing the status twice in a row, as the owner, succeeds both times,
/// and both times the record that comes back has no status; the second call
/// changes nothing.
pub proof fn lemma_clear_status_twice<V: Fn(&str) -> Result<AccountId, StdError>>(
    validate: V,
    stored: Record,
    caller: Seq<char>,
    between: Option<Record>,
    first: Result<Record, OwnerError>,
    after: Option<Record>,
    second: Result<Record, OwnerError>,
)
    requires
        caller == stored.owner,
        update_gives(validate, Some(stored), caller, Event::ClearStatus, between, first),
        update_gives(validate, between, caller, Event::ClearStatus, after, second),
    ensures
        first == Ok::<Record, OwnerError>(Record { owner: stored.owner, status: None }),
        second == first,
        after == between,
{
}

/// A transfer by the current owner that succeeds stores the owner that the
/// validator returned for the proposed identifier, and leaves the status as
/// it was.
pub proof fn lemma_transfer_keeps_status<V: Fn(&str) -> Result<AccountId, StdError>>(
    validate: V,
    stored: Record,
    caller: Seq<char>,
    new_owner: Seq<char>,
    after: Option<Record>,
    result: Result<Record, OwnerError>,
)
    requires
        caller == stored.owner,
        update_gives(
            validate,
            Some(stored),
            caller,
            Event::UpdateOwner { new_owner },
            after,
            result,
        ),
        result is Ok,
    ensures
        after == Some(result->Ok_0),
        result->Ok_0.status == stored.status,
        exists|validated: AccountId| #[trigger]
            may_return(validate, new_owner, Ok(validated)) && result->Ok_0.owner == validated@,
{
}

/// After an `initialize` that succeeded, with a validator that hands back the
/// identifier it was given, a query returns exactly that owner and that
/// status.
pub proof fn lemma_initialize_then_query<V: Fn(&str) -> Result<AccountId, StdError>>(
    validate: V,
    owner: Seq<char>,
    status: Option<Seq<char>>,
    before: Option<Record>,
    after: Option<Record>,
    done: Result<(), OwnerError>,
)
    requires
        forall|validated: AccountId| #[trigger]
            may_return(validate, owner, Ok(validated)) ==> validated@ == owner,
        initialize_gives(validate, owner, status, before, after, done),
        done is Ok,
    ensures
        query_gives(after) == Ok::<Record, OwnerError>(Record { owner, status }),
{
}

/// A transfer to an identifier that the validator never accepts fails, for
/// the owner too: the validator's error comes back and the stored record
/// stays as it was.
pub proof fn lemma_rejected_owner_changes_nothing<V: Fn(&str) -> Result<AccountId, StdError>>(
    validate: V,
    stored: Record,
    caller: Seq<char>,
    new_owner: Seq<char>,
    after: Option<Record>,
    result: Result<Record, OwnerError>,
)
    requires
        caller == stored.owner,
        forall|validated: AccountId| !#[trigger] may_return(validate, new_owner, Ok(validated)),
        update_gives(
            validate,
            Some(stored),
            caller,
            Event::UpdateOwner { new_owner },
            after,
            result,
        ),
    ensures
        result matches Err(OwnerError::Validation(reason)) && may_return(
            validate,
            new_owner,
            Err(reason),
        ),
        after == Some(stored),
{
}

/// Once a record is stored it is never lost: after an update, whether it
/// succeeded or not, the store still holds one.
pub proof fn lemma_record_is_never_lost<V: Fn(&str) -> Result<AccountId, StdError>>(
    validate: V,
    stored: Record,
    caller: Seq<char>,
    event: Event,
    after: Option<Record>,
    result: Result<Record, OwnerError>,
)
    requires
        update_gives(validate, Some(stored), caller, event, after, result),
    ensures
        after is Some,
{
}

/// No owner is stored that did not come from the validator: after an update
/// the owner is the one that was there before, or one that the validator
/// returned for the identifier that the update proposed.
pub proof fn lemma_owner_comes_from_the_validator<V: Fn(&str) -> Result<AccountId, StdError>>(
    validate: V,
    stored: Record,
    caller: Seq<char>,
    event: Event,
    after: Option<Record>,
    result: Result<Record, OwnerError>,
)
    requires
        update_gives(validate, Some(stored), caller, event, after, result),
    ensures
        after matches Some(record) && (record.owner == stored.owner || (event matches Event::UpdateOwner {
            new_owner,
        } && exists|validated: AccountId| #[trigger]
            may_return(validate, new_owner, Ok(validated)) && record.owner == validated@)),
{
}

} // verus!
