use cosmwasm_std::testing::MockApi;
use cosmwasm_std::{Api, StdError};
use json_template::types::account::AccountId;
use json_template::types::owner::{
    Owner, OwnerError, OwnerResponse, OwnerState, OwnerStore, OwnerUpdate,
};

/// The validator of the mock chain: at least three characters, lower case.
fn mock_validate(raw: &str) -> Result<AccountId, StdError> {
    MockApi::default()
        .addr_validate(raw)
        .map(|addr| AccountId::unchecked(addr.into_string()))
}

/// A validator that knows two accounts and rejects everything else.
fn strict_validate(raw: &str) -> Result<AccountId, StdError> {
    if raw == "alice" || raw == "bob" {
        Ok(AccountId::unchecked(raw.to_string()))
    } else {
        Err(StdError::generic_err("unknown account"))
    }
}

fn account(text: &str) -> AccountId {
    AccountId::unchecked(text.to_string())
}

fn response(owner: &str, status: Option<&str>) -> OwnerResponse {
    OwnerResponse {
        owner: owner.to_string(),
        status: status.map(|s| s.to_string()),
    }
}

fn store_of(owner: &str, status: Option<&str>) -> OwnerStore {
    OwnerStore::holding(OwnerState {
        owner: account(owner),
        status: status.map(|s| s.to_string()),
    })
}

#[test]
fn new_keeps_the_namespace() {
    assert_eq!(Owner::new("owner").namespace(), "owner");
    assert_eq!(Owner::new("").namespace(), "");
}

#[test]
fn scenario_status_then_refused_transfer_then_transfer() {
    let machine = Owner::new("owner");
    let mut store = OwnerStore::empty();
    machine
        .initialize(&mut store, mock_validate, "alice".to_string(), None)
        .unwrap();

    let updated = machine
        .update(
            &mut store,
            mock_validate,
            &account("alice"),
            OwnerUpdate::UpdateStatus {
                new_status: "active".to_string(),
            },
        )
        .unwrap();
    assert_eq!(updated, response("alice", Some("active")));
    assert_eq!(
        machine.query(&store).unwrap(),
        response("alice", Some("active"))
    );

    let refused = machine.update(
        &mut store,
        mock_validate,
        &account("bob"),
        OwnerUpdate::UpdateOwner {
            new_owner: "bob".to_string(),
        },
    );
    assert_eq!(refused, Err(OwnerError::NotOwner));
    assert_eq!(
        machine.query(&store).unwrap(),
        response("alice", Some("active"))
    );

    let transferred = machine
        .update(
            &mut store,
            mock_validate,
            &account("alice"),
            OwnerUpdate::UpdateOwner {
                new_owner: "bob".to_string(),
            },
        )
        .unwrap();
    assert_eq!(transferred, response("bob", Some("active")));
    assert_eq!(
        machine.query(&store).unwrap(),
        response("bob", Some("active"))
    );
}

#[test]
fn stranger_is_refused_for_every_event() {
    let machine = Owner::new("owner");
    let events = vec![
        OwnerUpdate::UpdateOwner {
            new_owner: "mallory".to_string(),
        },
        OwnerUpdate::UpdateOwner {
            new_owner: "x".to_string(),
        },
        OwnerUpdate::UpdateStatus {
            new_status: "taken".to_string(),
        },
        OwnerUpdate::ClearStatus,
    ];
    for event in events {
        let mut store = store_of("alice", Some("active"));
        let result = machine.update(&mut store, mock_validate, &account("mallory"), event);
        assert_eq!(result, Err(OwnerError::NotOwner));
        assert_eq!(store, store_of("alice", Some("active")));
    }
}

#[test]
fn stranger_is_refused_before_validation() {
    // the proposed owner is invalid, but the caller is told that it is not the owner
    let machine = Owner::new("owner");
    let mut store = store_of("alice", None);
    let result = machine.update(
        &mut store,
        strict_validate,
        &account("bob"),
        OwnerUpdate::UpdateOwner {
            new_owner: "not-a-valid-address".to_string(),
        },
    );
    assert_eq!(result, Err(OwnerError::NotOwner));
    assert_eq!(store, store_of("alice", None));
}

#[test]
fn clear_status_twice() {
    let machine = Owner::new("owner");
    let mut store = store_of("alice", Some("active"));
    let first = machine.update(
        &mut store,
        mock_validate,
        &account("alice"),
        OwnerUpdate::ClearStatus,
    );
    assert_eq!(first, Ok(response("alice", None)));
    assert_eq!(machine.status(&store), Ok(None));
    let second = machine.update(
        &mut store,
        mock_validate,
        &account("alice"),
        OwnerUpdate::ClearStatus,
    );
    assert_eq!(second, Ok(response("alice", None)));
    assert_eq!(machine.status(&store), Ok(None));
    assert_eq!(store, store_of("alice", None));
}

#[test]
fn transfer_changes_only_the_owner() {
    let machine = Owner::new("owner");
    for status in [None, Some(""), Some("active")] {
        let mut store = store_of("alice", status);
        let result = machine.update(
            &mut store,
            mock_validate,
            &account("alice"),
            OwnerUpdate::UpdateOwner {
                new_owner: "carol".to_string(),
            },
        );
        assert_eq!(result, Ok(response("carol", status)));
        assert_eq!(store, store_of("carol", status));
        assert_eq!(machine.current(&store), Ok(account("carol")));
    }
}

#[test]
fn the_former_owner_is_a_stranger_after_a_transfer() {
    let machine = Owner::new("owner");
    let mut store = store_of("alice", None);
    machine
        .update(
            &mut store,
            mock_validate,
            &account("alice"),
            OwnerUpdate::UpdateOwner {
                new_owner: "bob".to_string(),
            },
        )
        .unwrap();
    let result = machine.update(
        &mut store,
        mock_validate,
        &account("alice"),
        OwnerUpdate::ClearStatus,
    );
    assert_eq!(result, Err(OwnerError::NotOwner));
    assert_eq!(machine.assert_owner(&store, &account("bob")), Ok(()));
}

#[test]
fn initialize_then_query_round_trip() {
    let machine = Owner::new("owner");
    for status in [None, Some(""), Some("initializer")] {
        let mut store = OwnerStore::empty();
        let done = machine.initialize(
            &mut store,
            mock_validate,
            "alice".to_string(),
            status.map(|s| s.to_string()),
        );
        assert_eq!(done, Ok(()));
        assert_eq!(machine.query(&store), Ok(response("alice", status)));
    }
}

#[test]
fn initialize_overwrites_a_record() {
    let machine = Owner::new("owner");
    let mut store = store_of("alice", Some("active"));
    let done = machine.initialize(&mut store, mock_validate, "bob".to_string(), None);
    assert_eq!(done, Ok(()));
    assert_eq!(store, store_of("bob", None));
}

#[test]
fn initialize_rejects_an_invalid_owner() {
    let machine = Owner::new("owner");
    // too short for the mock chain
    let mut store = OwnerStore::empty();
    let done = machine.initialize(&mut store, mock_validate, "al".to_string(), None);
    assert!(matches!(done, Err(OwnerError::Validation(_))));
    assert_eq!(store, OwnerStore::empty());
    assert_eq!(machine.query(&store), Err(OwnerError::NotInitialized));

    // a record that is there stays
    let mut store = store_of("alice", Some("active"));
    let done = machine.initialize(&mut store, mock_validate, "Bob".to_string(), None);
    assert_eq!(
        done,
        Err(OwnerError::Validation(StdError::generic_err(
            "Invalid input: address not normalized"
        )))
    );
    assert_eq!(store, store_of("alice", Some("active")));
}

#[test]
fn transfer_to_an_invalid_address_is_rejected() {
    let machine = Owner::new("owner");
    let mut store = store_of("alice", Some("active"));
    let result = machine.update(
        &mut store,
        strict_validate,
        &account("alice"),
        OwnerUpdate::UpdateOwner {
            new_owner: "not-a-valid-address".to_string(),
        },
    );
    assert_eq!(
        result,
        Err(OwnerError::Validation(StdError::generic_err(
            "unknown account"
        )))
    );
    assert_eq!(store, store_of("alice", Some("active")));
    assert_eq!(
        machine.query(&store),
        Ok(response("alice", Some("active")))
    );
}

#[test]
fn transfer_to_an_address_that_the_mock_chain_rejects() {
    let machine = Owner::new("owner");
    for raw in ["", "ab", "Alice", "NOT-A-VALID-ADDRESS"] {
        let mut store = store_of("alice", None);
        let result = machine.update(
            &mut store,
            mock_validate,
            &account("alice"),
            OwnerUpdate::UpdateOwner {
                new_owner: raw.to_string(),
            },
        );
        assert!(matches!(result, Err(OwnerError::Validation(_))));
        assert_eq!(store, store_of("alice", None));
    }
}

#[test]
fn update_status_overwrites_and_allows_the_empty_string() {
    let machine = Owner::new("owner");
    let mut store = store_of("alice", Some("active"));
    let result = machine.update(
        &mut store,
        mock_validate,
        &account("alice"),
        OwnerUpdate::UpdateStatus {
            new_status: "".to_string(),
        },
    );
    assert_eq!(result, Ok(response("alice", Some(""))));
    assert_eq!(machine.status(&store), Ok(Some("".to_string())));

    let result = machine.update(
        &mut store,
        mock_validate,
        &account("alice"),
        OwnerUpdate::UpdateStatus {
            new_status: "paused".to_string(),
        },
    );
    assert_eq!(result, Ok(response("alice", Some("paused"))));
    assert_eq!(store, store_of("alice", Some("paused")));
}

#[test]
fn nothing_works_before_initialize() {
    let machine = Owner::new("owner");
    let mut store = OwnerStore::empty();
    assert_eq!(machine.current(&store), Err(OwnerError::NotInitialized));
    assert_eq!(machine.status(&store), Err(OwnerError::NotInitialized));
    assert_eq!(
        machine.is_owner(&store, &account("alice")),
        Err(OwnerError::NotInitialized)
    );
    assert_eq!(machine.query(&store), Err(OwnerError::NotInitialized));
    assert_eq!(
        machine.assert_owner(&store, &account("alice")),
        Err(OwnerError::NotInitialized)
    );
    for event in [
        OwnerUpdate::ClearStatus,
        OwnerUpdate::UpdateStatus {
            new_status: "active".to_string(),
        },
        OwnerUpdate::UpdateOwner {
            new_owner: "alice".to_string(),
        },
    ] {
        let result = machine.update(&mut store, mock_validate, &account("alice"), event);
        assert_eq!(result, Err(OwnerError::NotInitialized));
        assert_eq!(store, OwnerStore::empty());
    }
    assert_eq!(store.may_load(), None);
    assert_eq!(store.load(), Err(OwnerError::NotInitialized));
}

#[test]
fn queries_read_the_record() {
    let machine = Owner::new("owner");
    let store = store_of("alice", Some("active"));
    assert_eq!(machine.current(&store), Ok(account("alice")));
    assert_eq!(machine.status(&store), Ok(Some("active".to_string())));
    assert_eq!(machine.is_owner(&store, &account("alice")), Ok(true));
    assert_eq!(machine.is_owner(&store, &account("bob")), Ok(false));
    assert_eq!(machine.is_owner(&store, &account("Alice")), Ok(false));
    assert_eq!(machine.is_owner(&store, &account("")), Ok(false));
    assert_eq!(machine.assert_owner(&store, &account("alice")), Ok(()));
    assert_eq!(
        machine.assert_owner(&store, &account("bob")),
        Err(OwnerError::NotOwner)
    );
    assert_eq!(
        machine.query(&store),
        Ok(response("alice", Some("active")))
    );
}

#[test]
fn store_saves_and_loads() {
    let mut store = OwnerStore::empty();
    store.save(OwnerState {
        owner: account("alice"),
        status: None,
    });
    assert_eq!(
        store.load(),
        Ok(OwnerState {
            owner: account("alice"),
            status: None,
        })
    );
    store.save(OwnerState {
        owner: account("bob"),
        status: Some("active".to_string()),
    });
    assert_eq!(
        store.may_load(),
        Some(OwnerState {
            owner: account("bob"),
            status: Some("active".to_string()),
        })
    );
}

#[test]
fn validated_state_takes_either_outcome() {
    assert_eq!(
        OwnerState::validated(Ok(account("alice")), Some("active".to_string())),
        Ok(OwnerState {
            owner: account("alice"),
            status: Some("active".to_string()),
        })
    );
    assert_eq!(
        OwnerState::validated(Err(StdError::generic_err("no")), None),
        Err(OwnerError::Validation(StdError::generic_err("no")))
    );
}

#[test]
fn the_stored_owner_is_what_the_validator_returned() {
    // a validator that normalizes: the record holds its answer, not the input
    fn lower(raw: &str) -> Result<AccountId, StdError> {
        Ok(AccountId::unchecked(raw.to_lowercase()))
    }
    let machine = Owner::new("owner");
    let mut store = OwnerStore::empty();
    machine
        .initialize(&mut store, lower, "ALICE".to_string(), None)
        .unwrap();
    assert_eq!(machine.query(&store), Ok(response("alice", None)));
    let result = machine.update(
        &mut store,
        lower,
        &account("alice"),
        OwnerUpdate::UpdateOwner {
            new_owner: "Bob".to_string(),
        },
    );
    assert_eq!(result, Ok(response("bob", None)));
}

#[test]
fn account_ids_compare_by_text() {
    assert_eq!(account("alice"), account("alice"));
    assert_ne!(account("alice"), account("bob"));
    assert_eq!(account("alice").as_str(), "alice");
    assert_eq!(account("alice").into_string(), "alice".to_string());
    assert_eq!(account("alice").clone(), account("alice"));
}

#[test]
fn copies_are_equal() {
    let state = OwnerState {
        owner: account("alice"),
        status: Some("active".to_string()),
    };
    assert_eq!(state.clone(), state);
    let update = OwnerUpdate::UpdateOwner {
        new_owner: "bob".to_string(),
    };
    assert_eq!(update.clone(), update);
    assert_eq!(OwnerUpdate::ClearStatus.clone(), OwnerUpdate::ClearStatus);
    let answer = response("alice", None);
    assert_eq!(answer.clone(), answer);
}
