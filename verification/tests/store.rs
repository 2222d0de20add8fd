use counter::error::ContractError;
use counter::state::{State, Store};

#[test]
fn new_store_is_empty_and_working() {
    let store = Store::new();
    assert_eq!(store.record, None);
    assert!(store.readable);
    assert!(store.writable);
}

#[test]
fn load_from_empty_store_is_not_initialized() {
    assert_eq!(Store::new().load(), Err(ContractError::NotInitialized));
}

#[test]
fn save_is_seen_by_the_next_load() {
    let mut store = Store::new();
    assert_eq!(store.save(&State { x: 3 }), Ok(()));
    assert_eq!(store.load(), Ok(State { x: 3 }));
    assert_eq!(store.save(&State { x: 4 }), Ok(()));
    assert_eq!(store.load(), Ok(State { x: 4 }));
}

#[test]
fn load_from_unreadable_medium_is_storage_failure() {
    let store = Store {
        record: Some(State { x: 3 }),
        readable: false,
        writable: true,
    };
    assert_eq!(store.load(), Err(ContractError::StorageFailure));
}

#[test]
fn save_to_unwritable_medium_is_storage_failure() {
    let mut store = Store {
        record: Some(State { x: 3 }),
        readable: true,
        writable: false,
    };
    assert_eq!(store.save(&State { x: 4 }), Err(ContractError::StorageFailure));
    assert_eq!(store.load(), Ok(State { x: 3 }));
}
