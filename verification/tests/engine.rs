use cosmwasm_std::attr;
use counter::engine::{apply_increment, apply_init, apply_query, apply_set};
use counter::error::ContractError;
use counter::msg::DataResponse;
use counter::state::State;

#[test]
fn apply_init_starts_at_zero() {
    assert_eq!(apply_init(), State { x: 0 });
}

#[test]
fn apply_set_overwrites_and_reports() {
    let (state, events) = apply_set(10);
    assert_eq!(state, State { x: 10 });
    assert_eq!(events, vec![attr("action", "set"), attr("x", "10")]);
}

#[test]
fn apply_set_accepts_zero_and_the_maximum() {
    let (state, events) = apply_set(0);
    assert_eq!(state, State { x: 0 });
    assert_eq!(events, vec![attr("action", "set"), attr("x", "0")]);
    let (state, events) = apply_set(u64::MAX);
    assert_eq!(state, State { x: u64::MAX });
    assert_eq!(
        events,
        vec![attr("action", "set"), attr("x", "18446744073709551615")]
    );
}

#[test]
fn apply_set_then_apply_query_gives_the_value() {
    for x in [0u64, 1, 255, 256, 65_536, u64::MAX] {
        let (state, _) = apply_set(x);
        assert_eq!(apply_query(state), DataResponse { x });
    }
}

#[test]
fn apply_increment_adds_one_and_reports() {
    let (state, events) = apply_increment(State { x: 41 }).unwrap();
    assert_eq!(state, State { x: 42 });
    assert_eq!(events, vec![attr("action", "increment")]);
}

#[test]
fn apply_increment_below_the_maximum() {
    let (state, _) = apply_increment(State { x: u64::MAX - 1 }).unwrap();
    assert_eq!(state, State { x: u64::MAX });
}

#[test]
fn apply_increment_at_the_maximum() {
    assert_eq!(
        apply_increment(State { x: u64::MAX }),
        Err(ContractError::Overflow)
    );
}

#[test]
fn apply_query_copies_the_counter() {
    assert_eq!(apply_query(State { x: 0 }), DataResponse { x: 0 });
    assert_eq!(apply_query(State { x: 123 }), DataResponse { x: 123 });
}
