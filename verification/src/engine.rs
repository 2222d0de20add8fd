//! The transitions of the counter.
//!
//! Each function here maps the current record, where it needs one, to the
//! next record and the attributes that report the change. None of them
//! touches the store.

use vstd::prelude::*;
use cosmwasm_std::Attribute;
use crate::decimal::{decimal, decimal_string};
use crate::error::ContractError;
use crate::host::attr;
use crate::msg::DataResponse;
use crate::response::{pairs, Events};
use crate::state::State;

verus! {

/// The record a fresh contract starts from.
pub open spec fn initial() -> State {
    State { x: 0 }
}

/// The record after the counter was set to `x`.
pub open spec fn set_to(x: u64) -> State {
    State { x }
}

/// The record after one increment, or `Overflow` where the counter cannot
/// go further.
pub open spec fn incremented(current: State) -> Result<State, ContractError> {
    if current.x < u64::MAX {
        Ok(State { x: (current.x + 1) as u64 })
    } else {
        Err(ContractError::Overflow)
    }
}

/// The answer to a query on `current`.
pub open spec fn answer(current: State) -> DataResponse {
    DataResponse { x: current.x }
}

/// What setting the counter to `x` reports.
pub open spec fn set_events(x: u64) -> Events {
    seq![("action"@, "set"@), ("x"@, decimal(x as nat))]
}

/// What an increment reports.
pub open spec fn increment_events() -> Events {
    seq![("action"@, "increment"@)]
}

/// The record of a freshly set up contract.
pub fn apply_init() -> (state: State)
    ensures
        state == initial(),
{
    State { x: 0 }
}

/// Overwrites the counter with `x`, whatever it was before.
pub fn apply_set(x: u64) -> (out: (State, Vec<Attribute>))
    ensures
        out.0 == set_to(x),
        pairs(out.1@) == set_events(x),
{
    proof {
        reveal_strlit("action");
        reveal_strlit("x");
    }
    let value = decimal_string(x);
    let events = vec![attr("action", "set"), attr("x", value.as_str())];
    assert(pairs(events@) =~= set_events(x));
    (State { x }, events)
}

/// Adds one to the counter. At `u64::MAX` there is no next value and the
/// transition fails with `Overflow`.
pub fn apply_increment(current: State) -> (res: Result<(State, Vec<Attribute>), ContractError>)
    ensures
        match incremented(current) {
            Ok(next) => res is Ok && res->Ok_0.0 == next && pairs(res->Ok_0.1@)
                == increment_events(),
            Err(e) => res is Err && res->Err_0 == e,
        },
{
    proof {
        reveal_strlit("action");
    }
    match current.x.checked_add(1) {
        Some(x) => {
            let events = vec![attr("action", "increment")];
            assert(pairs(events@) =~= increment_events());
            Ok((State { x }, events))
        },
        None => Err(ContractError::Overflow),
    }
}

/// Reads the counter out of `current`.
pub fn apply_query(current: State) -> (response: DataResponse)
    ensures
        response == answer(current),
{
    DataResponse { x: current.x }
}

} // verus!
