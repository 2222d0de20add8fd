//! The entry points: `instantiate`, `execute` and `query`.
//!
//! Each loads what it needs from the store, applies one transition and
//! commits the result. An invocation that fails leaves the store exactly as
//! it found it.

use vstd::prelude::*;
use cosmwasm_std::{Env, MessageInfo};
use crate::engine::{
    answer, apply_increment, apply_init, apply_query, apply_set, increment_events, initial,
    set_events, set_to,
};
use crate::error::ContractError;
use crate::host::attr;
use crate::msg::{DataResponse, ExecuteMsg, InstantiateMsg, QueryMsg};
use crate::response::{pairs, Events, Response};
use crate::state::{State, Store};

verus! {

/// What `instantiate` reports.
pub open spec fn instantiate_events() -> Events {
    seq![("action"@, "instantiate"@), ("x"@, "0"@)]
}

/// What `instantiate` does to `before`: the store it leaves and the
/// attributes it emits, or the error it stops with.
///
/// It never reads, so an unreadable medium or an earlier record is no
/// obstacle. It fails only where the write is rejected.
pub open spec fn instantiate_outcome(before: Store) -> Result<(Store, Events), ContractError> {
    if !before.writable {
        Err(ContractError::StorageFailure)
    } else {
        Ok((before.holding(initial()), instantiate_events()))
    }
}

/// What `execute` with `SetValue { x }` does to `before`. Like
/// `instantiate` it only writes.
pub open spec fn set_outcome(before: Store, x: u64) -> Result<(Store, Events), ContractError> {
    if !before.writable {
        Err(ContractError::StorageFailure)
    } else {
        Ok((before.holding(set_to(x)), set_events(x)))
    }
}

/// What `execute` with `Increment {}` does to `before`. The errors are
/// listed in the order in which they are met: the read, the missing record,
/// the counter at its maximum, the write.
pub open spec fn increment_outcome(before: Store) -> Result<(Store, Events), ContractError> {
    if !before.readable {
        Err(ContractError::StorageFailure)
    } else if before.record is None {
        Err(ContractError::NotInitialized)
    } else if before.record->Some_0.x == u64::MAX {
        Err(ContractError::Overflow)
    } else if !before.writable {
        Err(ContractError::StorageFailure)
    } else {
        Ok((
            before.holding(State { x: (before.record->Some_0.x + 1) as u64 }),
            increment_events(),
        ))
    }
}

/// What `execute` does to `before` for any message.
pub open spec fn execute_outcome(before: Store, msg: ExecuteMsg) -> Result<
    (Store, Events),
    ContractError,
> {
    match msg {
        ExecuteMsg::SetValue { x } => set_outcome(before, x),
        ExecuteMsg::Increment {  } => increment_outcome(before),
    }
}

/// What `query` answers on `store`: the counter where a record can be
/// read, `StorageFailure` where the medium rejects the read, and
/// `NotInitialized` where nothing was ever stored.
pub open spec fn query_outcome(store: Store, msg: QueryMsg) -> Result<DataResponse, ContractError> {
    if !store.readable {
        Err(ContractError::StorageFailure)
    } else if store.record is None {
        Err(ContractError::NotInitialized)
    } else {
        Ok(answer(store.record->Some_0))
    }
}

/// Whether an invocation that found the store as `before`, left it as
/// `after` and returned `res` did what `outcome` asks: on success the new
/// store and exactly the expected attributes, on failure the expected error
/// and an untouched store.
pub open spec fn settled(
    before: Store,
    after: Store,
    res: Result<Response, ContractError>,
    outcome: Result<(Store, Events), ContractError>,
) -> bool {
    match outcome {
        Ok((store, events)) => res is Ok && res->Ok_0@ == events && after == store,
        Err(e) => res is Err && res->Err_0 == e && after == before,
    }
}

/// Sets the contract up: the counter becomes 0, whatever the store held.
pub fn instantiate(
    store: &mut Store,
    _env: Env,
    _info: MessageInfo,
    _msg: InstantiateMsg,
) -> (res: Result<Response, ContractError>)
    ensures
        settled(*old(store), *final(store), res, instantiate_outcome(*old(store))),
{
    let state = apply_init();
    match store.save(&state) {
        Ok(()) => {},
        Err(e) => {
            return Err(e);
        },
    }
    proof {
        reveal_strlit("action");
        reveal_strlit("x");
    }
    let attributes = vec![attr("action", "instantiate"), attr("x", "0")];
    assert(pairs(attributes@) =~= instantiate_events());
    Ok(Response { attributes })
}

/// Applies one change to the counter.
pub fn execute(store: &mut Store, _env: Env, _info: MessageInfo, msg: ExecuteMsg) -> (res: Result<
    Response,
    ContractError,
>)
    ensures
        settled(*old(store), *final(store), res, execute_outcome(*old(store), msg)),
{
    match msg {
        ExecuteMsg::SetValue { x } => execute_set(store, x),
        ExecuteMsg::Increment {  } => execute_increment(store),
    }
}

/// Overwrites the counter with `x`. The store is not read first.
fn execute_set(store: &mut Store, x: u64) -> (res: Result<Response, ContractError>)
    ensures
        settled(*old(store), *final(store), res, set_outcome(*old(store), x)),
{
    let (state, attributes) = apply_set(x);
    match store.save(&state) {
        Ok(()) => Ok(Response { attributes }),
        Err(e) => Err(e),
    }
}

/// Loads the counter, adds one and stores it again.
fn execute_increment(store: &mut Store) -> (res: Result<Response, ContractError>)
    ensures
        settled(*old(store), *final(store), res, increment_outcome(*old(store))),
{
    let current = match store.load() {
        Ok(state) => state,
        Err(e) => {
            return Err(e);
        },
    };
    let (state, attributes) = match apply_increment(current) {
        Ok(next) => next,
        Err(e) => {
            return Err(e);
        },
    };
    match store.save(&state) {
        Ok(()) => Ok(Response { attributes }),
        Err(e) => Err(e),
    }
}

/// Answers a question about the counter. The store is only read.
pub fn query(store: &Store, _env: Env, msg: QueryMsg) -> (res: Result<DataResponse, ContractError>)
    ensures
        res == query_outcome(*store, msg),
{
    match msg {
        QueryMsg::Get {  } => query_x(store),
    }
}

/// Loads the counter and wraps it for the caller.
fn query_x(store: &Store) -> (res: Result<DataResponse, ContractError>)
    ensures
        res == query_outcome(*store, QueryMsg::Get {  }),
{
    match store.load() {
        Ok(state) => Ok(apply_query(state)),
        Err(e) => Err(e),
    }
}

} // verus!
