//! What holds of the contract across calls.
//!
//! The contracts in `contract` describe one call at a time. The proofs here
//! put them together: they say what a sequence of calls does to the store
//! and which answers it gives.

use vstd::prelude::*;
use crate::contract::{
    execute_outcome, increment_outcome, instantiate_events, instantiate_outcome, query_outcome,
    set_outcome,
};
use crate::decimal::decimal;
use crate::engine::{answer, incremented, set_to};
use crate::error::ContractError;
use crate::msg::{DataResponse, ExecuteMsg, QueryMsg};
use crate::response::Events;
use crate::state::{State, Store};

verus! {

/// One invocation of the contract.
pub enum Call {
    Instantiate,
    Execute(ExecuteMsg),
    Query(QueryMsg),
}

/// The store once `call` has run on `store`. A call that fails commits
/// nothing, and a query never writes.
pub open spec fn after(store: Store, call: Call) -> Store {
    match call {
        Call::Instantiate => match instantiate_outcome(store) {
            Ok((next, _)) => next,
            Err(_) => store,
        },
        Call::Execute(msg) => match execute_outcome(store, msg) {
            Ok((next, _)) => next,
            Err(_) => store,
        },
        Call::Query(_) => store,
    }
}

/// The store once every call of `calls` has run on `store`, first to last.
pub open spec fn after_all(store: Store, calls: Seq<Call>) -> Store
    decreases calls.len(),
{
    if calls.len() == 0 {
        store
    } else {
        after(after_all(store, calls.drop_last()), calls.last())
    }
}

/// A write is seen by the next read: once `save` has succeeded, a `load`
/// from a readable store returns the record that was saved, whatever the
/// store held before.
pub proof fn law_save_then_load(store: Store, state: State)
    requires
        store.writable,
    ensures
        store.saved(state) is Ok,
        store.readable ==> store.saved(state)->Ok_0.loaded() == Ok::<State, ContractError>(state),
{
}

/// Instantiating resets the counter: on any store that takes the write,
/// whatever it held and whether or not it can be read, `instantiate`
/// succeeds, leaves the record at 0 and emits exactly two attributes, the
/// second of which is the new counter in decimal.
pub proof fn law_instantiate_resets(store: Store)
    requires
        store.writable,
    ensures
        instantiate_outcome(store) is Ok,
        instantiate_outcome(store)->Ok_0.0.record == Some(State { x: 0 }),
        instantiate_outcome(store)->Ok_0.1.len() == 2,
        instantiate_outcome(store)->Ok_0.1[1].1 == decimal(0),
        after(after(store, Call::Instantiate), Call::Instantiate) == after(
            store,
            Call::Instantiate,
        ),
{
    reveal_strlit("0");
    assert(instantiate_events()[1].1 =~= decimal(0));
}

/// Setting is absolute: a query on the record that `apply_set` produced
/// answers with the value that was set, and so does `query` after an
/// `execute` of `SetValue` on a working store, whatever the store held
/// before.
pub proof fn law_set_is_absolute(store: Store, x: u64)
    ensures
        answer(set_to(x)) == (DataResponse { x }),
        store.writable ==> set_outcome(store, x) is Ok,
        store.writable && store.readable ==> query_outcome(
            after(store, Call::Execute(ExecuteMsg::SetValue { x })),
            QueryMsg::Get {  },
        ) == Ok::<DataResponse, ContractError>(DataResponse { x }),
{
}

/// Incrementing adds exactly one: below `u64::MAX` the transition succeeds
/// with the next value, and on a working store that holds `current` the
/// entry point stores that value.
pub proof fn law_increment_adds_one(store: Store, current: State)
    requires
        current.x < u64::MAX,
    ensures
        incremented(current) is Ok,
        incremented(current)->Ok_0.x == current.x + 1,
        store.readable && store.writable && store.record == Some(current) ==> after(
            store,
            Call::Execute(ExecuteMsg::Increment {  }),
        ).record == Some(State { x: (current.x + 1) as u64 }),
{
}

/// At `u64::MAX` an increment is refused with `Overflow` and the record
/// stays as it is.
pub proof fn law_increment_stops_at_max(store: Store)
    requires
        store.readable,
        store.record == Some(State { x: u64::MAX }),
    ensures
        incremented(State { x: u64::MAX }) == Err::<State, ContractError>(ContractError::Overflow),
        increment_outcome(store) == Err::<(Store, Events), ContractError>(
            ContractError::Overflow,
        ),
        after(store, Call::Execute(ExecuteMsg::Increment {  })) == store,
{
}

/// Queries are read-only: after any number of queries in a row the store
/// is what it was before the first of them.
pub proof fn law_queries_change_nothing(store: Store, calls: Seq<Call>)
    requires
        forall|i: int| 0 <= i < calls.len() ==> calls[i] is Query,
    ensures
        after_all(store, calls) == store,
    decreases calls.len(),
{
    if calls.len() > 0 {
        law_queries_change_nothing(store, calls.drop_last());
    }
}

/// Once stored, the record stays: no sequence of calls, failed or not,
/// brings a store that holds a record back to holding none.
pub proof fn law_record_is_never_removed(store: Store, calls: Seq<Call>)
    requires
        store.record is Some,
    ensures
        after_all(store, calls).record is Some,
    decreases calls.len(),
{
    if calls.len() > 0 {
        law_record_is_never_removed(store, calls.drop_last());
    }
}

/// Access before any record exists fails: on a readable store that holds
/// no record, `query` and an `execute` of `Increment` both stop with
/// `NotInitialized`, and the store still holds no record afterwards.
pub proof fn law_uninitialized_access_fails(store: Store)
    requires
        store.readable,
        store.record is None,
    ensures
        query_outcome(store, QueryMsg::Get {  }) == Err::<DataResponse, ContractError>(
            ContractError::NotInitialized,
        ),
        execute_outcome(store, ExecuteMsg::Increment {  }) is Err,
        execute_outcome(store, ExecuteMsg::Increment {  })->Err_0 == ContractError::NotInitialized,
        after(store, Call::Query(QueryMsg::Get {  })) == store,
        after(store, Call::Execute(ExecuteMsg::Increment {  })) == store,
{
}

} // verus!
