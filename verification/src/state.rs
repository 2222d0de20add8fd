//! The persisted record and the store that keeps it.

use vstd::prelude::*;
use crate::error::ContractError;

verus! {

/// The one record the contract persists.
#[derive(Clone, Copy, Debug, PartialEq, Eq, Structural)]
pub struct State {
    pub x: u64,
}

/// The single-record store as one invocation sees it.
///
/// `record` is what the medium holds under the contract's key: nothing
/// until a first `save`, the counter afterwards. The two flags describe the
/// medium itself. A medium that is not `readable` fails every `load`, one
/// that is not `writable` fails every `save`, whatever `record` holds.
#[derive(Clone, Debug, PartialEq, Eq)]
pub struct Store {
    pub record: Option<State>,
    pub readable: bool,
    pub writable: bool,
}

impl Store {
    /// What `load` returns on this store.
    pub open spec fn loaded(self) -> Result<State, ContractError> {
        if !self.readable {
            Err(ContractError::StorageFailure)
        } else {
            match self.record {
                Some(state) => Ok(state),
                None => Err(ContractError::NotInitialized),
            }
        }
    }

    /// The store once `state` has been written to it.
    pub open spec fn holding(self, state: State) -> Store {
        Store { record: Some(state), ..self }
    }

    /// What `save` does: the store afterwards, or why nothing was written.
    pub open spec fn saved(self, state: State) -> Result<Store, ContractError> {
        if self.writable {
            Ok(self.holding(state))
        } else {
            Err(ContractError::StorageFailure)
        }
    }

    /// A working store that has never been written to.
    pub fn new() -> (store: Store)
        ensures
            store == (Store { record: None, readable: true, writable: true }),
    {
        Store { record: None, readable: true, writable: true }
    }

    /// Reads the record.
    pub fn load(&self) -> (res: Result<State, ContractError>)
        ensures
            res == self.loaded(),
    {
        if !self.readable {
            return Err(ContractError::StorageFailure);
        }
        match self.record {
            Some(state) => Ok(state),
            None => Err(ContractError::NotInitialized),
        }
    }

    /// Writes `state` over whatever the store held. On failure the store is
    /// left as it was.
    pub fn save(&mut self, state: &State) -> (res: Result<(), ContractError>)
        ensures
            match old(self).saved(*state) {
                Ok(after) => res is Ok && *final(self) == after,
                Err(e) => res == Err::<(), ContractError>(e) && *final(self) == *old(self),
            },
    {
        if !self.writable {
            return Err(ContractError::StorageFailure);
        }
        self.record = Some(*state);
        Ok(())
    }
}

} // verus!
