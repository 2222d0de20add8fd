//! The ways an entry point can fail.

use vstd::prelude::*;

verus! {

/// Why an invocation was aborted. Nothing is committed when one of these
/// is returned.
#[derive(Clone, Copy, Debug, PartialEq, Eq, Structural)]
pub enum ContractError {
    /// The counter was read before any value had been stored.
    NotInitialized,
    /// The medium under the store rejected a read or a write.
    StorageFailure,
    /// The counter stands at `u64::MAX` and was asked to go one further.
    Overflow,
}

} // verus!
