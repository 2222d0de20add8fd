//! The messages the entry points take and the one payload they answer with.

use vstd::prelude::*;

verus! {

/// Sent once to set the counter up. It carries nothing.
#[derive(Clone, Copy, Debug, PartialEq, Eq, Structural)]
pub struct InstantiateMsg {}

/// A request to change the counter.
#[derive(Clone, Copy, Debug, PartialEq, Eq, Structural)]
pub enum ExecuteMsg {
    /// Overwrite the counter with `x`.
    SetValue { x: u64 },
    /// Add one to the counter.
    Increment {},
}

/// A request to read the counter.
#[derive(Clone, Copy, Debug, PartialEq, Eq, Structural)]
pub enum QueryMsg {
    /// Ask for the current value.
    Get {},
}

/// The answer to `QueryMsg::Get`.
#[derive(Clone, Copy, Debug, PartialEq, Eq, Structural)]
pub struct DataResponse {
    pub x: u64,
}

} // verus!
