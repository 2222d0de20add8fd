//! What a successful `instantiate` or `execute` hands back.

use vstd::prelude::*;
use cosmwasm_std::Attribute;
use crate::host::attribute_pair;

verus! {

/// Event attributes as contracts speak of them: key-value pairs of text,
/// in the order they were emitted.
pub type Events = Seq<(Seq<char>, Seq<char>)>;

/// The key-value pairs that a run of attributes stands for.
pub open spec fn pairs(attributes: Seq<Attribute>) -> Events {
    attributes.map_values(|attribute: Attribute| attribute_pair(attribute))
}

/// The outcome of a successful invocation: the attributes of the event it
/// emits, and nothing else. It carries no messages and no data.
#[derive(Clone, Debug, PartialEq)]
pub struct Response {
    pub attributes: Vec<Attribute>,
}

impl View for Response {
    type V = Events;

    open spec fn view(&self) -> Events {
        pairs(self.attributes@)
    }
}

} // verus!
