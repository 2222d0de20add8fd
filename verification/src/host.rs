//! What the contract takes from `cosmwasm_std`, and what it assumes of it.
//!
//! Nothing in this file is proved. The types are carried through as opaque
//! values; the one function is believed to do what its contract says.

use vstd::prelude::*;
use cosmwasm_std::{Attribute, Env, MessageInfo};

verus! {

/// `cosmwasm_std::Env`, the block and contract an invocation runs in. The
/// entry points accept it and never look inside.
#[verifier::external_type_specification]
#[verifier::external_body]
pub struct ExEnv(Env);

/// `cosmwasm_std::MessageInfo`, the sender and funds of an invocation. The
/// entry points accept it and never look inside.
#[verifier::external_type_specification]
#[verifier::external_body]
pub struct ExMessageInfo(MessageInfo);

/// `cosmwasm_std::Attribute`, one key-value pair of an event.
#[verifier::external_type_specification]
#[verifier::external_body]
pub struct ExAttribute(Attribute);

/// The `key` and `value` fields of an attribute, in that order, as text.
pub uninterp spec fn attribute_pair(attribute: Attribute) -> (Seq<char>, Seq<char>);

/// Whether `attr` accepts `key`. A debug build of `cosmwasm_std` panics on
/// a key that starts with an underscore.
pub open spec fn key_allowed(key: Seq<char>) -> bool {
    key.len() == 0 || key[0] != '_'
}

/// `cosmwasm_std::attr`. Assumed: the attribute it returns has `key` as its
/// key and `value` as its value, both unchanged.
#[verifier::external_body]
pub(crate) fn attr(key: &str, value: &str) -> (attribute: Attribute)
    requires
        key_allowed(key@),
    ensures
        attribute_pair(attribute) == (key@, value@),
{
    cosmwasm_std::attr(key, value)
}

} // verus!
