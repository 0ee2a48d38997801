//! The messages a caller can send to the contract, and the query response.

use vstd::prelude::*;

verus! {

/// Payload of the one-time initialization call: the starting counter value.
#[derive(Clone, Debug, PartialEq)]
pub struct InstantiateMsg {
    pub count: i32,
}

/// Commands that mutate the counter.
#[derive(Clone, Debug, PartialEq)]
pub enum ExecuteMsg {
    Increment {},
}

/// Read-only queries against the counter.
#[derive(Clone, Debug, PartialEq)]
pub enum QueryMsg {
    GetCount {},
}

/// Answer to `QueryMsg::GetCount`: the current counter value.
#[derive(Clone, Debug, PartialEq)]
pub struct CountResponse {
    pub count: i32,
}

} // verus!
