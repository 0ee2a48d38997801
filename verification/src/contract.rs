//! The contract's three operations: initialize, increment, read.
//!
//! Each is a function from the persisted slot and the incoming message to the
//! new slot and the outcome; the contracts state the transition through the
//! spec functions of `model`, over the slot abstraction of `state`.

use vstd::prelude::*;

use crate::error::ContractError;
use crate::model::{increment_outcome, init_state, query_outcome};
use crate::msg::{CountResponse, ExecuteMsg, InstantiateMsg, QueryMsg};
use crate::state::{count_key_wf, empty_response, load_count, save_count, stored_count};

verus! {

/// Writes `msg.count` to the counter's slot, unconditionally overwriting any
/// prior value, and acknowledges with an empty response. Nothing restricts how
/// often it is called; re-initialization simply overwrites.
pub fn instantiate(
    store: &mut cosmwasm_std::MemoryStorage,
    _env: cosmwasm_std::Env,
    _info: cosmwasm_std::MessageInfo,
    msg: InstantiateMsg,
) -> (r: Result<cosmwasm_std::Response, ContractError>)
    ensures
        r is Ok,
        count_key_wf(*final(store)),
        stored_count(*final(store)) == init_state(stored_count(*old(store)), msg.count),
{
    match save_count(store, msg.count) {
        Ok(()) => Ok(empty_response()),
        Err(e) => Err(ContractError::Std(e)),
    }
}

/// Loads the current count, adds one, and stores the result. An absent slot is
/// rejected as `Uninitialized`; a slot at the largest representable value is
/// rejected as `Overflow` rather than wrapping. A failed call leaves the slot
/// untouched.
pub fn execute(
    store: &mut cosmwasm_std::MemoryStorage,
    _env: cosmwasm_std::Env,
    _info: cosmwasm_std::MessageInfo,
    msg: ExecuteMsg,
) -> (r: Result<cosmwasm_std::Response, ContractError>)
    ensures
        count_key_wf(*old(store)) ==> match increment_outcome(stored_count(*old(store))) {
            Ok(next) => r is Ok && count_key_wf(*final(store)) && stored_count(*final(store))
                == next,
            Err(e) => r == Err::<cosmwasm_std::Response, ContractError>(e),
        },
        r is Err ==> *final(store) == *old(store),
{
    match msg {
        ExecuteMsg::Increment {} => {
            let current: i32 = match load_count(store) {
                Ok(Some(v)) => v,
                Ok(None) => {
                    return Err(ContractError::Uninitialized);
                },
                Err(e) => {
                    return Err(ContractError::Std(e));
                },
            };
            if current == i32::MAX {
                return Err(ContractError::Overflow);
            }
            match save_count(store, current + 1) {
                Ok(()) => Ok(empty_response()),
                Err(e) => Err(ContractError::Std(e)),
            }
        },
    }
}

/// Pure read: returns the current count, or `Uninitialized` when no
/// initialization ever ran. The store is never modified.
pub fn query(
    store: &cosmwasm_std::MemoryStorage,
    _env: cosmwasm_std::Env,
    msg: QueryMsg,
) -> (r: Result<CountResponse, ContractError>)
    ensures
        count_key_wf(*store) ==> r == query_outcome(stored_count(*store)),
{
    match msg {
        QueryMsg::GetCount {} => match load_count(store) {
            Ok(Some(v)) => Ok(CountResponse { count: v }),
            Ok(None) => Err(ContractError::Uninitialized),
            Err(e) => Err(ContractError::Std(e)),
        },
    }
}

} // verus!
