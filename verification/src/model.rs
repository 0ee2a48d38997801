//! The counter as a state machine over its one slot.
//!
//! A slot value of `None` is the uninitialized state; `Some(v)` means the
//! counter holds `v`. Each operation is a function from the slot to the new
//! slot and the outcome, and the executable functions in `contract` promise in
//! their contracts to follow these transitions. The lemmas at the end state
//! the laws the machine obeys.

use vstd::prelude::*;

use crate::error::ContractError;
use crate::msg::CountResponse;

verus! {

/// The slot after initializing to `n`: the prior slot is overwritten entirely.
pub open spec fn init_state(slot: Option<i32>, n: i32) -> Option<i32> {
    Some(n)
}

/// What one increment does to a slot: on `Some(v)` below the maximum it yields
/// the incremented slot; an uninitialized or saturated slot is an error and
/// leaves the slot as it was.
pub open spec fn increment_outcome(slot: Option<i32>) -> Result<Option<i32>, ContractError> {
    match slot {
        None => Err(ContractError::Uninitialized),
        Some(v) => if v < i32::MAX {
            Ok(Some((v + 1) as i32))
        } else {
            Err(ContractError::Overflow)
        },
    }
}

/// What reading the counter returns for a given slot.
pub open spec fn query_outcome(slot: Option<i32>) -> Result<CountResponse, ContractError> {
    match slot {
        None => Err(ContractError::Uninitialized),
        Some(v) => Ok((CountResponse { count: v })),
    }
}

/// The slot after `k` increments; an increment that fails leaves the slot
/// unchanged, as `increment_outcome` says.
pub open spec fn increment_n(slot: Option<i32>, k: nat) -> Option<i32>
    decreases k,
{
    if k == 0 {
        slot
    } else {
        let prev = increment_n(slot, (k - 1) as nat);
        match increment_outcome(prev) {
            Ok(next) => next,
            Err(_) => prev,
        }
    }
}

/// Initializing to `n` and then reading gives `n`, whatever was stored before.
pub proof fn lemma_init_then_get(slot: Option<i32>, n: i32)
    ensures
        query_outcome(init_state(slot, n)) == Ok::<CountResponse, ContractError>(
            (CountResponse { count: n }),
        ),
{
}

/// Initializing to `n` below the maximum and then incrementing succeeds, and
/// reading afterwards gives `n + 1`.
pub proof fn lemma_increment_adds_one(slot: Option<i32>, n: i32)
    requires
        n < i32::MAX,
    ensures
        increment_outcome(init_state(slot, n)) == Ok::<Option<i32>, ContractError>(
            Some((n + 1) as i32),
        ),
        query_outcome(Some((n + 1) as i32)) == Ok::<CountResponse, ContractError>(
            (CountResponse { count: (n + 1) as i32 }),
        ),
{
}

/// Initializing to `n` and then incrementing `k` times leaves the counter at
/// `n + k`, and reading gives `n + k`, as long as that does not overflow.
pub proof fn lemma_repeated_increment(slot: Option<i32>, n: i32, k: nat)
    requires
        n + k <= i32::MAX,
    ensures
        increment_n(init_state(slot, n), k) == Some(((n + k) as i32)),
        query_outcome(increment_n(init_state(slot, n), k)) == Ok::<CountResponse, ContractError>(
            (CountResponse { count: (n + k) as i32 }),
        ),
    decreases k,
{
    if k > 0 {
        lemma_repeated_increment(slot, n, (k - 1) as nat);
    }
}

/// Reading or incrementing an uninitialized counter fails with
/// `Uninitialized`; neither returns a default value.
pub proof fn lemma_uninitialized_rejected()
    ensures
        increment_outcome(None) == Err::<Option<i32>, ContractError>(ContractError::Uninitialized),
        query_outcome(None) == Err::<CountResponse, ContractError>(ContractError::Uninitialized),
{
}

/// A second initialization overwrites the first: the slot, and what a read
/// returns, depend only on the latest initial value.
pub proof fn lemma_reinit_overwrites(slot: Option<i32>, a: i32, b: i32)
    ensures
        init_state(init_state(slot, a), b) == init_state(slot, b),
        query_outcome(init_state(init_state(slot, a), b)) == Ok::<CountResponse, ContractError>(
            (CountResponse { count: b }),
        ),
{
}

} // verus!
