//! The storage boundary: the counter's single persisted slot.
//!
//! The contract persists one `i32` under the fixed key `"count"` of a
//! `cosmwasm_std` key-value store, through `cw_storage_plus::Item`. The slot's
//! contents are abstracted by `stored_count`; everything the rest of the crate
//! knows about the store it learns from the contracts of the accessors below.

use vstd::prelude::*;

verus! {

#[verifier::external_type_specification]
#[verifier::external_body]
pub struct ExMemoryStorage(cosmwasm_std::MemoryStorage);

#[verifier::external_type_specification]
#[verifier::external_body]
pub struct ExStdError(cosmwasm_std::StdError);

#[verifier::external_type_specification]
#[verifier::external_body]
pub struct ExEmpty(cosmwasm_std::Empty);

#[verifier::external_type_specification]
#[verifier::external_body]
#[verifier::reject_recursive_types(T)]
pub struct ExResponse<T>(cosmwasm_std::Response<T>);

#[verifier::external_type_specification]
#[verifier::external_body]
pub struct ExEnv(cosmwasm_std::Env);

#[verifier::external_type_specification]
#[verifier::external_body]
pub struct ExMessageInfo(cosmwasm_std::MessageInfo);

/// The value recorded in the counter's slot: `Some(v)` when the count key
/// holds the encoding of `v`, `None` when the key is absent.
pub uninterp spec fn stored_count(store: cosmwasm_std::MemoryStorage) -> Option<i32>;

/// The count key is either absent or holds bytes that `save_count` wrote for
/// some `i32`. Every store this crate's functions produce satisfies it; a
/// store whose count key was scribbled on by other means may not.
pub uninterp spec fn count_key_wf(store: cosmwasm_std::MemoryStorage) -> bool;

/// Relies on `cw_storage_plus::Item::save` over `MemoryStorage::set`: it
/// serializes the `i32` (never to an empty byte string) and stores it under
/// the count key, overwriting any prior value; neither step can fail.
#[verifier::external_body]
pub(crate) fn save_count(store: &mut cosmwasm_std::MemoryStorage, value: i32) -> (r: Result<(), cosmwasm_std::StdError>)
    ensures
        r is Ok,
        count_key_wf(*final(store)),
        stored_count(*final(store)) == Some(value),
{
    cw_storage_plus::Item::<i32>::new("count").save(store, &value)
}

/// Relies on `cw_storage_plus::Item::may_load` over `MemoryStorage::get`: it
/// returns `Ok(None)` when the count key is absent, and the decoded value when
/// the key holds bytes that `save_count` wrote.
#[verifier::external_body]
pub(crate) fn load_count(store: &cosmwasm_std::MemoryStorage) -> (r: Result<Option<i32>, cosmwasm_std::StdError>)
    ensures
        count_key_wf(*store) ==> r is Ok && r->Ok_0 == stored_count(*store),
{
    cw_storage_plus::Item::<i32>::new("count").may_load(store)
}

/// Relies on `cosmwasm_std::Response::new`: an empty acknowledgment, carrying
/// no messages, attributes or events.
#[verifier::external_body]
pub(crate) fn empty_response() -> cosmwasm_std::Response {
    cosmwasm_std::Response::new()
}

} // verus!
