//! The contract's error taxonomy. Every error is surfaced verbatim to the
//! caller; the contract performs no retries and no local recovery.

use vstd::prelude::*;

verus! {

/// Why an operation failed.
#[derive(Debug)]
pub enum ContractError {
    /// The counter was read before any initialization ever ran: the storage
    /// key is absent.
    Uninitialized,
    /// Incrementing would exceed the largest representable 32-bit value.
    Overflow,
    /// The storage provider failed; its error is passed through unchanged.
    Std(cosmwasm_std::StdError),
}

} // verus!
