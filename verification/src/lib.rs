//! A minimal persistent counter contract: it stores one signed 32-bit value
//! under a fixed storage key, and offers three operations — initialize the
//! value, increment it by one, and read it back.

pub mod contract;
pub mod error;
pub mod model;
pub mod msg;
pub mod state;

pub use contract::{execute, instantiate, query};
pub use error::ContractError;
pub use msg::{CountResponse, ExecuteMsg, InstantiateMsg, QueryMsg};
