//! The faucet: hands a fixed amount of a token to whoever asks, a limited
//! number of times per account.

pub mod contract;
pub mod error;
pub mod msg;
pub mod state;

pub use crate::faucet::error::ContractError;
