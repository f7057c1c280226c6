//! The investment contract: locations, the ledger of open investments, oracle
//! ingestion, the reward rule and withdrawal settlement.

pub mod contract;
pub mod decimal;
pub mod error;
pub mod ingestion;
pub mod investing;
pub mod laws;
pub mod msg;
pub mod outcome;
pub mod queries;
pub mod r3;
pub mod response;
pub mod settlement;
pub mod state;
pub mod store;
pub mod version;

pub use crate::invest::error::ContractError;
