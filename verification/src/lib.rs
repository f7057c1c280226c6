//! Verified core of the Wynd contracts: a geo-indexed investment ledger whose
//! payouts follow an oracle-fed index, a rate-limited token faucet, and the
//! message types of the oracle job contract.

pub mod faucet;
pub mod invest;
pub mod oracle;
pub mod platform;
pub mod text;
