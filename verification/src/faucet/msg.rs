//! Requests to the faucet and its answers.

use vstd::prelude::*;

verus! {

#[derive(Debug, Clone, PartialEq, Eq)]
pub struct InstantiateMsg {
    /// Which token is sent.
    pub token: String,
    /// How much is sent on request.
    pub amount: u128,
    /// How often a given account is paid at most; once, if left out.
    pub max_requests: Option<u32>,
}

#[derive(Debug, Clone, PartialEq, Eq)]
pub enum ExecuteMsg {
    /// Pays some tokens to the caller, or fails if they have used their share.
    RequestFunds {},
}

#[derive(Debug, Clone, PartialEq, Eq)]
pub enum QueryMsg {
    /// How many tokens the faucet has left.
    Balance {},
    /// The configuration of the faucet.
    Config {},
    /// How many times the given address has used the faucet.
    Calls { address: String },
}

#[derive(Debug, Clone, Copy, PartialEq, Eq)]
pub struct CallsResponse {
    pub calls: u32,
}

} // verus!
