//! Errors of the faucet.

use crate::platform::{StdError, StdErrorView};
use vstd::prelude::*;

verus! {

#[derive(Debug, Clone, PartialEq, Eq)]
pub enum ContractError {
    Std(StdError),
    Unauthorized {},
    /// The account has asked as often as it may; the number says how often.
    UsedAllCalls(u32),
}

/// A `ContractError` with its texts as sequences of characters.
pub enum ContractErrorView {
    Std(StdErrorView),
    Unauthorized,
    UsedAllCalls(u32),
}

impl View for ContractError {
    type V = ContractErrorView;

    open spec fn view(&self) -> ContractErrorView {
        match *self {
            ContractError::Std(e) => ContractErrorView::Std(e@),
            ContractError::Unauthorized {  } => ContractErrorView::Unauthorized,
            ContractError::UsedAllCalls(count) => ContractErrorView::UsedAllCalls(count),
        }
    }
}

impl ContractErrorView {
    /// The error for a stored value of the given kind that is missing.
    pub open spec fn not_found(kind: Seq<char>) -> ContractErrorView {
        ContractErrorView::Std(StdErrorView::NotFound { kind })
    }
}

/// A result with the error, if it is one, taken by its view.
pub open spec fn result_view<T>(r: Result<T, ContractError>) -> Result<T, ContractErrorView> {
    match r {
        Ok(v) => Ok(v),
        Err(e) => Err(e@),
    }
}

impl ContractError {
    /// The error for a stored value of the given kind that is missing.
    pub fn not_found(kind: &str) -> (e: ContractError)
        ensures
            e@ == ContractErrorView::not_found(kind@),
    {
        ContractError::Std(StdError::NotFound { kind: kind.to_owned() })
    }
}

} // verus!
