//! Errors of the investment contract.

use crate::platform::{OverflowOperation, StdError, StdErrorView};
use vstd::prelude::*;

verus! {

#[derive(Debug, Clone, PartialEq, Eq)]
pub enum ContractError {
    Std(StdError),
    Unauthorized {},
    InvalidR3(String),
    UnregisteredLocation(String),
    InvalidToken(String),
    OracleFromTheFuture(u64),
    NoDataPresent,
    DataTooOld { days: u64 },
    InvalidMigration,
    Unimplemented,
}

/// A `ContractError` with its texts as sequences of characters.
pub enum ContractErrorView {
    Std(StdErrorView),
    Unauthorized,
    InvalidR3(Seq<char>),
    UnregisteredLocation(Seq<char>),
    InvalidToken(Seq<char>),
    OracleFromTheFuture(u64),
    NoDataPresent,
    DataTooOld { days: u64 },
    InvalidMigration,
    Unimplemented,
}

impl View for ContractError {
    type V = ContractErrorView;

    open spec fn view(&self) -> ContractErrorView {
        match *self {
            ContractError::Std(e) => ContractErrorView::Std(e@),
            ContractError::Unauthorized {  } => ContractErrorView::Unauthorized,
            ContractError::InvalidR3(s) => ContractErrorView::InvalidR3(s@),
            ContractError::UnregisteredLocation(s) => ContractErrorView::UnregisteredLocation(s@),
            ContractError::InvalidToken(s) => ContractErrorView::InvalidToken(s@),
            ContractError::OracleFromTheFuture(t) => ContractErrorView::OracleFromTheFuture(t),
            ContractError::NoDataPresent => ContractErrorView::NoDataPresent,
            ContractError::DataTooOld { days } => ContractErrorView::DataTooOld { days },
            ContractError::InvalidMigration => ContractErrorView::InvalidMigration,
            ContractError::Unimplemented => ContractErrorView::Unimplemented,
        }
    }
}

impl ContractErrorView {
    /// The error for a checked operation that left the range of its type.
    pub open spec fn overflow(operation: OverflowOperation) -> ContractErrorView {
        ContractErrorView::Std(StdErrorView::Overflow { operation })
    }

    /// The error for a ratio with denominator zero.
    pub open spec fn divide_by_zero() -> ContractErrorView {
        ContractErrorView::Std(StdErrorView::DivideByZero)
    }

    /// The error for a stored value of the given kind that is missing.
    pub open spec fn not_found(kind: Seq<char>) -> ContractErrorView {
        ContractErrorView::Std(StdErrorView::NotFound { kind })
    }

    /// The error for a failure told in words.
    pub open spec fn generic_err(msg: Seq<char>) -> ContractErrorView {
        ContractErrorView::Std(StdErrorView::GenericErr { msg })
    }
}

/// A result with the error, if it is one, taken by its view.
pub open spec fn result_view<T>(r: Result<T, ContractError>) -> Result<T, ContractErrorView> {
    match r {
        Ok(v) => Ok(v),
        Err(e) => Err(e@),
    }
}

impl ContractError {
    /// The error for a checked operation that left the range of its type.
    pub fn overflow(operation: OverflowOperation) -> (e: ContractError)
        ensures
            e@ == ContractErrorView::overflow(operation),
    {
        ContractError::Std(StdError::Overflow { operation })
    }

    /// The error for a stored value of the given kind that is missing.
    pub fn not_found(kind: &str) -> (e: ContractError)
        ensures
            e@ == ContractErrorView::not_found(kind@),
    {
        ContractError::Std(StdError::NotFound { kind: kind.to_owned() })
    }

    /// The error for a failure told in words.
    pub fn generic_err(msg: &str) -> (e: ContractError)
        ensures
            e@ == ContractErrorView::generic_err(msg@),
    {
        ContractError::Std(StdError::GenericErr { msg: msg.to_owned() })
    }
}

} // verus!
