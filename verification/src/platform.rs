//! Values of the platform that the contracts run on, as the contracts see
//! them: the errors of storage and checked arithmetic, and the instruction
//! that asks a token contract for a transfer.

use vstd::prelude::*;

verus! {

/// The arithmetic operation that left the range of its type.
#[derive(Debug, Clone, Copy, PartialEq, Eq)]
pub enum OverflowOperation {
    Add,
    Sub,
    Mul,
}

/// Failures of storage and of checked arithmetic.
#[derive(Debug, Clone, PartialEq, Eq)]
pub enum StdError {
    /// Nothing is stored under the key that was read; `kind` names what was looked for.
    NotFound { kind: String },
    /// A checked operation left the range of its type.
    Overflow { operation: OverflowOperation },
    /// A ratio with denominator zero was asked for.
    DivideByZero,
    /// Any other failure, in words.
    GenericErr { msg: String },
}

/// A `StdError` with its text as a sequence of characters.
pub enum StdErrorView {
    NotFound { kind: Seq<char> },
    Overflow { operation: OverflowOperation },
    DivideByZero,
    GenericErr { msg: Seq<char> },
}

impl View for StdError {
    type V = StdErrorView;

    open spec fn view(&self) -> StdErrorView {
        match *self {
            StdError::NotFound { kind } => StdErrorView::NotFound { kind: kind@ },
            StdError::Overflow { operation } => StdErrorView::Overflow { operation },
            StdError::DivideByZero => StdErrorView::DivideByZero,
            StdError::GenericErr { msg } => StdErrorView::GenericErr { msg: msg@ },
        }
    }
}

/// The instruction to the token contract at `contract_addr` to transfer
/// `amount` to `recipient`.
#[derive(Debug, Clone, PartialEq, Eq)]
pub struct Transfer {
    pub contract_addr: String,
    pub recipient: String,
    pub amount: u128,
}

/// A `Transfer` with its addresses as sequences of characters.
pub struct TransferView {
    pub contract_addr: Seq<char>,
    pub recipient: Seq<char>,
    pub amount: u128,
}

impl View for Transfer {
    type V = TransferView;

    open spec fn view(&self) -> TransferView {
        TransferView {
            contract_addr: self.contract_addr@,
            recipient: self.recipient@,
            amount: self.amount,
        }
    }
}

/// The views of a list of transfers.
pub open spec fn transfer_views(messages: Seq<Transfer>) -> Seq<TransferView> {
    Seq::new(messages.len(), |i: int| messages[i]@)
}

} // verus!
