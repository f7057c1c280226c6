//! What a call hands back besides its changes to the store: audit events and
//! instructions to the token contract.

use crate::invest::error::{ContractError, ContractErrorView};
use crate::platform::{transfer_views, Transfer, TransferView};
use vstd::prelude::*;

verus! {

/// An audit event.
#[derive(Debug, Clone, PartialEq, Eq)]
pub enum Event {
    /// An investment was made.
    Invest { index: String, amount: u128, investor: String },
    /// One investment was settled.
    Withdraw { invested: u128, payout: u128, hex: String, investor: String },
    /// The sum that one withdrawal pays.
    WithdrawTotal { amount: u128, investor: String },
    /// How a batch of measurements fared: how many were stored, and why each of the rest was not.
    Oracle { succeeded: u64, failed: Vec<ContractError> },
}

/// An `Event` with its texts as sequences of characters.
pub enum EventView {
    Invest { index: Seq<char>, amount: u128, investor: Seq<char> },
    Withdraw { invested: u128, payout: u128, hex: Seq<char>, investor: Seq<char> },
    WithdrawTotal { amount: u128, investor: Seq<char> },
    Oracle { succeeded: u64, failed: Seq<ContractErrorView> },
}

/// The views of a list of errors.
pub open spec fn error_views(errors: Seq<ContractError>) -> Seq<ContractErrorView> {
    Seq::new(errors.len(), |i: int| errors[i]@)
}

impl View for Event {
    type V = EventView;

    open spec fn view(&self) -> EventView {
        match *self {
            Event::Invest { index, amount, investor } => EventView::Invest {
                index: index@,
                amount,
                investor: investor@,
            },
            Event::Withdraw { invested, payout, hex, investor } => EventView::Withdraw {
                invested,
                payout,
                hex: hex@,
                investor: investor@,
            },
            Event::WithdrawTotal { amount, investor } => EventView::WithdrawTotal {
                amount,
                investor: investor@,
            },
            Event::Oracle { succeeded, failed } => EventView::Oracle {
                succeeded,
                failed: error_views(failed@),
            },
        }
    }
}

/// The outcome of a successful call.
#[derive(Debug, Clone, PartialEq, Eq)]
pub struct Response {
    pub events: Vec<Event>,
    pub messages: Vec<Transfer>,
}

/// A `Response` as sequences of views.
pub struct ResponseView {
    pub events: Seq<EventView>,
    pub messages: Seq<TransferView>,
}

/// The views of a list of events.
pub open spec fn event_views(events: Seq<Event>) -> Seq<EventView> {
    Seq::new(events.len(), |i: int| events[i]@)
}

impl View for Response {
    type V = ResponseView;

    open spec fn view(&self) -> ResponseView {
        ResponseView {
            events: event_views(self.events@),
            messages: transfer_views(self.messages@),
        }
    }
}

impl ResponseView {
    /// A response without events and without instructions.
    pub open spec fn empty() -> ResponseView {
        ResponseView { events: Seq::empty(), messages: Seq::empty() }
    }
}

impl Response {
    /// A response without events and without instructions.
    pub fn new() -> (resp: Response)
        ensures
            resp@ == ResponseView::empty(),
    {
        let resp = Response { events: Vec::new(), messages: Vec::new() };
        assert(resp@.events =~= Seq::empty());
        assert(resp@.messages =~= Seq::empty());
        resp
    }

    /// This response with one more event.
    pub fn add_event(self, event: Event) -> (resp: Response)
        ensures
            resp@.events == self@.events.push(event@),
            resp@.messages == self@.messages,
    {
        let mut resp = self;
        resp.events.push(event);
        resp
    }

    /// This response with one more instruction.
    pub fn add_message(self, message: Transfer) -> (resp: Response)
        ensures
            resp@.events == self@.events,
            resp@.messages == self@.messages.push(message@),
    {
        let mut resp = self;
        resp.messages.push(message);
        resp
    }
}

} // verus!
