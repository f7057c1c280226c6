//! How the contract of an operation is stated: by the outcome that the
//! operation has on every state.

use crate::invest::error::{result_view, ContractError, ContractErrorView};
use crate::invest::response::{Response, ResponseView};
use crate::invest::store::StoreView;
use vstd::prelude::*;

verus! {

/// What a call may do, as a function of the state it finds: the state it
/// leaves with its answer, or the error that refuses it.
pub type Outcome = Result<(StoreView, ResponseView), ContractErrorView>;

/// The call that returned `r` and turned the state `before` into `after` did
/// what `expected` says. A refused call leaves the state as it was.
pub open spec fn follows(
    before: StoreView,
    after: StoreView,
    r: Result<Response, ContractError>,
    expected: Outcome,
) -> bool {
    match expected {
        Ok((t, answer)) => r matches Ok(resp) && resp@ == answer && after == t,
        Err(e) => result_view(r) == Err::<Response, ContractErrorView>(e) && after == before,
    }
}

} // verus!
