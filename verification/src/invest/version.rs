//! Which contract and which version of it wrote the stored state, and whether
//! this version may take the state over.

use crate::invest::error::{result_view, ContractError, ContractErrorView};
use crate::invest::msg::MigrateMsg;
use crate::invest::response::{Response, ResponseView};
use crate::text::{comes_before, text_less};
use vstd::prelude::*;

verus! {

/// The name that this contract stores as its own.
pub const CONTRACT_NAME: &'static str = "crates.io:wynd-invest";

/// The version that this contract stores as its own.
pub const CONTRACT_VERSION: &'static str = "0.1.0";

/// The name and the version of the contract that wrote the stored state.
#[derive(Debug, Clone, PartialEq, Eq)]
pub struct ContractVersion {
    pub contract: String,
    pub version: String,
}

/// Whether this contract may take over a state that `stored` wrote: the state
/// is of this contract, and not of a later version of it. Versions are
/// compared as texts.
pub open spec fn may_migrate(stored: ContractVersion) -> bool {
    &&& stored.contract@ == CONTRACT_NAME@
    &&& !comes_before(CONTRACT_VERSION@, stored.version@)
}

/// Takes over the state that `stored` wrote, or refuses to.
pub fn migrate(stored: &ContractVersion, _msg: MigrateMsg) -> (r: Result<Response, ContractError>)
    ensures
        may_migrate(*stored) ==> (r matches Ok(resp) && resp@ == ResponseView::empty()),
        !may_migrate(*stored) ==> result_view(r) == Err::<Response, ContractErrorView>(
            ContractErrorView::InvalidMigration,
        ),
{
    let name = String::from_str(CONTRACT_NAME);
    if stored.contract != name {
        return Err(ContractError::InvalidMigration);
    }
    if text_less(CONTRACT_VERSION, stored.version.as_str()) {
        return Err(ContractError::InvalidMigration);
    }
    Ok(Response::new())
}

} // verus!
