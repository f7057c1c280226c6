//! The entry points of the investment contract: initialization, the requests
//! that change the store, and the queries.
//!
//! Every request that fails leaves the store as it found it. The one
//! exception by design is the oracle's batch: a measurement that is refused is
//! reported in the response, and the others are stored.

pub use crate::invest::ingestion::{process_oracle, store_oracle};
pub use crate::invest::investing::invest;
pub use crate::invest::queries::{list_investments, query_config, query_info};
pub use crate::invest::settlement::{settle, withdraw, withdraw_event};
pub use crate::invest::version::migrate;

use crate::invest::error::{result_view, ContractError, ContractErrorView};
use crate::invest::ingestion::oracle_stored;
use crate::invest::investing::invested;
use crate::invest::msg::{
    response_views, ConfigResponse, Cw20CoinVerified, Cw20ReceiveMsg, ExecuteMsg, InfoResponse,
    InstantiateMsg, ListInvestmentsResponse, QueryMsg, ReceiveMsg,
};
use crate::invest::outcome::{follows, Outcome};
use crate::invest::queries::{info_of, listed};
use crate::invest::r3::{is_r3_input, lower};
use crate::invest::response::{Response, ResponseView};
use crate::invest::settlement::withdrawn;
use crate::invest::state::{Config, ConfigView, Location};
use crate::invest::store::{Store, StoreView};
use vstd::prelude::*;

verus! {

/// A state in which `hex` is registered afresh: without measurement and
/// without investments, whatever stood under it before.
pub open spec fn registered(s: StoreView, hex: Seq<char>) -> StoreView {
    s.with_location(hex, Location::empty())
}

/// A state in which each of `cells`, normalized, is registered afresh.
pub open spec fn registered_all(s: StoreView, cells: Seq<String>) -> StoreView
    decreases cells.len(),
{
    if cells.len() == 0 {
        s
    } else {
        registered(registered_all(s, cells.drop_last()), lower(cells.last()@))
    }
}

/// Every one of `cells` is accepted as a cell identifier.
pub open spec fn all_r3_input(cells: Seq<String>) -> bool {
    forall|k: int| 0 <= k < cells.len() ==> is_r3_input((#[trigger] cells[k])@)
}

/// `k` is the place of the first of `cells` that is not accepted as a cell identifier.
pub open spec fn first_rejected(cells: Seq<String>, k: int) -> bool {
    &&& 0 <= k < cells.len()
    &&& !is_r3_input(cells[k]@)
    &&& forall|j: int| 0 <= j < k ==> is_r3_input((#[trigger] cells[j])@)
}

/// The configuration that an initialization message asks for.
pub open spec fn config_of(msg: InstantiateMsg) -> ConfigView {
    ConfigView {
        oracle: msg.oracle@,
        token: msg.token@,
        max_investment_hex: msg.max_investment_hex,
        maturity_days: msg.maturity_days,
        measurement_window: msg.measurement_window,
    }
}

/// Registers the cell `hex` with zeroed aggregates and no measurement.
pub fn register(store: &mut Store, hex: String) -> (r: Result<(), ContractError>)
    requires
        old(store)@.wf(),
    ensures
        is_r3_input(hex@) ==> r is Ok && final(store)@ == registered(old(store)@, lower(hex@)),
        !is_r3_input(hex@) ==> result_view(r) == Err::<(), ContractErrorView>(
            ContractErrorView::InvalidR3(hex@),
        ) && final(store)@ == old(store)@,
        final(store)@.wf(),
{
    store.save_location(hex, Location::new())
}

/// Initializes the contract: stores the configuration and registers the
/// cells that can be invested in. One cell that is not a valid identifier
/// refuses the whole initialization.
pub fn instantiate(store: &mut Store, msg: InstantiateMsg) -> (r: Result<Response, ContractError>)
    requires
        old(store)@.wf(),
    ensures
        all_r3_input(msg.locations@) ==> (r matches Ok(resp) && resp@ == ResponseView::empty()
            && final(store)@ == registered_all(
            old(store)@.with_config(config_of(msg)),
            msg.locations@,
        )),
        !all_r3_input(msg.locations@) ==> final(store)@ == old(store)@ && exists|k: int|
            first_rejected(msg.locations@, k) && result_view(r) == Err::<
                Response,
                ContractErrorView,
            >(ContractErrorView::InvalidR3((#[trigger] msg.locations@[k])@)),
        final(store)@.wf(),
{
    let mut work = store.clone();
    let config = Config {
        oracle: msg.oracle,
        token: msg.token,
        max_investment_hex: msg.max_investment_hex,
        maturity_days: msg.maturity_days,
        measurement_window: msg.measurement_window,
    };
    work.set_config(config);
    let ghost start = work@;
    let n = msg.locations.len();
    let mut k: usize = 0;
    while k < n
        invariant
            n == msg.locations@.len(),
            k <= n,
            *store == *old(store),
            store@.wf(),
            work@.wf(),
            work@ == registered_all(start, msg.locations@.take(k as int)),
            forall|j: int| 0 <= j < k ==> is_r3_input((#[trigger] msg.locations@[j])@),
        decreases n - k,
    {
        proof {
            let next = msg.locations@.take(k as int + 1);
            assert(next.drop_last() =~= msg.locations@.take(k as int));
        }
        match register(&mut work, msg.locations[k].clone()) {
            Ok(()) => {},
            Err(e) => {
                return Err(e);
            },
        }
        k += 1;
    }
    assert(msg.locations@.take(n as int) =~= msg.locations@);
    *store = work;
    Ok(Response::new())
}

/// What a notice of received funds does: the instruction that came with the
/// funds is carried out for their sender, with the notifying contract as the
/// token that was paid.
pub open spec fn received(
    s: StoreView,
    now: u64,
    token: Seq<char>,
    wrapper: Cw20ReceiveMsg,
) -> Outcome {
    match wrapper.msg {
        ReceiveMsg::Invest { hex } => invested(
            s,
            now,
            wrapper.sender@,
            token,
            wrapper.amount,
            hex@,
        ),
    }
}

/// What a request does when `sender` sends it at time `now`.
pub open spec fn executed(s: StoreView, now: u64, sender: Seq<char>, msg: ExecuteMsg) -> Outcome {
    match msg {
        ExecuteMsg::Receive(wrapper) => received(s, now, sender, wrapper),
        ExecuteMsg::Withdraw {  } => withdrawn(s, sender, now),
        ExecuteMsg::StoreOracle { values } => oracle_stored(s, now, sender, values@),
    }
}

/// Takes the notice of the token contract `sender` that funds were received.
pub fn receive(store: &mut Store, now: u64, sender: String, wrapper: Cw20ReceiveMsg) -> (r:
    Result<Response, ContractError>)
    requires
        old(store)@.wf(),
    ensures
        follows(old(store)@, final(store)@, r, received(old(store)@, now, sender@, wrapper)),
        final(store)@.wf(),
{
    let coin = Cw20CoinVerified { address: sender, amount: wrapper.amount };
    match wrapper.msg {
        ReceiveMsg::Invest { hex } => invest(store, now, wrapper.sender, coin, hex),
    }
}

/// Carries out the request `msg` of `sender` at time `now`.
pub fn execute(store: &mut Store, now: u64, sender: String, msg: ExecuteMsg) -> (r:
    Result<Response, ContractError>)
    requires
        old(store)@.wf(),
    ensures
        follows(old(store)@, final(store)@, r, executed(old(store)@, now, sender@, msg)),
        final(store)@.wf(),
{
    match msg {
        ExecuteMsg::Receive(wrapper) => receive(store, now, sender, wrapper),
        ExecuteMsg::Withdraw {  } => withdraw(store, now, sender),
        ExecuteMsg::StoreOracle { values } => store_oracle(store, now, &sender, values),
    }
}

/// The answer to a query.
#[derive(Debug, Clone, PartialEq, Eq)]
pub enum QueryResponse {
    Config(ConfigResponse),
    Info(InfoResponse),
    ListInvestments(ListInvestmentsResponse),
}

/// Answers the query `msg` at time `now`.
pub fn query(store: &Store, now: u64, msg: QueryMsg) -> (r: Result<QueryResponse, ContractError>)
    requires
        store@.wf(),
    ensures
        match msg {
            QueryMsg::Config {  } => match store@.config {
                Some(c) => r matches Ok(QueryResponse::Config(cfg)) && cfg@ == c,
                None => result_view(r) == Err::<QueryResponse, ContractErrorView>(
                    ContractErrorView::not_found("Config"@),
                ),
            },
            QueryMsg::Info { hex } => match info_of(store@, hex@) {
                Ok(info) => r == Ok::<QueryResponse, ContractError>(QueryResponse::Info(info)),
                Err(e) => result_view(r) == Err::<QueryResponse, ContractErrorView>(e),
            },
            QueryMsg::ListInvestments { investor, hex } => match listed(
                store@,
                now,
                investor@,
                match hex {
                    Some(h) => Some(h@),
                    None => None,
                },
            ) {
                Ok(rows) => r matches Ok(QueryResponse::ListInvestments(resp)) && response_views(
                    resp.investments@,
                ) == rows,
                Err(e) => result_view(r) == Err::<QueryResponse, ContractErrorView>(e),
            },
        },
{
    match msg {
        QueryMsg::Config {  } => match query_config(store) {
            Ok(cfg) => Ok(QueryResponse::Config(cfg)),
            Err(e) => Err(e),
        },
        QueryMsg::Info { hex } => match query_info(store, hex) {
            Ok(info) => Ok(QueryResponse::Info(info)),
            Err(e) => Err(e),
        },
        QueryMsg::ListInvestments { investor, hex } => match list_investments(
            store,
            now,
            investor,
            hex,
        ) {
            Ok(resp) => Ok(QueryResponse::ListInvestments(resp)),
            Err(e) => Err(e),
        },
    }
}

} // verus!
