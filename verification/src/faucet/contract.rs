//! The operations of the faucet on its store.

use crate::faucet::error::{result_view, ContractError, ContractErrorView};
use crate::faucet::msg::{CallsResponse, ExecuteMsg, InstantiateMsg, QueryMsg};
use crate::faucet::state::{Config, ConfigView, Store, StoreView};
use crate::platform::{transfer_views, Transfer, TransferView};
use vstd::prelude::*;

verus! {

/// What a response tells besides its instructions.
#[derive(Debug, Clone, PartialEq, Eq)]
pub enum Attribute {
    /// The account that was paid.
    Fund(String),
    /// The amount it was paid.
    Amount(u128),
}

/// An `Attribute` with its text as a sequence of characters.
pub enum AttributeView {
    Fund(Seq<char>),
    Amount(u128),
}

impl View for Attribute {
    type V = AttributeView;

    open spec fn view(&self) -> AttributeView {
        match *self {
            Attribute::Fund(address) => AttributeView::Fund(address@),
            Attribute::Amount(amount) => AttributeView::Amount(amount),
        }
    }
}

/// The outcome of a successful call.
#[derive(Debug, Clone, PartialEq, Eq)]
pub struct Response {
    pub messages: Vec<Transfer>,
    pub attributes: Vec<Attribute>,
}

/// A `Response` as sequences of views.
pub struct ResponseView {
    pub messages: Seq<TransferView>,
    pub attributes: Seq<AttributeView>,
}

/// The views of a list of attributes.
pub open spec fn attribute_views(attributes: Seq<Attribute>) -> Seq<AttributeView> {
    Seq::new(attributes.len(), |i: int| attributes[i]@)
}

impl View for Response {
    type V = ResponseView;

    open spec fn view(&self) -> ResponseView {
        ResponseView {
            messages: transfer_views(self.messages@),
            attributes: attribute_views(self.attributes@),
        }
    }
}

impl ResponseView {
    /// A response without instructions and without attributes.
    pub open spec fn empty() -> ResponseView {
        ResponseView { messages: Seq::empty(), attributes: Seq::empty() }
    }
}

impl Response {
    /// A response without instructions and without attributes.
    pub fn new() -> (resp: Response)
        ensures
            resp@ == ResponseView::empty(),
    {
        let resp = Response { messages: Vec::new(), attributes: Vec::new() };
        assert(resp@.messages =~= Seq::empty());
        assert(resp@.attributes =~= Seq::empty());
        resp
    }
}

/// What a call may do, as a function of the state it finds: the state it
/// leaves with its answer, or the error that refuses it.
pub type Outcome = Result<(StoreView, ResponseView), ContractErrorView>;

/// The call that returned `r` and turned the state `before` into `after` did
/// what `expected` says. A refused call leaves the state as it was.
pub open spec fn follows(
    before: StoreView,
    after: StoreView,
    r: Result<Response, ContractError>,
    expected: Outcome,
) -> bool {
    match expected {
        Ok((t, answer)) => r matches Ok(resp) && resp@ == answer && after == t,
        Err(e) => result_view(r) == Err::<Response, ContractErrorView>(e) && after == before,
    }
}

/// The configuration that an initialization message asks for: an account is
/// paid once, unless the message says how often.
pub open spec fn config_of(msg: InstantiateMsg) -> ConfigView {
    ConfigView {
        token: msg.token@,
        amount: msg.amount,
        max_requests: match msg.max_requests {
            Some(n) => n,
            None => 1,
        },
    }
}

/// How often `address` was paid so far.
pub open spec fn calls_so_far(s: StoreView, address: Seq<char>) -> u32 {
    match s.calls_of(address) {
        Some(count) => count,
        None => 0,
    }
}

/// What a request for funds by `sender` does: an account that was paid as
/// often as the configuration allows is refused; any other is counted once
/// more and paid the configured amount of the configured token.
pub open spec fn requested(s: StoreView, sender: Seq<char>) -> Outcome {
    match s.config {
        None => Err(ContractErrorView::not_found("Config"@)),
        Some(cfg) => {
            let count = calls_so_far(s, sender);
            if count >= cfg.max_requests {
                Err(ContractErrorView::UsedAllCalls(count))
            } else {
                Ok(
                    (
                        s.with_calls(sender, (count + 1) as u32),
                        ResponseView {
                            messages: seq![
                                TransferView {
                                    contract_addr: cfg.token,
                                    recipient: sender,
                                    amount: cfg.amount,
                                },
                            ],
                            attributes: seq![
                                AttributeView::Fund(sender),
                                AttributeView::Amount(cfg.amount),
                            ],
                        },
                    ),
                )
            }
        },
    }
}

/// Initializes the faucet with the configuration that `msg` asks for.
pub fn instantiate(store: &mut Store, msg: InstantiateMsg) -> (r: Result<Response, ContractError>)
    requires
        old(store)@.wf(),
    ensures
        r matches Ok(resp) && resp@ == ResponseView::empty(),
        final(store)@ == old(store)@.with_config(config_of(msg)),
        final(store)@.wf(),
{
    let config = Config {
        token: msg.token,
        amount: msg.amount,
        max_requests: match msg.max_requests {
            Some(n) => n,
            None => 1,
        },
    };
    store.set_config(config);
    Ok(Response::new())
}

/// Pays the configured amount to `sender`, unless they have used their share.
pub fn request_funds(store: &mut Store, sender: String) -> (r: Result<Response, ContractError>)
    requires
        old(store)@.wf(),
    ensures
        follows(old(store)@, final(store)@, r, requested(old(store)@, sender@)),
        final(store)@.wf(),
{
    let (token, amount, max_requests) = match store.config() {
        None => {
            return Err(ContractError::not_found("Config"));
        },
        Some(cfg) => (cfg.token.clone(), cfg.amount, cfg.max_requests),
    };
    let count = match store.load_calls(&sender) {
        Some(count) => count,
        None => 0,
    };
    if count >= max_requests {
        return Err(ContractError::UsedAllCalls(count));
    }
    store.save_calls(sender.clone(), count + 1);
    let transfer = Transfer { contract_addr: token, recipient: sender.clone(), amount };
    let fund = Attribute::Fund(sender);
    let paid = Attribute::Amount(amount);
    let mut messages: Vec<Transfer> = Vec::new();
    messages.push(transfer);
    let mut attributes: Vec<Attribute> = Vec::new();
    attributes.push(fund);
    attributes.push(paid);
    let resp = Response { messages, attributes };
    assert(resp@.messages =~= seq![transfer@]);
    assert(resp@.attributes =~= seq![fund@, paid@]);
    Ok(resp)
}

/// Carries out the request `msg` of `sender`.
pub fn execute(store: &mut Store, sender: String, msg: ExecuteMsg) -> (r: Result<
    Response,
    ContractError,
>)
    requires
        old(store)@.wf(),
    ensures
        follows(old(store)@, final(store)@, r, requested(old(store)@, sender@)),
        final(store)@.wf(),
{
    match msg {
        ExecuteMsg::RequestFunds {  } => request_funds(store, sender),
    }
}

/// The question to a token contract what balance an address holds.
#[derive(Debug, Clone, PartialEq, Eq)]
pub struct BalanceQuery {
    /// The token contract that is asked.
    pub contract_addr: String,
    /// The address whose balance is asked for.
    pub address: String,
}

/// The answer to a query. The balance of the faucet is known to the token
/// contract alone: for it the answer is the question to hand on.
#[derive(Debug, Clone, PartialEq, Eq)]
pub enum QueryResponse {
    Balance(BalanceQuery),
    Config(Config),
    Calls(CallsResponse),
}

/// The question that tells how many tokens the faucet, which lives at
/// `contract`, has left.
pub fn query_balance(store: &Store, contract: String) -> (r: Result<BalanceQuery, ContractError>)
    ensures
        match store@.config {
            Some(cfg) => r matches Ok(q) && q.contract_addr@ == cfg.token && q.address@
                == contract@,
            None => result_view(r) == Err::<BalanceQuery, ContractErrorView>(
                ContractErrorView::not_found("Config"@),
            ),
        },
{
    match store.config() {
        Some(cfg) => Ok(BalanceQuery { contract_addr: cfg.token.clone(), address: contract }),
        None => Err(ContractError::not_found("Config")),
    }
}

/// The stored configuration.
pub fn query_config(store: &Store) -> (r: Result<Config, ContractError>)
    ensures
        match store@.config {
            Some(c) => r matches Ok(cfg) && cfg@ == c,
            None => result_view(r) == Err::<Config, ContractErrorView>(
                ContractErrorView::not_found("Config"@),
            ),
        },
{
    match store.config() {
        Some(cfg) => Ok(cfg.clone()),
        None => Err(ContractError::not_found("Config")),
    }
}

/// How many times `account` was paid. An account that never asked has no count.
pub fn query_calls(store: &Store, account: String) -> (r: Result<CallsResponse, ContractError>)
    requires
        store@.wf(),
    ensures
        match store@.calls_of(account@) {
            Some(calls) => r == Ok::<CallsResponse, ContractError>(CallsResponse { calls }),
            None => result_view(r) == Err::<CallsResponse, ContractErrorView>(
                ContractErrorView::not_found("u32"@),
            ),
        },
{
    match store.load_calls(&account) {
        Some(calls) => Ok(CallsResponse { calls }),
        None => Err(ContractError::not_found("u32")),
    }
}

/// Answers the query `msg`; `contract` is the address of the faucet itself.
pub fn query(store: &Store, contract: String, msg: QueryMsg) -> (r: Result<
    QueryResponse,
    ContractError,
>)
    requires
        store@.wf(),
    ensures
        match msg {
            QueryMsg::Balance {  } => match store@.config {
                Some(cfg) => r matches Ok(QueryResponse::Balance(q)) && q.contract_addr@
                    == cfg.token && q.address@ == contract@,
                None => result_view(r) == Err::<QueryResponse, ContractErrorView>(
                    ContractErrorView::not_found("Config"@),
                ),
            },
            QueryMsg::Config {  } => match store@.config {
                Some(c) => r matches Ok(QueryResponse::Config(cfg)) && cfg@ == c,
                None => result_view(r) == Err::<QueryResponse, ContractErrorView>(
                    ContractErrorView::not_found("Config"@),
                ),
            },
            QueryMsg::Calls { address } => match store@.calls_of(address@) {
                Some(calls) => r == Ok::<QueryResponse, ContractError>(
                    QueryResponse::Calls(CallsResponse { calls }),
                ),
                None => result_view(r) == Err::<QueryResponse, ContractErrorView>(
                    ContractErrorView::not_found("u32"@),
                ),
            },
        },
{
    match msg {
        QueryMsg::Balance {  } => match query_balance(store, contract) {
            Ok(q) => Ok(QueryResponse::Balance(q)),
            Err(e) => Err(e),
        },
        QueryMsg::Config {  } => match query_config(store) {
            Ok(cfg) => Ok(QueryResponse::Config(cfg)),
            Err(e) => Err(e),
        },
        QueryMsg::Calls { address } => match query_calls(store, address) {
            Ok(calls) => Ok(QueryResponse::Calls(calls)),
            Err(e) => Err(e),
        },
    }
}

/// No account is ever paid more often than the configuration allows at the
/// time: a request that is granted leaves the count of its sender within the
/// limit, one above what it was, and every other count as it was.
pub proof fn law_requests_stay_within_the_limit(s: StoreView, sender: Seq<char>, other: Seq<char>)
    requires
        s.wf(),
        requested(s, sender) is Ok,
    ensures
        ({
            let t = requested(s, sender)->Ok_0.0;
            &&& t.wf()
            &&& t.config == s.config
            &&& calls_so_far(t, sender) == calls_so_far(s, sender) + 1
            &&& calls_so_far(t, sender) <= s.config->0.max_requests
            &&& other != sender ==> t.calls_of(other) == s.calls_of(other)
        }),
{
    let count = calls_so_far(s, sender);
    crate::faucet::state::lemma_with_calls(s, sender, (count + 1) as u32, other);
}

} // verus!
