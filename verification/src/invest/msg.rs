//! Requests to the investment contract and its answers.

use crate::invest::state::{
    ratio_payout, reward_of, scale_by_ratio, Config, Investment, Location, Measurement,
};
use vstd::prelude::*;

verus! {

#[derive(Debug, Clone, PartialEq, Eq)]
pub struct InstantiateMsg {
    /// Address of the oracle contract (it alone may write measurements).
    pub oracle: String,
    /// All cells that can be invested in, as hexadecimal identifiers.
    pub locations: Vec<String>,
    /// Address of the token used for payment.
    pub token: String,
    /// Maximum amount that can be invested in one cell.
    pub max_investment_hex: u128,
    /// Days from investing to maturity.
    pub maturity_days: u64,
    /// Days of margin between a measurement and its use.
    pub measurement_window: u64,
}

/// The notice that the token contract sends when `amount` was paid in by
/// `sender`, with the instruction that came along.
#[derive(Debug, Clone, PartialEq, Eq)]
pub struct Cw20ReceiveMsg {
    pub sender: String,
    pub amount: u128,
    pub msg: ReceiveMsg,
}

/// An amount of a token, named by the address of its contract.
#[derive(Debug, Clone, PartialEq, Eq)]
pub struct Cw20CoinVerified {
    pub address: String,
    pub amount: u128,
}

#[derive(Debug, Clone, PartialEq, Eq)]
pub enum ExecuteMsg {
    Receive(Cw20ReceiveMsg),
    /// Returns the funds of all finished investments of the sender.
    Withdraw {},
    StoreOracle { values: Vec<OracleValues> },
}

#[derive(Debug, Clone, PartialEq, Eq)]
pub struct OracleValues {
    /// Cell of the measurement.
    pub index: String,
    /// Value measured, in atomic units of a decimal with 18 fractional digits.
    pub value: u128,
    /// Unix time (UTC) in seconds.
    pub time: u64,
}

impl Default for OracleValues {
    fn default() -> (v: OracleValues)
        ensures
            v.index@ == Seq::<char>::empty(),
            v.value == 0,
            v.time == 0,
    {
        OracleValues { index: String::new(), value: 0, time: 0 }
    }
}

#[derive(Debug, Clone, PartialEq, Eq)]
pub enum ReceiveMsg {
    Invest { hex: String },
}

#[allow(inconsistent_fields)]
#[derive(Debug, Clone, PartialEq, Eq)]
pub enum QueryMsg {
    Config {},
    /// Information about one cell: latest measurement and investment figures.
    Info { hex: String },
    /// All investments of one investor, possibly of one cell only.
    ListInvestments { investor: String, hex: Option<String> },
}

/// The request to take over the stored state.
#[derive(Debug, Clone, PartialEq, Eq)]
pub struct MigrateMsg {}

pub type ConfigResponse = Config;

#[derive(Debug, Clone, Copy, PartialEq, Eq)]
pub struct InfoResponse {
    pub cur_index: Option<Measurement>,
    pub total_invested: u128,
    pub current_invested: u128,
    pub total_investments: u64,
    pub current_investments: u64,
}

impl InfoResponse {
    /// The answer for a location.
    pub open spec fn of(loc: Location) -> InfoResponse {
        InfoResponse {
            cur_index: loc.cur_index,
            total_invested: loc.total_invested,
            current_invested: loc.current_invested,
            total_investments: loc.total_investments,
            current_investments: loc.current_investments,
        }
    }

    pub fn new() -> (info: InfoResponse)
        ensures
            info == InfoResponse::of(Location::empty()),
    {
        InfoResponse {
            cur_index: None,
            total_invested: 0,
            current_invested: 0,
            total_investments: 0,
            current_investments: 0,
        }
    }
}

impl Default for InfoResponse {
    fn default() -> (info: InfoResponse)
        ensures
            info == InfoResponse::of(Location::empty()),
    {
        InfoResponse::new()
    }
}

#[derive(Debug, Clone, PartialEq, Eq)]
pub struct ListInvestmentsResponse {
    pub investments: Vec<InvestmentResponse>,
}

/// One investment as shown to its investor. The investor's address is implied
/// by the query.
#[derive(Debug, Clone, PartialEq, Eq)]
pub struct InvestmentResponse {
    pub hex: String,
    /// How much was invested.
    pub amount: u128,
    /// The index of the cell when the investment was made.
    pub baseline_index: u128,
    /// The latest measurement of the cell; zero at time zero where it has none.
    pub latest_index: Measurement,
    /// Whether a withdrawal now pays this investment out.
    pub can_withdraw: bool,
    /// What a withdrawal pays, or would pay if the latest measurement stood at maturity.
    pub withdraw_amount: u128,
    /// When this investment was made, in Unix seconds UTC.
    pub invested: u64,
    /// When this investment can be claimed, in Unix seconds UTC.
    pub maturity_date: u64,
}

/// The measurement shown for a location: its latest one, or zero at time zero.
pub open spec fn latest_seen(loc: Location) -> Measurement {
    match loc.cur_index {
        Some(measure) => measure,
        None => Measurement { value: 0, time: 0 },
    }
}

/// Whether a withdrawal at `now` pays `inv` out.
pub open spec fn can_withdraw_at(inv: Investment, now: u64, loc: Location, window: u64) -> bool {
    reward_of(inv, now, loc, window) matches Ok(Some(_))
}

/// The amount shown for an investment: its reward where a withdrawal pays it
/// out; else the principal scaled by baseline over the latest measurement,
/// where that is defined; else the principal.
pub open spec fn withdraw_estimate(inv: Investment, now: u64, loc: Location, window: u64) -> u128 {
    match reward_of(inv, now, loc, window) {
        Ok(Some(payout)) => payout,
        _ => match loc.cur_index {
            Some(measure) => match ratio_payout(inv.amount, inv.baseline_index, measure.value) {
                Ok(payout) => payout,
                Err(_) => inv.amount,
            },
            None => inv.amount,
        },
    }
}

/// An `InvestmentResponse` with its cell as a sequence of characters.
pub struct InvestmentResponseView {
    pub hex: Seq<char>,
    pub amount: u128,
    pub baseline_index: u128,
    pub latest_index: Measurement,
    pub can_withdraw: bool,
    pub withdraw_amount: u128,
    pub invested: u64,
    pub maturity_date: u64,
}

impl View for InvestmentResponse {
    type V = InvestmentResponseView;

    open spec fn view(&self) -> InvestmentResponseView {
        InvestmentResponseView {
            hex: self.hex@,
            amount: self.amount,
            baseline_index: self.baseline_index,
            latest_index: self.latest_index,
            can_withdraw: self.can_withdraw,
            withdraw_amount: self.withdraw_amount,
            invested: self.invested,
            maturity_date: self.maturity_date,
        }
    }
}

/// How the investment `inv` in the cell `hex`, whose location is `loc`, is
/// shown at time `now`.
pub open spec fn shown(
    inv: Investment,
    hex: Seq<char>,
    now: u64,
    loc: Location,
    window: u64,
) -> InvestmentResponseView {
    InvestmentResponseView {
        hex,
        amount: inv.amount,
        baseline_index: inv.baseline_index,
        latest_index: latest_seen(loc),
        can_withdraw: can_withdraw_at(inv, now, loc, window),
        withdraw_amount: withdraw_estimate(inv, now, loc, window),
        invested: inv.invested_time,
        maturity_date: inv.maturity_time,
    }
}

/// The views of a list of shown investments.
pub open spec fn response_views(rows: Seq<InvestmentResponse>) -> Seq<InvestmentResponseView> {
    Seq::new(rows.len(), |i: int| rows[i]@)
}

impl InvestmentResponse {
    pub fn new(invest: Investment, hex: String, cfg: &Config, loc: &Location, now: u64) -> (r:
        InvestmentResponse)
        ensures
            r@ == shown(invest, hex@, now, *loc, cfg.measurement_window),
    {
        let latest_index = match loc.cur_index {
            Some(measure) => measure,
            None => Measurement { value: 0, time: 0 },
        };
        let estimate = match loc.cur_index {
            Some(measure) => match scale_by_ratio(
                invest.amount,
                invest.baseline_index,
                measure.value,
            ) {
                Ok(payout) => payout,
                Err(_) => invest.amount,
            },
            None => invest.amount,
        };
        let (can_withdraw, withdraw_amount) = match invest.reward(now, loc, cfg) {
            Ok(Some(payout)) => (true, payout),
            _ => (false, estimate),
        };
        InvestmentResponse {
            hex,
            amount: invest.amount,
            baseline_index: invest.baseline_index,
            latest_index,
            can_withdraw,
            withdraw_amount,
            invested: invest.invested_time,
            maturity_date: invest.maturity_time,
        }
    }
}

} // verus!
