//! The data of the investment contract and the reward rule.

use crate::invest::decimal::{
    checked_from_ratio, checked_mul_ratio, checked_multiply_ratio, RatioError, DECIMAL_FRACTIONAL,
};
use crate::invest::error::{result_view, ContractError, ContractErrorView};
use crate::platform::{OverflowOperation, StdError};
use vstd::prelude::*;

verus! {

/// Seconds in one day.
pub const SECONDS_PER_DAY: u64 = 86400;

#[derive(Debug, PartialEq, Eq)]
pub struct Config {
    /// Address of the oracle: the only sender whose measurements are stored.
    pub oracle: String,
    /// Address of the token that investments are paid in.
    pub token: String,
    /// Maximum amount that can be invested in one cell.
    pub max_investment_hex: u128,
    /// Days from investing to maturity.
    pub maturity_days: u64,
    /// Days of margin between a measurement and its use: when investing, the
    /// latest measurement is at most this old; at maturity, the measurement
    /// lies at most this long after it.
    pub measurement_window: u64,
}

/// A configuration with its addresses as sequences of characters.
pub struct ConfigView {
    pub oracle: Seq<char>,
    pub token: Seq<char>,
    pub max_investment_hex: u128,
    pub maturity_days: u64,
    pub measurement_window: u64,
}

impl View for Config {
    type V = ConfigView;

    open spec fn view(&self) -> ConfigView {
        ConfigView {
            oracle: self.oracle@,
            token: self.token@,
            max_investment_hex: self.max_investment_hex,
            maturity_days: self.maturity_days,
            measurement_window: self.measurement_window,
        }
    }
}

impl Clone for Config {
    fn clone(&self) -> (cfg: Config)
        ensures
            cfg@ == self@,
    {
        Config {
            oracle: self.oracle.clone(),
            token: self.token.clone(),
            max_investment_hex: self.max_investment_hex,
            maturity_days: self.maturity_days,
            measurement_window: self.measurement_window,
        }
    }
}

/// One reading of the index of a cell.
#[derive(Debug, Clone, Copy, PartialEq, Eq)]
pub struct Measurement {
    /// The reading, in atomic units of a decimal with 18 fractional digits.
    pub value: u128,
    /// Unix time (UTC) in seconds.
    pub time: u64,
}

impl Measurement {
    pub fn new(value: u128, time: u64) -> (m: Measurement)
        ensures
            m == (Measurement { value, time }),
    {
        Measurement { value, time }
    }
}

impl Default for Measurement {
    fn default() -> (m: Measurement)
        ensures
            m == (Measurement { value: 0, time: 0 }),
    {
        Measurement { value: 0, time: 0 }
    }
}

/// The aggregate state of one cell.
#[derive(Debug, Clone, Copy, PartialEq, Eq)]
pub struct Location {
    /// The latest measurement, if the oracle ever sent one.
    pub cur_index: Option<Measurement>,
    /// Everything ever invested here.
    pub total_invested: u128,
    /// What is invested here now.
    pub current_invested: u128,
    /// Number of investments ever made here.
    pub total_investments: u64,
    /// Number of investments open here now.
    pub current_investments: u64,
}

impl Location {
    /// A cell without measurement and without investments.
    pub open spec fn empty() -> Location {
        Location {
            cur_index: None,
            total_invested: 0,
            current_invested: 0,
            total_investments: 0,
            current_investments: 0,
        }
    }

    /// The open figures never exceed the lifetime figures.
    pub open spec fn is_consistent(self) -> bool {
        &&& self.current_invested <= self.total_invested
        &&& self.current_investments <= self.total_investments
    }

    /// The aggregates can take one more investment of `amount`.
    pub open spec fn has_room(self, amount: u128) -> bool {
        &&& self.total_invested + amount <= u128::MAX
        &&& self.current_invested + amount <= u128::MAX
        &&& self.total_investments < u64::MAX
        &&& self.current_investments < u64::MAX
    }

    /// This location after one more investment of `amount`.
    pub open spec fn with_investment(self, amount: u128) -> Location {
        Location {
            cur_index: self.cur_index,
            total_invested: (self.total_invested + amount) as u128,
            current_invested: (self.current_invested + amount) as u128,
            total_investments: (self.total_investments + 1) as u64,
            current_investments: (self.current_investments + 1) as u64,
        }
    }

    /// `count` investments that sum to `amount` can be taken out of the open figures.
    pub open spec fn can_finish(self, amount: u128, count: u64) -> bool {
        amount <= self.current_invested && count <= self.current_investments
    }

    /// This location after `count` investments that sum to `amount` were
    /// settled. The lifetime figures stay.
    pub open spec fn with_finished(self, amount: u128, count: u64) -> Location {
        Location {
            cur_index: self.cur_index,
            total_invested: self.total_invested,
            current_invested: (self.current_invested - amount) as u128,
            total_investments: self.total_investments,
            current_investments: (self.current_investments - count) as u64,
        }
    }

    /// This location with `latest` as its latest measurement, if any.
    pub open spec fn with_latest(self, latest: Option<Measurement>) -> Location {
        Location {
            cur_index: latest,
            total_invested: self.total_invested,
            current_invested: self.current_invested,
            total_investments: self.total_investments,
            current_investments: self.current_investments,
        }
    }

    /// This location with `measure` as its latest measurement.
    pub open spec fn with_measurement(self, measure: Measurement) -> Location {
        self.with_latest(Some(measure))
    }

    pub fn new() -> (loc: Location)
        ensures
            loc == Location::empty(),
    {
        Location {
            cur_index: None,
            total_invested: 0,
            current_invested: 0,
            total_investments: 0,
            current_investments: 0,
        }
    }

    /// Counts one more investment of `amount` in the lifetime and in the open figures.
    pub fn add_investment(&mut self, amount: u128)
        requires
            old(self).has_room(amount),
        ensures
            *final(self) == old(self).with_investment(amount),
            old(self).is_consistent() ==> final(self).is_consistent(),
    {
        self.total_invested += amount;
        self.current_invested += amount;
        self.total_investments += 1;
        self.current_investments += 1;
    }

    /// Takes `count` settled investments that sum to `amount` out of the open
    /// figures. Where either figure would fall below zero nothing changes and
    /// the subtraction is reported as an overflow.
    pub fn finish_investment(&mut self, amount: u128, count: u64) -> (r: Result<
        (),
        ContractError,
    >)
        ensures
            old(self).can_finish(amount, count) ==> r is Ok && *final(self) == old(
                self,
            ).with_finished(amount, count),
            !old(self).can_finish(amount, count) ==> result_view(r) == Err::<
                (),
                ContractErrorView,
            >(ContractErrorView::overflow(OverflowOperation::Sub)) && *final(self) == *old(self),
            old(self).is_consistent() ==> final(self).is_consistent(),
    {
        if count > self.current_investments || amount > self.current_invested {
            return Err(ContractError::overflow(OverflowOperation::Sub));
        }
        self.current_investments -= count;
        self.current_invested -= amount;
        Ok(())
    }
}

impl Default for Location {
    fn default() -> (loc: Location)
        ensures
            loc == Location::empty(),
    {
        Location::new()
    }
}

/// One open investment.
#[derive(Debug, Clone, Copy, PartialEq, Eq)]
pub struct Investment {
    /// How much was invested.
    pub amount: u128,
    /// The index of the cell when the investment was made, in atomic units.
    pub baseline_index: u128,
    /// When the investment was made, in Unix seconds UTC.
    pub invested_time: u64,
    /// When the investment can be claimed, in Unix seconds UTC.
    pub maturity_time: u64,
}

/// The payout `amount * (baseline / value)`: the ratio is taken first, as a
/// decimal with 18 fractional digits rounded down, then applied to the amount
/// and rounded down again.
pub open spec fn ratio_payout(amount: u128, baseline: u128, value: u128) -> Result<
    u128,
    RatioError,
> {
    match checked_mul_ratio(baseline, DECIMAL_FRACTIONAL, value) {
        Err(e) => Err(e),
        Ok(ratio) => checked_mul_ratio(amount, ratio, DECIMAL_FRACTIONAL),
    }
}

/// Computes `amount * (baseline / value)` in fixed-point arithmetic.
pub fn scale_by_ratio(amount: u128, baseline: u128, value: u128) -> (r: Result<u128, RatioError>)
    ensures
        r == ratio_payout(amount, baseline, value),
{
    match checked_from_ratio(baseline, value) {
        Err(e) => Err(e),
        Ok(ratio) => checked_multiply_ratio(amount, ratio, DECIMAL_FRACTIONAL),
    }
}

/// The reward rule. `Ok(None)` is "no reward yet": the investment stays open.
///
/// Before maturity, without a measurement, or with a measurement taken before
/// maturity there is no reward yet. A measurement taken within `window` days
/// after maturity pays the principal scaled by baseline over measurement; that
/// payout is undefined for a measurement of zero and where it does not fit in
/// 128 bits. A measurement taken later pays the principal back.
pub open spec fn reward_at(
    inv: Investment,
    now: u64,
    latest: Option<Measurement>,
    window: u64,
) -> Result<Option<u128>, ContractErrorView> {
    if now < inv.maturity_time {
        Ok(None)
    } else {
        match latest {
            None => Ok(None),
            Some(measure) => {
                if measure.time < inv.maturity_time {
                    Ok(None)
                } else if measure.time - inv.maturity_time <= window * SECONDS_PER_DAY {
                    match ratio_payout(inv.amount, inv.baseline_index, measure.value) {
                        Ok(payout) => Ok(Some(payout)),
                        Err(RatioError::DivideByZero) => Err(ContractErrorView::divide_by_zero()),
                        Err(RatioError::Overflow) => Err(
                            ContractErrorView::overflow(OverflowOperation::Mul),
                        ),
                    }
                } else {
                    Ok(Some(inv.amount))
                }
            },
        }
    }
}

/// The reward of an investment in a cell with location `loc`: the reward rule
/// on the latest measurement of the cell.
pub open spec fn reward_of(inv: Investment, now: u64, loc: Location, window: u64) -> Result<
    Option<u128>,
    ContractErrorView,
> {
    reward_at(inv, now, loc.cur_index, window)
}

impl Investment {
    /// Whether this investment has reached its maturity date at time `now`.
    pub fn is_mature(&self, now: u64) -> (b: bool)
        ensures
            b == (now >= self.maturity_time),
    {
        now >= self.maturity_time
    }

    /// The reward of this investment at time `now`, given its cell and the
    /// configured measurement window.
    pub fn reward(&self, now: u64, loc: &Location, cfg: &Config) -> (r: Result<
        Option<u128>,
        ContractError,
    >)
        ensures
            result_view(r) == reward_of(*self, now, *loc, cfg.measurement_window),
    {
        if !self.is_mature(now) {
            return Ok(None);
        }
        match loc.cur_index {
            None => Ok(None),
            Some(measure) => {
                if measure.time < self.maturity_time {
                    return Ok(None);
                }
                let age: u64 = measure.time - self.maturity_time;
                let window: u128 = (cfg.measurement_window as u128) * (SECONDS_PER_DAY as u128);
                if (age as u128) <= window {
                    match scale_by_ratio(self.amount, self.baseline_index, measure.value) {
                        Ok(payout) => Ok(Some(payout)),
                        Err(RatioError::DivideByZero) => Err(
                            ContractError::Std(StdError::DivideByZero),
                        ),
                        Err(RatioError::Overflow) => Err(
                            ContractError::overflow(OverflowOperation::Mul),
                        ),
                    }
                } else {
                    Ok(Some(self.amount))
                }
            },
        }
    }
}

} // verus!
