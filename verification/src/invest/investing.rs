//! Investment creation: a deposit that the token contract has confirmed
//! becomes an entry of the ledger, if the data of its cell is fresh.

use crate::invest::error::{ContractError, ContractErrorView};
use crate::invest::msg::Cw20CoinVerified;
use crate::invest::outcome::{follows, Outcome};
use crate::invest::r3::{is_r3_input, lower, validate_r3};
use crate::invest::response::{Event, EventView, Response, ResponseView};
use crate::invest::state::{Investment, Measurement, SECONDS_PER_DAY};
use crate::invest::store::{lemma_location_at, lemma_partition_at, Store, StoreView};
use crate::platform::OverflowOperation;
use vstd::prelude::*;

verus! {

/// The latest measurement of a cell is too old at `now` to invest on: it was
/// taken more than `window` days ago.
pub open spec fn too_old(measured_at: u64, now: u64, window: u64) -> bool {
    measured_at + window * SECONDS_PER_DAY < now
}

/// The latest measurement of the cell `hex`: none for a cell that is not
/// registered, and none for a registered cell that the oracle never measured.
pub open spec fn latest_of(s: StoreView, hex: Seq<char>) -> Option<Measurement> {
    match s.location_of(hex) {
        Some(loc) => loc.cur_index,
        None => None,
    }
}

/// A state with `inv` as the newest investment of `investor` in `hex`: at the
/// end of their list, or as the only entry of a new list.
pub open spec fn appended(
    s: StoreView,
    investor: Seq<char>,
    hex: Seq<char>,
    inv: Investment,
) -> StoreView {
    match s.investments_of(investor, hex) {
        Some(list) => s.with_investments(investor, hex, list.push(inv)),
        None => s.with_investments(investor, hex, seq![inv]),
    }
}

/// What an investment of `amount`, paid in `token` by `investor` for the cell
/// written `cell`, does to a state at time `now`: the error that refuses it,
/// or the state in which it is recorded.
///
/// It is refused, in this order: without a configuration; for another token
/// than the configured one; for a cell that is no valid identifier; for a cell
/// that never received a measurement, registered or not; for a cell whose
/// latest measurement is too old. Where none of these refuses it, the limits
/// of the machine can: a maturity time that does not fit in 64 bits, or
/// aggregates of the cell that have no room for the amount.
pub open spec fn invested(
    s: StoreView,
    now: u64,
    investor: Seq<char>,
    token: Seq<char>,
    amount: u128,
    cell: Seq<char>,
) -> Outcome {
    let hex = lower(cell);
    match s.config {
        None => Err(ContractErrorView::not_found("Config"@)),
        Some(cfg) => {
            if cfg.token != token {
                Err(ContractErrorView::InvalidToken(token))
            } else if !is_r3_input(cell) {
                Err(ContractErrorView::InvalidR3(cell))
            } else {
                match latest_of(s, hex) {
                    None => Err(ContractErrorView::NoDataPresent),
                    Some(measure) => {
                        let j = s.location_index(hex);
                        let loc = s.locations[j].location;
                        if too_old(measure.time, now, cfg.measurement_window) {
                            Err(ContractErrorView::DataTooOld { days: cfg.measurement_window })
                        } else if cfg.maturity_days * SECONDS_PER_DAY > u64::MAX {
                            Err(ContractErrorView::overflow(OverflowOperation::Mul))
                        } else if now + cfg.maturity_days * SECONDS_PER_DAY > u64::MAX {
                            Err(ContractErrorView::overflow(OverflowOperation::Add))
                        } else if !loc.has_room(amount) {
                            Err(ContractErrorView::overflow(OverflowOperation::Add))
                        } else {
                            Ok(
                                (
                                    appended(
                                        s.with_location_at(j, loc.with_investment(amount)),
                                        investor,
                                        hex,
                                        Investment {
                                            amount,
                                            baseline_index: measure.value,
                                            invested_time: now,
                                            maturity_time: (now + cfg.maturity_days
                                                * SECONDS_PER_DAY) as u64,
                                        },
                                    ),
                                    ResponseView {
                                        events: seq![
                                            EventView::Invest { index: hex, amount, investor },
                                        ],
                                        messages: Seq::empty(),
                                    },
                                ),
                            )
                        }
                    },
                }
            }
        },
    }
}

/// Records an investment of `coin.amount`, which the token contract
/// `coin.address` has received from `sender`, in the cell `hex`.
///
/// The new entry takes the latest measurement of the cell as its baseline and
/// matures the configured number of days after `now`. The aggregates of the
/// cell count it, and the response carries one event that names cell, amount
/// and investor.
pub fn invest(
    store: &mut Store,
    now: u64,
    sender: String,
    coin: Cw20CoinVerified,
    hex: String,
) -> (r: Result<Response, ContractError>)
    requires
        old(store)@.wf(),
    ensures
        follows(
            old(store)@,
            final(store)@,
            r,
            invested(old(store)@, now, sender@, coin.address@, coin.amount, hex@),
        ),
        final(store)@.wf(),
{
    let (maturity_days, window) = match store.config() {
        None => {
            return Err(ContractError::not_found("Config"));
        },
        Some(cfg) => {
            if cfg.token != coin.address {
                return Err(ContractError::InvalidToken(coin.address));
            }
            (cfg.maturity_days, cfg.measurement_window)
        },
    };
    let hex = validate_r3(hex)?;
    let j = match store.location_index(&hex) {
        Some(j) => j,
        None => {
            return Err(ContractError::NoDataPresent);
        },
    };
    proof {
        lemma_location_at(store@, j as int);
    }
    let mut location = store.location_at(j);
    let last_index = match location.cur_index {
        None => {
            return Err(ContractError::NoDataPresent);
        },
        Some(measure) => measure,
    };
    if (last_index.time as u128) + (window as u128) * (SECONDS_PER_DAY as u128) < (now as u128) {
        return Err(ContractError::DataTooOld { days: window });
    }
    let invested_time = now;
    let maturity_time = match maturity_days.checked_mul(SECONDS_PER_DAY) {
        None => {
            return Err(ContractError::overflow(OverflowOperation::Mul));
        },
        Some(period) => match invested_time.checked_add(period) {
            None => {
                return Err(ContractError::overflow(OverflowOperation::Add));
            },
            Some(t) => t,
        },
    };
    if location.total_invested > u128::MAX - coin.amount || location.current_invested > u128::MAX
        - coin.amount || location.total_investments == u64::MAX || location.current_investments
        == u64::MAX {
        return Err(ContractError::overflow(OverflowOperation::Add));
    }
    location.add_investment(coin.amount);
    let invest = Investment {
        amount: coin.amount,
        baseline_index: last_index.value,
        invested_time,
        maturity_time,
    };
    store.set_location_at(j, location);
    match store.partition_index(&sender, &hex) {
        Some(i) => {
            proof {
                lemma_partition_at(store@, i as int);
            }
            let mut list = store.investments_at(i).clone();
            list.push(invest);
            store.set_investments_at(i, list);
        },
        None => {
            let mut list: Vec<Investment> = Vec::new();
            list.push(invest);
            assert(store@.locations[j as int].hex == hex@);
            store.add_partition(sender.clone(), hex.clone(), list);
        },
    }
    let event = Event::Invest { index: hex, amount: coin.amount, investor: sender };
    let resp = Response::new().add_event(event);
    Ok(resp)
}

} // verus!
