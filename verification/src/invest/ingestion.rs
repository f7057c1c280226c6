//! Oracle ingestion: a batch of measurements is applied to the locations,
//! each measurement by itself.

use crate::invest::error::{result_view, ContractError, ContractErrorView};
use crate::invest::msg::OracleValues;
use crate::invest::outcome::{follows, Outcome};
use crate::invest::r3::{is_r3_input, lower, validate_r3};
use crate::invest::response::{error_views, Event, EventView, Response, ResponseView};
use crate::invest::state::Measurement;
use crate::invest::store::{lemma_location_at, Store, StoreView};
use vstd::prelude::*;

verus! {

/// What one measurement does to a state: the error that refuses it, or the
/// state in which it is the latest measurement of its cell. A measurement
/// older than the one it replaces is stored like any other.
pub open spec fn measured(s: StoreView, now: u64, item: OracleValues) -> Result<
    StoreView,
    ContractErrorView,
> {
    let hex = lower(item.index@);
    if !is_r3_input(item.index@) {
        Err(ContractErrorView::InvalidR3(item.index@))
    } else if !s.has_location(hex) {
        Err(ContractErrorView::UnregisteredLocation(hex))
    } else if item.time > now {
        Err(ContractErrorView::OracleFromTheFuture(item.time))
    } else {
        let j = s.location_index(hex);
        Ok(
            s.with_location_at(
                j,
                s.locations[j].location.with_measurement(
                    Measurement { value: item.value, time: item.time },
                ),
            ),
        )
    }
}

/// The outcome of a batch of measurements.
pub struct Ingestion {
    /// The state after the batch.
    pub store: StoreView,
    /// How many measurements were stored.
    pub succeeded: nat,
    /// Why each of the others was refused, in the order of the batch.
    pub failed: Seq<ContractErrorView>,
}

/// A batch is taken one measurement after the other; each is stored or
/// refused by itself, and a refusal leaves what was stored before it.
pub open spec fn ingested(s: StoreView, now: u64, values: Seq<OracleValues>) -> Ingestion
    decreases values.len(),
{
    if values.len() == 0 {
        Ingestion { store: s, succeeded: 0, failed: Seq::empty() }
    } else {
        let before = ingested(s, now, values.drop_last());
        match measured(before.store, now, values.last()) {
            Ok(t) => Ingestion {
                store: t,
                succeeded: before.succeeded + 1,
                failed: before.failed,
            },
            Err(e) => Ingestion {
                store: before.store,
                succeeded: before.succeeded,
                failed: before.failed.push(e),
            },
        }
    }
}

/// What a batch of measurements sent by `sender` does to a state and answers.
/// Only the configured oracle may send one; from anyone else the whole batch
/// is refused. The answer holds one event, which reports how many
/// measurements were stored and why each of the others was refused.
pub open spec fn oracle_stored(
    s: StoreView,
    now: u64,
    sender: Seq<char>,
    values: Seq<OracleValues>,
) -> Outcome {
    match s.config {
        None => Err(ContractErrorView::not_found("Config"@)),
        Some(cfg) => {
            if cfg.oracle != sender {
                Err(ContractErrorView::Unauthorized)
            } else {
                let batch = ingested(s, now, values);
                Ok(
                    (
                        batch.store,
                        ResponseView {
                            events: seq![
                                EventView::Oracle {
                                    succeeded: batch.succeeded as u64,
                                    failed: batch.failed,
                                },
                            ],
                            messages: Seq::empty(),
                        },
                    ),
                )
            }
        },
    }
}

/// Stores one measurement as the latest of its cell, or refuses it.
pub fn process_oracle(store: &mut Store, now: u64, val: OracleValues) -> (r: Result<
    (),
    ContractError,
>)
    requires
        old(store)@.wf(),
    ensures
        match measured(old(store)@, now, val) {
            Ok(t) => r is Ok && final(store)@ == t,
            Err(e) => result_view(r) == Err::<(), ContractErrorView>(e) && final(store)@ == old(
                store,
            )@,
        },
        final(store)@.wf(),
{
    let hex = validate_r3(val.index)?;
    let j = match store.location_index(&hex) {
        Some(j) => j,
        None => {
            return Err(ContractError::UnregisteredLocation(hex));
        },
    };
    if val.time > now {
        return Err(ContractError::OracleFromTheFuture(val.time));
    }
    proof {
        lemma_location_at(store@, j as int);
    }
    let mut loc = store.location_at(j);
    loc.cur_index = Some(Measurement { value: val.value, time: val.time });
    store.set_location_at(j, loc);
    Ok(())
}

/// Takes a batch of measurements from `sender`.
pub fn store_oracle(store: &mut Store, now: u64, sender: &String, values: Vec<OracleValues>) -> (r:
    Result<Response, ContractError>)
    requires
        old(store)@.wf(),
    ensures
        final(store)@.wf(),
        follows(old(store)@, final(store)@, r, oracle_stored(old(store)@, now, sender@, values@)),
{
    match store.config() {
        None => {
            return Err(ContractError::not_found("Config"));
        },
        Some(cfg) => {
            if cfg.oracle != *sender {
                return Err(ContractError::Unauthorized {  });
            }
        },
    }
    let mut invalid: Vec<ContractError> = Vec::new();
    let mut count: u64 = 0;
    let n = values.len();
    let mut k: usize = 0;
    while k < n
        invariant
            n == values@.len(),
            k <= n,
            store@.wf(),
            store@ == ingested(old(store)@, now, values@.take(k as int)).store,
            count == ingested(old(store)@, now, values@.take(k as int)).succeeded,
            count <= k,
            error_views(invalid@) == ingested(
                old(store)@,
                now,
                values@.take(k as int),
            ).failed,
        decreases n - k,
    {
        let val = OracleValues {
            index: values[k].index.clone(),
            value: values[k].value,
            time: values[k].time,
        };
        proof {
            let next = values@.take(k as int + 1);
            assert(next.drop_last() =~= values@.take(k as int));
        }
        match process_oracle(store, now, val) {
            Ok(()) => {
                count += 1;
            },
            Err(e) => {
                invalid.push(e);
            },
        }
        k += 1;
    }
    assert(values@.take(n as int) =~= values@);
    let event = Event::Oracle { succeeded: count, failed: invalid };
    let resp = Response::new().add_event(event);
    Ok(resp)
}

} // verus!
