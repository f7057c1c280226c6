//! Laws of the investment contract: what holds of every state and every call,
//! proved from the definitions of the operations.

use crate::invest::contract::{all_r3_input, registered_all};
use crate::invest::decimal::DECIMAL_FRACTIONAL;
use crate::invest::error::ContractErrorView;
use crate::invest::ingestion::{ingested, measured, Ingestion};
use crate::invest::investing::{invested, latest_of};
use crate::invest::msg::OracleValues;
use crate::invest::r3::{
    is_r3, is_r3_input, lemma_cell_order_is_text_order, lemma_lower_of_input_is_r3,
    lemma_r3_value_injective, lower, r3_value,
};
use crate::invest::response::{EventView, ResponseView};
use crate::invest::settlement::{settled, withdrawn, withdrawn_upto, Settlement, Tally};
use crate::invest::state::{
    ratio_payout, reward_at, reward_of, Investment, Location, Measurement, SECONDS_PER_DAY,
};
use crate::invest::store::{
    lemma_location_at, lemma_partition_at, lemma_same_keys_wf, lemma_with_investments,
    lemma_with_location, StoreView,
};
use crate::text::comes_before;
use vstd::prelude::*;

verus! {

/// The investments that stay open at `now` when `latest` is the latest
/// measurement of their cell: those without a reward yet.
pub open spec fn stays_open(now: u64, latest: Option<Measurement>, window: u64) -> spec_fn(
    Investment,
) -> bool {
    |inv: Investment|
        reward_at(inv, now, latest, window) == Ok::<Option<u128>, ContractErrorView>(None)
}

/// A cell identifier, as the validator returns it, is accepted by the
/// validator and comes back unchanged: normalizing twice is normalizing once.
pub proof fn law_cell_identifiers_are_normal(s: Seq<char>)
    requires
        is_r3(s),
    ensures
        is_r3_input(s),
        lower(s) == s,
{
}

/// Before its maturity an investment has no reward, whatever was measured.
pub proof fn law_reward_waits_for_maturity(inv: Investment, now: u64, loc: Location, window: u64)
    requires
        now < inv.maturity_time,
    ensures
        reward_of(inv, now, loc, window) == Ok::<Option<u128>, ContractErrorView>(None),
{
}

/// An investment has no reward yet exactly while it is not mature or its cell
/// has no measurement taken at or after its maturity. In every other case the
/// rule gives a payout, or the payout is undefined.
pub proof fn law_reward_waits_exactly_for_data_after_maturity(
    inv: Investment,
    now: u64,
    loc: Location,
    window: u64,
)
    ensures
        reward_of(inv, now, loc, window) == Ok::<Option<u128>, ContractErrorView>(None) <==> (now
            < inv.maturity_time || loc.cur_index is None || loc.cur_index->0.time
            < inv.maturity_time),
{
}

/// A payout by ratio is never more than the exact quotient
/// `amount * baseline / value`: both roundings go down.
pub proof fn law_ratio_payout_rounds_down(amount: u128, baseline: u128, value: u128)
    requires
        ratio_payout(amount, baseline, value) is Ok,
    ensures
        value > 0,
        ratio_payout(amount, baseline, value)->Ok_0 * value <= amount * baseline,
{
    let d = DECIMAL_FRACTIONAL as int;
    let ratio = (baseline * d) / (value as int);
    let payout = (amount * ratio) / d;
    assert(ratio * value <= baseline * d) by (nonlinear_arith)
        requires
            value > 0,
            ratio == (baseline * d) / (value as int),
            baseline * d >= 0,
    ;
    assert(payout * d <= amount * ratio) by (nonlinear_arith)
        requires
            d > 0,
            payout == (amount * ratio) / d,
            amount * ratio >= 0,
    ;
    assert(amount * ratio >= 0 && baseline * d >= 0 && ratio >= 0) by (nonlinear_arith)
        requires
            value > 0,
            d > 0,
            ratio == (baseline * d) / (value as int),
            amount >= 0,
            baseline >= 0,
    ;
    assert(payout * value <= amount * baseline) by (nonlinear_arith)
        requires
            d > 0,
            value > 0,
            amount >= 0,
            ratio >= 0,
            payout >= 0,
            ratio * value <= baseline * d,
            payout * d <= amount * ratio,
    ;
}

/// The reward of an investment depends on its cell through the latest
/// measurement alone, not through the aggregates.
pub proof fn law_reward_reads_the_measurement(
    inv: Investment,
    now: u64,
    a: Location,
    b: Location,
    window: u64,
)
    requires
        a.cur_index == b.cur_index,
    ensures
        reward_of(inv, now, a, window) == reward_of(inv, now, b, window),
{
}

/// A measurement that is refused adds its error to the report of the batch
/// and leaves what the batch has stored; one that is accepted is stored on top
/// of what came before it.
pub proof fn law_batch_takes_each_measurement_by_itself(
    s: StoreView,
    now: u64,
    values: Seq<OracleValues>,
    item: OracleValues,
)
    ensures
        ({
            let before = ingested(s, now, values);
            let after = ingested(s, now, values.push(item));
            match measured(before.store, now, item) {
                Ok(t) => after == (Ingestion {
                    store: t,
                    succeeded: before.succeeded + 1,
                    failed: before.failed,
                }),
                Err(e) => after == (Ingestion {
                    store: before.store,
                    succeeded: before.succeeded,
                    failed: before.failed.push(e),
                }),
            }
        }),
{
    assert(values.push(item).drop_last() =~= values);
}

/// After the registration of `cells`, each of them has a location without
/// measurement and without investments, and every other cell has the location
/// it had. Configuration and investments stay, and the state is well formed.
pub proof fn law_registration_resets_the_cells(s: StoreView, cells: Seq<String>, other: Seq<char>)
    requires
        s.wf(),
        all_r3_input(cells),
    ensures
        ({
            let t = registered_all(s, cells);
            &&& t.wf()
            &&& t.config == s.config
            &&& t.investments == s.investments
            &&& forall|k: int|
                0 <= k < cells.len() ==> t.location_of(lower((#[trigger] cells[k])@)) == Some(
                    Location::empty(),
                )
            &&& (forall|k: int| 0 <= k < cells.len() ==> lower((#[trigger] cells[k])@) != other)
                ==> t.location_of(other) == s.location_of(other)
        }),
    decreases cells.len(),
{
    if cells.len() > 0 {
        let front = cells.drop_last();
        let hex = lower(cells.last()@);
        lemma_lower_of_input_is_r3(cells.last()@);
        law_registration_resets_the_cells(s, front, other);
        let before = registered_all(s, front);
        let t = registered_all(s, cells);
        lemma_with_location(before, hex, Location::empty(), other);
        assert forall|k: int| 0 <= k < cells.len() implies t.location_of(
            lower((#[trigger] cells[k])@),
        ) == Some(Location::empty()) by {
            if k < front.len() {
                assert(front[k] == cells[k]);
                law_registration_resets_the_cells(s, front, lower(cells[k]@));
                lemma_with_location(before, hex, Location::empty(), lower(cells[k]@));
            }
        }
    }
}

/// The latest measurement of the cell `hex` after a batch, when `before` was
/// its latest measurement before: that of the last item of the batch that is
/// written for the cell and is not from the future, or `before` if there is
/// none.
pub open spec fn latest_after(
    before: Option<Measurement>,
    hex: Seq<char>,
    now: u64,
    values: Seq<OracleValues>,
) -> Option<Measurement>
    decreases values.len(),
{
    if values.len() == 0 {
        before
    } else {
        let item = values.last();
        if is_r3_input(item.index@) && lower(item.index@) == hex && item.time <= now {
            Some(Measurement { value: item.value, time: item.time })
        } else {
            latest_after(before, hex, now, values.drop_last())
        }
    }
}

/// A batch of measurements changes nothing but the latest measurements of
/// registered cells: keys, aggregates, investments and configuration stay.
/// Each cell ends with the last measurement of the batch that is written for
/// it and is not from the future, whatever was refused before or after; every
/// item of the batch is either counted as stored or reported as refused.
pub proof fn law_batch_stores_the_last_valid_measurement(
    s: StoreView,
    now: u64,
    values: Seq<OracleValues>,
)
    requires
        s.wf(),
    ensures
        ({
            let batch = ingested(s, now, values);
            &&& batch.store.wf()
            &&& batch.store.config == s.config
            &&& batch.store.investments == s.investments
            &&& batch.store.locations.len() == s.locations.len()
            &&& forall|j: int|
                0 <= j < s.locations.len() ==> {
                    &&& (#[trigger] batch.store.locations[j]).hex == s.locations[j].hex
                    &&& batch.store.locations[j].location
                        == s.locations[j].location.with_latest(
                        latest_after(
                            s.locations[j].location.cur_index,
                            s.locations[j].hex,
                            now,
                            values,
                        ),
                    )
                }
            &&& batch.succeeded + batch.failed.len() == values.len()
        }),
    decreases values.len(),
{
    if values.len() > 0 {
        let front = values.drop_last();
        let item = values.last();
        law_batch_stores_the_last_valid_measurement(s, now, front);
        let before = ingested(s, now, front);
        let b = before.store;
        let batch = ingested(s, now, values);
        if measured(b, now, item) is Ok {
            lemma_same_keys_wf(b, batch.store);
        }
    }
}

/// An investment in a cell that never received a measurement, registered or
/// not, is refused for want of data, and one in a cell whose latest
/// measurement is more than the configured window of days old is refused as
/// too old. Both hold whatever the amount and the configured maturity are.
pub proof fn law_invest_needs_fresh_data(
    s: StoreView,
    now: u64,
    investor: Seq<char>,
    token: Seq<char>,
    amount: u128,
    cell: Seq<char>,
)
    requires
        s.config is Some,
        s.config->0.token == token,
        is_r3_input(cell),
    ensures
        ({
            let window = s.config->0.measurement_window;
            match latest_of(s, lower(cell)) {
                None => invested(s, now, investor, token, amount, cell) == Err::<
                    (StoreView, ResponseView),
                    ContractErrorView,
                >(ContractErrorView::NoDataPresent),
                Some(measure) => measure.time + window * SECONDS_PER_DAY < now ==> invested(
                    s,
                    now,
                    investor,
                    token,
                    amount,
                    cell,
                ) == Err::<(StoreView, ResponseView), ContractErrorView>(
                    ContractErrorView::DataTooOld { days: window },
                ),
            }
        }),
{
}

/// An investment that is accepted stands last in the list of its investor and
/// cell, behind what the list held. Its baseline is the value of the latest
/// measurement of the cell, it is dated `now`, and it matures the configured
/// number of days later. The location of the cell counts it. Nothing else
/// changes: the list of every other investor and cell, the location of every
/// other cell and the configuration are what they were.
pub proof fn law_invest_records_baseline_and_maturity(
    s: StoreView,
    now: u64,
    investor: Seq<char>,
    token: Seq<char>,
    amount: u128,
    cell: Seq<char>,
)
    requires
        s.wf(),
        invested(s, now, investor, token, amount, cell) is Ok,
    ensures
        ({
            let t = invested(s, now, investor, token, amount, cell)->Ok_0.0;
            let hex = lower(cell);
            let cfg = s.config->0;
            &&& t.wf()
            &&& t.config == s.config
            &&& s.location_of(hex) is Some
            &&& s.location_of(hex)->0.cur_index is Some
            &&& now + cfg.maturity_days * SECONDS_PER_DAY <= u64::MAX
            &&& t.location_of(hex) == Some(s.location_of(hex)->0.with_investment(amount))
            &&& t.investments_of(investor, hex) is Some
            &&& t.investments_of(investor, hex)->0.len() > 0
            &&& t.investments_of(investor, hex)->0.last() == Investment {
                amount,
                baseline_index: s.location_of(hex)->0.cur_index->0.value,
                invested_time: now,
                maturity_time: (now + cfg.maturity_days * SECONDS_PER_DAY) as u64,
            }
            &&& t.investments_of(investor, hex)->0.drop_last() == match s.investments_of(
                investor,
                hex,
            ) {
                Some(list) => list,
                None => Seq::empty(),
            }
            &&& forall|other_investor: Seq<char>, other_hex: Seq<char>|
                !(other_investor == investor && other_hex == hex) ==> #[trigger] t.investments_of(
                    other_investor,
                    other_hex,
                ) == s.investments_of(other_investor, other_hex)
            &&& forall|other_hex: Seq<char>|
                other_hex != hex ==> #[trigger] t.location_of(other_hex) == s.location_of(
                    other_hex,
                )
        }),
{
    let t = invested(s, now, investor, token, amount, cell)->Ok_0.0;
    let hex = lower(cell);
    let cfg = s.config->0;
    let j = s.location_index(hex);
    let loc = s.locations[j].location;
    lemma_location_at(s, j);
    let counted = loc.with_investment(amount);
    let s1 = s.with_location(hex, counted);
    assert(s1 == s.with_location_at(j, counted));
    lemma_with_location(s, hex, counted, hex);
    let inv = Investment {
        amount,
        baseline_index: loc.cur_index->0.value,
        invested_time: now,
        maturity_time: (now + cfg.maturity_days * SECONDS_PER_DAY) as u64,
    };
    let list = match s1.investments_of(investor, hex) {
        Some(list) => list.push(inv),
        None => seq![inv],
    };
    assert(t == s1.with_investments(investor, hex, list));
    assert(s1.has_location(hex)) by {
        assert(s1.locations[j].hex == hex);
    }
    lemma_with_investments(s1, investor, hex, list, investor, hex);
    assert forall|other_investor: Seq<char>, other_hex: Seq<char>|
        !(other_investor == investor && other_hex == hex) implies #[trigger] t.investments_of(
        other_investor,
        other_hex,
    ) == s.investments_of(other_investor, other_hex) by {
        lemma_with_investments(s1, investor, hex, list, other_investor, other_hex);
    }
    assert forall|other_hex: Seq<char>| other_hex != hex implies #[trigger] t.location_of(
        other_hex,
    ) == s.location_of(other_hex) by {
        lemma_with_location(s, hex, counted, other_hex);
    }
}

/// At all times the open figures of every cell lie within its lifetime
/// figures: what is invested now is no more than what was ever invested, and
/// no more investments are open than were ever made.
pub proof fn law_open_figures_within_lifetime(s: StoreView, hex: Seq<char>)
    requires
        s.wf(),
        s.location_of(hex) is Some,
    ensures
        s.location_of(hex)->0.current_invested <= s.location_of(hex)->0.total_invested,
        s.location_of(hex)->0.current_investments <= s.location_of(hex)->0.total_investments,
{
}

/// The lists of one investor stand in strictly ascending order of cell,
/// which is the order of the cells as texts: the order in which a scan of the
/// stored keys of the investor meets them.
pub proof fn law_cells_of_investor_ascend(s: StoreView, i: int, k: int)
    requires
        s.wf(),
        0 <= i < k < s.investments.len(),
        s.investments[i].investor == s.investments[k].investor,
    ensures
        r3_value(s.investments[i].hex) < r3_value(s.investments[k].hex),
        comes_before(s.investments[i].hex, s.investments[k].hex),
{
    if r3_value(s.investments[i].hex) == r3_value(s.investments[k].hex) {
        lemma_r3_value_injective(s.investments[i].hex, s.investments[k].hex);
    }
    lemma_cell_order_is_text_order(s.investments[i].hex, s.investments[k].hex);
}

/// The sum of the rewards that the investments of `list` yield at `now`, when
/// `latest` is the latest measurement of their cell.
pub open spec fn rewards_paid(
    list: Seq<Investment>,
    now: u64,
    latest: Option<Measurement>,
    window: u64,
) -> nat
    decreases list.len(),
{
    if list.len() == 0 {
        0
    } else {
        rewards_paid(list.drop_last(), now, latest, window) + match reward_at(
            list.last(),
            now,
            latest,
            window,
        ) {
            Ok(Some(reward)) => reward as nat,
            _ => 0,
        }
    }
}

/// The sum of what was invested in the investments of `list` that yield a
/// reward at `now`.
pub open spec fn principal_paid(
    list: Seq<Investment>,
    now: u64,
    latest: Option<Measurement>,
    window: u64,
) -> nat
    decreases list.len(),
{
    if list.len() == 0 {
        0
    } else {
        principal_paid(list.drop_last(), now, latest, window) + match reward_at(
            list.last(),
            now,
            latest,
            window,
        ) {
            Ok(Some(_)) => list.last().amount as nat,
            _ => 0,
        }
    }
}

/// How many investments of `list` yield a reward at `now`.
pub open spec fn count_paid(
    list: Seq<Investment>,
    now: u64,
    latest: Option<Measurement>,
    window: u64,
) -> nat
    decreases list.len(),
{
    if list.len() == 0 {
        0
    } else {
        count_paid(list.drop_last(), now, latest, window) + match reward_at(
            list.last(),
            now,
            latest,
            window,
        ) {
            Ok(Some(_)) => 1nat,
            _ => 0,
        }
    }
}

/// A settlement tallies the rewards, the principal and the number of exactly
/// the investments that yield a reward.
pub proof fn law_settlement_tallies_what_is_paid(
    list: Seq<Investment>,
    now: u64,
    loc: Location,
    window: u64,
    hex: Seq<char>,
    investor: Seq<char>,
)
    requires
        settled(list, now, loc, window, hex, investor) is Ok,
    ensures
        ({
            let t = settled(list, now, loc, window, hex, investor)->Ok_0;
            &&& t.payout == rewards_paid(list, now, loc.cur_index, window)
            &&& t.principal == principal_paid(list, now, loc.cur_index, window)
            &&& t.count == count_paid(list, now, loc.cur_index, window)
            &&& t.count <= list.len()
        }),
    decreases list.len(),
{
    if list.len() > 0 {
        law_settlement_tallies_what_is_paid(list.drop_last(), now, loc, window, hex, investor);
    }
}

/// A settlement keeps exactly the investments that stay open, in their
/// order, and tallies one event for each of the others.
pub proof fn law_settlement_keeps_what_stays_open(
    list: Seq<Investment>,
    now: u64,
    loc: Location,
    window: u64,
    hex: Seq<char>,
    investor: Seq<char>,
)
    requires
        settled(list, now, loc, window, hex, investor) is Ok,
    ensures
        ({
            let t = settled(list, now, loc, window, hex, investor)->Ok_0;
            &&& t.kept == list.filter(stays_open(now, loc.cur_index, window))
            &&& t.kept.len() + t.count == list.len()
            &&& t.events.len() == t.count
        }),
    decreases list.len(),
{
    reveal(Seq::filter);
    if list.len() > 0 {
        law_settlement_keeps_what_stays_open(list.drop_last(), now, loc, window, hex, investor);
    }
}

/// A list in which every investment stays open is settled to itself, with
/// nothing tallied.
pub proof fn law_settlement_of_open_investments(
    list: Seq<Investment>,
    now: u64,
    loc: Location,
    window: u64,
    hex: Seq<char>,
    investor: Seq<char>,
)
    requires
        forall|k: int|
            0 <= k < list.len() ==> reward_of(#[trigger] list[k], now, loc, window) == Ok::<
                Option<u128>,
                ContractErrorView,
            >(None),
    ensures
        settled(list, now, loc, window, hex, investor) == Ok::<Tally, ContractErrorView>(
            Tally { kept: list, payout: 0, principal: 0, count: 0, events: Seq::empty() },
        ),
    decreases list.len(),
{
    if list.len() > 0 {
        let front = list.drop_last();
        law_settlement_of_open_investments(front, now, loc, window, hex, investor);
        assert(front.push(list.last()) =~= list);
    } else {
        assert(list =~= Seq::empty());
    }
}

/// The state `t` holds the cells and the keys of the state `s` in the same
/// places, with the same configuration, measurements and lifetime figures.
pub open spec fn same_cells(s: StoreView, t: StoreView) -> bool {
    &&& t.config == s.config
    &&& t.locations.len() == s.locations.len()
    &&& forall|j: int|
        0 <= j < s.locations.len() ==> {
            &&& (#[trigger] t.locations[j]).hex == s.locations[j].hex
            &&& t.locations[j].location.cur_index == s.locations[j].location.cur_index
            &&& t.locations[j].location.total_invested == s.locations[j].location.total_invested
            &&& t.locations[j].location.total_investments
                == s.locations[j].location.total_investments
        }
    &&& t.investments.len() == s.investments.len()
    &&& forall|i: int|
        0 <= i < s.investments.len() ==> (#[trigger] t.investments[i]).investor
            == s.investments[i].investor && t.investments[i].hex == s.investments[i].hex
}

/// The list at place `i` of the state `s` after a withdrawal of `investor`
/// at `now`: a list of the investor keeps what stays open, a list of anyone
/// else is untouched.
pub open spec fn list_after_withdrawal(s: StoreView, i: int, investor: Seq<char>, now: u64) -> Seq<
    Investment,
> {
    let part = s.investments[i];
    if part.investor == investor {
        part.investments.filter(
            stays_open(
                now,
                s.location_of(part.hex)->0.cur_index,
                s.config->0.measurement_window,
            ),
        )
    } else {
        part.investments
    }
}

/// The location at place `j` of the state `s` after the first `n` lists were
/// looked at in a withdrawal of `investor` at `now`: if the list of the
/// investor in that cell is among them, the location has given up what that
/// list paid; else it is untouched.
pub open spec fn location_after_lists(
    s: StoreView,
    j: int,
    n: nat,
    investor: Seq<char>,
    now: u64,
) -> Location {
    let entry = s.locations[j];
    let window = s.config->0.measurement_window;
    if s.has_partition(investor, entry.hex) && s.partition_index(investor, entry.hex) < n {
        let list = s.investments[s.partition_index(investor, entry.hex)].investments;
        entry.location.with_finished(
            principal_paid(list, now, entry.location.cur_index, window) as u128,
            count_paid(list, now, entry.location.cur_index, window) as u64,
        )
    } else {
        entry.location
    }
}

/// What the list of `investor` in the cell at place `j` pays at `now`, if it
/// is among the first `n` lists of the state `s`, lies within the open figures
/// of the cell: its principal is no more than what is invested there now, and
/// it counts no more investments than are open there.
pub open spec fn paid_within_open_figures(
    s: StoreView,
    j: int,
    n: nat,
    investor: Seq<char>,
    now: u64,
) -> bool {
    let entry = s.locations[j];
    let window = s.config->0.measurement_window;
    s.has_partition(investor, entry.hex) && s.partition_index(investor, entry.hex) < n ==> {
        let list = s.investments[s.partition_index(investor, entry.hex)].investments;
        &&& principal_paid(list, now, entry.location.cur_index, window)
            <= entry.location.current_invested
        &&& count_paid(list, now, entry.location.cur_index, window)
            <= entry.location.current_investments
    }
}

/// The location at place `j` of the state `s` after a withdrawal of
/// `investor` at `now`: it has given up what the list of the investor in that
/// cell paid, if there is such a list.
pub open spec fn location_after_withdrawal(
    s: StoreView,
    j: int,
    investor: Seq<char>,
    now: u64,
) -> Location {
    location_after_lists(s, j, s.investments.len(), investor, now)
}

/// The sum of the rewards that the first `n` lists of the state pay to
/// `investor` at `now`.
pub open spec fn total_paid(s: StoreView, n: nat, investor: Seq<char>, now: u64) -> nat
    decreases n,
{
    if n == 0 {
        0
    } else {
        let part = s.investments[n - 1];
        total_paid(s, (n - 1) as nat, investor, now) + if part.investor == investor {
            rewards_paid(
                part.investments,
                now,
                s.location_of(part.hex)->0.cur_index,
                s.config->0.measurement_window,
            )
        } else {
            0
        }
    }
}

/// What holds of a withdrawal after its first `n` lists.
pub proof fn lemma_withdrawn_upto(s: StoreView, n: nat, investor: Seq<char>, now: u64)
    requires
        s.wf(),
        s.config is Some,
        n <= s.investments.len(),
        withdrawn_upto(s, n, investor, now, s.config->0.measurement_window) is Ok,
    ensures
        ({
            let p = withdrawn_upto(s, n, investor, now, s.config->0.measurement_window)->Ok_0;
            &&& p.store.wf()
            &&& same_cells(s, p.store)
            &&& forall|i: int|
                n <= i < s.investments.len() ==> (#[trigger] p.store.investments[i])
                    == s.investments[i]
            &&& forall|i: int|
                0 <= i < n ==> (#[trigger] p.store.investments[i]).investments
                    == list_after_withdrawal(s, i, investor, now)
            &&& forall|j: int|
                0 <= j < s.locations.len() ==> (#[trigger] p.store.locations[j]).location
                    == location_after_lists(s, j, n, investor, now)
            &&& forall|j: int|
                0 <= j < s.locations.len() ==> #[trigger] paid_within_open_figures(
                    s,
                    j,
                    n,
                    investor,
                    now,
                )
            &&& p.total == total_paid(s, n, investor, now)
        }),
    decreases n,
{
    let window = s.config->0.measurement_window;
    if n > 0 {
        let m = (n - 1) as nat;
        lemma_withdrawn_upto(s, m, investor, now);
        let q = withdrawn_upto(s, m, investor, now, window)->Ok_0;
        let p = withdrawn_upto(s, n, investor, now, window)->Ok_0;
        let part = s.investments[n - 1];
        if part.investor == investor {
            let j = q.store.location_index(part.hex);
            let loc = q.store.locations[j].location;
            lemma_location_at(s, j);
            let t = settled(part.investments, now, loc, window, part.hex, investor)->Ok_0;
            law_settlement_keeps_what_stays_open(
                part.investments,
                now,
                loc,
                window,
                part.hex,
                investor,
            );
            law_settlement_tallies_what_is_paid(
                part.investments,
                now,
                loc,
                window,
                part.hex,
                investor,
            );
            lemma_partition_at(s, n - 1);
            let gone = loc.with_finished(t.principal, t.count as u64);
            let q1 = q.store.with_location_at(j, gone);
            lemma_same_keys_wf(q.store, q1);
            lemma_same_keys_wf(q1, p.store);
            assert(loc == location_after_lists(s, j, m, investor, now));
            assert forall|jj: int|
                0 <= jj < s.locations.len() implies #[trigger] paid_within_open_figures(
                s,
                jj,
                n,
                investor,
                now,
            ) by {
                assert(paid_within_open_figures(s, jj, m, investor, now));
                if jj != j && s.has_partition(investor, s.locations[jj].hex) {
                    let i = s.partition_index(investor, s.locations[jj].hex);
                    assert(s.investments[i].hex == s.locations[jj].hex);
                    assert(s.locations[jj].hex != s.locations[j].hex);
                }
            }
        } else {
            assert forall|jj: int|
                0 <= jj < s.locations.len() implies #[trigger] paid_within_open_figures(
                s,
                jj,
                n,
                investor,
                now,
            ) by {
                assert(paid_within_open_figures(s, jj, m, investor, now));
                if s.has_partition(investor, s.locations[jj].hex) {
                    let i = s.partition_index(investor, s.locations[jj].hex);
                    assert(s.investments[i].investor == investor);
                }
            }
        }
    }
}

/// Nothing of `investor` yields a reward at `now`: every investment in every
/// list of the investor stays open.
pub open spec fn nothing_to_settle(s: StoreView, investor: Seq<char>, now: u64) -> bool {
    forall|i: int, k: int|
        0 <= i < s.investments.len() && s.investments[i].investor == investor && 0 <= k
            < s.investments[i].investments.len() ==> reward_at(
            #[trigger] s.investments[i].investments[k],
            now,
            s.location_of(s.investments[i].hex)->0.cur_index,
            s.config->0.measurement_window,
        ) == Ok::<Option<u128>, ContractErrorView>(None)
}

/// A withdrawal that finds nothing to settle in the first `n` lists has
/// changed nothing after them.
pub proof fn lemma_nothing_withdrawn_upto(s: StoreView, n: nat, investor: Seq<char>, now: u64)
    requires
        s.wf(),
        s.config is Some,
        n <= s.investments.len(),
        nothing_to_settle(s, investor, now),
    ensures
        withdrawn_upto(s, n, investor, now, s.config->0.measurement_window) == Ok::<
            Settlement,
            ContractErrorView,
        >(Settlement { store: s, events: Seq::empty(), total: 0 }),
    decreases n,
{
    let window = s.config->0.measurement_window;
    if n > 0 {
        lemma_nothing_withdrawn_upto(s, (n - 1) as nat, investor, now);
        let part = s.investments[n - 1];
        if part.investor == investor {
            let j = s.location_index(part.hex);
            let loc = s.locations[j].location;
            lemma_location_at(s, j);
            law_settlement_of_open_investments(
                part.investments,
                now,
                loc,
                window,
                part.hex,
                investor,
            );
            let s1 = s.with_location_at(j, loc);
            assert(s1.locations =~= s.locations);
            let s2 = s.with_investments_at(n - 1, part.investments);
            assert(s2.investments =~= s.investments);
        }
    }
}

/// A withdrawal that finds nothing to settle changes nothing: the state stays
/// as it was, lists and aggregates alike, and the answer holds no event and no
/// transfer.
pub proof fn law_withdrawal_without_reward_changes_nothing(
    s: StoreView,
    investor: Seq<char>,
    now: u64,
)
    requires
        s.wf(),
        s.config is Some,
        nothing_to_settle(s, investor, now),
    ensures
        withdrawn(s, investor, now) == Ok::<(StoreView, ResponseView), ContractErrorView>(
            (s, ResponseView::empty()),
        ),
{
    lemma_nothing_withdrawn_upto(s, s.investments.len(), investor, now);
}

/// A withdrawal settles, in one call, every investment of the investor that
/// yields a reward, in all cells: each list of the investor keeps exactly what
/// stays open, and the lists of others are untouched. The location of each
/// cell gives up the principal and the number of what its list paid, both of
/// which lie within the open figures of the cell: what is invested there now
/// falls by the principal paid, and the number of open investments by their
/// number. The withdrawal changes no key, no measurement and no lifetime
/// figure, and it
/// leaves the state well formed. The answer holds a transfer if and only if
/// the rewards sum to more than zero, and then exactly one: it pays the whole
/// sum from the configured token to the investor. A second withdrawal at the
/// same time finds nothing to settle.
pub proof fn law_withdrawal_settles_all(s: StoreView, investor: Seq<char>, now: u64)
    requires
        s.wf(),
        withdrawn(s, investor, now) is Ok,
    ensures
        ({
            let t = withdrawn(s, investor, now)->Ok_0.0;
            let answer = withdrawn(s, investor, now)->Ok_0.1;
            &&& t.wf()
            &&& same_cells(s, t)
            &&& forall|i: int|
                0 <= i < s.investments.len() ==> (#[trigger] t.investments[i]).investments
                    == list_after_withdrawal(s, i, investor, now)
            &&& forall|j: int|
                0 <= j < s.locations.len() ==> (#[trigger] t.locations[j]).location
                    == location_after_withdrawal(s, j, investor, now)
            &&& forall|j: int|
                0 <= j < s.locations.len() ==> #[trigger] paid_within_open_figures(
                    s,
                    j,
                    s.investments.len(),
                    investor,
                    now,
                )
            &&& total_paid(s, s.investments.len(), investor, now) <= u128::MAX
            &&& answer.messages.len() == 1 <==> total_paid(s, s.investments.len(), investor, now)
                > 0
            &&& answer.messages.len() == 1 ==> answer.messages[0].amount == total_paid(
                s,
                s.investments.len(),
                investor,
                now,
            )
            &&& answer.messages.len() <= 1
            &&& answer.messages.len() == 1 ==> {
                &&& answer.messages[0].contract_addr == s.config->0.token
                &&& answer.messages[0].recipient == investor
                &&& answer.messages[0].amount > 0
                &&& answer.events.len() > 0
                &&& answer.events.last() == (EventView::WithdrawTotal {
                    amount: answer.messages[0].amount,
                    investor,
                })
            }
            &&& answer.messages.len() == 0 ==> answer == ResponseView::empty()
            &&& nothing_to_settle(t, investor, now)
            &&& withdrawn(t, investor, now) == Ok::<(StoreView, ResponseView), ContractErrorView>(
                (t, ResponseView::empty()),
            )
        }),
{
    lemma_withdrawn_upto(s, s.investments.len(), investor, now);
    let t = withdrawn(s, investor, now)->Ok_0.0;
    law_withdrawal_without_reward_changes_nothing(t, investor, now);
}

} // verus!
