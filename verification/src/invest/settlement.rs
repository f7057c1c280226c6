//! Withdrawal settlement: every investment of an investor is put to the
//! reward rule; what yields a reward is paid in one transfer and leaves the
//! ledger, what does not stays.

use crate::invest::error::{result_view, ContractError, ContractErrorView};
use crate::invest::outcome::{follows, Outcome};
use crate::invest::response::{event_views, Event, EventView, Response, ResponseView};
use crate::invest::state::{reward_of, Config, Investment, Location};
use crate::invest::store::{lemma_location_at, Store, StoreView};
use crate::platform::{OverflowOperation, Transfer, TransferView};
use vstd::prelude::*;

verus! {

/// What settling one list of investments yields.
pub struct Tally {
    /// The investments that stay open, in their order.
    pub kept: Seq<Investment>,
    /// The sum of the rewards of the others.
    pub payout: u128,
    /// The sum of what the others had invested.
    pub principal: u128,
    /// How many the others are.
    pub count: nat,
    /// One event for each of the others, in their order.
    pub events: Seq<EventView>,
}

/// Settles the list of `investor` in the cell `hex`, whose location is `loc`.
/// Each investment is put to the reward rule: without a reward yet it stays,
/// with a reward it leaves the list and is tallied. An undefined reward, or a
/// sum that does not fit in 128 bits, leaves the settlement undefined.
pub open spec fn settled(
    list: Seq<Investment>,
    now: u64,
    loc: Location,
    window: u64,
    hex: Seq<char>,
    investor: Seq<char>,
) -> Result<Tally, ContractErrorView>
    decreases list.len(),
{
    if list.len() == 0 {
        Ok(Tally { kept: Seq::empty(), payout: 0, principal: 0, count: 0, events: Seq::empty() })
    } else {
        match settled(list.drop_last(), now, loc, window, hex, investor) {
            Err(e) => Err(e),
            Ok(t) => match reward_of(list.last(), now, loc, window) {
                Err(e) => Err(e),
                Ok(None) => Ok(
                    Tally {
                        kept: t.kept.push(list.last()),
                        payout: t.payout,
                        principal: t.principal,
                        count: t.count,
                        events: t.events,
                    },
                ),
                Ok(Some(reward)) => {
                    if t.payout + reward > u128::MAX || t.principal + list.last().amount
                        > u128::MAX {
                        Err(ContractErrorView::overflow(OverflowOperation::Add))
                    } else {
                        Ok(
                            Tally {
                                kept: t.kept,
                                payout: (t.payout + reward) as u128,
                                principal: (t.principal + list.last().amount) as u128,
                                count: t.count + 1,
                                events: t.events.push(
                                    EventView::Withdraw {
                                        invested: list.last().amount,
                                        payout: reward,
                                        hex,
                                        investor,
                                    },
                                ),
                            },
                        )
                    }
                },
            },
        }
    }
}

/// A settled list as the contract holds it.
pub struct Settled {
    pub kept: Vec<Investment>,
    pub payout: u128,
    pub principal: u128,
    pub count: u64,
    pub events: Vec<Event>,
}

impl View for Settled {
    type V = Tally;

    open spec fn view(&self) -> Tally {
        Tally {
            kept: self.kept@,
            payout: self.payout,
            principal: self.principal,
            count: self.count as nat,
            events: event_views(self.events@),
        }
    }
}

/// The event for one settled investment.
pub fn withdraw_event(hex: &String, sender: &String, invest: &Investment, reward: u128) -> (event:
    Event)
    ensures
        event@ == (EventView::Withdraw {
            invested: invest.amount,
            payout: reward,
            hex: hex@,
            investor: sender@,
        }),
{
    Event::Withdraw {
        invested: invest.amount,
        payout: reward,
        hex: hex.clone(),
        investor: sender.clone(),
    }
}

/// Settles one list of investments against the location of its cell.
pub fn settle(
    list: &Vec<Investment>,
    now: u64,
    loc: &Location,
    cfg: &Config,
    hex: &String,
    sender: &String,
) -> (r: Result<Settled, ContractError>)
    ensures
        match settled(list@, now, *loc, cfg.measurement_window, hex@, sender@) {
            Ok(t) => r matches Ok(done) && done@ == t,
            Err(e) => result_view(r) == Err::<Settled, ContractErrorView>(e),
        },
{
    let mut kept: Vec<Investment> = Vec::new();
    let mut events: Vec<Event> = Vec::new();
    let mut payout: u128 = 0;
    let mut principal: u128 = 0;
    let mut count: u64 = 0;
    let n = list.len();
    let mut k: usize = 0;
    assert(event_views(events@) =~= Seq::empty());
    while k < n
        invariant
            n == list@.len(),
            k <= n,
            count <= k,
            settled(list@.take(k as int), now, *loc, cfg.measurement_window, hex@, sender@) == Ok::<
                Tally,
                ContractErrorView,
            >(
                Tally {
                    kept: kept@,
                    payout,
                    principal,
                    count: count as nat,
                    events: event_views(events@),
                },
            ),
        decreases n - k,
    {
        let invest = list[k];
        proof {
            let next = list@.take(k as int + 1);
            assert(next.drop_last() =~= list@.take(k as int));
            lemma_settled_error_stays(
                list@,
                k as int + 1,
                now,
                *loc,
                cfg.measurement_window,
                hex@,
                sender@,
            );
        }
        match invest.reward(now, loc, cfg)? {
            Some(reward) => {
                let event = withdraw_event(hex, sender, &invest, reward);
                let ghost before = events@;
                events.push(event);
                assert(event_views(events@) =~= event_views(before).push(event@));
                payout = match payout.checked_add(reward) {
                    Some(sum) => sum,
                    None => {
                        return Err(ContractError::overflow(OverflowOperation::Add));
                    },
                };
                principal = match principal.checked_add(invest.amount) {
                    Some(sum) => sum,
                    None => {
                        return Err(ContractError::overflow(OverflowOperation::Add));
                    },
                };
                count += 1;
            },
            None => {
                kept.push(invest);
            },
        }
        k += 1;
    }
    assert(list@.take(n as int) =~= list@);
    Ok(Settled { kept, payout, principal, count, events })
}

/// A settlement that is undefined for the first `k` investments of a list is
/// undefined, with the same error, for the whole list.
pub proof fn lemma_settled_error_stays(
    list: Seq<Investment>,
    k: int,
    now: u64,
    loc: Location,
    window: u64,
    hex: Seq<char>,
    investor: Seq<char>,
)
    requires
        0 <= k <= list.len(),
    ensures
        settled(list.take(k), now, loc, window, hex, investor) is Err ==> settled(
            list,
            now,
            loc,
            window,
            hex,
            investor,
        ) == settled(list.take(k), now, loc, window, hex, investor),
    decreases list.len(),
{
    if k < list.len() {
        assert(list.drop_last().take(k) =~= list.take(k));
        lemma_settled_error_stays(list.drop_last(), k, now, loc, window, hex, investor);
    } else {
        assert(list.take(k) =~= list);
    }
}

/// How far a withdrawal has come.
pub struct Settlement {
    /// The state with the lists settled so far.
    pub store: StoreView,
    /// The events of the investments settled so far.
    pub events: Seq<EventView>,
    /// The sum of their rewards.
    pub total: u128,
}

/// The withdrawal of `investor` after the first `n` lists of the state `s`
/// were looked at, in their order. A list of another investor is passed
/// over. A list of `investor` is settled against the location of its cell as
/// it stands then; the location gives up what was settled, and the list keeps
/// what stays open. The withdrawal is undefined where a cell has no location,
/// a settlement is undefined, a location holds less than what is taken from
/// it, or the sum of the rewards does not fit in 128 bits.
pub open spec fn withdrawn_upto(
    s: StoreView,
    n: nat,
    investor: Seq<char>,
    now: u64,
    window: u64,
) -> Result<Settlement, ContractErrorView>
    decreases n,
{
    if n == 0 {
        Ok(Settlement { store: s, events: Seq::empty(), total: 0 })
    } else {
        match withdrawn_upto(s, (n - 1) as nat, investor, now, window) {
            Err(e) => Err(e),
            Ok(p) => {
                let part = s.investments[n - 1];
                if part.investor != investor {
                    Ok(p)
                } else if !p.store.has_location(part.hex) {
                    Err(ContractErrorView::not_found("Location"@))
                } else {
                    let j = p.store.location_index(part.hex);
                    let loc = p.store.locations[j].location;
                    match settled(part.investments, now, loc, window, part.hex, investor) {
                        Err(e) => Err(e),
                        Ok(t) => {
                            if !(t.principal <= loc.current_invested && t.count
                                <= loc.current_investments) {
                                Err(ContractErrorView::overflow(OverflowOperation::Sub))
                            } else if p.total + t.payout > u128::MAX {
                                Err(ContractErrorView::overflow(OverflowOperation::Add))
                            } else {
                                Ok(
                                    Settlement {
                                        store: p.store.with_location_at(
                                            j,
                                            loc.with_finished(t.principal, t.count as u64),
                                        ).with_investments_at(n - 1, t.kept),
                                        events: p.events + t.events,
                                        total: (p.total + t.payout) as u128,
                                    },
                                )
                            }
                        },
                    }
                }
            },
        }
    }
}

/// What a withdrawal of `investor` at `now` does to a state and answers: all
/// lists of the investor are settled. Where that pays nothing, the answer is
/// empty. Otherwise it holds the events of the settled investments, one event
/// for the sum, and the one instruction that transfers the sum to the investor.
pub open spec fn withdrawn(s: StoreView, investor: Seq<char>, now: u64) -> Outcome {
    match s.config {
        None => Err(ContractErrorView::not_found("Config"@)),
        Some(cfg) => match withdrawn_upto(
            s,
            s.investments.len(),
            investor,
            now,
            cfg.measurement_window,
        ) {
            Err(e) => Err(e),
            Ok(done) => {
                if done.total == 0 {
                    Ok((done.store, ResponseView::empty()))
                } else {
                    Ok(
                        (
                            done.store,
                            ResponseView {
                                events: done.events.push(
                                    EventView::WithdrawTotal { amount: done.total, investor },
                                ),
                                messages: seq![
                                    TransferView {
                                        contract_addr: cfg.token,
                                        recipient: investor,
                                        amount: done.total,
                                    },
                                ],
                            },
                        ),
                    )
                }
            },
        },
    }
}

/// A withdrawal that is undefined after `n` lists is undefined, with the same
/// error, after any more.
pub proof fn lemma_withdrawn_error_stays(
    s: StoreView,
    n: nat,
    m: nat,
    investor: Seq<char>,
    now: u64,
    window: u64,
)
    requires
        n <= m,
    ensures
        withdrawn_upto(s, n, investor, now, window) is Err ==> withdrawn_upto(
            s,
            m,
            investor,
            now,
            window,
        ) == withdrawn_upto(s, n, investor, now, window),
    decreases m,
{
    if n < m {
        lemma_withdrawn_error_stays(s, n, (m - 1) as nat, investor, now, window);
    }
}

/// Pays out all investments of `sender` that yield a reward at `now`, over
/// all cells, and takes them off the ledger; the others stay.
pub fn withdraw(store: &mut Store, now: u64, sender: String) -> (r: Result<Response, ContractError>)
    requires
        old(store)@.wf(),
    ensures
        follows(old(store)@, final(store)@, r, withdrawn(old(store)@, sender@, now)),
        final(store)@.wf(),
{
    let mut work = store.clone();
    let cfg = match store.config() {
        None => {
            return Err(ContractError::not_found("Config"));
        },
        Some(cfg) => cfg,
    };
    let mut to_withdraw: u128 = 0;
    let mut events: Vec<Event> = Vec::new();
    let n = work.partition_count();
    let mut i: usize = 0;
    assert(event_views(events@) =~= Seq::empty());
    while i < n
        invariant
            n == old(store)@.investments.len(),
            n == work@.investments.len(),
            i <= n,
            *store == *old(store),
            store@.wf(),
            old(store)@.config == Some(cfg@),
            work@.wf(),
            forall|k: int| i <= k < n ==> work@.investments[k] == old(store)@.investments[k],
            withdrawn_upto(old(store)@, i as nat, sender@, now, cfg.measurement_window) == Ok::<
                Settlement,
                ContractErrorView,
            >(Settlement { store: work@, events: event_views(events@), total: to_withdraw }),
        decreases n - i,
    {
        proof {
            lemma_withdrawn_error_stays(
                old(store)@,
                (i + 1) as nat,
                n as nat,
                sender@,
                now,
                cfg.measurement_window,
            );
        }
        if *work.partition_investor_at(i) == sender {
            let hex = work.partition_hex_at(i).clone();
            let j = match work.location_index(&hex) {
                Some(j) => j,
                None => {
                    return Err(ContractError::not_found("Location"));
                },
            };
            proof {
                lemma_location_at(work@, j as int);
            }
            let mut loc = work.location_at(j);
            let mut done = settle(work.investments_at(i), now, &loc, cfg, &hex, &sender)?;
            loc.finish_investment(done.principal, done.count)?;
            to_withdraw = match to_withdraw.checked_add(done.payout) {
                Some(sum) => sum,
                None => {
                    return Err(ContractError::overflow(OverflowOperation::Add));
                },
            };
            work.set_location_at(j, loc);
            work.set_investments_at(i, done.kept);
            let ghost before = events@;
            let ghost added = done.events@;
            events.append(&mut done.events);
            assert(event_views(events@) =~= event_views(before) + event_views(added));
        }
        i += 1;
    }
    let resp = if to_withdraw == 0 {
        Response::new()
    } else {
        let transfer = Transfer {
            contract_addr: cfg.token.clone(),
            recipient: sender.clone(),
            amount: to_withdraw,
        };
        let total = Event::WithdrawTotal { amount: to_withdraw, investor: sender };
        let ghost before = events@;
        events.push(total);
        let mut messages: Vec<Transfer> = Vec::new();
        messages.push(transfer);
        let resp = Response { events, messages };
        assert(resp@.events =~= event_views(before).push(total@));
        assert(resp@.messages =~= seq![transfer@]);
        resp
    };
    *store = work;
    Ok(resp)
}

} // verus!
