//! What the contract answers about its state.

use crate::invest::error::{result_view, ContractError, ContractErrorView};
use crate::invest::msg::{
    response_views, shown, ConfigResponse, InfoResponse, InvestmentResponse,
    InvestmentResponseView, ListInvestmentsResponse,
};
use crate::invest::r3::{is_r3_input, lower, validate_r3};
use crate::invest::state::{Config, Investment, Location};
use crate::invest::store::{lemma_location_at, lemma_partition_at, Store, StoreView};
use vstd::prelude::*;

verus! {

/// The information on the cell written `cell`.
pub open spec fn info_of(s: StoreView, cell: Seq<char>) -> Result<InfoResponse, ContractErrorView> {
    if !is_r3_input(cell) {
        Err(ContractErrorView::InvalidR3(cell))
    } else {
        match s.location_of(lower(cell)) {
            None => Err(ContractErrorView::not_found("Location"@)),
            Some(loc) => Ok(InfoResponse::of(loc)),
        }
    }
}

/// The investments of one list as they are shown, in their order.
pub open spec fn shown_list(
    list: Seq<Investment>,
    hex: Seq<char>,
    now: u64,
    loc: Location,
    window: u64,
) -> Seq<InvestmentResponseView> {
    Seq::new(list.len(), |k: int| shown(list[k], hex, now, loc, window))
}

/// The investments of `investor` in the first `n` lists of the state, as they
/// are shown: list after list, each against the location of its cell. A cell
/// without location leaves the listing undefined.
pub open spec fn listed_upto(
    s: StoreView,
    n: nat,
    investor: Seq<char>,
    now: u64,
    window: u64,
) -> Result<Seq<InvestmentResponseView>, ContractErrorView>
    decreases n,
{
    if n == 0 {
        Ok(Seq::empty())
    } else {
        match listed_upto(s, (n - 1) as nat, investor, now, window) {
            Err(e) => Err(e),
            Ok(rows) => {
                let part = s.investments[n - 1];
                if part.investor != investor {
                    Ok(rows)
                } else {
                    match s.location_of(part.hex) {
                        None => Err(ContractErrorView::not_found("Location"@)),
                        Some(loc) => Ok(
                            rows + shown_list(part.investments, part.hex, now, loc, window),
                        ),
                    }
                }
            },
        }
    }
}

/// The investments of `investor` as they are shown at `now`: those of the one
/// cell written `cell`, or, without one, those of all cells in ascending order
/// of cell.
pub open spec fn listed(
    s: StoreView,
    now: u64,
    investor: Seq<char>,
    cell: Option<Seq<char>>,
) -> Result<Seq<InvestmentResponseView>, ContractErrorView> {
    if cell is Some && !is_r3_input(cell->0) {
        Err(ContractErrorView::InvalidR3(cell->0))
    } else {
        match s.config {
            None => Err(ContractErrorView::not_found("Config"@)),
            Some(cfg) => match cell {
                Some(c) => match s.location_of(lower(c)) {
                    None => Err(ContractErrorView::not_found("Location"@)),
                    Some(loc) => match s.investments_of(investor, lower(c)) {
                        None => Err(ContractErrorView::not_found("Investments"@)),
                        Some(list) => Ok(
                            shown_list(list, lower(c), now, loc, cfg.measurement_window),
                        ),
                    },
                },
                None => listed_upto(
                    s,
                    s.investments.len(),
                    investor,
                    now,
                    cfg.measurement_window,
                ),
            },
        }
    }
}

/// A listing that is undefined after `n` lists is undefined, with the same
/// error, after any more.
pub proof fn lemma_listed_error_stays(
    s: StoreView,
    n: nat,
    m: nat,
    investor: Seq<char>,
    now: u64,
    window: u64,
)
    requires
        n <= m,
    ensures
        listed_upto(s, n, investor, now, window) is Err ==> listed_upto(
            s,
            m,
            investor,
            now,
            window,
        ) == listed_upto(s, n, investor, now, window),
    decreases m,
{
    if n < m {
        lemma_listed_error_stays(s, n, (m - 1) as nat, investor, now, window);
    }
}

/// The stored configuration.
pub fn query_config(store: &Store) -> (r: Result<ConfigResponse, ContractError>)
    ensures
        match store@.config {
            Some(c) => r matches Ok(cfg) && cfg@ == c,
            None => result_view(r) == Err::<ConfigResponse, ContractErrorView>(
                ContractErrorView::not_found("Config"@),
            ),
        },
{
    match store.config() {
        Some(cfg) => Ok(cfg.clone()),
        None => Err(ContractError::not_found("Config")),
    }
}

/// The latest measurement and the investment figures of the cell `hex`.
pub fn query_info(store: &Store, hex: String) -> (r: Result<InfoResponse, ContractError>)
    requires
        store@.wf(),
    ensures
        result_view(r) == info_of(store@, hex@),
{
    let hex = validate_r3(hex)?;
    match store.location_index(&hex) {
        None => Err(ContractError::not_found("Location")),
        Some(j) => {
            proof {
                lemma_location_at(store@, j as int);
            }
            let info = store.location_at(j);
            Ok(
                InfoResponse {
                    cur_index: info.cur_index,
                    total_invested: info.total_invested,
                    current_invested: info.current_invested,
                    total_investments: info.total_investments,
                    current_investments: info.current_investments,
                },
            )
        },
    }
}

/// Appends to `rows` the investments of `list` as they are shown.
fn show_list(
    rows: &mut Vec<InvestmentResponse>,
    list: &Vec<Investment>,
    hex: &String,
    cfg: &Config,
    loc: &Location,
    now: u64,
)
    ensures
        response_views(final(rows)@) == response_views(old(rows)@) + shown_list(
            list@,
            hex@,
            now,
            *loc,
            cfg.measurement_window,
        ),
{
    let n = list.len();
    let mut k: usize = 0;
    while k < n
        invariant
            n == list@.len(),
            k <= n,
            response_views(rows@) == response_views(old(rows)@) + shown_list(
                list@,
                hex@,
                now,
                *loc,
                cfg.measurement_window,
            ).take(k as int),
        decreases n - k,
    {
        let ghost before = rows@;
        let row = InvestmentResponse::new(list[k], hex.clone(), cfg, loc, now);
        rows.push(row);
        assert(response_views(rows@) =~= response_views(before).push(row@));
        k += 1;
    }
}

/// Lists the investments of `investor`, of the cell `hex` or of all cells.
pub fn list_investments(store: &Store, now: u64, investor: String, hex: Option<String>) -> (r:
    Result<ListInvestmentsResponse, ContractError>)
    requires
        store@.wf(),
    ensures
        match listed(
            store@,
            now,
            investor@,
            match hex {
                Some(h) => Some(h@),
                None => None,
            },
        ) {
            Ok(rows) => r matches Ok(resp) && response_views(resp.investments@) == rows,
            Err(e) => result_view(r) == Err::<ListInvestmentsResponse, ContractErrorView>(e),
        },
{
    let cell = match hex {
        Some(h) => Some(validate_r3(h)?),
        None => None,
    };
    let cfg = match store.config() {
        Some(cfg) => cfg,
        None => {
            return Err(ContractError::not_found("Config"));
        },
    };
    let mut investments: Vec<InvestmentResponse> = Vec::new();
    assert(response_views(investments@) =~= Seq::empty());
    match cell {
        Some(hex) => {
            let j = match store.location_index(&hex) {
                Some(j) => j,
                None => {
                    return Err(ContractError::not_found("Location"));
                },
            };
            let i = match store.partition_index(&investor, &hex) {
                Some(i) => i,
                None => {
                    return Err(ContractError::not_found("Investments"));
                },
            };
            proof {
                lemma_location_at(store@, j as int);
                lemma_partition_at(store@, i as int);
            }
            let loc = store.location_at(j);
            show_list(&mut investments, store.investments_at(i), &hex, cfg, &loc, now);
        },
        None => {
            let n = store.partition_count();
            let mut i: usize = 0;
            while i < n
                invariant
                    n == store@.investments.len(),
                    i <= n,
                    store@.wf(),
                    store@.config == Some(cfg@),
                    hex is None,
                    listed_upto(store@, i as nat, investor@, now, cfg.measurement_window) == Ok::<
                        Seq<InvestmentResponseView>,
                        ContractErrorView,
                    >(response_views(investments@)),
                decreases n - i,
            {
                proof {
                    lemma_listed_error_stays(
                        store@,
                        (i + 1) as nat,
                        n as nat,
                        investor@,
                        now,
                        cfg.measurement_window,
                    );
                }
                if *store.partition_investor_at(i) == investor {
                    let hex = store.partition_hex_at(i);
                    let j = match store.location_index(hex) {
                        Some(j) => j,
                        None => {
                            return Err(ContractError::not_found("Location"));
                        },
                    };
                    proof {
                        lemma_location_at(store@, j as int);
                    }
                    let loc = store.location_at(j);
                    show_list(&mut investments, store.investments_at(i), hex, cfg, &loc, now);
                }
                i += 1;
            }
        },
    }
    Ok(ListInvestmentsResponse { investments })
}

} // verus!
