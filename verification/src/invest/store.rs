//! What the contract keeps between calls: the configuration, one location per
//! registered cell, and per investor and cell the list of open investments.
//!
//! A `Store` starts empty and changes only through the operations below, which
//! keep its invariant: every cell is a normalized identifier, no key occurs
//! twice, every location keeps its open figures within its lifetime figures,
//! every list of investments is of a registered cell, and the lists stand in
//! ascending order of cell.

use crate::invest::error::{result_view, ContractError, ContractErrorView};
use crate::invest::r3::{is_r3, is_r3_input, lower, r3_index, r3_value, validate_r3};
use crate::invest::state::{Config, ConfigView, Investment, Location};
use vstd::prelude::*;

verus! {

/// One registered cell and its aggregates.
pub struct LocationView {
    pub hex: Seq<char>,
    pub location: Location,
}

/// The open investments of one investor in one cell, oldest first.
pub struct PartitionView {
    pub investor: Seq<char>,
    pub hex: Seq<char>,
    pub investments: Seq<Investment>,
}

/// The stored state as mathematical sequences.
pub struct StoreView {
    pub config: Option<ConfigView>,
    pub locations: Seq<LocationView>,
    pub investments: Seq<PartitionView>,
}

/// Where a list for `hex` goes among `parts`: before the first list of a cell
/// with a greater number, or at the end.
pub open spec fn insert_position(parts: Seq<PartitionView>, hex: Seq<char>) -> nat
    decreases parts.len(),
{
    if parts.len() == 0 {
        0
    } else if r3_value(parts[0].hex) > r3_value(hex) {
        0
    } else {
        1 + insert_position(parts.drop_first(), hex)
    }
}

impl StoreView {
    /// The state before initialization.
    pub open spec fn empty() -> StoreView {
        StoreView { config: None, locations: Seq::empty(), investments: Seq::empty() }
    }

    /// A location is stored for `hex`.
    pub open spec fn has_location(self, hex: Seq<char>) -> bool {
        exists|j: int| 0 <= j < self.locations.len() && (#[trigger] self.locations[j]).hex == hex
    }

    /// The place of the location stored for `hex`.
    pub open spec fn location_index(self, hex: Seq<char>) -> int {
        choose|j: int| 0 <= j < self.locations.len() && (#[trigger] self.locations[j]).hex == hex
    }

    /// The location stored for `hex`, if any.
    pub open spec fn location_of(self, hex: Seq<char>) -> Option<Location> {
        if self.has_location(hex) {
            Some(self.locations[self.location_index(hex)].location)
        } else {
            None
        }
    }

    /// A list of investments is stored for `investor` and `hex`.
    pub open spec fn has_partition(self, investor: Seq<char>, hex: Seq<char>) -> bool {
        exists|i: int|
            0 <= i < self.investments.len() && (#[trigger] self.investments[i]).investor
                == investor && self.investments[i].hex == hex
    }

    /// The place of the list stored for `investor` and `hex`.
    pub open spec fn partition_index(self, investor: Seq<char>, hex: Seq<char>) -> int {
        choose|i: int|
            0 <= i < self.investments.len() && (#[trigger] self.investments[i]).investor
                == investor && self.investments[i].hex == hex
    }

    /// The list stored for `investor` and `hex`, if any.
    pub open spec fn investments_of(self, investor: Seq<char>, hex: Seq<char>) -> Option<
        Seq<Investment>,
    > {
        if self.has_partition(investor, hex) {
            Some(self.investments[self.partition_index(investor, hex)].investments)
        } else {
            None
        }
    }

    /// Every location keeps its open figures within its lifetime figures.
    pub open spec fn locations_consistent(self) -> bool {
        forall|j: int|
            0 <= j < self.locations.len() ==> (
            #[trigger] self.locations[j]).location.is_consistent()
    }

    /// Every list of investments is of a registered cell.
    pub open spec fn partitions_registered(self) -> bool {
        forall|i: int|
            0 <= i < self.investments.len() ==> self.has_location(
                (#[trigger] self.investments[i]).hex,
            )
    }

    /// The invariant of the stored state: every cell is a normalized
    /// identifier, no key occurs twice, every location is consistent, every
    /// list of investments is of a registered cell, and the lists stand in
    /// ascending order of cell.
    pub open spec fn wf(self) -> bool {
        &&& self.locations_consistent()
        &&& self.partitions_registered()
        &&& forall|j: int|
            0 <= j < self.locations.len() ==> is_r3((#[trigger] self.locations[j]).hex)
        &&& forall|j: int, k: int|
            0 <= j < self.locations.len() && 0 <= k < self.locations.len() && j != k ==> (
            #[trigger] self.locations[j]).hex != (#[trigger] self.locations[k]).hex
        &&& forall|i: int|
            0 <= i < self.investments.len() ==> is_r3((#[trigger] self.investments[i]).hex)
        &&& forall|i: int, k: int|
            0 <= i < self.investments.len() && 0 <= k < self.investments.len() && i != k ==> !((
            #[trigger] self.investments[i]).investor == (#[trigger] self.investments[k]).investor
                && self.investments[i].hex == self.investments[k].hex)
        &&& forall|i: int, k: int|
            0 <= i < k < self.investments.len() ==> r3_value((#[trigger] self.investments[i]).hex)
                <= r3_value((#[trigger] self.investments[k]).hex)
    }

    /// This state with `cfg` as its configuration.
    pub open spec fn with_config(self, cfg: ConfigView) -> StoreView {
        StoreView { config: Some(cfg), locations: self.locations, investments: self.investments }
    }

    /// This state with `loc` stored at place `j`, under the cell that stands there.
    pub open spec fn with_location_at(self, j: int, loc: Location) -> StoreView {
        StoreView {
            config: self.config,
            locations: self.locations.update(
                j,
                LocationView { hex: self.locations[j].hex, location: loc },
            ),
            investments: self.investments,
        }
    }

    /// This state with one more cell.
    pub open spec fn with_location_added(self, hex: Seq<char>, loc: Location) -> StoreView {
        StoreView {
            config: self.config,
            locations: self.locations.push(LocationView { hex, location: loc }),
            investments: self.investments,
        }
    }

    /// This state with `loc` stored for the cell `hex`, in place of what was
    /// stored for it, if anything.
    pub open spec fn with_location(self, hex: Seq<char>, loc: Location) -> StoreView {
        if self.has_location(hex) {
            self.with_location_at(self.location_index(hex), loc)
        } else {
            self.with_location_added(hex, loc)
        }
    }

    /// This state with `list` as the investments of `investor` in `hex`, in
    /// place of what was stored for them, if anything.
    pub open spec fn with_investments(
        self,
        investor: Seq<char>,
        hex: Seq<char>,
        list: Seq<Investment>,
    ) -> StoreView {
        if self.has_partition(investor, hex) {
            self.with_investments_at(self.partition_index(investor, hex), list)
        } else {
            self.with_partition_added(investor, hex, list)
        }
    }

    /// What storing `loc` for the cell written `cell` does: the cell is
    /// normalized first, and refused if it is no valid identifier; a location
    /// whose open figures exceed its lifetime figures is refused.
    pub open spec fn location_saved(self, cell: Seq<char>, loc: Location) -> Result<
        StoreView,
        ContractErrorView,
    > {
        if !is_r3_input(cell) {
            Err(ContractErrorView::InvalidR3(cell))
        } else if !loc.is_consistent() {
            Err(ContractErrorView::generic_err("Inconsistent location"@))
        } else {
            Ok(self.with_location(lower(cell), loc))
        }
    }

    /// What storing `list` for `investor` and the cell written `cell` does:
    /// the cell is normalized first, and refused if it is no valid identifier
    /// or not registered.
    pub open spec fn investments_saved(
        self,
        investor: Seq<char>,
        cell: Seq<char>,
        list: Seq<Investment>,
    ) -> Result<StoreView, ContractErrorView> {
        if !is_r3_input(cell) {
            Err(ContractErrorView::InvalidR3(cell))
        } else if !self.has_location(lower(cell)) {
            Err(ContractErrorView::not_found("Location"@))
        } else {
            Ok(self.with_investments(investor, lower(cell), list))
        }
    }

    /// This state with `list` as the investments at place `i`, under the key
    /// that stands there.
    pub open spec fn with_investments_at(self, i: int, list: Seq<Investment>) -> StoreView {
        StoreView {
            config: self.config,
            locations: self.locations,
            investments: self.investments.update(
                i,
                PartitionView {
                    investor: self.investments[i].investor,
                    hex: self.investments[i].hex,
                    investments: list,
                },
            ),
        }
    }

    /// This state with a list for a new key, put where its cell belongs.
    pub open spec fn with_partition_added(
        self,
        investor: Seq<char>,
        hex: Seq<char>,
        list: Seq<Investment>,
    ) -> StoreView {
        StoreView {
            config: self.config,
            locations: self.locations,
            investments: self.investments.insert(
                insert_position(self.investments, hex) as int,
                PartitionView { investor, hex, investments: list },
            ),
        }
    }
}

/// In a well-formed state the location of a cell is the one at any place that
/// holds the cell.
pub proof fn lemma_location_at(s: StoreView, j: int)
    requires
        s.wf(),
        0 <= j < s.locations.len(),
    ensures
        s.has_location(s.locations[j].hex),
        s.location_index(s.locations[j].hex) == j,
        s.location_of(s.locations[j].hex) == Some(s.locations[j].location),
{
}

/// In a well-formed state the list of a key is the one at any place that holds the key.
pub proof fn lemma_partition_at(s: StoreView, i: int)
    requires
        s.wf(),
        0 <= i < s.investments.len(),
    ensures
        s.has_partition(s.investments[i].investor, s.investments[i].hex),
        s.partition_index(s.investments[i].investor, s.investments[i].hex) == i,
        s.investments_of(s.investments[i].investor, s.investments[i].hex) == Some(
            s.investments[i].investments,
        ),
{
}

/// The place found by scanning for the first greater cell is the insert position.
pub proof fn lemma_insert_position(parts: Seq<PartitionView>, hex: Seq<char>, i: int)
    requires
        0 <= i <= parts.len(),
        forall|k: int| 0 <= k < i ==> r3_value((#[trigger] parts[k]).hex) <= r3_value(hex),
        i == parts.len() || r3_value(parts[i].hex) > r3_value(hex),
    ensures
        insert_position(parts, hex) == i,
    decreases parts.len(),
{
    if parts.len() > 0 && i > 0 {
        let rest = parts.drop_first();
        lemma_insert_position(rest, hex, i - 1);
    }
}

/// The lists before the insert position are of cells that are not greater,
/// those from it on are of greater cells.
pub proof fn lemma_insert_position_splits(parts: Seq<PartitionView>, hex: Seq<char>)
    requires
        forall|i: int, k: int|
            0 <= i < k < parts.len() ==> r3_value((#[trigger] parts[i]).hex) <= r3_value(
                (#[trigger] parts[k]).hex,
            ),
    ensures
        insert_position(parts, hex) <= parts.len(),
        forall|k: int|
            0 <= k < insert_position(parts, hex) ==> r3_value((#[trigger] parts[k]).hex)
                <= r3_value(hex),
        forall|k: int|
            insert_position(parts, hex) <= k < parts.len() ==> r3_value(
                (#[trigger] parts[k]).hex,
            ) > r3_value(hex),
    decreases parts.len(),
{
    if parts.len() > 0 {
        let rest = parts.drop_first();
        lemma_insert_position_splits(rest, hex);
        if r3_value(parts[0].hex) <= r3_value(hex) {
            let p = insert_position(rest, hex);
            assert forall|k: int| 0 <= k < p + 1 implies r3_value((#[trigger] parts[k]).hex)
                <= r3_value(hex) by {
                if k > 0 {
                    assert(rest[k - 1] == parts[k]);
                }
            }
            assert forall|k: int| p + 1 <= k < parts.len() implies r3_value(
                (#[trigger] parts[k]).hex,
            ) > r3_value(hex) by {
                assert(rest[k - 1] == parts[k]);
            }
        }
    }
}

/// A state with the keys of a well-formed state, in the same places, and
/// with consistent locations is well formed.
pub proof fn lemma_same_keys_wf(s: StoreView, t: StoreView)
    requires
        s.wf(),
        t.locations_consistent(),
        t.locations.len() == s.locations.len(),
        forall|j: int|
            0 <= j < s.locations.len() ==> (#[trigger] t.locations[j]).hex == s.locations[j].hex,
        t.investments.len() == s.investments.len(),
        forall|i: int|
            0 <= i < s.investments.len() ==> (#[trigger] t.investments[i]).investor
                == s.investments[i].investor && t.investments[i].hex == s.investments[i].hex,
    ensures
        t.wf(),
{
    assert forall|i: int| 0 <= i < t.investments.len() implies t.has_location(
        (#[trigger] t.investments[i]).hex,
    ) by {
        let hex = s.investments[i].hex;
        let j = s.location_index(hex);
        assert(t.locations[j].hex == hex);
    }
}

/// Registering a new cell with a consistent location keeps a state well formed.
pub proof fn lemma_location_added_wf(s: StoreView, hex: Seq<char>, loc: Location)
    requires
        s.wf(),
        is_r3(hex),
        !s.has_location(hex),
        loc.is_consistent(),
    ensures
        s.with_location_added(hex, loc).wf(),
{
    let t = s.with_location_added(hex, loc);
    assert forall|i: int| 0 <= i < t.investments.len() implies t.has_location(
        (#[trigger] t.investments[i]).hex,
    ) by {
        let h = s.investments[i].hex;
        let j = s.location_index(h);
        assert(t.locations[j].hex == h);
    }
}

/// After a location is stored for a cell, it is the location of that cell,
/// every other cell has the location it had, and the state is well formed.
pub proof fn lemma_with_location(s: StoreView, hex: Seq<char>, loc: Location, other: Seq<char>)
    requires
        s.wf(),
        is_r3(hex),
        loc.is_consistent(),
    ensures
        s.with_location(hex, loc).wf(),
        s.with_location(hex, loc).location_of(hex) == Some(loc),
        other != hex ==> s.with_location(hex, loc).location_of(other) == s.location_of(other),
{
    let t = s.with_location(hex, loc);
    let place = if s.has_location(hex) {
        s.location_index(hex)
    } else {
        s.locations.len() as int
    };
    if s.has_location(hex) {
        lemma_same_keys_wf(s, t);
    } else {
        lemma_location_added_wf(s, hex, loc);
    }
    lemma_location_at(t, place);
    if other != hex {
        if s.has_location(other) {
            let k = s.location_index(other);
            lemma_location_at(t, k);
        } else if t.has_location(other) {
            let k = t.location_index(other);
            assert(s.locations[k].hex == other);
        }
    }
}

/// Adding a list for a new key, of a registered cell, keeps a state well formed.
pub proof fn lemma_partition_added_wf(
    s: StoreView,
    investor: Seq<char>,
    hex: Seq<char>,
    list: Seq<Investment>,
)
    requires
        s.wf(),
        s.has_location(hex),
        !s.has_partition(investor, hex),
    ensures
        s.with_partition_added(investor, hex, list).wf(),
{
    let parts = s.investments;
    lemma_insert_position_splits(parts, hex);
}

/// After a list is stored for a key, it is the list of that key, every other
/// key has the list it had, and the state is well formed.
pub proof fn lemma_with_investments(
    s: StoreView,
    investor: Seq<char>,
    hex: Seq<char>,
    list: Seq<Investment>,
    other_investor: Seq<char>,
    other_hex: Seq<char>,
)
    requires
        s.wf(),
        s.has_location(hex),
    ensures
        s.with_investments(investor, hex, list).wf(),
        s.with_investments(investor, hex, list).investments_of(investor, hex) == Some(list),
        !(other_investor == investor && other_hex == hex) ==> s.with_investments(
            investor,
            hex,
            list,
        ).investments_of(other_investor, other_hex) == s.investments_of(other_investor, other_hex),
{
    let t = s.with_investments(investor, hex, list);
    let same = other_investor == investor && other_hex == hex;
    if s.has_partition(investor, hex) {
        let i = s.partition_index(investor, hex);
        lemma_same_keys_wf(s, t);
        lemma_partition_at(t, i);
        if !same {
            if s.has_partition(other_investor, other_hex) {
                let k = s.partition_index(other_investor, other_hex);
                assert(t.investments[k] == s.investments[k]);
                lemma_partition_at(t, k);
            } else if t.has_partition(other_investor, other_hex) {
                let k = t.partition_index(other_investor, other_hex);
                assert(s.investments[k].investor == other_investor && s.investments[k].hex
                    == other_hex);
            }
        }
    } else {
        lemma_partition_added_wf(s, investor, hex, list);
        lemma_insert_position_splits(s.investments, hex);
        let pos = insert_position(s.investments, hex) as int;
        assert(t.investments[pos] == PartitionView { investor, hex, investments: list });
        lemma_partition_at(t, pos);
        if !same {
            if s.has_partition(other_investor, other_hex) {
                let k = s.partition_index(other_investor, other_hex);
                let moved = if k < pos {
                    k
                } else {
                    k + 1
                };
                assert(t.investments[moved] == s.investments[k]);
                lemma_partition_at(t, moved);
            } else if t.has_partition(other_investor, other_hex) {
                let k = t.partition_index(other_investor, other_hex);
                let from = if k < pos {
                    k
                } else {
                    k - 1
                };
                assert(k != pos);
                assert(t.investments[k] == s.investments[from]);
                assert(s.investments[from].investor == other_investor && s.investments[from].hex
                    == other_hex);
            }
        }
    }
}

struct LocationEntry {
    hex: String,
    location: Location,
}

struct Partition {
    investor: String,
    hex: String,
    investments: Vec<Investment>,
}

/// The stored state of the contract.
pub struct Store {
    config: Option<Config>,
    locations: Vec<LocationEntry>,
    investments: Vec<Partition>,
}

impl View for Store {
    type V = StoreView;

    closed spec fn view(&self) -> StoreView {
        StoreView {
            config: match self.config {
                Some(cfg) => Some(cfg@),
                None => None,
            },
            locations: Seq::new(
                self.locations@.len(),
                |j: int|
                    LocationView {
                        hex: self.locations@[j].hex@,
                        location: self.locations@[j].location,
                    },
            ),
            investments: Seq::new(
                self.investments@.len(),
                |i: int|
                    PartitionView {
                        investor: self.investments@[i].investor@,
                        hex: self.investments@[i].hex@,
                        investments: self.investments@[i].investments@,
                    },
            ),
        }
    }
}

impl Store {
    /// The state before initialization: no configuration, no cell, no investment.
    pub fn new() -> (store: Store)
        ensures
            store@ == StoreView::empty(),
            store@.wf(),
    {
        let store = Store { config: None, locations: Vec::new(), investments: Vec::new() };
        assert(store@.locations =~= Seq::empty());
        assert(store@.investments =~= Seq::empty());
        store
    }

    /// The configuration, once the contract is initialized.
    pub fn config(&self) -> (c: Option<&Config>)
        ensures
            match c {
                Some(cfg) => self@.config == Some(cfg@),
                None => self@.config is None,
            },
    {
        self.config.as_ref()
    }

    /// Stores `cfg` as the configuration.
    pub fn set_config(&mut self, cfg: Config)
        ensures
            final(self)@ == old(self)@.with_config(cfg@),
            old(self)@.wf() ==> final(self)@.wf(),
    {
        self.config = Some(cfg);
        proof {
            if old(self)@.wf() {
                lemma_same_keys_wf(old(self)@, self@);
            }
        }
    }

    /// Number of registered cells.
    pub fn location_count(&self) -> (n: usize)
        ensures
            n == self@.locations.len(),
    {
        self.locations.len()
    }

    /// The cell at place `j`.
    pub fn location_hex_at(&self, j: usize) -> (hex: &String)
        requires
            j < self@.locations.len(),
        ensures
            hex@ == self@.locations[j as int].hex,
    {
        &self.locations[j].hex
    }

    /// The location at place `j`.
    pub fn location_at(&self, j: usize) -> (loc: Location)
        requires
            j < self@.locations.len(),
        ensures
            loc == self@.locations[j as int].location,
    {
        self.locations[j].location
    }

    /// The place of the location stored for `hex`, if there is one.
    pub fn location_index(&self, hex: &String) -> (r: Option<usize>)
        ensures
            match r {
                Some(j) => j < self@.locations.len() && self@.locations[j as int].hex == hex@,
                None => !self@.has_location(hex@),
            },
    {
        let n = self.locations.len();
        let mut j: usize = 0;
        while j < n
            invariant
                n == self.locations@.len(),
                j <= n,
                forall|k: int| 0 <= k < j ==> (#[trigger] self@.locations[k]).hex != hex@,
            decreases n - j,
        {
            if self.locations[j].hex == *hex {
                return Some(j);
            }
            j += 1;
        }
        None
    }

    /// Stores `loc` at place `j`.
    pub(crate) fn set_location_at(&mut self, j: usize, loc: Location)
        requires
            old(self)@.wf(),
            j < old(self)@.locations.len(),
            loc.is_consistent(),
        ensures
            final(self)@ == old(self)@.with_location_at(j as int, loc),
            final(self)@.wf(),
    {
        let hex = self.locations[j].hex.clone();
        self.locations.set(j, LocationEntry { hex, location: loc });
        assert(self@.locations =~= old(self)@.with_location_at(j as int, loc).locations);
        proof {
            lemma_same_keys_wf(old(self)@, self@);
        }
    }

    /// Registers a new cell.
    pub(crate) fn add_location(&mut self, hex: String, loc: Location)
        requires
            old(self)@.wf(),
            is_r3(hex@),
            !old(self)@.has_location(hex@),
            loc.is_consistent(),
        ensures
            final(self)@ == old(self)@.with_location_added(hex@, loc),
            final(self)@.wf(),
    {
        self.locations.push(LocationEntry { hex, location: loc });
        assert(self@.locations =~= old(self)@.with_location_added(hex@, loc).locations);
        proof {
            lemma_location_added_wf(old(self)@, hex@, loc);
        }
    }

    /// Stores `loc` for the cell `hex`, in place of what was stored for it.
    pub fn save_location(&mut self, hex: String, loc: Location) -> (r: Result<(), ContractError>)
        requires
            old(self)@.wf(),
        ensures
            match old(self)@.location_saved(hex@, loc) {
                Ok(t) => r is Ok && final(self)@ == t,
                Err(e) => result_view(r) == Err::<(), ContractErrorView>(e) && final(self)@ == old(
                    self,
                )@,
            },
            final(self)@.wf(),
    {
        let hex = validate_r3(hex)?;
        if !(loc.current_invested <= loc.total_invested && loc.current_investments
            <= loc.total_investments) {
            return Err(ContractError::generic_err("Inconsistent location"));
        }
        match self.location_index(&hex) {
            Some(j) => {
                proof {
                    lemma_location_at(self@, j as int);
                }
                self.set_location_at(j, loc);
            },
            None => {
                self.add_location(hex, loc);
            },
        }
        Ok(())
    }

    /// Stores `list` as the investments of `investor` in the cell `hex`, in
    /// place of what was stored for them.
    pub fn save_investments(&mut self, investor: String, hex: String, list: Vec<Investment>) -> (r:
        Result<(), ContractError>)
        requires
            old(self)@.wf(),
        ensures
            match old(self)@.investments_saved(investor@, hex@, list@) {
                Ok(t) => r is Ok && final(self)@ == t,
                Err(e) => result_view(r) == Err::<(), ContractErrorView>(e) && final(self)@ == old(
                    self,
                )@,
            },
            final(self)@.wf(),
    {
        let hex = validate_r3(hex)?;
        if self.location_index(&hex).is_none() {
            return Err(ContractError::not_found("Location"));
        }
        match self.partition_index(&investor, &hex) {
            Some(i) => {
                proof {
                    lemma_partition_at(self@, i as int);
                }
                self.set_investments_at(i, list);
            },
            None => {
                self.add_partition(investor, hex, list);
            },
        }
        Ok(())
    }

    /// Number of stored investment lists.
    pub fn partition_count(&self) -> (n: usize)
        ensures
            n == self@.investments.len(),
    {
        self.investments.len()
    }

    /// The investor of the list at place `i`.
    pub fn partition_investor_at(&self, i: usize) -> (investor: &String)
        requires
            i < self@.investments.len(),
        ensures
            investor@ == self@.investments[i as int].investor,
    {
        &self.investments[i].investor
    }

    /// The cell of the list at place `i`.
    pub fn partition_hex_at(&self, i: usize) -> (hex: &String)
        requires
            i < self@.investments.len(),
        ensures
            hex@ == self@.investments[i as int].hex,
    {
        &self.investments[i].hex
    }

    /// The list at place `i`.
    pub fn investments_at(&self, i: usize) -> (list: &Vec<Investment>)
        requires
            i < self@.investments.len(),
        ensures
            list@ == self@.investments[i as int].investments,
    {
        &self.investments[i].investments
    }

    /// The place of the list stored for `investor` and `hex`, if there is one.
    pub fn partition_index(&self, investor: &String, hex: &String) -> (r: Option<usize>)
        ensures
            match r {
                Some(i) => i < self@.investments.len() && self@.investments[i as int].investor
                    == investor@ && self@.investments[i as int].hex == hex@,
                None => !self@.has_partition(investor@, hex@),
            },
    {
        let n = self.investments.len();
        let mut i: usize = 0;
        while i < n
            invariant
                n == self.investments@.len(),
                i <= n,
                forall|k: int|
                    0 <= k < i ==> !((#[trigger] self@.investments[k]).investor == investor@
                        && self@.investments[k].hex == hex@),
            decreases n - i,
        {
            if self.investments[i].investor == *investor && self.investments[i].hex == *hex {
                return Some(i);
            }
            i += 1;
        }
        None
    }

    /// Stores `list` at place `i`.
    pub(crate) fn set_investments_at(&mut self, i: usize, list: Vec<Investment>)
        requires
            old(self)@.wf(),
            i < old(self)@.investments.len(),
        ensures
            final(self)@ == old(self)@.with_investments_at(i as int, list@),
            final(self)@.wf(),
    {
        let investor = self.investments[i].investor.clone();
        let hex = self.investments[i].hex.clone();
        self.investments.set(i, Partition { investor, hex, investments: list });
        assert(self@.investments =~= old(self)@.with_investments_at(i as int, list@).investments);
        proof {
            lemma_same_keys_wf(old(self)@, self@);
        }
    }

    /// Stores a list under a new key, where its cell belongs in the order of cells.
    pub(crate) fn add_partition(&mut self, investor: String, hex: String, list: Vec<Investment>)
        requires
            old(self)@.wf(),
            old(self)@.has_location(hex@),
            !old(self)@.has_partition(investor@, hex@),
        ensures
            final(self)@ == old(self)@.with_partition_added(investor@, hex@, list@),
            final(self)@.wf(),
    {
        proof {
            lemma_partition_added_wf(old(self)@, investor@, hex@, list@);
        }
        let value = r3_index(hex.as_str());
        let n = self.investments.len();
        let mut i: usize = 0;
        while i < n
            invariant
                n == self.investments@.len(),
                i <= n,
                self@.wf(),
                value == r3_value(hex@),
                forall|k: int|
                    0 <= k < i ==> r3_value((#[trigger] self@.investments[k]).hex) <= r3_value(
                        hex@,
                    ),
            ensures
                i == n || r3_value(self@.investments[i as int].hex) > r3_value(hex@),
            decreases n - i,
        {
            assert(is_r3(self@.investments[i as int].hex));
            if r3_index(self.investments[i].hex.as_str()) > value {
                break ;
            }
            i += 1;
        }
        proof {
            lemma_insert_position(self@.investments, hex@, i as int);
        }
        self.investments.insert(i, Partition { investor, hex, investments: list });
        assert(self@.investments =~= old(self)@.with_partition_added(
            investor@,
            hex@,
            list@,
        ).investments);
    }
}

impl Clone for Store {
    fn clone(&self) -> (copy: Store)
        ensures
            copy@ == self@,
    {
        let config = match &self.config {
            Some(cfg) => Some(cfg.clone()),
            None => None,
        };
        let mut locations: Vec<LocationEntry> = Vec::new();
        let mut j: usize = 0;
        while j < self.locations.len()
            invariant
                j <= self.locations@.len(),
                locations@.len() == j,
                forall|k: int|
                    0 <= k < j ==> (#[trigger] locations@[k]).hex@ == self.locations@[k].hex@
                        && locations@[k].location == self.locations@[k].location,
            decreases self.locations@.len() - j,
        {
            locations.push(
                LocationEntry {
                    hex: self.locations[j].hex.clone(),
                    location: self.locations[j].location,
                },
            );
            j += 1;
        }
        let mut investments: Vec<Partition> = Vec::new();
        let mut i: usize = 0;
        while i < self.investments.len()
            invariant
                i <= self.investments@.len(),
                investments@.len() == i,
                forall|k: int|
                    0 <= k < i ==> (#[trigger] investments@[k]).investor@
                        == self.investments@[k].investor@ && investments@[k].hex@
                        == self.investments@[k].hex@ && investments@[k].investments@
                        == self.investments@[k].investments@,
            decreases self.investments@.len() - i,
        {
            let list = self.investments[i].investments.clone();
            investments.push(
                Partition {
                    investor: self.investments[i].investor.clone(),
                    hex: self.investments[i].hex.clone(),
                    investments: list,
                },
            );
            i += 1;
        }
        let copy = Store { config, locations, investments };
        assert(copy@.locations =~= self@.locations);
        assert(copy@.investments =~= self@.investments);
        copy
    }
}

} // verus!
