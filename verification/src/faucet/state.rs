//! What the faucet keeps between calls: its configuration and, per account,
//! how often the account was paid.

use vstd::prelude::*;

verus! {

#[derive(Debug, PartialEq, Eq)]
pub struct Config {
    /// Which token is sent.
    pub token: String,
    /// How much is sent on request.
    pub amount: u128,
    /// How often a given account is paid at most.
    pub max_requests: u32,
}

/// A configuration with its address as a sequence of characters.
pub struct ConfigView {
    pub token: Seq<char>,
    pub amount: u128,
    pub max_requests: u32,
}

impl View for Config {
    type V = ConfigView;

    open spec fn view(&self) -> ConfigView {
        ConfigView { token: self.token@, amount: self.amount, max_requests: self.max_requests }
    }
}

impl Clone for Config {
    fn clone(&self) -> (cfg: Config)
        ensures
            cfg@ == self@,
    {
        Config {
            token: self.token.clone(),
            amount: self.amount,
            max_requests: self.max_requests,
        }
    }
}

/// One account and the number of times it was paid.
pub struct CallsView {
    pub address: Seq<char>,
    pub calls: u32,
}

/// The stored state as mathematical sequences.
pub struct StoreView {
    pub config: Option<ConfigView>,
    pub calls: Seq<CallsView>,
}

impl StoreView {
    /// The state before initialization.
    pub open spec fn empty() -> StoreView {
        StoreView { config: None, calls: Seq::empty() }
    }

    /// A count is stored for `address`.
    pub open spec fn has_calls(self, address: Seq<char>) -> bool {
        exists|i: int| 0 <= i < self.calls.len() && (#[trigger] self.calls[i]).address == address
    }

    /// The place of the count stored for `address`.
    pub open spec fn calls_index(self, address: Seq<char>) -> int {
        choose|i: int| 0 <= i < self.calls.len() && (#[trigger] self.calls[i]).address == address
    }

    /// The count stored for `address`, if any.
    pub open spec fn calls_of(self, address: Seq<char>) -> Option<u32> {
        if self.has_calls(address) {
            Some(self.calls[self.calls_index(address)].calls)
        } else {
            None
        }
    }

    /// No account occurs twice.
    pub open spec fn wf(self) -> bool {
        forall|i: int, k: int|
            0 <= i < self.calls.len() && 0 <= k < self.calls.len() && i != k ==> (
            #[trigger] self.calls[i]).address != (#[trigger] self.calls[k]).address
    }

    /// This state with `cfg` as its configuration.
    pub open spec fn with_config(self, cfg: ConfigView) -> StoreView {
        StoreView { config: Some(cfg), calls: self.calls }
    }

    /// This state with `calls` as the count of `address`, in place of what
    /// was stored for it, if anything.
    pub open spec fn with_calls(self, address: Seq<char>, calls: u32) -> StoreView {
        if self.has_calls(address) {
            StoreView {
                config: self.config,
                calls: self.calls.update(self.calls_index(address), CallsView { address, calls }),
            }
        } else {
            StoreView { config: self.config, calls: self.calls.push(CallsView { address, calls }) }
        }
    }
}

/// In a well-formed state the count of an account is the one at any place
/// that holds the account.
pub proof fn lemma_calls_at(s: StoreView, i: int)
    requires
        s.wf(),
        0 <= i < s.calls.len(),
    ensures
        s.has_calls(s.calls[i].address),
        s.calls_index(s.calls[i].address) == i,
        s.calls_of(s.calls[i].address) == Some(s.calls[i].calls),
{
}

/// After a count is stored for an account, it is the count of that account,
/// and every other account has the count it had.
pub proof fn lemma_with_calls(s: StoreView, address: Seq<char>, calls: u32, other: Seq<char>)
    requires
        s.wf(),
    ensures
        s.with_calls(address, calls).wf(),
        s.with_calls(address, calls).calls_of(address) == Some(calls),
        other != address ==> s.with_calls(address, calls).calls_of(other) == s.calls_of(other),
{
    let t = s.with_calls(address, calls);
    if s.has_calls(address) {
        let i = s.calls_index(address);
        lemma_calls_at(t, i);
        if other != address {
            if s.has_calls(other) {
                let k = s.calls_index(other);
                lemma_calls_at(t, k);
            } else if t.has_calls(other) {
                let k = t.calls_index(other);
                assert(s.calls[k].address == other);
            }
        }
    } else {
        let n = s.calls.len() as int;
        lemma_calls_at(t, n);
        if other != address {
            if s.has_calls(other) {
                let k = s.calls_index(other);
                lemma_calls_at(t, k);
            }
        }
    }
}

struct CallsEntry {
    address: String,
    calls: u32,
}

/// The stored state of the faucet.
pub struct Store {
    config: Option<Config>,
    calls: Vec<CallsEntry>,
}

impl View for Store {
    type V = StoreView;

    closed spec fn view(&self) -> StoreView {
        StoreView {
            config: match self.config {
                Some(cfg) => Some(cfg@),
                None => None,
            },
            calls: Seq::new(
                self.calls@.len(),
                |i: int|
                    CallsView { address: self.calls@[i].address@, calls: self.calls@[i].calls },
            ),
        }
    }
}

impl Store {
    /// The state before initialization: no configuration, no account.
    pub fn new() -> (store: Store)
        ensures
            store@ == StoreView::empty(),
            store@.wf(),
    {
        let store = Store { config: None, calls: Vec::new() };
        assert(store@.calls =~= Seq::empty());
        store
    }

    /// The configuration, once the faucet is initialized.
    pub fn config(&self) -> (c: Option<&Config>)
        ensures
            match c {
                Some(cfg) => self@.config == Some(cfg@),
                None => self@.config is None,
            },
    {
        self.config.as_ref()
    }

    /// Stores `cfg` as the configuration.
    pub fn set_config(&mut self, cfg: Config)
        ensures
            final(self)@ == old(self)@.with_config(cfg@),
            old(self)@.wf() ==> final(self)@.wf(),
    {
        self.config = Some(cfg);
    }

    /// Number of accounts with a count.
    pub fn calls_count(&self) -> (n: usize)
        ensures
            n == self@.calls.len(),
    {
        self.calls.len()
    }

    /// The account at place `i`.
    pub fn calls_address_at(&self, i: usize) -> (address: &String)
        requires
            i < self@.calls.len(),
        ensures
            address@ == self@.calls[i as int].address,
    {
        &self.calls[i].address
    }

    /// The count at place `i`.
    pub fn calls_at(&self, i: usize) -> (calls: u32)
        requires
            i < self@.calls.len(),
        ensures
            calls == self@.calls[i as int].calls,
    {
        self.calls[i].calls
    }

    /// The count stored for `address`, if there is one.
    pub fn load_calls(&self, address: &String) -> (r: Option<u32>)
        requires
            self@.wf(),
        ensures
            r == self@.calls_of(address@),
    {
        let n = self.calls.len();
        let mut i: usize = 0;
        while i < n
            invariant
                n == self.calls@.len(),
                i <= n,
                self@.wf(),
                forall|k: int| 0 <= k < i ==> (#[trigger] self@.calls[k]).address != address@,
            decreases n - i,
        {
            if self.calls[i].address == *address {
                proof {
                    lemma_calls_at(self@, i as int);
                }
                return Some(self.calls[i].calls);
            }
            i += 1;
        }
        None
    }

    /// Stores `calls` as the count of `address`, in place of what was stored for it.
    pub fn save_calls(&mut self, address: String, calls: u32)
        requires
            old(self)@.wf(),
        ensures
            final(self)@ == old(self)@.with_calls(address@, calls),
            final(self)@.wf(),
    {
        proof {
            lemma_with_calls(self@, address@, calls, address@);
        }
        let n = self.calls.len();
        let mut i: usize = 0;
        while i < n
            invariant
                n == self.calls@.len(),
                i <= n,
                *self == *old(self),
                self@.wf(),
                forall|k: int| 0 <= k < i ==> (#[trigger] self@.calls[k]).address != address@,
            decreases n - i,
        {
            if self.calls[i].address == address {
                proof {
                    lemma_calls_at(self@, i as int);
                }
                self.calls.set(i, CallsEntry { address, calls });
                assert(self@.calls =~= old(self)@.with_calls(address@, calls).calls);
                return ;
            }
            i += 1;
        }
        self.calls.push(CallsEntry { address, calls });
        assert(self@.calls =~= old(self)@.with_calls(address@, calls).calls);
    }
}

} // verus!
