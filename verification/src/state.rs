//! What the contract keeps between calls: its configuration and, for each
//! depositor, a pool.

use vstd::prelude::*;
use vstd::string::*;
use crate::calc::MAX_PERCENTAGE;
use crate::text::same_text;

verus! {

/// What a failed read of the settings says it looked for.
pub const CONFIG_KIND: &'static str = "redirection::state::Config";

/// What a failed read of a pool says it looked for.
pub const POOL_KIND: &'static str = "redirection::state::Pool";

/// The contract's settings. Only the admin replaces them.
#[derive(Debug, PartialEq, Eq)]
pub struct Config {
    pub admin: String,
    pub charity_address: String,
    pub anchor_market_address: String,
    pub aust_token_address: String,
    /// The dust threshold, in wrapper-token units.
    pub theta: u64,
}

/// A [`Config`] with its identities as sequences of characters.
pub ghost struct ConfigView {
    pub admin: Seq<char>,
    pub charity_address: Seq<char>,
    pub anchor_market_address: Seq<char>,
    pub aust_token_address: Seq<char>,
    pub theta: u64,
}

impl DeepView for Config {
    type V = ConfigView;

    open spec fn deep_view(&self) -> ConfigView {
        ConfigView {
            admin: self.admin@,
            charity_address: self.charity_address@,
            anchor_market_address: self.anchor_market_address@,
            aust_token_address: self.aust_token_address@,
            theta: self.theta,
        }
    }
}

impl Clone for Config {
    fn clone(&self) -> (copy: Self)
        ensures
            copy.deep_view() == self.deep_view(),
    {
        Config {
            admin: self.admin.clone(),
            charity_address: self.charity_address.clone(),
            anchor_market_address: self.anchor_market_address.clone(),
            aust_token_address: self.aust_token_address.clone(),
            theta: self.theta,
        }
    }
}

/// One depositor's position, as last observed.
#[derive(Debug, Clone, Copy, PartialEq, Eq)]
pub struct Pool {
    /// The share of the yield that goes to the charity, in percent.
    pub give_percentage: u16,
    /// The principal, in the smallest unit of the stable asset.
    pub ust_amount: u64,
    /// The balance of wrapper tokens.
    pub aust_amount: u64,
    /// All that this pool has given so far.
    pub total_donated: u64,
}

impl DeepView for Pool {
    type V = Pool;

    open spec fn deep_view(&self) -> Pool {
        *self
    }
}

impl Pool {
    /// Whether the pool's percentage is one: at most 100.
    pub open spec fn valid(&self) -> bool {
        self.give_percentage <= MAX_PERCENTAGE
    }

    /// Whether the pool's percentage is one: at most 100.
    pub fn is_valid(&self) -> (ok: bool)
        ensures
            ok == self.valid(),
    {
        self.give_percentage <= MAX_PERCENTAGE
    }
}

/// What a [`Store`] holds: the settings, if they were ever written, and the
/// pool of each depositor that has one.
pub ghost struct StoreView {
    pub config: Option<ConfigView>,
    pub pools: Map<Seq<char>, Pool>,
}

impl StoreView {
    /// Every pool's percentage is at most 100.
    pub open spec fn valid(self) -> bool {
        forall|k: Seq<char>| self.pools.dom().contains(k) ==> (#[trigger] self.pools[k]).valid()
    }

    /// The store with `pool` under `key`, and all else as it is.
    pub open spec fn with_pool(self, key: Seq<char>, pool: Pool) -> StoreView {
        StoreView { pools: self.pools.insert(key, pool), ..self }
    }

    /// The store with `config` for its settings, and all else as it is.
    pub open spec fn with_config(self, config: ConfigView) -> StoreView {
        StoreView { config: Some(config), ..self }
    }
}

/// A depositor's identity and pool.
struct Entry {
    key: String,
    pool: Pool,
}

/// The contract's storage: one slot for the settings and a ledger of pools,
/// keyed by the depositor's identity. No depositor has two pools, and no
/// pool's percentage is above 100.
pub struct Store {
    config: Option<Config>,
    entries: Vec<Entry>,
}

/// Some place in `entries` where `key` has its pool, if it has one.
spec fn position(entries: Seq<Entry>, key: Seq<char>) -> Option<int> {
    if exists|i: int| 0 <= i < entries.len() && (#[trigger] entries[i]).key@ == key {
        Some(choose|i: int| 0 <= i < entries.len() && (#[trigger] entries[i]).key@ == key)
    } else {
        None
    }
}

/// No identity has two places in `entries`.
spec fn distinct(entries: Seq<Entry>) -> bool {
    forall|i: int, j: int|
        0 <= i < j < entries.len() ==> (#[trigger] entries[i]).key@ != (#[trigger] entries[j]).key@
}

/// The ledger that `entries` stand for.
spec fn ledger(entries: Seq<Entry>) -> Map<Seq<char>, Pool> {
    Map::new(
        |k: Seq<char>| position(entries, k) is Some,
        |k: Seq<char>| entries[position(entries, k).unwrap()].pool,
    )
}

/// Where an identity stands, there and nowhere else is its place.
proof fn lemma_position(entries: Seq<Entry>, i: int)
    requires
        distinct(entries),
        0 <= i < entries.len(),
    ensures
        position(entries, entries[i].key@) == Some(i),
        ledger(entries).dom().contains(entries[i].key@),
        ledger(entries)[entries[i].key@] == entries[i].pool,
{
    let k = position(entries, entries[i].key@).unwrap();
    if k < i {
        assert(entries[k].key@ != entries[i].key@);
    } else if i < k {
        assert(entries[i].key@ != entries[k].key@);
    }
}

impl View for Store {
    type V = StoreView;

    closed spec fn view(&self) -> StoreView {
        StoreView { config: self.config.deep_view(), pools: ledger(self.entries@) }
    }
}

impl Store {
    #[verifier::type_invariant]
    spec fn inv(&self) -> bool {
        &&& distinct(self.entries@)
        &&& forall|i: int|
            0 <= i < self.entries@.len() ==> (#[trigger] self.entries@[i]).pool.valid()
    }

    /// A store that holds nothing yet.
    pub fn new() -> (store: Store)
        ensures
            store@.config is None,
            store@.pools == Map::<Seq<char>, Pool>::empty(),
            store@.valid(),
    {
        let store = Store { config: None, entries: Vec::new() };
        assert(store@.pools =~= Map::<Seq<char>, Pool>::empty());
        store
    }

    /// Where `key` has its pool in the ledger, if anywhere.
    fn find(&self, key: &str) -> (at: Option<usize>)
        ensures
            match at {
                Some(i) => i < self.entries@.len() && self.entries@[i as int].key@ == key@
                    && position(self.entries@, key@) == Some(i as int),
                None => position(self.entries@, key@) is None,
            },
    {
        proof {
            use_type_invariant(self);
        }
        let mut i: usize = 0;
        while i < self.entries.len()
            invariant
                i <= self.entries@.len(),
                distinct(self.entries@),
                forall|j: int| 0 <= j < i ==> (#[trigger] self.entries@[j]).key@ != key@,
            decreases self.entries@.len() - i,
        {
            if same_text(self.entries[i].key.as_str(), key) {
                proof {
                    lemma_position(self.entries@, i as int);
                }
                return Some(i);
            }
            i = i + 1;
        }
        None
    }

    /// Every pool in the store has a percentage of at most 100.
    pub fn check_valid(&self)
        ensures
            self@.valid(),
    {
        proof {
            use_type_invariant(self);
        }
    }

    /// A copy of the settings, if they were ever written.
    pub fn load_config(&self) -> (config: Option<Config>)
        ensures
            config.deep_view() == self@.config,
    {
        match &self.config {
            Some(c) => Some(c.clone()),
            None => None,
        }
    }

    /// Replaces the settings.
    pub fn save_config(&mut self, config: Config)
        ensures
            final(self)@ == old(self)@.with_config(config.deep_view()),
    {
        proof {
            use_type_invariant(&*self);
        }
        self.config = Some(config);
        assert(final(self)@.pools =~= old(self)@.pools);
    }

    /// Whether `key` has a pool.
    pub fn has(&self, key: &str) -> (found: bool)
        ensures
            found == self@.pools.dom().contains(key@),
    {
        self.find(key).is_some()
    }

    /// The pool of `key`, if it has one.
    pub fn load(&self, key: &str) -> (pool: Option<Pool>)
        ensures
            pool == if self@.pools.dom().contains(key@) {
                Some(self@.pools[key@])
            } else {
                None
            },
            pool matches Some(p) ==> p.valid(),
    {
        proof {
            use_type_invariant(self);
        }
        match self.find(key) {
            Some(i) => Some(self.entries[i].pool),
            None => None,
        }
    }

    /// Writes `pool` as the pool of `key`, in place of the one it had, if any.
    pub fn save(&mut self, key: &str, pool: Pool)
        requires
            pool.valid(),
        ensures
            final(self)@ == old(self)@.with_pool(key@, pool),
    {
        proof {
            use_type_invariant(&*self);
        }
        let entry = Entry { key: key.to_owned(), pool };
        let at = self.find(key);
        let mut entries: Vec<Entry> = Vec::new();
        core::mem::swap(&mut self.entries, &mut entries);
        match at {
            Some(i) => {
                entries.set(i, entry);
            },
            None => {
                entries.push(entry);
            },
        }
        proof {
            let before = old(self).entries@;
            let after = entries@;
            let at_key: int = match at {
                Some(i) => i as int,
                None => before.len() as int,
            };
            assert(after[at_key].key@ == key@ && after[at_key].pool == pool);
            assert forall|j: int| 0 <= j < before.len() && j != at_key implies #[trigger] after[j]
                == before[j] by {}
            assert(distinct(after)) by {
                assert forall|i: int, j: int| 0 <= i < j < after.len() implies (
                #[trigger] after[i]).key@ != (#[trigger] after[j]).key@ by {
                    if i < before.len() && j < before.len() {
                        assert(before[i].key@ != before[j].key@);
                    }
                }
            }
            assert forall|k: Seq<char>|
                ledger(after).dom().contains(k) <==> #[trigger] ledger(before).insert(
                    key@,
                    pool,
                ).dom().contains(k) by {
                if ledger(after).dom().contains(k) {
                    let j = position(after, k).unwrap();
                    if j != at_key {
                        lemma_position(before, j);
                    }
                }
                if ledger(before).dom().contains(k) {
                    let j = position(before, k).unwrap();
                    lemma_position(after, j);
                }
                if k == key@ {
                    lemma_position(after, at_key);
                }
            }
            assert forall|k: Seq<char>| #[trigger] ledger(after).dom().contains(k) implies ledger(
                after,
            )[k] == ledger(before).insert(key@, pool)[k] by {
                let j = position(after, k).unwrap();
                lemma_position(after, j);
                if j != at_key {
                    lemma_position(before, j);
                } else {
                    lemma_position(after, at_key);
                }
            }
            assert(ledger(after) =~= ledger(before).insert(key@, pool));
        }
        core::mem::swap(&mut self.entries, &mut entries);
    }
}

} // verus!
