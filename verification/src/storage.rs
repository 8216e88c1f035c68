//! The state store: a keyed, typed record of everything the game economy
//! persists.
//!
//! Two tiers of keys are held, mirroring the platform's storage classes:
//! singleton configuration fields (owner, the two treasury token
//! identities, the reward-system identity, the initialization flag) and
//! per-entity records (collectibles by item id, cash tiers by tier number,
//! registration flags and user profiles by identity).
//!
//! Identities — accounts, token contracts, the reward system — are carried
//! as plain `u64` handles; the platform adapter owns the mapping between
//! handles and its own identity type. The store itself enforces no
//! cross-field invariant: [`StateStore::wf`] names the discipline that the
//! domain service maintains (the configuration singletons are present
//! exactly when the initialization flag is set).

use vstd::prelude::*;
use vstd::hash_map::HashMapWithView;
use vstd::hash_set::HashSetWithView;

verus! {

broadcast use vstd::std_specs::hash::group_hash_axioms;

/// Information about a collectible shop item, keyed by a 128-bit item id.
#[derive(Clone, Copy, Debug, PartialEq, Eq, Structural)]
pub struct CollectibleInfo {
    pub perk: u32,
    pub strength: u32,
    pub tyc_price: u128,
    pub usdc_price: u128,
    pub shop_stock: u64,
}

/// A registered player's profile.
#[derive(Debug)]
pub struct User {
    pub id: u64,
    pub username: String,
    pub address: u64,
    pub registered_at: u64,
    pub games_played: u32,
    pub games_won: u32,
}

/// The mathematical value of a [`User`]: the username as a sequence of
/// characters, every other field as itself.
pub ghost struct UserView {
    pub id: u64,
    pub username: Seq<char>,
    pub address: u64,
    pub registered_at: u64,
    pub games_played: u32,
    pub games_won: u32,
}

impl View for User {
    type V = UserView;

    open spec fn view(&self) -> UserView {
        UserView {
            id: self.id,
            username: self.username@,
            address: self.address,
            registered_at: self.registered_at,
            games_played: self.games_played,
            games_won: self.games_won,
        }
    }
}

impl Clone for User {
    fn clone(&self) -> (res: Self)
        ensures
            res@ == self@,
    {
        User {
            id: self.id,
            username: self.username.clone(),
            address: self.address,
            registered_at: self.registered_at,
            games_played: self.games_played,
            games_won: self.games_won,
        }
    }
}

/// The mathematical value of the whole state store.
#[verifier::ext_equal]
pub ghost struct StoreView {
    pub owner: Option<u64>,
    pub tyc_token: Option<u64>,
    pub usdc_token: Option<u64>,
    pub reward_system: Option<u64>,
    pub initialized: bool,
    pub collectibles: Map<u128, CollectibleInfo>,
    pub cash_tiers: Map<u32, u128>,
    pub registered: Set<u64>,
    pub users: Map<u64, UserView>,
}

impl StoreView {
    /// The store of a fresh ledger: nothing configured, no records.
    pub open spec fn empty() -> StoreView {
        StoreView {
            owner: None,
            tyc_token: None,
            usdc_token: None,
            reward_system: None,
            initialized: false,
            collectibles: Map::empty(),
            cash_tiers: Map::empty(),
            registered: Set::empty(),
            users: Map::empty(),
        }
    }

    /// The discipline the domain service keeps: each configuration
    /// singleton is present exactly when the initialization flag is set.
    pub open spec fn wf(self) -> bool {
        &&& self.initialized <==> self.owner is Some
        &&& self.initialized <==> self.tyc_token is Some
        &&& self.initialized <==> self.usdc_token is Some
        &&& self.initialized <==> self.reward_system is Some
    }
}

/// The durable key-value store behind the game economy.
pub struct StateStore {
    owner: Option<u64>,
    tyc_token: Option<u64>,
    usdc_token: Option<u64>,
    reward_system: Option<u64>,
    initialized: bool,
    collectibles: HashMapWithView<u128, CollectibleInfo>,
    cash_tiers: HashMapWithView<u32, u128>,
    registered: HashSetWithView<u64>,
    users: HashMapWithView<u64, User>,
}

impl View for StateStore {
    type V = StoreView;

    closed spec fn view(&self) -> StoreView {
        StoreView {
            owner: self.owner,
            tyc_token: self.tyc_token,
            usdc_token: self.usdc_token,
            reward_system: self.reward_system,
            initialized: self.initialized,
            collectibles: self.collectibles@,
            cash_tiers: self.cash_tiers@,
            registered: self.registered@,
            users: self.users@.map_values(|u: User| u@),
        }
    }
}

impl StateStore {
    /// See [`StoreView::wf`].
    pub open spec fn wf(&self) -> bool {
        self@.wf()
    }

    /// A store over a fresh ledger: nothing configured, no records.
    pub fn new() -> (s: StateStore)
        ensures
            s@ == StoreView::empty(),
            s.wf(),
    {
        let s = StateStore {
            owner: None,
            tyc_token: None,
            usdc_token: None,
            reward_system: None,
            initialized: false,
            collectibles: HashMapWithView::new(),
            cash_tiers: HashMapWithView::new(),
            registered: HashSetWithView::new(),
            users: HashMapWithView::new(),
        };
        proof {
            assert(s@.users =~= Map::<u64, UserView>::empty());
            assert(s@ =~= StoreView::empty());
        }
        s
    }

    /// The owner identity. Reading it before it is set is a fatal error on
    /// the platform, so a caller must know it is present.
    pub fn get_owner(&self) -> (owner: u64)
        requires
            self@.owner is Some,
        ensures
            owner == self@.owner->Some_0,
    {
        self.owner.unwrap()
    }

    /// Record the owner identity.
    pub fn set_owner(&mut self, owner: u64)
        ensures
            final(self)@ == (StoreView { owner: Some(owner), ..old(self)@ }),
    {
        self.owner = Some(owner);
    }

    /// The primary treasury token identity; it must be present.
    pub fn get_tyc_token(&self) -> (token: u64)
        requires
            self@.tyc_token is Some,
        ensures
            token == self@.tyc_token->Some_0,
    {
        self.tyc_token.unwrap()
    }

    /// Record the primary treasury token identity.
    pub fn set_tyc_token(&mut self, token: u64)
        ensures
            final(self)@ == (StoreView { tyc_token: Some(token), ..old(self)@ }),
    {
        self.tyc_token = Some(token);
    }

    /// The stable treasury token identity; it must be present.
    pub fn get_usdc_token(&self) -> (token: u64)
        requires
            self@.usdc_token is Some,
        ensures
            token == self@.usdc_token->Some_0,
    {
        self.usdc_token.unwrap()
    }

    /// Record the stable treasury token identity.
    pub fn set_usdc_token(&mut self, token: u64)
        ensures
            final(self)@ == (StoreView { usdc_token: Some(token), ..old(self)@ }),
    {
        self.usdc_token = Some(token);
    }

    /// The reward-system identity; it must be present.
    pub fn get_reward_system(&self) -> (address: u64)
        requires
            self@.reward_system is Some,
        ensures
            address == self@.reward_system->Some_0,
    {
        self.reward_system.unwrap()
    }

    /// Record the reward-system identity.
    pub fn set_reward_system(&mut self, address: u64)
        ensures
            final(self)@ == (StoreView { reward_system: Some(address), ..old(self)@ }),
    {
        self.reward_system = Some(address);
    }

    /// Whether the configuration has been written; absence reads as
    /// `false`.
    pub fn is_initialized(&self) -> (r: bool)
        ensures
            r == self@.initialized,
    {
        self.initialized
    }

    /// Raise the initialization flag.
    pub fn set_initialized(&mut self)
        ensures
            final(self)@ == (StoreView { initialized: true, ..old(self)@ }),
    {
        self.initialized = true;
    }

    /// The collectible stored under `token_id`, if any.
    pub fn get_collectible(&self, token_id: u128) -> (r: Option<CollectibleInfo>)
        ensures
            match r {
                Some(info) => self@.collectibles.contains_key(token_id)
                    && info == self@.collectibles[token_id],
                None => !self@.collectibles.contains_key(token_id),
            },
    {
        match self.collectibles.get(&token_id) {
            Some(info) => Some(*info),
            None => None,
        }
    }

    /// Create or replace the collectible stored under `token_id`.
    pub fn set_collectible(&mut self, token_id: u128, info: &CollectibleInfo)
        ensures
            final(self)@ == (StoreView {
                collectibles: old(self)@.collectibles.insert(token_id, *info),
                ..old(self)@
            }),
    {
        self.collectibles.insert(token_id, *info);
    }

    /// The value stored for cash tier `tier`, if any.
    pub fn get_cash_tier(&self, tier: u32) -> (r: Option<u128>)
        ensures
            match r {
                Some(value) => self@.cash_tiers.contains_key(tier)
                    && value == self@.cash_tiers[tier],
                None => !self@.cash_tiers.contains_key(tier),
            },
    {
        match self.cash_tiers.get(&tier) {
            Some(value) => Some(*value),
            None => None,
        }
    }

    /// Create or replace the value stored for cash tier `tier`.
    pub fn set_cash_tier(&mut self, tier: u32, value: u128)
        ensures
            final(self)@ == (StoreView {
                cash_tiers: old(self)@.cash_tiers.insert(tier, value),
                ..old(self)@
            }),
    {
        self.cash_tiers.insert(tier, value);
    }

    /// Whether `address` is registered; absence reads as `false`.
    pub fn is_registered(&self, address: u64) -> (r: bool)
        ensures
            r == self@.registered.contains(address),
    {
        self.registered.contains(&address)
    }

    /// Mark `address` as registered.
    pub fn set_registered(&mut self, address: u64)
        ensures
            final(self)@ == (StoreView {
                registered: old(self)@.registered.insert(address),
                ..old(self)@
            }),
    {
        self.registered.insert(address);
    }

    /// The user record stored under `address`, if any.
    pub fn get_user(&self, address: u64) -> (r: Option<User>)
        ensures
            match r {
                Some(user) => self@.users.contains_key(address)
                    && user@ == self@.users[address],
                None => !self@.users.contains_key(address),
            },
    {
        match self.users.get(&address) {
            Some(user) => Some(user.clone()),
            None => None,
        }
    }

    /// Create or replace the user record stored under `address`.
    pub fn set_user(&mut self, address: u64, user: &User)
        ensures
            final(self)@ == (StoreView {
                users: old(self)@.users.insert(address, user@),
                ..old(self)@
            }),
    {
        let stored = user.clone();
        self.users.insert(address, stored);
        proof {
            assert(self@.users =~= old(self)@.users.insert(address, user@));
            assert(self@ =~= (StoreView {
                users: old(self)@.users.insert(address, user@),
                ..old(self)@
            }));
        }
    }
}

} // verus!
