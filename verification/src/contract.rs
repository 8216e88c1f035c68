//! The domain service: the operations of the game-economy contract.
//!
//! Every operation takes the state store and the identity the platform has
//! authenticated for the invocation, validates before it mutates, and
//! either updates the store or returns the error that aborts the
//! invocation. Operations that instruct a platform collaborator — a token
//! transfer, a voucher mint — return a description of the requested effect
//! rather than performing it; the adapter around the contract carries it
//! out and aborts the invocation if the collaborator fails.
//!
//! Each operation's contract equates its result and its final state with a
//! spec-level transition function, and the rules the service obeys are
//! proved of those functions below.

use vstd::prelude::*;
use vstd::string::StrSliceExecFns;

use crate::storage::CollectibleInfo;
use crate::storage::StateStore;
use crate::storage::StoreView;
use crate::storage::User;
use crate::storage::UserView;

verus! {

/// Why an invocation was aborted.
#[derive(Clone, Copy, Debug, PartialEq, Eq, Structural)]
pub enum Error {
    /// `initialize` was called on an already configured store.
    AlreadyInitialized,
    /// A required configuration singleton was read before `initialize`.
    NotInitialized,
    /// The authenticated identity is not the one the operation demands.
    AuthorizationFailure,
    /// A withdrawal named a token that is neither treasury token.
    InvalidToken,
    /// A withdrawal asked for more than the treasury holds.
    InsufficientBalance,
    /// A lookup named an unknown collectible or cash tier.
    NotFound,
    /// A username was shorter or longer than the registry allows.
    InvalidUsername,
    /// The identity asking to register already is.
    AlreadyRegistered,
}

/// The transfer a successful withdrawal instructs the token service to
/// perform, and the payload of the withdrawal event emitted after it.
#[derive(Clone, Copy, Debug, PartialEq, Eq, Structural)]
pub struct Withdrawal {
    /// The treasury token to pay out of.
    pub token: u64,
    /// The destination identity.
    pub to: u64,
    /// The amount, in the token's smallest denomination.
    pub amount: u128,
}

/// The call a successful voucher mint instructs the reward system to
/// perform; the identifier the reward system returns is discarded.
#[derive(Clone, Copy, Debug, PartialEq, Eq, Structural)]
pub struct VoucherMint {
    /// The reward-system identity to invoke.
    pub reward_system: u64,
    /// The newly registered player the voucher is for.
    pub player: u64,
    /// The amount, in the token's smallest denomination.
    pub amount: u128,
}

/// Every registration voucher is for exactly 2 units of the token, at 7
/// decimal places of precision.
pub const VOUCHER_AMOUNT: u128 = 20_000_000;

/// The shortest username the registry accepts.
pub const MIN_USERNAME_LEN: usize = 3;

/// The longest username the registry accepts.
pub const MAX_USERNAME_LEN: usize = 20;

/// The game-economy contract.
pub struct TycoonContract;

/// The result of `initialize`: it succeeds exactly once, and only when the
/// named owner is the identity that authorized the call.
pub open spec fn initialize_result(s: StoreView, caller: u64, initial_owner: u64) -> Result<
    (),
    Error,
> {
    if s.initialized {
        Err(Error::AlreadyInitialized)
    } else if caller != initial_owner {
        Err(Error::AuthorizationFailure)
    } else {
        Ok(())
    }
}

/// The store after `initialize`: all four configuration singletons and the
/// flag on success, untouched otherwise.
pub open spec fn initialize_state(
    s: StoreView,
    caller: u64,
    tyc_token: u64,
    usdc_token: u64,
    initial_owner: u64,
    reward_system: u64,
) -> StoreView {
    if initialize_result(s, caller, initial_owner) is Ok {
        StoreView {
            owner: Some(initial_owner),
            tyc_token: Some(tyc_token),
            usdc_token: Some(usdc_token),
            reward_system: Some(reward_system),
            initialized: true,
            ..s
        }
    } else {
        s
    }
}

/// The result of `withdraw_funds` when the treasury's balance of `token`
/// is `balance`: the instructed transfer, or the abort reason.
pub open spec fn withdraw_result(
    s: StoreView,
    caller: u64,
    token: u64,
    to: u64,
    amount: u128,
    balance: u128,
) -> Result<Withdrawal, Error> {
    if !s.initialized {
        Err(Error::NotInitialized)
    } else if caller != s.owner->Some_0 {
        Err(Error::AuthorizationFailure)
    } else if token != s.tyc_token->Some_0 && token != s.usdc_token->Some_0 {
        Err(Error::InvalidToken)
    } else if balance < amount {
        Err(Error::InsufficientBalance)
    } else {
        Ok(Withdrawal { token, to, amount })
    }
}

/// The result of a collectible lookup: the five stored fields, in the
/// order (perk, strength, primary price, stable price, stock).
pub open spec fn collectible_info_result(s: StoreView, token_id: u128) -> Result<
    (u32, u32, u128, u128, u64),
    Error,
> {
    if s.collectibles.contains_key(token_id) {
        Ok(
            (
                s.collectibles[token_id].perk,
                s.collectibles[token_id].strength,
                s.collectibles[token_id].tyc_price,
                s.collectibles[token_id].usdc_price,
                s.collectibles[token_id].shop_stock,
            ),
        )
    } else {
        Err(Error::NotFound)
    }
}

/// The result of a cash-tier lookup.
pub open spec fn cash_tier_result(s: StoreView, tier: u32) -> Result<u128, Error> {
    if s.cash_tiers.contains_key(tier) {
        Ok(s.cash_tiers[tier])
    } else {
        Err(Error::NotFound)
    }
}

/// Whether an owner-authenticated record upsert goes through.
pub open spec fn admin_write_result(s: StoreView, caller: u64) -> Result<(), Error> {
    if !s.initialized {
        Err(Error::NotInitialized)
    } else if caller != s.owner->Some_0 {
        Err(Error::AuthorizationFailure)
    } else {
        Ok(())
    }
}

/// The store after `set_collectible_info`: the full record replaced on
/// success, untouched otherwise.
pub open spec fn set_collectible_state(
    s: StoreView,
    caller: u64,
    token_id: u128,
    info: CollectibleInfo,
) -> StoreView {
    if admin_write_result(s, caller) is Ok {
        StoreView { collectibles: s.collectibles.insert(token_id, info), ..s }
    } else {
        s
    }
}

/// The store after `set_cash_tier_value`.
pub open spec fn set_cash_tier_state(s: StoreView, caller: u64, tier: u32, value: u128) -> StoreView {
    if admin_write_result(s, caller) is Ok {
        StoreView { cash_tiers: s.cash_tiers.insert(tier, value), ..s }
    } else {
        s
    }
}

/// Whether a username is short or long enough for the registry.
pub open spec fn valid_username(username: Seq<char>) -> bool {
    MIN_USERNAME_LEN <= username.len() <= MAX_USERNAME_LEN
}

/// The result of `register_player`: each identity registers at most once,
/// under a valid username.
pub open spec fn register_result(s: StoreView, username: Seq<char>, caller: u64) -> Result<
    (),
    Error,
> {
    if s.registered.contains(caller) {
        Err(Error::AlreadyRegistered)
    } else if !valid_username(username) {
        Err(Error::InvalidUsername)
    } else {
        Ok(())
    }
}

/// The profile `register_player` creates: the id is taken from the
/// platform's sequence counter, the timestamp from its clock, and both
/// play counters start at zero.
pub open spec fn new_user(username: Seq<char>, caller: u64, sequence: u32, timestamp: u64) -> UserView {
    UserView {
        id: sequence as u64,
        username: username,
        address: caller,
        registered_at: timestamp,
        games_played: 0,
        games_won: 0,
    }
}

/// The store after `register_player`: on success the user record and the
/// registration flag are written together, so that neither can exist
/// without the other.
pub open spec fn register_state(
    s: StoreView,
    username: Seq<char>,
    caller: u64,
    sequence: u32,
    timestamp: u64,
) -> StoreView {
    if register_result(s, username, caller) is Ok {
        StoreView {
            users: s.users.insert(caller, new_user(username, caller, sequence, timestamp)),
            registered: s.registered.insert(caller),
            ..s
        }
    } else {
        s
    }
}

/// The result of `mint_registration_voucher`: the instructed reward-system
/// call, always for [`VOUCHER_AMOUNT`].
pub open spec fn mint_voucher_result(s: StoreView, caller: u64, player: u64) -> Result<
    VoucherMint,
    Error,
> {
    if !s.initialized {
        Err(Error::NotInitialized)
    } else if caller != s.owner->Some_0 {
        Err(Error::AuthorizationFailure)
    } else {
        Ok(VoucherMint { reward_system: s.reward_system->Some_0, player, amount: VOUCHER_AMOUNT })
    }
}

impl TycoonContract {
    /// Configure the contract: the two treasury tokens, the owner and the
    /// reward system. `caller` is the identity the platform authenticated
    /// for this invocation; it must be the named owner. Succeeds at most
    /// once over the store's whole life.
    pub fn initialize(
        store: &mut StateStore,
        caller: u64,
        tyc_token: u64,
        usdc_token: u64,
        initial_owner: u64,
        reward_system: u64,
    ) -> (r: Result<(), Error>)
        requires
            old(store).wf(),
        ensures
            final(store).wf(),
            r == initialize_result(old(store)@, caller, initial_owner),
            final(store)@ == initialize_state(
                old(store)@,
                caller,
                tyc_token,
                usdc_token,
                initial_owner,
                reward_system,
            ),
    {
        if store.is_initialized() {
            return Err(Error::AlreadyInitialized);
        }
        if caller != initial_owner {
            return Err(Error::AuthorizationFailure);
        }
        store.set_tyc_token(tyc_token);
        store.set_usdc_token(usdc_token);
        store.set_owner(initial_owner);
        store.set_reward_system(reward_system);
        store.set_initialized();
        Ok(())
    }

    /// Pay `amount` of a treasury token out to `to`. `balance` is the
    /// treasury's current balance of `token`, as the adapter queried it
    /// from the token service just before the call. On success the
    /// returned [`Withdrawal`] is handed to the token service and, after
    /// the transfer went through, emitted as the withdrawal event; on any
    /// error nothing is transferred and no event is emitted.
    pub fn withdraw_funds(
        store: &StateStore,
        caller: u64,
        token: u64,
        to: u64,
        amount: u128,
        balance: u128,
    ) -> (r: Result<Withdrawal, Error>)
        requires
            store.wf(),
        ensures
            r == withdraw_result(store@, caller, token, to, amount, balance),
    {
        if !store.is_initialized() {
            return Err(Error::NotInitialized);
        }
        let owner = store.get_owner();
        if caller != owner {
            return Err(Error::AuthorizationFailure);
        }
        let tyc_token = store.get_tyc_token();
        let usdc_token = store.get_usdc_token();
        if token != tyc_token && token != usdc_token {
            return Err(Error::InvalidToken);
        }
        if balance < amount {
            return Err(Error::InsufficientBalance);
        }
        Ok(Withdrawal { token, to, amount })
    }

    /// Look a collectible up; no authentication required.
    pub fn get_collectible_info(store: &StateStore, token_id: u128) -> (r: Result<
        (u32, u32, u128, u128, u64),
        Error,
    >)
        ensures
            r == collectible_info_result(store@, token_id),
    {
        match store.get_collectible(token_id) {
            Some(info) => Ok(
                (info.perk, info.strength, info.tyc_price, info.usdc_price, info.shop_stock),
            ),
            None => Err(Error::NotFound),
        }
    }

    /// Look a cash tier up; no authentication required.
    pub fn get_cash_tier_value(store: &StateStore, tier: u32) -> (r: Result<u128, Error>)
        ensures
            r == cash_tier_result(store@, tier),
    {
        match store.get_cash_tier(tier) {
            Some(value) => Ok(value),
            None => Err(Error::NotFound),
        }
    }

    /// Create or replace the full collectible record under `token_id`;
    /// only the owner may. There is no partial update: every field is
    /// taken from this call.
    pub fn set_collectible_info(
        store: &mut StateStore,
        caller: u64,
        token_id: u128,
        perk: u32,
        strength: u32,
        tyc_price: u128,
        usdc_price: u128,
        shop_stock: u64,
    ) -> (r: Result<(), Error>)
        requires
            old(store).wf(),
        ensures
            final(store).wf(),
            r == admin_write_result(old(store)@, caller),
            final(store)@ == set_collectible_state(
                old(store)@,
                caller,
                token_id,
                CollectibleInfo { perk, strength, tyc_price, usdc_price, shop_stock },
            ),
    {
        if !store.is_initialized() {
            return Err(Error::NotInitialized);
        }
        let owner = store.get_owner();
        if caller != owner {
            return Err(Error::AuthorizationFailure);
        }
        let info = CollectibleInfo { perk, strength, tyc_price, usdc_price, shop_stock };
        store.set_collectible(token_id, &info);
        Ok(())
    }

    /// Create or replace the value of cash tier `tier`; only the owner
    /// may.
    pub fn set_cash_tier_value(store: &mut StateStore, caller: u64, tier: u32, value: u128) -> (r:
        Result<(), Error>)
        requires
            old(store).wf(),
        ensures
            final(store).wf(),
            r == admin_write_result(old(store)@, caller),
            final(store)@ == set_cash_tier_state(old(store)@, caller, tier, value),
    {
        if !store.is_initialized() {
            return Err(Error::NotInitialized);
        }
        let owner = store.get_owner();
        if caller != owner {
            return Err(Error::AuthorizationFailure);
        }
        store.set_cash_tier(tier, value);
        Ok(())
    }

    /// Register `caller` — the identity the platform authenticated —
    /// under `username`. `sequence` and `timestamp` are the platform's
    /// current ledger sequence counter and clock; the new profile's id and
    /// registration time are taken from them.
    pub fn register_player(
        store: &mut StateStore,
        username: String,
        caller: u64,
        sequence: u32,
        timestamp: u64,
    ) -> (r: Result<(), Error>)
        ensures
            r == register_result(old(store)@, username@, caller),
            final(store)@ == register_state(old(store)@, username@, caller, sequence, timestamp),
            old(store).wf() ==> final(store).wf(),
    {
        if store.is_registered(caller) {
            return Err(Error::AlreadyRegistered);
        }
        let len: usize = username.as_str().unicode_len();
        if len < MIN_USERNAME_LEN || len > MAX_USERNAME_LEN {
            return Err(Error::InvalidUsername);
        }
        let user = User {
            id: sequence as u64,
            username,
            address: caller,
            registered_at: timestamp,
            games_played: 0,
            games_won: 0,
        };
        store.set_user(caller, &user);
        store.set_registered(caller);
        Ok(())
    }

    /// Instruct the reward system to mint the fixed registration voucher
    /// for `player`; only the owner may. The identifier the reward system
    /// returns for the voucher is discarded, and no local state changes.
    pub fn mint_registration_voucher(store: &StateStore, caller: u64, player: u64) -> (r: Result<
        VoucherMint,
        Error,
    >)
        requires
            store.wf(),
        ensures
            r == mint_voucher_result(store@, caller, player),
    {
        if !store.is_initialized() {
            return Err(Error::NotInitialized);
        }
        let owner = store.get_owner();
        if caller != owner {
            return Err(Error::AuthorizationFailure);
        }
        let reward_system = store.get_reward_system();
        Ok(VoucherMint { reward_system, player, amount: VOUCHER_AMOUNT })
    }

    /// The profile registered for `address`, if any; no authentication
    /// required.
    pub fn get_user(store: &StateStore, address: u64) -> (r: Option<User>)
        ensures
            match r {
                Some(user) => store@.users.contains_key(address) && user@ == store@.users[address],
                None => !store@.users.contains_key(address),
            },
    {
        store.get_user(address)
    }
}

/// After a successful `initialize`, a second `initialize` — whatever its
/// arguments — fails with `AlreadyInitialized` and leaves the store, the
/// configuration fields included, exactly as it was.
pub proof fn lemma_initialize_at_most_once(
    s: StoreView,
    caller: u64,
    tyc_token: u64,
    usdc_token: u64,
    initial_owner: u64,
    reward_system: u64,
    caller2: u64,
    tyc_token2: u64,
    usdc_token2: u64,
    initial_owner2: u64,
    reward_system2: u64,
)
    requires
        initialize_result(s, caller, initial_owner) is Ok,
    ensures
        ({
            let s1 = initialize_state(s, caller, tyc_token, usdc_token, initial_owner, reward_system);
            &&& initialize_result(s1, caller2, initial_owner2) == Err::<(), Error>(
                Error::AlreadyInitialized,
            )
            &&& initialize_state(
                s1,
                caller2,
                tyc_token2,
                usdc_token2,
                initial_owner2,
                reward_system2,
            ) == s1
        }),
{
}

/// Record upserts and registrations never touch the configuration: after
/// any sequence of them the store stays initialized with the same owner
/// and collaborators, so a later `initialize` still fails.
pub proof fn lemma_records_leave_config_alone(
    s: StoreView,
    caller: u64,
    token_id: u128,
    info: CollectibleInfo,
    tier: u32,
    value: u128,
    username: Seq<char>,
    player: u64,
    sequence: u32,
    timestamp: u64,
)
    ensures
        ({
            let after_collectible = set_collectible_state(s, caller, token_id, info);
            let after_tier = set_cash_tier_state(s, caller, tier, value);
            let after_register = register_state(s, username, player, sequence, timestamp);
            &&& same_config(s, after_collectible)
            &&& same_config(s, after_tier)
            &&& same_config(s, after_register)
        }),
{
}

/// Whether two stores agree on every configuration singleton and on the
/// initialization flag.
pub open spec fn same_config(s1: StoreView, s2: StoreView) -> bool {
    &&& s1.owner == s2.owner
    &&& s1.tyc_token == s2.tyc_token
    &&& s1.usdc_token == s2.usdc_token
    &&& s1.reward_system == s2.reward_system
    &&& s1.initialized == s2.initialized
}

/// After a successful `register_player`, a second registration for the
/// same identity — whatever its username, sequence or timestamp — fails
/// with `AlreadyRegistered`, and the profile the first call created is
/// still stored, unmodified.
pub proof fn lemma_register_rejects_twice(
    s: StoreView,
    username: Seq<char>,
    caller: u64,
    sequence: u32,
    timestamp: u64,
    username2: Seq<char>,
    sequence2: u32,
    timestamp2: u64,
)
    requires
        register_result(s, username, caller) is Ok,
    ensures
        ({
            let s1 = register_state(s, username, caller, sequence, timestamp);
            &&& register_result(s1, username2, caller) == Err::<(), Error>(Error::AlreadyRegistered)
            &&& register_state(s1, username2, caller, sequence2, timestamp2) == s1
            &&& s1.users[caller] == new_user(username, caller, sequence, timestamp)
        }),
{
}

/// A withdrawal naming a token that is neither treasury token fails with
/// `InvalidToken`, whatever the treasury's balance.
pub proof fn lemma_withdraw_rejects_foreign_token(
    s: StoreView,
    caller: u64,
    token: u64,
    to: u64,
    amount: u128,
)
    requires
        s.initialized,
        caller == s.owner->Some_0,
        token != s.tyc_token->Some_0,
        token != s.usdc_token->Some_0,
    ensures
        forall|balance: u128|
            withdraw_result(s, caller, token, to, amount, balance) == Err::<Withdrawal, Error>(
                Error::InvalidToken,
            ),
{
}

/// A withdrawal of more than the treasury's balance of a valid token
/// fails with `InsufficientBalance`: no transfer is instructed and no
/// event is emitted.
pub proof fn lemma_withdraw_rejects_overdraft(
    s: StoreView,
    caller: u64,
    token: u64,
    to: u64,
    amount: u128,
    balance: u128,
)
    requires
        s.initialized,
        caller == s.owner->Some_0,
        token == s.tyc_token->Some_0 || token == s.usdc_token->Some_0,
        balance < amount,
    ensures
        withdraw_result(s, caller, token, to, amount, balance) == Err::<Withdrawal, Error>(
            Error::InsufficientBalance,
        ),
{
}

/// A collectible lookup right after an upsert of the same id returns
/// exactly the five fields just written: the write replaces the whole
/// record, keeping nothing of an older one.
pub proof fn lemma_collectible_last_write_wins(
    s: StoreView,
    caller: u64,
    token_id: u128,
    info: CollectibleInfo,
)
    requires
        admin_write_result(s, caller) is Ok,
    ensures
        collectible_info_result(set_collectible_state(s, caller, token_id, info), token_id) == Ok::<
            (u32, u32, u128, u128, u64),
            Error,
        >((info.perk, info.strength, info.tyc_price, info.usdc_price, info.shop_stock)),
{
}

} // verus!
