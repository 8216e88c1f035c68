use tycoon_game::contract::Error;
use tycoon_game::contract::TycoonContract;
use tycoon_game::contract::VoucherMint;
use tycoon_game::contract::Withdrawal;
use tycoon_game::contract::VOUCHER_AMOUNT;
use tycoon_game::storage::StateStore;

const TYC: u64 = 1;
const USDC: u64 = 2;
const OWNER_A: u64 = 7;
const REWARD_X: u64 = 3;
const USER_B: u64 = 9;

fn initialized_store() -> StateStore {
    let mut store = StateStore::new();
    let r = TycoonContract::initialize(&mut store, OWNER_A, TYC, USDC, OWNER_A, REWARD_X);
    assert_eq!(r, Ok(()));
    store
}

#[test]
fn initialize_sets_configuration() {
    let store = initialized_store();
    assert!(store.is_initialized());
    assert_eq!(store.get_owner(), OWNER_A);
    assert_eq!(store.get_tyc_token(), TYC);
    assert_eq!(store.get_usdc_token(), USDC);
    assert_eq!(store.get_reward_system(), REWARD_X);
}

#[test]
fn second_initialize_fails_and_changes_nothing() {
    let mut store = initialized_store();
    let r = TycoonContract::initialize(&mut store, 42, 11, 12, 42, 13);
    assert_eq!(r, Err(Error::AlreadyInitialized));
    assert_eq!(store.get_owner(), OWNER_A);
    assert_eq!(store.get_tyc_token(), TYC);
    assert_eq!(store.get_usdc_token(), USDC);
    assert_eq!(store.get_reward_system(), REWARD_X);
}

#[test]
fn initialize_demands_the_named_owner() {
    let mut store = StateStore::new();
    let r = TycoonContract::initialize(&mut store, USER_B, TYC, USDC, OWNER_A, REWARD_X);
    assert_eq!(r, Err(Error::AuthorizationFailure));
    assert!(!store.is_initialized());
}

#[test]
fn withdraw_pays_out_when_funded() {
    let store = initialized_store();
    let r = TycoonContract::withdraw_funds(&store, OWNER_A, USDC, USER_B, 250, 1_000);
    assert_eq!(r, Ok(Withdrawal { token: USDC, to: USER_B, amount: 250 }));
}

#[test]
fn withdraw_rejects_foreign_token_regardless_of_balance() {
    let store = initialized_store();
    let r = TycoonContract::withdraw_funds(&store, OWNER_A, 99, USER_B, 250, 1_000_000);
    assert_eq!(r, Err(Error::InvalidToken));
    let r = TycoonContract::withdraw_funds(&store, OWNER_A, 99, USER_B, 250, 0);
    assert_eq!(r, Err(Error::InvalidToken));
}

#[test]
fn withdraw_rejects_overdraft() {
    let store = initialized_store();
    let r = TycoonContract::withdraw_funds(&store, OWNER_A, TYC, USER_B, 251, 250);
    assert_eq!(r, Err(Error::InsufficientBalance));
    let r = TycoonContract::withdraw_funds(&store, OWNER_A, TYC, USER_B, 250, 250);
    assert_eq!(r, Ok(Withdrawal { token: TYC, to: USER_B, amount: 250 }));
}

#[test]
fn withdraw_demands_the_owner() {
    let store = initialized_store();
    let r = TycoonContract::withdraw_funds(&store, USER_B, TYC, USER_B, 1, 1_000);
    assert_eq!(r, Err(Error::AuthorizationFailure));
}

#[test]
fn withdraw_demands_initialization() {
    let store = StateStore::new();
    let r = TycoonContract::withdraw_funds(&store, OWNER_A, TYC, USER_B, 1, 1_000);
    assert_eq!(r, Err(Error::NotInitialized));
}

#[test]
fn collectible_roundtrip_returns_last_write() {
    let mut store = initialized_store();
    let r = TycoonContract::set_collectible_info(&mut store, OWNER_A, 555, 4, 80, 1_000, 30, 12);
    assert_eq!(r, Ok(()));
    assert_eq!(
        TycoonContract::get_collectible_info(&store, 555),
        Ok((4, 80, 1_000, 30, 12))
    );
    let r = TycoonContract::set_collectible_info(&mut store, OWNER_A, 555, 5, 81, 2_000, 31, 11);
    assert_eq!(r, Ok(()));
    assert_eq!(
        TycoonContract::get_collectible_info(&store, 555),
        Ok((5, 81, 2_000, 31, 11))
    );
}

#[test]
fn collectible_lookup_of_unknown_id_fails() {
    let store = initialized_store();
    assert_eq!(
        TycoonContract::get_collectible_info(&store, 555),
        Err(Error::NotFound)
    );
}

#[test]
fn set_collectible_demands_the_owner() {
    let mut store = initialized_store();
    let r = TycoonContract::set_collectible_info(&mut store, USER_B, 555, 4, 80, 1_000, 30, 12);
    assert_eq!(r, Err(Error::AuthorizationFailure));
    assert_eq!(
        TycoonContract::get_collectible_info(&store, 555),
        Err(Error::NotFound)
    );
}

#[test]
fn set_collectible_demands_initialization() {
    let mut store = StateStore::new();
    let r = TycoonContract::set_collectible_info(&mut store, OWNER_A, 555, 4, 80, 1_000, 30, 12);
    assert_eq!(r, Err(Error::NotInitialized));
}

#[test]
fn cash_tier_roundtrip() {
    let mut store = initialized_store();
    let r = TycoonContract::set_cash_tier_value(&mut store, OWNER_A, 1, 500);
    assert_eq!(r, Ok(()));
    assert_eq!(TycoonContract::get_cash_tier_value(&store, 1), Ok(500));
    assert_eq!(
        TycoonContract::get_cash_tier_value(&store, 2),
        Err(Error::NotFound)
    );
}

#[test]
fn set_cash_tier_demands_the_owner() {
    let mut store = initialized_store();
    let r = TycoonContract::set_cash_tier_value(&mut store, USER_B, 1, 500);
    assert_eq!(r, Err(Error::AuthorizationFailure));
    assert_eq!(
        TycoonContract::get_cash_tier_value(&store, 1),
        Err(Error::NotFound)
    );
}

#[test]
fn register_creates_the_profile() {
    let mut store = initialized_store();
    let r = TycoonContract::register_player(&mut store, "bob".to_string(), USER_B, 1234, 99_000);
    assert_eq!(r, Ok(()));
    let user = TycoonContract::get_user(&store, USER_B).expect("profile should exist");
    assert_eq!(user.id, 1234);
    assert_eq!(user.username, "bob".to_string());
    assert_eq!(user.address, USER_B);
    assert_eq!(user.registered_at, 99_000);
    assert_eq!(user.games_played, 0);
    assert_eq!(user.games_won, 0);
}

#[test]
fn register_twice_keeps_the_first_profile() {
    let mut store = initialized_store();
    let r = TycoonContract::register_player(&mut store, "bob".to_string(), USER_B, 1234, 99_000);
    assert_eq!(r, Ok(()));
    let r = TycoonContract::register_player(&mut store, "robert".to_string(), USER_B, 1300, 99_500);
    assert_eq!(r, Err(Error::AlreadyRegistered));
    let user = TycoonContract::get_user(&store, USER_B).expect("profile should exist");
    assert_eq!(user.username, "bob".to_string());
    assert_eq!(user.id, 1234);
    assert_eq!(user.registered_at, 99_000);
}

#[test]
fn register_needs_no_configuration() {
    let mut store = StateStore::new();
    let r = TycoonContract::register_player(&mut store, "bob".to_string(), USER_B, 1, 2);
    assert_eq!(r, Ok(()));
}

#[test]
fn username_length_boundaries() {
    let mut store = initialized_store();
    let two = "ab".to_string();
    let three = "abc".to_string();
    let twenty = "abcdefghijklmnopqrst".to_string();
    let twenty_one = "abcdefghijklmnopqrstu".to_string();
    assert_eq!(twenty.len(), 20);
    assert_eq!(twenty_one.len(), 21);
    assert_eq!(
        TycoonContract::register_player(&mut store, two, 101, 1, 1),
        Err(Error::InvalidUsername)
    );
    assert_eq!(
        TycoonContract::register_player(&mut store, twenty_one, 102, 1, 1),
        Err(Error::InvalidUsername)
    );
    assert_eq!(
        TycoonContract::register_player(&mut store, three, 103, 1, 1),
        Ok(())
    );
    assert_eq!(
        TycoonContract::register_player(&mut store, twenty, 104, 1, 1),
        Ok(())
    );
    assert!(TycoonContract::get_user(&store, 101).is_none());
    assert!(TycoonContract::get_user(&store, 102).is_none());
    assert!(TycoonContract::get_user(&store, 103).is_some());
    assert!(TycoonContract::get_user(&store, 104).is_some());
}

#[test]
fn rejected_registration_leaves_no_trace() {
    let mut store = initialized_store();
    let r = TycoonContract::register_player(&mut store, "ab".to_string(), USER_B, 1, 1);
    assert_eq!(r, Err(Error::InvalidUsername));
    assert!(TycoonContract::get_user(&store, USER_B).is_none());
    assert!(!store.is_registered(USER_B));
    let r = TycoonContract::register_player(&mut store, "abc".to_string(), USER_B, 1, 1);
    assert_eq!(r, Ok(()));
}

#[test]
fn voucher_mint_is_fixed_at_two_units() {
    let store = initialized_store();
    let r = TycoonContract::mint_registration_voucher(&store, OWNER_A, USER_B);
    assert_eq!(
        r,
        Ok(VoucherMint { reward_system: REWARD_X, player: USER_B, amount: 20_000_000 })
    );
    assert_eq!(VOUCHER_AMOUNT, 20_000_000);
}

#[test]
fn voucher_mint_demands_the_owner() {
    let store = initialized_store();
    let r = TycoonContract::mint_registration_voucher(&store, USER_B, USER_B);
    assert_eq!(r, Err(Error::AuthorizationFailure));
}

#[test]
fn voucher_mint_demands_initialization() {
    let store = StateStore::new();
    let r = TycoonContract::mint_registration_voucher(&store, OWNER_A, USER_B);
    assert_eq!(r, Err(Error::NotInitialized));
}

#[test]
fn get_user_of_unregistered_identity_is_empty() {
    let store = initialized_store();
    assert!(TycoonContract::get_user(&store, USER_B).is_none());
}
