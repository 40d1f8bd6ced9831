//! Construction and the storage-collateral ledger.

use coin_flip::errors::GameError;
use coin_flip::Contract;
use coin_flip::STORAGE_PRICE_PER_BYTE;

const CONTRACT_ACCOUNT: &str = "contract.testnet";
const NFT_ACCOUNT: &str = "nft.testnet";
const OWNER_ACCOUNT: &str = "owner.testnet";

const ONE_NEAR: u128 = 1_000_000_000_000_000_000_000_000;

fn sample_contract() -> Contract {
    Contract::new(
        OWNER_ACCOUNT.to_string(),
        NFT_ACCOUNT.to_string(),
        CONTRACT_ACCOUNT.to_string(),
        0,
    )
}

#[test]
fn test_constructor() {
    let initialized_value = Contract::new(
        OWNER_ACCOUNT.to_string(),
        NFT_ACCOUNT.to_string(),
        CONTRACT_ACCOUNT.to_string(),
        1_000 * ONE_NEAR,
    );
    let expected = sample_contract();
    assert_eq!(initialized_value.owner_id, expected.owner_id);
    assert_eq!(initialized_value.nft_account, expected.nft_account);
    assert!(!initialized_value.panic_button);
    assert_eq!(initialized_value.game_count, 0);
    let operating = initialized_value
        .internal_get_account(&CONTRACT_ACCOUNT.to_string())
        .unwrap();
    assert_eq!(operating.storage_collateral, 1_000 * ONE_NEAR);
}

#[test]
fn constructor_checks_owner_identity() {
    // a well-formed identifier is accepted ...
    let some = Contract::try_new(
        OWNER_ACCOUNT.to_string(),
        NFT_ACCOUNT.to_string(),
        CONTRACT_ACCOUNT.to_string(),
        0,
    );
    assert!(some.is_some());
    // ... while upper case and spaces are not valid account ids
    let none = Contract::try_new(
        "NOT a valid id".to_string(),
        NFT_ACCOUNT.to_string(),
        CONTRACT_ACCOUNT.to_string(),
        0,
    );
    assert!(none.is_none());
}

#[test]
fn storage_deposit_creates_and_tops_up() {
    let mut contract = sample_contract();
    let user = "alice.testnet".to_string();
    assert!(contract.internal_get_account(&user).is_none());
    contract.internal_deposit_storage_account(&user, 500);
    let account = contract.internal_get_account(&user).unwrap();
    assert_eq!(account.storage_collateral, 500);
    contract.internal_deposit_storage_account(&user, 250);
    let account = contract.internal_get_account(&user).unwrap();
    assert_eq!(account.storage_collateral, 750);
}

#[test]
fn storage_withdraw_takes_surplus_only() {
    let mut contract = sample_contract();
    let user = "alice.testnet".to_string();

    // an unknown account is refused
    let r = contract.internal_storage_withdraw_account(&user, 0);
    assert_eq!(r.unwrap_err(), GameError::AccountNotRegistered);

    // a fresh account's record costs 100 tracked bytes
    let deposit = 1_000 * ONE_NEAR;
    let record_cost = 100 * STORAGE_PRICE_PER_BYTE;
    contract.internal_deposit_storage_account(&user, deposit);

    // more than the surplus is refused
    let r = contract.internal_storage_withdraw_account(&user, deposit);
    assert_eq!(r.unwrap_err(), GameError::InsufficientStorageCollateral);

    // zero asks for the whole surplus
    let r = contract.internal_storage_withdraw_account(&user, 0);
    assert_eq!(r, Ok(deposit - record_cost));
    let account = contract.internal_get_account(&user).unwrap();
    assert_eq!(account.storage_collateral, record_cost);

    // nothing left to withdraw now
    let r = contract.internal_storage_withdraw_account(&user, 0);
    assert_eq!(r.unwrap_err(), GameError::InsufficientStorageCollateral);
}

#[test]
fn duplicate_game_is_refused() {
    let mut contract = sample_contract();
    contract.internal_deposit_storage_account(&CONTRACT_ACCOUNT.to_string(), 1_000 * ONE_NEAR);
    let create = |c: &mut Contract| {
        c.create_new_partner(
            &OWNER_ACCOUNT.to_string(),
            1,
            "partner.testnet".to_string(),
            "game.testnet".to_string(),
            "token.testnet".to_string(),
            0,
            0,
            0,
            100,
            10,
            2,
            1,
            0,
            0,
        )
    };
    assert_eq!(create(&mut contract), Ok(()));
    assert_eq!(create(&mut contract).unwrap_err(), GameError::DuplicateGame);
}

#[test]
fn created_game_starts_empty_and_reserves_exist() {
    let mut contract = sample_contract();
    contract.internal_deposit_storage_account(&CONTRACT_ACCOUNT.to_string(), 1_000 * ONE_NEAR);
    let token = "token.testnet".to_string();
    contract
        .create_new_partner(
            &OWNER_ACCOUNT.to_string(),
            1,
            "partner.testnet".to_string(),
            "game.testnet".to_string(),
            token.clone(),
            1000,
            10000,
            100,
            100,
            10,
            200,
            100,
            500,
            300,
        )
        .unwrap();
    let game = contract.internal_get_game(&"game.testnet".to_string()).unwrap();
    assert_eq!(game.house_funds, 0);
    assert_eq!(game.partner_balance, 0);
    assert!(!game.blocked);
    assert_eq!(game.partner_token, token);
    assert_eq!(*contract.nft_balance.get(&token).unwrap(), 0);
    assert_eq!(*contract.owner_balance.get(&token).unwrap(), 0);
}

#[test]
fn creating_games_keeps_accrued_reserves() {
    // registering a second game for a token must not clobber what the
    // platform is already owed in that token
    let mut contract = sample_contract();
    contract.internal_deposit_storage_account(&CONTRACT_ACCOUNT.to_string(), 1_000 * ONE_NEAR);
    let token = "token.testnet".to_string();
    contract.owner_balance.set(&token, 77);
    contract.nft_balance.set(&token, 88);
    contract
        .create_new_partner(
            &OWNER_ACCOUNT.to_string(),
            1,
            "partner.testnet".to_string(),
            "game.testnet".to_string(),
            token.clone(),
            0,
            0,
            0,
            100,
            10,
            2,
            1,
            0,
            0,
        )
        .unwrap();
    assert_eq!(*contract.owner_balance.get(&token).unwrap(), 77);
    assert_eq!(*contract.nft_balance.get(&token).unwrap(), 88);
}

#[test]
fn reserve_indexes_follow_insertion_order() {
    let mut contract = sample_contract();
    let token_a = "a-token.testnet".to_string();
    let token_b = "b-token.testnet".to_string();
    contract.owner_balance.set(&token_a, 5);
    contract.owner_balance.set(&token_b, 7);
    let r = contract
        .retrieve_owner_funds(&OWNER_ACCOUNT.to_string(), 1, 1)
        .unwrap();
    assert_eq!(r.token, token_b);
    assert_eq!(r.amount, 7);
    let r = contract
        .retrieve_owner_funds(&OWNER_ACCOUNT.to_string(), 1, 0)
        .unwrap();
    assert_eq!(r.token, token_a);
    assert_eq!(r.amount, 5);
}

#[test]
fn deposits_accumulate_on_one_entry() {
    let mut contract = sample_contract();
    let user = "alice.testnet".to_string();
    let token = "token.testnet".to_string();
    contract.internal_deposit_storage_account(&user, 1_000 * ONE_NEAR);
    contract.user_deposit_balance(&user, &token, 40).unwrap();
    let bytes_after_first = contract
        .internal_get_account(&user)
        .unwrap()
        .storage_bytes_used;
    contract.user_deposit_balance(&user, &token, 2).unwrap();
    let account = contract.internal_get_account(&user).unwrap();
    assert_eq!(account.credit_of(&token), 42);
    // the second deposit reuses the entry: no extra bytes tracked
    assert_eq!(account.storage_bytes_used, bytes_after_first);
}

#[test]
fn undercollateralized_deposit_is_refused() {
    let mut contract = sample_contract();
    let user = "alice.testnet".to_string();
    let token = "token.testnet".to_string();
    // an account whose collateral cannot even cover its own record
    contract.internal_deposit_storage_account(&user, 0);
    let r = contract.user_deposit_balance(&user, &token, 40);
    assert_eq!(r.unwrap_err(), GameError::InsufficientStorageCollateral);
    let account = contract.internal_get_account(&user).unwrap();
    assert_eq!(account.credit_of(&token), 0);
}

#[test]
fn zero_withdrawal_of_empty_balance() {
    let mut contract = sample_contract();
    let user = "alice.testnet".to_string();
    let token = "token.testnet".to_string();
    contract.internal_deposit_storage_account(&user, 1_000 * ONE_NEAR);
    // nothing held, nothing asked: succeeds and transfers zero
    let tr = contract.retrieve_credits(&user, token.clone(), 0).unwrap();
    assert_eq!(tr.amount, 0);
    // one unit asked of an empty balance is refused
    let r = contract.retrieve_credits(&user, token, 1);
    assert_eq!(r.unwrap_err(), GameError::InsufficientBalance);
}

#[test]
fn views_report_without_mutating() {
    let mut contract = sample_contract();
    let user = "alice.testnet".to_string();
    let token = "token.testnet".to_string();
    contract.internal_deposit_storage_account(&user, 1_000 * ONE_NEAR);
    let mut account = contract.internal_get_account(&user).unwrap();
    account.set_credit(&token, 42);
    contract.internal_update_account(&user, &account);

    let state = contract.get_contract_state();
    assert_eq!(state.owner_id, OWNER_ACCOUNT.to_string());
    assert_eq!(state.nft_account, NFT_ACCOUNT.to_string());
    assert!(!state.panic_button);
    assert_eq!(state.game_count, 0);

    // re-querying yields the same answers: reads do not mutate
    let first = contract.get_credits(token.clone(), user.clone()).unwrap();
    let second = contract.get_credits(token.clone(), user.clone()).unwrap();
    assert_eq!(first, 42);
    assert_eq!(second, 42);

    let missing = contract.get_credits(token.clone(), "nobody.testnet".to_string());
    assert_eq!(missing.unwrap_err(), GameError::AccountNotRegistered);

    let missing_game = contract.view_partner_data("no-game.testnet".to_string());
    assert!(missing_game.is_err());
}
