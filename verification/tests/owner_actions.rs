//! Owner-only administration: the halt switch, ownership transfer,
//! reserve withdrawals and the game registry.

use coin_flip::errors::GameError;
use coin_flip::partnered_game::PartneredGame;
use coin_flip::Contract;
use coin_flip::FRACTIONAL_BASE;

const CONTRACT_ACCOUNT: &str = "contract.testnet";
const NFT_ACCOUNT: &str = "nft.testnet";
const SIGNER_ACCOUNT: &str = "signer.testnet";
const OWNER_ACCOUNT: &str = "owner.testnet";

const ONE_NEAR: u128 = 1_000_000_000_000_000_000_000_000;

fn sample_contract() -> Contract {
    Contract::new(
        OWNER_ACCOUNT.to_string(),
        NFT_ACCOUNT.to_string(),
        CONTRACT_ACCOUNT.to_string(),
        0,
    )
}

#[test]
fn test_emergency_panic() {
    // 1. Assert caller is owner
    let mut contract = sample_contract();
    let r = contract.emergency_panic(&SIGNER_ACCOUNT.to_string(), 1);
    assert_eq!(r, Err(GameError::NotOwner));
    assert!(!contract.panic_button);

    // 2. Assert caller deposited the intent proof
    let mut contract = sample_contract();
    let r = contract.emergency_panic(&OWNER_ACCOUNT.to_string(), 0);
    assert_eq!(r, Err(GameError::MissingIntentProof));
    assert!(!contract.panic_button);

    // 3. Toggle the panic_button in the contract global
    let mut contract = sample_contract();
    let r = contract.emergency_panic(&OWNER_ACCOUNT.to_string(), 1);
    assert_eq!(r, Ok(true));
    assert_ne!(false, contract.panic_button);
}

#[test]
fn test_update_contract() {
    // 1. Assert caller is owner
    let mut contract = sample_contract();
    let r = contract.update_contract(&SIGNER_ACCOUNT.to_string(), 1, SIGNER_ACCOUNT.to_string());
    assert_eq!(r, Err(GameError::NotOwner));
    assert_eq!(contract.owner_id, OWNER_ACCOUNT.to_string());

    // 2. Assert caller deposited the intent proof
    let mut contract = sample_contract();
    let r = contract.update_contract(&OWNER_ACCOUNT.to_string(), 0, SIGNER_ACCOUNT.to_string());
    assert_eq!(r, Err(GameError::MissingIntentProof));

    // 3. Alter owner_id in the contract to the new owner
    let mut contract = sample_contract();
    let r = contract.update_contract(&OWNER_ACCOUNT.to_string(), 1, SIGNER_ACCOUNT.to_string());
    assert_eq!(r, Ok(()));
    assert_eq!(contract.owner_id, SIGNER_ACCOUNT.to_string());

    // authority moved with the identity
    let r = contract.emergency_panic(&OWNER_ACCOUNT.to_string(), 1);
    assert_eq!(r, Err(GameError::NotOwner));
    let r = contract.emergency_panic(&SIGNER_ACCOUNT.to_string(), 1);
    assert_eq!(r, Ok(true));
}

#[test]
fn test_retrieve_owner_funds() {
    let token = "0.testnet".to_string();

    // 1. Assert that the caller deposits the intent proof
    let mut contract = sample_contract();
    contract.owner_balance.set(&token, 0);
    let r = contract.retrieve_owner_funds(&OWNER_ACCOUNT.to_string(), 0, 0);
    assert_eq!(r.unwrap_err(), GameError::MissingIntentProof);

    // 2. Assert that there is a balance to withdraw
    let mut contract = sample_contract();
    contract.owner_balance.set(&token, 0);
    let r = contract.retrieve_owner_funds(&OWNER_ACCOUNT.to_string(), 1, 0);
    assert_eq!(r.unwrap_err(), GameError::ZeroBalance);

    // 3. Assert that the token exists
    let mut contract = sample_contract();
    contract.owner_balance.set(&token, 0);
    let r = contract.retrieve_owner_funds(&OWNER_ACCOUNT.to_string(), 1, 4);
    assert_eq!(r.unwrap_err(), GameError::TokenIndexOutOfBounds);

    // 4. Withdraw the entirety of this balance
    // 5. Hand back the transfer request for the token
    let mut contract = sample_contract();
    contract.owner_balance.set(&token, 1000);
    let r = contract.retrieve_owner_funds(&OWNER_ACCOUNT.to_string(), 1, 0).unwrap();
    assert_eq!(r.token, token);
    assert_eq!(r.amount, 1000);
    assert_eq!(r.receiver, OWNER_ACCOUNT.to_string());
    assert_eq!(*contract.owner_balance.get(&token).unwrap(), 0);
}

#[test]
fn test_retrieve_nft_funds() {
    let token = "0.testnet".to_string();

    // 1. Assert that the caller deposits the intent proof
    let mut contract = sample_contract();
    contract.nft_balance.set(&token, 0);
    let r = contract.retrieve_nft_funds(&OWNER_ACCOUNT.to_string(), 0, 0);
    assert_eq!(r.unwrap_err(), GameError::MissingIntentProof);

    // 2. Assert that there is a balance to withdraw
    let mut contract = sample_contract();
    contract.nft_balance.set(&token, 0);
    let r = contract.retrieve_nft_funds(&OWNER_ACCOUNT.to_string(), 1, 0);
    assert_eq!(r.unwrap_err(), GameError::ZeroBalance);

    // 3. Assert that the token exists
    let mut contract = sample_contract();
    contract.nft_balance.set(&token, 0);
    let r = contract.retrieve_nft_funds(&OWNER_ACCOUNT.to_string(), 1, 4);
    assert_eq!(r.unwrap_err(), GameError::TokenIndexOutOfBounds);

    // 4. Withdraw the entirety of this balance
    // 5. Hand back the transfer request for the token
    let mut contract = sample_contract();
    contract.nft_balance.set(&token, 1000);
    let r = contract.retrieve_nft_funds(&OWNER_ACCOUNT.to_string(), 1, 0).unwrap();
    assert_eq!(r.token, token);
    assert_eq!(r.amount, 1000);
    assert_eq!(r.receiver, NFT_ACCOUNT.to_string());
    assert_eq!(*contract.nft_balance.get(&token).unwrap(), 0);
}

#[allow(clippy::too_many_arguments)]
fn try_create(
    signer: &str,
    deposit: u128,
    contract_storage_balance: u128,
    params: (u128, u128, u128, u128, u128, u8, u8, u128, u128),
    seed: u128,
) -> (Result<(), GameError>, Contract, String) {
    let partner_owner = format!("{}-partner.testnet", seed);
    let nft_contract = format!("{}-nft.testnet", seed);
    let token = format!("{}.testnet", seed);
    let mut contract = sample_contract();
    contract.internal_deposit_storage_account(
        &CONTRACT_ACCOUNT.to_string(),
        contract_storage_balance,
    );

    assert!(contract.internal_get_game(&nft_contract).is_none());

    let r = contract.create_new_partner(
        &signer.to_string(),
        deposit,
        partner_owner,
        nft_contract.clone(),
        token,
        params.0,
        params.1,
        params.2,
        params.3,
        params.4,
        params.5,
        params.6,
        params.7,
        params.8,
    );
    (r, contract, nft_contract)
}

#[test]
fn test_create_new_partner() {
    // 1. Assert caller is owner
    let (r, _, _) = try_create(SIGNER_ACCOUNT, 1, 0, (0, 0, 0, 0, 0, 0, 0, 0, 0), 0);
    assert_eq!(r.unwrap_err(), GameError::NotOwner);

    // 2. Assert that the caller deposits the intent proof
    let (r, _, _) = try_create(OWNER_ACCOUNT, 0, 0, (0, 0, 0, 0, 0, 0, 0, 0, 0), 1);
    assert_eq!(r.unwrap_err(), GameError::MissingIntentProof);

    // 3. Assert that the contract has storage paid for the new game
    let (r, _, _) = try_create(OWNER_ACCOUNT, 1, 0, (0, 0, 0, 100, 10, 2, 1, 0, 0), 2);
    assert_eq!(r.unwrap_err(), GameError::InsufficientStorageCollateral);

    // 4a. Assert max_bet > min_bet
    let (r, _, _) = try_create(OWNER_ACCOUNT, 1, 0, (0, 0, 0, 100, 101, 2, 1, 0, 0), 3);
    assert_eq!(r.unwrap_err(), GameError::InvalidRange);

    // 4b. Assert max_odds > min_odds
    let (r, _, _) = try_create(OWNER_ACCOUNT, 1, 0, (0, 0, 0, 100, 10, 2, 3, 0, 0), 4);
    assert_eq!(r.unwrap_err(), GameError::InvalidRange);

    // 4c. Assert fees are at most the fractional base
    let big = FRACTIONAL_BASE + 1;
    let balance = 1_000 * ONE_NEAR;
    let (r, _, _) = try_create(OWNER_ACCOUNT, 1, balance, (big, 0, 0, 100, 10, 2, 1, 0, 0), 5);
    assert_eq!(r.unwrap_err(), GameError::FeeOutOfRange);
    let (r, _, _) = try_create(OWNER_ACCOUNT, 1, balance, (0, big, 0, 100, 10, 2, 1, 0, 0), 6);
    assert_eq!(r.unwrap_err(), GameError::FeeOutOfRange);
    let (r, _, _) = try_create(OWNER_ACCOUNT, 1, balance, (0, 0, big, 100, 10, 2, 1, 0, 0), 7);
    assert_eq!(r.unwrap_err(), GameError::FeeOutOfRange);
    let (r, _, _) = try_create(OWNER_ACCOUNT, 1, balance, (0, 0, 0, 100, 10, 2, 1, 0, big), 8);
    assert_eq!(r.unwrap_err(), GameError::FeeOutOfRange);
    let (r, _, _) = try_create(OWNER_ACCOUNT, 1, balance, (0, 0, 0, 100, 10, 2, 1, big, 0), 9);
    assert_eq!(r.unwrap_err(), GameError::FeeOutOfRange);

    // 5. Insert the new game into the registry
    let (r, contract, nft_contract) =
        try_create(OWNER_ACCOUNT, 1, balance, (0, 0, 0, 100, 10, 2, 1, 0, 0), 10);
    assert_eq!(r, Ok(()));
    assert!(contract.internal_get_game(&nft_contract).is_some());
}

#[allow(clippy::too_many_arguments)]
fn try_alter(
    signer: &str,
    deposit: u128,
    call_game: Option<String>,
    params: (u128, bool, u128, u128, u128, u128, u8, u8, u128, u128),
    seed: u128,
) -> (Result<(), GameError>, Contract, String) {
    let partner_owner = format!("{}-partner.testnet", seed);
    let nft_contract = format!("{}-nft.testnet", seed);
    let token = format!("{}.testnet", seed);
    let mut contract = sample_contract();

    let game_settings = PartneredGame {
        partner_owner: partner_owner.clone(),
        blocked: false,
        house_funds: 0,
        partner_token: token,
        partner_fee: 0,
        partner_balance: 0,
        bet_payment_adjustment: 10_000,
        house_fee: 0,
        max_bet: 0,
        min_bet: 0,
        max_odds: 200,
        min_odds: 10,
        nft_fee: 0,
        owner_fee: 0,
    };
    contract.internal_update_game(&nft_contract, &game_settings);

    let target = match call_game {
        Some(v) => v,
        None => nft_contract.clone(),
    };
    let r = contract.alter_partner(
        &signer.to_string(),
        deposit,
        target,
        partner_owner,
        params.0,
        params.1,
        params.2,
        params.3,
        params.4,
        params.5,
        params.6,
        params.7,
        params.8,
        params.9,
    );
    (r, contract, nft_contract)
}

#[test]
fn test_alter_partner() {
    // 1. Assert caller is owner
    let (r, _, _) = try_alter(
        SIGNER_ACCOUNT,
        1,
        None,
        (0, false, 0, 0, 0, 0, 0, 0, 0, 0),
        0,
    );
    assert_eq!(r.unwrap_err(), GameError::NotOwner);

    // 2. Assert that the caller deposits the intent proof
    let (r, _, _) = try_alter(
        OWNER_ACCOUNT,
        0,
        None,
        (0, false, 0, 0, 0, 0, 0, 0, 0, 0),
        1,
    );
    assert_eq!(r.unwrap_err(), GameError::MissingIntentProof);

    // 3. Assert that the game exists
    let (r, _, _) = try_alter(
        OWNER_ACCOUNT,
        1,
        Some("Other".to_string()),
        (0, false, 0, 0, 100, 10, 2, 1, 0, 0),
        2,
    );
    assert_eq!(r.unwrap_err(), GameError::GameNotFound);

    // 4a. Assert max_bet > min_bet
    let (r, _, _) = try_alter(
        OWNER_ACCOUNT,
        1,
        None,
        (0, false, 0, 0, 100, 101, 2, 1, 0, 0),
        3,
    );
    assert_eq!(r.unwrap_err(), GameError::InvalidRange);

    // 4b. Assert max_odds > min_odds
    let (r, _, _) = try_alter(
        OWNER_ACCOUNT,
        1,
        None,
        (0, false, 0, 0, 100, 10, 2, 3, 0, 0),
        4,
    );
    assert_eq!(r.unwrap_err(), GameError::InvalidRange);

    // 4c. Assert fees are at most the fractional base
    let big = FRACTIONAL_BASE + 1;
    let (r, _, _) = try_alter(
        OWNER_ACCOUNT,
        1,
        None,
        (big, false, 0, 0, 100, 10, 2, 1, 0, 0),
        5,
    );
    assert_eq!(r.unwrap_err(), GameError::FeeOutOfRange);
    let (r, _, _) = try_alter(
        OWNER_ACCOUNT,
        1,
        None,
        (0, false, big, 0, 100, 10, 2, 1, 0, 0),
        6,
    );
    assert_eq!(r.unwrap_err(), GameError::FeeOutOfRange);
    let (r, _, _) = try_alter(
        OWNER_ACCOUNT,
        1,
        None,
        (0, false, 0, big, 100, 10, 2, 1, 0, 0),
        7,
    );
    assert_eq!(r.unwrap_err(), GameError::FeeOutOfRange);
    let (r, _, _) = try_alter(
        OWNER_ACCOUNT,
        1,
        None,
        (0, false, 0, 0, 100, 10, 2, 1, 0, big),
        8,
    );
    assert_eq!(r.unwrap_err(), GameError::FeeOutOfRange);
    let (r, _, _) = try_alter(
        OWNER_ACCOUNT,
        1,
        None,
        (0, false, 0, 0, 100, 10, 2, 1, big, 0),
        9,
    );
    assert_eq!(r.unwrap_err(), GameError::FeeOutOfRange);

    // 5. Overwrite the game in the registry
    let (r, contract, nft_contract) = try_alter(
        OWNER_ACCOUNT,
        1,
        None,
        (0, false, 0, 0, 100, 10, 2, 1, 0, 0),
        10,
    );
    assert_eq!(r, Ok(()));
    let game = contract.internal_get_game(&nft_contract).unwrap();
    assert_eq!(game.max_bet, 100);
    assert_eq!(game.min_bet, 10);
    assert_eq!(game.max_odds, 2);
    assert_eq!(game.min_odds, 1);
}
