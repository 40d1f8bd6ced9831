//! Read-only views of the platform's state.
//!
//! Every function here takes the state by shared reference, so none of
//! them can mutate anything: re-querying is always harmless.

use crate::errors::GameError;
use crate::partnered_game::PartneredGame;
use crate::Contract;
use vstd::prelude::*;

verus! {

/// The scalar part of the platform's state, as reported to observers.
pub struct ContractStateView {
    /// Identity allowed to administer the platform.
    pub owner_id: String,
    /// Identity of the NFT program.
    pub nft_account: String,
    /// Whether non-owner mutating operations are suspended.
    pub panic_button: bool,
    /// How many wagers have been settled.
    pub game_count: u128,
}

impl Contract {
    /// A snapshot of the platform's scalar state.
    pub fn get_contract_state(&self) -> (v: ContractStateView)
        ensures
            v.owner_id == self.owner_id,
            v.nft_account == self.nft_account,
            v.panic_button == self.panic_button,
            v.game_count == self.game_count,
    {
        ContractStateView {
            owner_id: self.owner_id.clone(),
            nft_account: self.nft_account.clone(),
            panic_button: self.panic_button,
            game_count: self.game_count,
        }
    }

    /// The full record of one registered game.
    pub fn view_partner_data(&self, nft_contract: String) -> (r: Result<PartneredGame, GameError>)
        ensures
            match r {
                Ok(g) => self.games@.contains_key(nft_contract@) && g == self.games@[nft_contract@],
                Err(e) => e == GameError::GameNotFound && !self.games@.contains_key(nft_contract@),
            },
    {
        match self.internal_get_game(&nft_contract) {
            Some(g) => Ok(g),
            None => Err(GameError::GameNotFound),
        }
    }

    /// One account's credit balance in one token; the token defaults
    /// to zero, a missing account is refused.
    pub fn get_credits(&self, token_type: String, account_id: String) -> (r: Result<
        u128,
        GameError,
    >)
        ensures
            match r {
                Ok(c) => self.has_account(account_id@) && c == self.spec_credit_of(
                    account_id@,
                    token_type@,
                ),
                Err(e) => e == GameError::AccountNotRegistered && !self.has_account(account_id@),
            },
    {
        match self.accounts.get(&account_id) {
            Some(a) => Ok(a.credit_of(&token_type)),
            None => Err(GameError::AccountNotRegistered),
        }
    }
}

} // verus!
