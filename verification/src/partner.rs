//! Partner operations: drawing the accrued fee share, drawing down the
//! house reserve, and funding it.
//!
//! Withdrawals zero or decrement the ledger entry before the transfer
//! request is handed back, so a transfer that later fails can never be
//! double-credited.  These are non-owner mutating calls, so the halt
//! flag suspends them.

use crate::errors::GameError;
use crate::transfer::TransferRequest;
use crate::{same_accounts, same_reserves, same_scalars, Contract};
use crate::partnered_game::PartneredGame;
use vstd::prelude::*;

verus! {

impl Contract {
    /// The rejection, if any, of a partner-balance withdrawal: halt
    /// flag, unknown game, wrong caller.
    pub open spec fn spec_retrieve_partner_balance_err(&self, caller: Seq<char>, game_code: Seq<
        char,
    >) -> Option<GameError> {
        if self.panic_button {
            Some(GameError::OperationsSuspended)
        } else if !self.games@.contains_key(game_code) {
            Some(GameError::GameNotFound)
        } else if self.games@[game_code].partner_owner@ != caller {
            Some(GameError::NotPartnerOwner)
        } else {
            None
        }
    }

    /// Withdraws the game's whole accrued partner fee share to the
    /// partner owner: the balance is zeroed first and a transfer of
    /// its old value is handed back.  Only the game's partner owner
    /// may call this.
    pub fn retrieve_partner_balance(&mut self, caller: &String, game_code: String) -> (r: Result<
        TransferRequest,
        GameError,
    >)
        ensures
            match r {
                Ok(tr) => {
                    let g0 = old(self).games@[game_code@];
                    &&& old(self).spec_retrieve_partner_balance_err(caller@, game_code@) is None
                    &&& tr.token == g0.partner_token
                    &&& tr.amount == g0.partner_balance
                    &&& tr.receiver == g0.partner_owner
                    &&& final(self).games@ == old(self).games@.insert(
                        game_code@,
                        PartneredGame { partner_balance: 0, ..g0 },
                    )
                    &&& same_scalars(*final(self), *old(self))
                    &&& same_accounts(*final(self), *old(self))
                    &&& same_reserves(*final(self), *old(self))
                },
                Err(e) => Some(e) == old(self).spec_retrieve_partner_balance_err(
                    caller@,
                    game_code@,
                ) && *final(self) == *old(self),
            },
    {
        if self.panic_button {
            return Err(GameError::OperationsSuspended);
        }
        let mut game = match self.internal_get_game(&game_code) {
            Some(g) => g,
            None => {
                return Err(GameError::GameNotFound);
            },
        };
        if !(game.partner_owner == *caller) {
            return Err(GameError::NotPartnerOwner);
        }
        let balance = game.partner_balance;
        game.partner_balance = 0;
        let token = game.partner_token.clone();
        let receiver = game.partner_owner.clone();
        self.internal_update_game(&game_code, &game);
        Ok(TransferRequest { token, amount: balance, receiver })
    }

    /// The rejection, if any, of a house-funds withdrawal: halt flag,
    /// unknown game, wrong caller, then a reserve smaller than the
    /// requested quantity.
    pub open spec fn spec_retrieve_house_funds_err(
        &self,
        caller: Seq<char>,
        game_code: Seq<char>,
        quantity: u128,
    ) -> Option<GameError> {
        if self.panic_button {
            Some(GameError::OperationsSuspended)
        } else if !self.games@.contains_key(game_code) {
            Some(GameError::GameNotFound)
        } else if self.games@[game_code].partner_owner@ != caller {
            Some(GameError::NotPartnerOwner)
        } else if quantity > self.games@[game_code].house_funds {
            Some(GameError::InsufficientReserve)
        } else {
            None
        }
    }

    /// Withdraws `quantity` from the game's house reserve to the
    /// partner owner: the reserve is decremented first and a transfer
    /// of exactly `quantity` is handed back.  Only the game's partner
    /// owner may call this, and never for more than the reserve holds.
    pub fn retrieve_house_funds(&mut self, caller: &String, game_code: String, quantity: u128) -> (r:
        Result<TransferRequest, GameError>)
        ensures
            match r {
                Ok(tr) => {
                    let g0 = old(self).games@[game_code@];
                    &&& old(self).spec_retrieve_house_funds_err(caller@, game_code@, quantity)
                        is None
                    &&& tr.token == g0.partner_token
                    &&& tr.amount == quantity
                    &&& tr.receiver == g0.partner_owner
                    &&& final(self).games@ == old(self).games@.insert(
                        game_code@,
                        PartneredGame { house_funds: (g0.house_funds - quantity) as u128, ..g0 },
                    )
                    &&& same_scalars(*final(self), *old(self))
                    &&& same_accounts(*final(self), *old(self))
                    &&& same_reserves(*final(self), *old(self))
                },
                Err(e) => Some(e) == old(self).spec_retrieve_house_funds_err(
                    caller@,
                    game_code@,
                    quantity,
                ) && *final(self) == *old(self),
            },
    {
        if self.panic_button {
            return Err(GameError::OperationsSuspended);
        }
        let mut game = match self.internal_get_game(&game_code) {
            Some(g) => g,
            None => {
                return Err(GameError::GameNotFound);
            },
        };
        if !(game.partner_owner == *caller) {
            return Err(GameError::NotPartnerOwner);
        }
        if quantity > game.house_funds {
            return Err(GameError::InsufficientReserve);
        }
        game.house_funds = game.house_funds - quantity;
        let token = game.partner_token.clone();
        let receiver = game.partner_owner.clone();
        self.internal_update_game(&game_code, &game);
        Ok(TransferRequest { token, amount: quantity, receiver })
    }

    /// The rejection, if any, of funding a game's reserve: halt flag,
    /// unknown game, then a token other than the game's own.
    pub open spec fn spec_fund_game_house_err(
        &self,
        token_contract: Seq<char>,
        game_code: Seq<char>,
    ) -> Option<GameError> {
        if self.panic_button {
            Some(GameError::OperationsSuspended)
        } else if !self.games@.contains_key(game_code) {
            Some(GameError::GameNotFound)
        } else if self.games@[game_code].partner_token@ != token_contract {
            Some(GameError::TokenMismatch)
        } else {
            None
        }
    }

    /// What a successful reserve funding does to the state: the game's
    /// reserve grows by the amount and everything else stays.
    pub open spec fn spec_fund_game_house_post(
        pre: Contract,
        post: Contract,
        token_contract: Seq<char>,
        amount: u128,
        game_code: Seq<char>,
    ) -> bool {
        let g0 = pre.games@[game_code];
        &&& pre.spec_fund_game_house_err(token_contract, game_code) is None
        &&& post.games@ == pre.games@.insert(
            game_code,
            PartneredGame { house_funds: (g0.house_funds + amount) as u128, ..g0 },
        )
        &&& same_scalars(post, pre)
        &&& same_accounts(post, pre)
        &&& same_reserves(post, pre)
    }

    /// Credits value that arrived earmarked for a game's reserve.  The
    /// incoming token must be the game's configured token.
    pub fn fund_game_house(&mut self, token_contract: &String, amount: u128, game_code: String)
        -> (r: Result<(), GameError>)
        requires
            old(self).games@.contains_key(game_code@) ==> old(self).games@[game_code@].house_funds
                + amount <= u128::MAX,
        ensures
            match r {
                Ok(()) => Self::spec_fund_game_house_post(
                    *old(self),
                    *final(self),
                    token_contract@,
                    amount,
                    game_code@,
                ),
                Err(e) => Some(e) == old(self).spec_fund_game_house_err(token_contract@, game_code@)
                    && *final(self) == *old(self),
            },
    {
        if self.panic_button {
            return Err(GameError::OperationsSuspended);
        }
        let mut game = match self.internal_get_game(&game_code) {
            Some(g) => g,
            None => {
                return Err(GameError::GameNotFound);
            },
        };
        if !(game.partner_token == *token_contract) {
            return Err(GameError::TokenMismatch);
        }
        game.house_funds = game.house_funds + amount;
        self.internal_update_game(&game_code, &game);
        Ok(())
    }
}

} // verus!
