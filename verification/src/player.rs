//! Player operations: depositing credits, withdrawing them, and the
//! wagering engine itself.
//!
//! `play` validates the bet, splits the stake into the four fee
//! components, derives the outcome from the entropy byte and the wager
//! counter, and settles all balances atomically: a rejected wager
//! leaves the state exactly as it was.

use crate::account::{storage_covered, BALANCE_ENTRY_BYTES};
use crate::errors::GameError;
use crate::partnered_game::PartneredGame;
use crate::transfer::TransferRequest;
use crate::wager::{
    spec_cut, spec_cuts_total, spec_net_stake, spec_wins, spec_won_value, flip_result,
};
use crate::{reserve_of, same_games, same_reserves, same_scalars, Contract, FRACTIONAL_BASE};
use vstd::prelude::*;
use vstd::string::StrSliceExecFns;

verus! {

impl Contract {
    /// The rejection, if any, of a wager before any arithmetic: the
    /// halt flag, the caller's registration, the game's existence, the
    /// caller's balance in the game's token, and the stake and odds
    /// bounds, in that order.
    pub open spec fn spec_play_validation_err(
        &self,
        caller: Seq<char>,
        game_code: Seq<char>,
        bet_size: u128,
        odds: u8,
    ) -> Option<GameError> {
        if self.panic_button {
            Some(GameError::OperationsSuspended)
        } else if !self.has_account(caller) {
            Some(GameError::AccountNotRegistered)
        } else if !self.games@.contains_key(game_code) {
            Some(GameError::GameNotFound)
        } else {
            let g = self.games@[game_code];
            if self.spec_credit_of(caller, g.partner_token@) < bet_size {
                Some(GameError::InsufficientBalance)
            } else if bet_size < g.min_bet {
                Some(GameError::BetTooSmall)
            } else if bet_size > g.max_bet {
                Some(GameError::BetTooLarge)
            } else if odds < g.min_odds {
                Some(GameError::OddsTooLow)
            } else if odds > g.max_odds {
                Some(GameError::OddsTooHigh)
            } else {
                None
            }
        }
    }

    /// The rejection, if any, of a wager: a validation failure, or a
    /// winning roll whose payout the house reserve (fee credit
    /// included) cannot cover.
    pub open spec fn spec_play_err(
        &self,
        caller: Seq<char>,
        game_code: Seq<char>,
        bet_size: u128,
        odds: u8,
        entropy: u8,
    ) -> Option<GameError> {
        let v = self.spec_play_validation_err(caller, game_code, bet_size, odds);
        if v is Some {
            v
        } else {
            let g = self.games@[game_code];
            let won = spec_won_value(spec_net_stake(bet_size, g), odds, g.bet_payment_adjustment);
            if spec_wins(entropy, self.game_count, odds) && won > g.house_funds + spec_cut(
                bet_size,
                g.house_fee,
            ) {
                Some(GameError::InsufficientReserve)
            } else {
                None
            }
        }
    }

    /// Whether the wager's arithmetic stays within the machine's
    /// integer range, so that `play` can run it.  Vacuous whenever
    /// validation already rejects the wager.
    pub open spec fn spec_play_fits(
        &self,
        caller: Seq<char>,
        game_code: Seq<char>,
        bet_size: u128,
        odds: u8,
        entropy: u8,
    ) -> bool {
        self.spec_play_validation_err(caller, game_code, bet_size, odds) is None ==> {
            let g = self.games@[game_code];
            let token = g.partner_token@;
            let net = spec_net_stake(bet_size, g);
            &&& bet_size * g.nft_fee <= u128::MAX
            &&& bet_size * g.owner_fee <= u128::MAX
            &&& bet_size * g.house_fee <= u128::MAX
            &&& bet_size * g.partner_fee <= u128::MAX
            &&& spec_cuts_total(bet_size, g) <= bet_size
            &&& reserve_of(self.nft_balance@, token) + spec_cut(bet_size, g.nft_fee) <= u128::MAX
            &&& reserve_of(self.owner_balance@, token) + spec_cut(bet_size, g.owner_fee)
                <= u128::MAX
            &&& g.house_funds + spec_cut(bet_size, g.house_fee) <= u128::MAX
            &&& g.partner_balance + spec_cut(bet_size, g.partner_fee) <= u128::MAX
            &&& self.game_count < u128::MAX
            &&& (spec_wins(entropy, self.game_count, odds) ==> {
                &&& net * 256 <= u128::MAX
                &&& (net * 256) / (odds as int) * g.bet_payment_adjustment <= u128::MAX
                &&& self.spec_credit_of(caller, token) - bet_size + spec_won_value(
                    net,
                    odds,
                    g.bet_payment_adjustment,
                ) <= u128::MAX
            })
        }
    }

    /// How a completed `play` call relates the state after (`post`) to
    /// the state before (`pre`): a rejected wager changes nothing, a
    /// settled one moves exactly the fee cuts, the stake and, on a
    /// win, the payout.
    pub open spec fn spec_play_post(
        pre: Contract,
        post: Contract,
        r: Result<bool, GameError>,
        caller: Seq<char>,
        game_code: Seq<char>,
        bet_size: u128,
        odds: u8,
        entropy: u8,
    ) -> bool {
        match r {
            Err(e) => Some(e) == pre.spec_play_err(caller, game_code, bet_size, odds, entropy)
                && post == pre,
            Ok(outcome) => {
                let g0 = pre.games@[game_code];
                let token = g0.partner_token@;
                let net = spec_net_stake(bet_size, g0);
                let won: int = if outcome {
                    spec_won_value(net, odds, g0.bet_payment_adjustment)
                } else {
                    0
                };
                let credits0 = pre.spec_credit_of(caller, token);
                &&& pre.spec_play_err(caller, game_code, bet_size, odds, entropy) is None
                &&& outcome == spec_wins(entropy, pre.game_count, odds)
                &&& post.games@.contains_key(game_code)
                &&& post.games@[game_code] == PartneredGame {
                    house_funds: post.games@[game_code].house_funds,
                    partner_balance: post.games@[game_code].partner_balance,
                    ..g0
                }
                &&& post.games@[game_code].house_funds as int == g0.house_funds + spec_cut(
                    bet_size,
                    g0.house_fee,
                ) - won
                &&& post.games@[game_code].partner_balance as int == g0.partner_balance + spec_cut(
                    bet_size,
                    g0.partner_fee,
                )
                &&& post.games@.remove(game_code) == pre.games@.remove(game_code)
                &&& post.nft_balance@.contains_key(token)
                &&& post.nft_balance@[token] as int == reserve_of(pre.nft_balance@, token)
                    + spec_cut(bet_size, g0.nft_fee)
                &&& post.nft_balance@.remove(token) == pre.nft_balance@.remove(token)
                &&& (pre.nft_balance@.contains_key(token) ==> post.nft_balance.keys()
                    == pre.nft_balance.keys())
                &&& (!pre.nft_balance@.contains_key(token) ==> post.nft_balance.keys()
                    == pre.nft_balance.keys().push(token))
                &&& post.owner_balance@.contains_key(token)
                &&& post.owner_balance@[token] as int == reserve_of(pre.owner_balance@, token)
                    + spec_cut(bet_size, g0.owner_fee)
                &&& post.owner_balance@.remove(token) == pre.owner_balance@.remove(token)
                &&& (pre.owner_balance@.contains_key(token) ==> post.owner_balance.keys()
                    == pre.owner_balance.keys())
                &&& (!pre.owner_balance@.contains_key(token) ==> post.owner_balance.keys()
                    == pre.owner_balance.keys().push(token))
                &&& post.accounts@.contains_key(caller)
                &&& post.accounts@[caller].balances@.contains_key(token)
                &&& post.accounts@[caller].balances@[token] as int == credits0 - bet_size + won
                &&& post.accounts@[caller].balances@.remove(token) == pre.accounts@[
                    caller
                ].balances@.remove(token)
                &&& post.accounts@[caller].storage_collateral == pre.accounts@[
                    caller
                ].storage_collateral
                &&& post.accounts@[caller].storage_bytes_used == pre.accounts@[
                    caller
                ].storage_bytes_used
                &&& post.accounts@.remove(caller) == pre.accounts@.remove(caller)
                &&& post.game_count == pre.game_count + 1
                &&& post.owner_id == pre.owner_id
                &&& post.nft_account == pre.nft_account
                &&& post.contract_account == pre.contract_account
                &&& post.panic_button == pre.panic_button
            },
        }
    }

    /// Executes one wager: validates it, splits the stake, derives the
    /// outcome from the entropy byte and the wager counter, and
    /// settles every balance; the wager counter increments on every
    /// settled wager.  Returns whether the wager won.  `_bet_type` is
    /// inert, carried only for off-chain observers.
    pub fn play(
        &mut self,
        caller: &String,
        game_code: String,
        bet_size: u128,
        odds: u8,
        _bet_type: String,
        entropy: u8,
    ) -> (r: Result<bool, GameError>)
        requires
            old(self).spec_play_fits(caller@, game_code@, bet_size, odds, entropy),
        ensures
            Self::spec_play_post(
                *old(self),
                *final(self),
                r,
                caller@,
                game_code@,
                bet_size,
                odds,
                entropy,
            ),
    {
        if self.panic_button {
            return Err(GameError::OperationsSuspended);
        }
        let mut account = match self.internal_get_account(caller) {
            Some(a) => a,
            None => {
                return Err(GameError::AccountNotRegistered);
            },
        };
        let mut game = match self.internal_get_game(&game_code) {
            Some(g) => g,
            None => {
                return Err(GameError::GameNotFound);
            },
        };
        let credits = account.credit_of(&game.partner_token);
        if credits < bet_size {
            return Err(GameError::InsufficientBalance);
        }
        if bet_size < game.min_bet {
            return Err(GameError::BetTooSmall);
        }
        if bet_size > game.max_bet {
            return Err(GameError::BetTooLarge);
        }
        if odds < game.min_odds {
            return Err(GameError::OddsTooLow);
        }
        if odds > game.max_odds {
            return Err(GameError::OddsTooHigh);
        }
        let nft_cut = (bet_size * game.nft_fee) / FRACTIONAL_BASE;
        let owner_cut = (bet_size * game.owner_fee) / FRACTIONAL_BASE;
        let house_cut = (bet_size * game.house_fee) / FRACTIONAL_BASE;
        let partner_cut = (bet_size * game.partner_fee) / FRACTIONAL_BASE;
        let net_bet = bet_size - nft_cut - owner_cut - house_cut - partner_cut;
        let rolled = flip_result(entropy, self.game_count);
        let outcome = rolled < odds;
        let house_after_fee = game.house_funds + house_cut;
        let mut new_credits = credits - bet_size;
        let mut new_house = house_after_fee;
        if outcome {
            let won_value = (((net_bet * 256) / (odds as u128)) * game.bet_payment_adjustment)
                / FRACTIONAL_BASE;
            if won_value > house_after_fee {
                return Err(GameError::InsufficientReserve);
            }
            new_credits = new_credits + won_value;
            new_house = house_after_fee - won_value;
        }
        let token = game.partner_token.clone();
        let nft_res = match self.nft_balance.get(&token) {
            Some(v) => *v,
            None => 0,
        };
        self.nft_balance.set(&token, nft_res + nft_cut);
        let owner_res = match self.owner_balance.get(&token) {
            Some(v) => *v,
            None => 0,
        };
        self.owner_balance.set(&token, owner_res + owner_cut);
        game.house_funds = new_house;
        game.partner_balance = game.partner_balance + partner_cut;
        self.internal_update_game(&game_code, &game);
        account.set_credit(&token, new_credits);
        self.internal_update_account(caller, &account);
        self.game_count = self.game_count + 1;
        proof {
            assert(self.games@.remove(game_code@) =~= old(self).games@.remove(game_code@));
            assert(self.nft_balance@.remove(token@) =~= old(self).nft_balance@.remove(token@));
            assert(self.owner_balance@.remove(token@) =~= old(self).owner_balance@.remove(
                token@,
            ));
            assert(self.accounts@[caller@].balances@.remove(token@) =~= old(self).accounts@[
                caller@
            ].balances@.remove(token@));
        }
        Ok(outcome)
    }

    /// Tests, without mutating anything, whether the wager's
    /// arithmetic stays within the machine's integer range.
    pub fn play_would_fit(
        &self,
        caller: &String,
        game_code: &String,
        bet_size: u128,
        odds: u8,
        entropy: u8,
    ) -> (b: bool)
        ensures
            b == self.spec_play_fits(caller@, game_code@, bet_size, odds, entropy),
    {
        if self.panic_button {
            return true;
        }
        let account = match self.internal_get_account(caller) {
            Some(a) => a,
            None => {
                return true;
            },
        };
        let game = match self.internal_get_game(game_code) {
            Some(g) => g,
            None => {
                return true;
            },
        };
        let credits = account.credit_of(&game.partner_token);
        if credits < bet_size || bet_size < game.min_bet || bet_size > game.max_bet || odds
            < game.min_odds || odds > game.max_odds {
            return true;
        }
        let nft_mul = bet_size.checked_mul(game.nft_fee);
        let owner_mul = bet_size.checked_mul(game.owner_fee);
        let house_mul = bet_size.checked_mul(game.house_fee);
        let partner_mul = bet_size.checked_mul(game.partner_fee);
        if nft_mul.is_none() || owner_mul.is_none() || house_mul.is_none()
            || partner_mul.is_none() {
            return false;
        }
        let nft_cut = nft_mul.unwrap() / FRACTIONAL_BASE;
        let owner_cut = owner_mul.unwrap() / FRACTIONAL_BASE;
        let house_cut = house_mul.unwrap() / FRACTIONAL_BASE;
        let partner_cut = partner_mul.unwrap() / FRACTIONAL_BASE;
        if nft_cut > bet_size || owner_cut > bet_size - nft_cut || house_cut > bet_size - nft_cut
            - owner_cut || partner_cut > bet_size - nft_cut - owner_cut - house_cut {
            return false;
        }
        let net_bet = bet_size - nft_cut - owner_cut - house_cut - partner_cut;
        let nft_res = match self.nft_balance.get(&game.partner_token) {
            Some(v) => *v,
            None => 0,
        };
        if nft_res.checked_add(nft_cut).is_none() {
            return false;
        }
        let owner_res = match self.owner_balance.get(&game.partner_token) {
            Some(v) => *v,
            None => 0,
        };
        if owner_res.checked_add(owner_cut).is_none() {
            return false;
        }
        if game.house_funds.checked_add(house_cut).is_none() {
            return false;
        }
        if game.partner_balance.checked_add(partner_cut).is_none() {
            return false;
        }
        if self.game_count == u128::MAX {
            return false;
        }
        let rolled = flip_result(entropy, self.game_count);
        if rolled < odds {
            let scaled = match net_bet.checked_mul(256) {
                Some(s) => s,
                None => {
                    return false;
                },
            };
            let fair = scaled / (odds as u128);
            let adjusted = match fair.checked_mul(game.bet_payment_adjustment) {
                Some(a) => a,
                None => {
                    return false;
                },
            };
            let won_value = adjusted / FRACTIONAL_BASE;
            let after_stake = credits - bet_size;
            if after_stake.checked_add(won_value).is_none() {
                return false;
            }
        }
        true
    }

    /// Runs the wager only when its arithmetic fits the machine's
    /// integer range; hands back `None`, with the state untouched,
    /// when it does not.
    pub fn play_checked(
        &mut self,
        caller: &String,
        game_code: String,
        bet_size: u128,
        odds: u8,
        bet_type: String,
        entropy: u8,
    ) -> (r: Option<Result<bool, GameError>>)
        ensures
            match r {
                Some(res) => old(self).spec_play_fits(caller@, game_code@, bet_size, odds, entropy)
                    && Self::spec_play_post(
                    *old(self),
                    *final(self),
                    res,
                    caller@,
                    game_code@,
                    bet_size,
                    odds,
                    entropy,
                ),
                None => !old(self).spec_play_fits(caller@, game_code@, bet_size, odds, entropy)
                    && *final(self) == *old(self),
            },
    {
        if self.play_would_fit(caller, &game_code, bet_size, odds, entropy) {
            Some(self.play(caller, game_code, bet_size, odds, bet_type, entropy))
        } else {
            None
        }
    }

    /// The rejection, if any, of a balance deposit: the halt flag, the
    /// account's registration, then storage coverage for a possibly
    /// new balance entry.
    pub open spec fn spec_user_deposit_err(
        &self,
        account_id: Seq<char>,
        token_contract: Seq<char>,
    ) -> Option<GameError> {
        if self.panic_button {
            Some(GameError::OperationsSuspended)
        } else if !self.has_account(account_id) {
            Some(GameError::AccountNotRegistered)
        } else {
            let a = self.accounts@[account_id];
            if !storage_covered(
                a.storage_collateral,
                (a.storage_bytes_used + self.spec_deposit_delta(account_id, token_contract)) as u128,
            ) {
                Some(GameError::InsufficientStorageCollateral)
            } else {
                None
            }
        }
    }

    /// The tracked bytes a deposit adds: a new balance entry when the
    /// token is not yet held, nothing otherwise.
    pub open spec fn spec_deposit_delta(&self, account_id: Seq<char>, token_contract: Seq<
        char,
    >) -> int {
        if self.accounts@[account_id].balances@.contains_key(token_contract) {
            0
        } else {
            BALANCE_ENTRY_BYTES + token_contract.len()
        }
    }

    /// What a successful deposit does to the state: the account's
    /// balance in the token grows by the amount, its tracked bytes by
    /// the entry the deposit may have created, and everything else
    /// stays.
    pub open spec fn spec_user_deposit_post(
        pre: Contract,
        post: Contract,
        account_id: Seq<char>,
        token_contract: Seq<char>,
        amount: u128,
    ) -> bool {
        let a0 = pre.accounts@[account_id];
        let a1 = post.accounts@[account_id];
        &&& pre.spec_user_deposit_err(account_id, token_contract) is None
        &&& post.has_account(account_id)
        &&& a1.balances@ == a0.balances@.insert(
            token_contract,
            (a0.spec_credit(token_contract) + amount) as u128,
        )
        &&& a1.storage_collateral == a0.storage_collateral
        &&& a1.storage_bytes_used as int == a0.storage_bytes_used + pre.spec_deposit_delta(
            account_id,
            token_contract,
        )
        &&& post.accounts@.remove(account_id) == pre.accounts@.remove(account_id)
        &&& same_scalars(post, pre)
        &&& same_games(post, pre)
        &&& same_reserves(post, pre)
    }

    /// Credits `amount` of `token_contract` to a registered account,
    /// charging the account's storage for a new balance entry.
    pub fn user_deposit_balance(
        &mut self,
        account_id: &String,
        token_contract: &String,
        amount: u128,
    ) -> (r: Result<(), GameError>)
        requires
            old(self).has_account(account_id@) ==> {
                let a = old(self).accounts@[account_id@];
                &&& a.spec_credit(token_contract@) + amount <= u128::MAX
                &&& a.storage_bytes_used + old(self).spec_deposit_delta(
                    account_id@,
                    token_contract@,
                ) <= u128::MAX
            },
        ensures
            match r {
                Ok(()) => Self::spec_user_deposit_post(
                    *old(self),
                    *final(self),
                    account_id@,
                    token_contract@,
                    amount,
                ),
                Err(e) => Some(e) == old(self).spec_user_deposit_err(account_id@, token_contract@)
                    && *final(self) == *old(self),
            },
    {
        if self.panic_button {
            return Err(GameError::OperationsSuspended);
        }
        let mut account = match self.internal_get_account(account_id) {
            Some(a) => a,
            None => {
                return Err(GameError::AccountNotRegistered);
            },
        };
        let credits = account.credit_of(token_contract);
        let delta: u128 = if account.balances.contains(token_contract) {
            0
        } else {
            BALANCE_ENTRY_BYTES + token_contract.as_str().unicode_len() as u128
        };
        let new_bytes = account.storage_bytes_used + delta;
        account.set_credit(token_contract, credits + amount);
        match self.internal_update_account_storage_check(account_id, account, new_bytes) {
            Ok(()) => Ok(()),
            Err(e) => Err(e),
        }
    }

    /// The rejection, if any, of a credit withdrawal: the halt flag,
    /// the caller's registration, the balance itself, then storage
    /// coverage of the shrunken record.
    pub open spec fn spec_retrieve_credits_err(
        &self,
        caller: Seq<char>,
        token_contract: Seq<char>,
        amount: u128,
    ) -> Option<GameError> {
        if self.panic_button {
            Some(GameError::OperationsSuspended)
        } else if !self.has_account(caller) {
            Some(GameError::AccountNotRegistered)
        } else if self.spec_credit_of(caller, token_contract) < amount {
            Some(GameError::InsufficientBalance)
        } else {
            let a = self.accounts@[caller];
            if !storage_covered(
                a.storage_collateral,
                self.spec_withdraw_bytes(caller, token_contract, amount) as u128,
            ) {
                Some(GameError::InsufficientStorageCollateral)
            } else {
                None
            }
        }
    }

    /// The tracked bytes after a withdrawal: a balance drawn to zero
    /// frees its entry; the count never goes below zero.
    pub open spec fn spec_withdraw_bytes(
        &self,
        caller: Seq<char>,
        token_contract: Seq<char>,
        amount: u128,
    ) -> int {
        let a = self.accounts@[caller];
        let freed = if a.spec_credit(token_contract) == amount && a.balances@.contains_key(
            token_contract,
        ) {
            BALANCE_ENTRY_BYTES + token_contract.len()
        } else {
            0int
        };
        if a.storage_bytes_used >= freed {
            a.storage_bytes_used - freed
        } else {
            0
        }
    }

    /// Withdraws `amount` of a token from the caller's credits: the
    /// balance is decremented (its entry freed when drawn to zero)
    /// before a transfer to the caller is handed back.
    pub fn retrieve_credits(&mut self, caller: &String, token_contract: String, amount: u128) -> (r:
        Result<TransferRequest, GameError>)
        ensures
            match r {
                Ok(tr) => {
                    let a0 = old(self).accounts@[caller@];
                    let a1 = final(self).accounts@[caller@];
                    let credits0 = old(self).spec_credit_of(caller@, token_contract@);
                    &&& old(self).spec_retrieve_credits_err(caller@, token_contract@, amount)
                        is None
                    &&& tr.token == token_contract
                    &&& tr.amount == amount
                    &&& tr.receiver == caller
                    &&& final(self).has_account(caller@)
                    &&& a1.balances@ == (if credits0 - amount > 0 {
                        a0.balances@.insert(token_contract@, (credits0 - amount) as u128)
                    } else {
                        a0.balances@.remove(token_contract@)
                    })
                    &&& a1.storage_collateral == a0.storage_collateral
                    &&& a1.storage_bytes_used as int == old(self).spec_withdraw_bytes(
                        caller@,
                        token_contract@,
                        amount,
                    )
                    &&& final(self).accounts@.remove(caller@) == old(self).accounts@.remove(
                        caller@,
                    )
                    &&& same_scalars(*final(self), *old(self))
                    &&& same_games(*final(self), *old(self))
                    &&& same_reserves(*final(self), *old(self))
                },
                Err(e) => Some(e) == old(self).spec_retrieve_credits_err(
                    caller@,
                    token_contract@,
                    amount,
                ) && *final(self) == *old(self),
            },
    {
        if self.panic_button {
            return Err(GameError::OperationsSuspended);
        }
        let mut account = match self.internal_get_account(caller) {
            Some(a) => a,
            None => {
                return Err(GameError::AccountNotRegistered);
            },
        };
        let current_balance = account.credit_of(&token_contract);
        if current_balance < amount {
            return Err(GameError::InsufficientBalance);
        }
        let new_balance = current_balance - amount;
        let freed: u128 = if new_balance == 0 && account.balances.contains(&token_contract) {
            BALANCE_ENTRY_BYTES + token_contract.as_str().unicode_len() as u128
        } else {
            0
        };
        let new_bytes = if account.storage_bytes_used >= freed {
            account.storage_bytes_used - freed
        } else {
            0
        };
        if new_balance > 0 {
            account.set_credit(&token_contract, new_balance);
        } else {
            let _removed = account.balances.take(&token_contract);
        }
        match self.internal_update_account_storage_check(caller, account, new_bytes) {
            Ok(()) => (),
            Err(e) => {
                return Err(e);
            },
        }
        let receiver = caller.clone();
        Ok(TransferRequest { token: token_contract, amount, receiver })
    }
}

/// Conservation: a settled wager only moves value.  The caller's
/// balance, the game's reserve and accrued partner share, and the two
/// platform reserves together change by exactly the negated net stake:
/// that net stake is the part of the wager the house retains
/// implicitly, and the truncated remainders of the fee divisions ride
/// along inside it.
pub proof fn lemma_play_conservation(
    pre: Contract,
    post: Contract,
    outcome: bool,
    caller: Seq<char>,
    game_code: Seq<char>,
    bet_size: u128,
    odds: u8,
    entropy: u8,
)
    requires
        Contract::spec_play_post(pre, post, Ok(outcome), caller, game_code, bet_size, odds, entropy),
    ensures
        ({
            let g0 = pre.games@[game_code];
            let g1 = post.games@[game_code];
            let token = g0.partner_token@;
            let d_caller = post.spec_credit_of(caller, token) - pre.spec_credit_of(caller, token);
            let d_house = g1.house_funds - g0.house_funds;
            let d_nft = reserve_of(post.nft_balance@, token) - reserve_of(pre.nft_balance@, token);
            let d_owner = reserve_of(post.owner_balance@, token) - reserve_of(
                pre.owner_balance@,
                token,
            );
            let d_partner = g1.partner_balance - g0.partner_balance;
            d_caller + d_house + d_nft + d_owner + d_partner + spec_net_stake(bet_size, g0) == 0
        }),
{
}

/// Reserve safety: a settled winning wager was paid out of a reserve
/// that covered it, so the reserve never goes below zero; a payout the
/// reserve cannot cover is rejected before any mutation (the `Err`
/// case of [`Contract::spec_play_post`] leaves the state equal to what
/// it was).
pub proof fn lemma_reserve_safety(
    pre: Contract,
    post: Contract,
    outcome: bool,
    caller: Seq<char>,
    game_code: Seq<char>,
    bet_size: u128,
    odds: u8,
    entropy: u8,
)
    requires
        Contract::spec_play_post(pre, post, Ok(outcome), caller, game_code, bet_size, odds, entropy),
    ensures
        ({
            let g0 = pre.games@[game_code];
            let won = spec_won_value(spec_net_stake(bet_size, g0), odds, g0.bet_payment_adjustment);
            &&& (outcome ==> won <= g0.house_funds + spec_cut(bet_size, g0.house_fee))
            &&& post.games@[game_code].house_funds >= 0
        }),
{
}

} // verus!
