//! Owner-only administration: the halt switch, ownership transfer,
//! platform reserve withdrawals, and the game registry.
//!
//! Every call here demands the intent proof (exactly one attached
//! minimal unit of native currency) and, except where noted, the
//! platform owner as caller.  Owner calls stay available while the
//! halt flag is set.

use crate::account::storage_covered;
use crate::errors::GameError;
use crate::partnered_game::{
    spec_config_error, check_config, PartneredGame, GAME_RECORD_BYTES,
};
use crate::account::BALANCE_ENTRY_BYTES;
use crate::transfer::TransferRequest;
use crate::{same_accounts, same_games, same_reserves, same_scalars, Contract};
use vstd::prelude::*;
use vstd::string::StrSliceExecFns;

verus! {

impl Contract {
    /// The owner gate as executable code: intent proof first, then the
    /// caller identity.
    fn only_owner(&self, caller: &String, attached_deposit: u128) -> (r: Result<(), GameError>)
        ensures
            r == (match self.spec_owner_gate(caller@, attached_deposit) {
                Some(e) => Result::<(), GameError>::Err(e),
                None => Result::<(), GameError>::Ok(()),
            }),
    {
        if attached_deposit != 1 {
            return Err(GameError::MissingIntentProof);
        }
        if !(*caller == self.owner_id) {
            return Err(GameError::NotOwner);
        }
        Ok(())
    }

    /// Toggles the halt flag and returns its new value.  Owner-only;
    /// works whether or not operations are currently suspended.
    pub fn emergency_panic(&mut self, caller: &String, attached_deposit: u128) -> (r: Result<
        bool,
        GameError,
    >)
        ensures
            match r {
                Ok(b) => {
                    &&& old(self).spec_owner_gate(caller@, attached_deposit) is None
                    &&& final(self).panic_button == !old(self).panic_button
                    &&& b == final(self).panic_button
                    &&& final(self).owner_id == old(self).owner_id
                    &&& final(self).nft_account == old(self).nft_account
                    &&& final(self).contract_account == old(self).contract_account
                    &&& final(self).game_count == old(self).game_count
                    &&& same_accounts(*final(self), *old(self))
                    &&& same_games(*final(self), *old(self))
                    &&& same_reserves(*final(self), *old(self))
                },
                Err(e) => {
                    &&& Some(e) == old(self).spec_owner_gate(caller@, attached_deposit)
                    &&& *final(self) == *old(self)
                },
            },
    {
        match self.only_owner(caller, attached_deposit) {
            Ok(()) => (),
            Err(e) => {
                return Err(e);
            },
        }
        self.panic_button = !self.panic_button;
        Ok(self.panic_button)
    }

    /// Hands the platform to a new owner.  Owner-only; the new
    /// identity is taken as given, without validation.
    pub fn update_contract(&mut self, caller: &String, attached_deposit: u128, new_owner: String)
        -> (r: Result<(), GameError>)
        ensures
            match r {
                Ok(()) => {
                    &&& old(self).spec_owner_gate(caller@, attached_deposit) is None
                    &&& final(self).owner_id == new_owner
                    &&& final(self).nft_account == old(self).nft_account
                    &&& final(self).contract_account == old(self).contract_account
                    &&& final(self).panic_button == old(self).panic_button
                    &&& final(self).game_count == old(self).game_count
                    &&& same_accounts(*final(self), *old(self))
                    &&& same_games(*final(self), *old(self))
                    &&& same_reserves(*final(self), *old(self))
                },
                Err(e) => {
                    &&& Some(e) == old(self).spec_owner_gate(caller@, attached_deposit)
                    &&& *final(self) == *old(self)
                },
            },
    {
        match self.only_owner(caller, attached_deposit) {
            Ok(()) => (),
            Err(e) => {
                return Err(e);
            },
        }
        self.owner_id = new_owner;
        Ok(())
    }

    /// The rejection, if any, of a reserve withdrawal by index: the
    /// owner gate, then the index bound, then a zero balance.
    pub open spec fn spec_retrieve_reserve_err(
        &self,
        keys: Seq<Seq<char>>,
        m: Map<Seq<char>, u128>,
        caller: Seq<char>,
        attached_deposit: u128,
        token_index: u64,
    ) -> Option<GameError> {
        if self.spec_owner_gate(caller, attached_deposit) is Some {
            self.spec_owner_gate(caller, attached_deposit)
        } else if token_index >= keys.len() {
            Some(GameError::TokenIndexOutOfBounds)
        } else if m[keys[token_index as int]] == 0 {
            Some(GameError::ZeroBalance)
        } else {
            None
        }
    }

    /// Withdraws the whole reserve owed to the platform owner in the
    /// token at the given index: the entry is zeroed first and a
    /// transfer of its old value to the owner is handed back.
    pub fn retrieve_owner_funds(&mut self, caller: &String, attached_deposit: u128, token_index: u64)
        -> (r: Result<TransferRequest, GameError>)
        ensures
            match r {
                Ok(tr) => {
                    let k = old(self).owner_balance.keys()[token_index as int];
                    &&& old(self).spec_retrieve_reserve_err(
                        old(self).owner_balance.keys(),
                        old(self).owner_balance@,
                        caller@,
                        attached_deposit,
                        token_index,
                    ) is None
                    &&& tr.token@ == k
                    &&& tr.amount == old(self).owner_balance@[k]
                    &&& tr.amount > 0
                    &&& tr.receiver == old(self).owner_id
                    &&& final(self).owner_balance@ == old(self).owner_balance@.insert(k, 0)
                    &&& final(self).owner_balance.keys() == old(self).owner_balance.keys()
                    &&& final(self).nft_balance@ == old(self).nft_balance@
                    &&& final(self).nft_balance.keys() == old(self).nft_balance.keys()
                    &&& same_scalars(*final(self), *old(self))
                    &&& same_accounts(*final(self), *old(self))
                    &&& same_games(*final(self), *old(self))
                },
                Err(e) => Some(e) == old(self).spec_retrieve_reserve_err(
                    old(self).owner_balance.keys(),
                    old(self).owner_balance@,
                    caller@,
                    attached_deposit,
                    token_index,
                ) && *final(self) == *old(self),
            },
    {
        match self.only_owner(caller, attached_deposit) {
            Ok(()) => (),
            Err(e) => {
                return Err(e);
            },
        }
        let n = self.owner_balance.len();
        if token_index >= n as u64 {
            return Err(GameError::TokenIndexOutOfBounds);
        }
        let key = self.owner_balance.key_at(token_index as usize).clone();
        let value = match self.owner_balance.get(&key) {
            Some(v) => *v,
            None => 0,
        };
        if value == 0 {
            return Err(GameError::ZeroBalance);
        }
        self.owner_balance.set(&key, 0);
        let receiver = self.owner_id.clone();
        Ok(TransferRequest { token: key, amount: value, receiver })
    }

    /// Withdraws the whole reserve owed to the NFT program in the
    /// token at the given index: the entry is zeroed first and a
    /// transfer of its old value to the NFT program account is handed
    /// back.
    pub fn retrieve_nft_funds(&mut self, caller: &String, attached_deposit: u128, token_index: u64)
        -> (r: Result<TransferRequest, GameError>)
        ensures
            match r {
                Ok(tr) => {
                    let k = old(self).nft_balance.keys()[token_index as int];
                    &&& old(self).spec_retrieve_reserve_err(
                        old(self).nft_balance.keys(),
                        old(self).nft_balance@,
                        caller@,
                        attached_deposit,
                        token_index,
                    ) is None
                    &&& tr.token@ == k
                    &&& tr.amount == old(self).nft_balance@[k]
                    &&& tr.amount > 0
                    &&& tr.receiver == old(self).nft_account
                    &&& final(self).nft_balance@ == old(self).nft_balance@.insert(k, 0)
                    &&& final(self).nft_balance.keys() == old(self).nft_balance.keys()
                    &&& final(self).owner_balance@ == old(self).owner_balance@
                    &&& final(self).owner_balance.keys() == old(self).owner_balance.keys()
                    &&& same_scalars(*final(self), *old(self))
                    &&& same_accounts(*final(self), *old(self))
                    &&& same_games(*final(self), *old(self))
                },
                Err(e) => Some(e) == old(self).spec_retrieve_reserve_err(
                    old(self).nft_balance.keys(),
                    old(self).nft_balance@,
                    caller@,
                    attached_deposit,
                    token_index,
                ) && *final(self) == *old(self),
            },
    {
        match self.only_owner(caller, attached_deposit) {
            Ok(()) => (),
            Err(e) => {
                return Err(e);
            },
        }
        let n = self.nft_balance.len();
        if token_index >= n as u64 {
            return Err(GameError::TokenIndexOutOfBounds);
        }
        let key = self.nft_balance.key_at(token_index as usize).clone();
        let value = match self.nft_balance.get(&key) {
            Some(v) => *v,
            None => 0,
        };
        if value == 0 {
            return Err(GameError::ZeroBalance);
        }
        self.nft_balance.set(&key, 0);
        let receiver = self.nft_account.clone();
        Ok(TransferRequest { token: key, amount: value, receiver })
    }

    /// The tracked bytes a new game record adds to the operating
    /// account: the record itself plus any reserve entries created for
    /// its token.
    pub open spec fn spec_create_delta(
        &self,
        nft_contract: Seq<char>,
        partner_owner: Seq<char>,
        token_contract: Seq<char>,
    ) -> int {
        GAME_RECORD_BYTES + nft_contract.len() + partner_owner.len() + token_contract.len() + (
        if self.nft_balance@.contains_key(token_contract) {
            0int
        } else {
            BALANCE_ENTRY_BYTES + token_contract.len()
        }) + (if self.owner_balance@.contains_key(token_contract) {
            0int
        } else {
            BALANCE_ENTRY_BYTES + token_contract.len()
        })
    }

    /// The rejection, if any, of a game creation, in the order the
    /// checks run: owner gate, duplicate identifier, missing operating
    /// account, configuration validation, storage coverage.
    pub open spec fn spec_create_err(
        &self,
        caller: Seq<char>,
        attached_deposit: u128,
        nft_contract: Seq<char>,
        partner_owner: Seq<char>,
        token_contract: Seq<char>,
        partner_fee: u128,
        bet_payment_adjustment: u128,
        house_fee: u128,
        max_bet: u128,
        min_bet: u128,
        max_odds: u8,
        min_odds: u8,
        nft_fee: u128,
        owner_fee: u128,
    ) -> Option<GameError> {
        if self.spec_owner_gate(caller, attached_deposit) is Some {
            self.spec_owner_gate(caller, attached_deposit)
        } else if self.games@.contains_key(nft_contract) {
            Some(GameError::DuplicateGame)
        } else if !self.has_account(self.contract_account@) {
            Some(GameError::AccountNotRegistered)
        } else if spec_config_error(
            partner_fee,
            bet_payment_adjustment,
            house_fee,
            max_bet,
            min_bet,
            max_odds,
            min_odds,
            nft_fee,
            owner_fee,
        ) is Some {
            spec_config_error(
                partner_fee,
                bet_payment_adjustment,
                house_fee,
                max_bet,
                min_bet,
                max_odds,
                min_odds,
                nft_fee,
                owner_fee,
            )
        } else if !storage_covered(
            self.accounts@[self.contract_account@].storage_collateral,
            (self.accounts@[self.contract_account@].storage_bytes_used + self.spec_create_delta(
                nft_contract,
                partner_owner,
                token_contract,
            )) as u128,
        ) {
            Some(GameError::InsufficientStorageCollateral)
        } else {
            None
        }
    }

    /// Registers a new partnered game under `nft_contract`.
    /// Owner-only; the identifier must be fresh, the configuration
    /// valid, and the operating account collateralized for the
    /// registry's growth.  The game starts with empty reserve and
    /// partner balance, and the token's platform reserve entries are
    /// created when missing.
    pub fn create_new_partner(
        &mut self,
        caller: &String,
        attached_deposit: u128,
        partner_owner: String,
        nft_contract: String,
        token_contract: String,
        partner_fee: u128,
        bet_payment_adjustment: u128,
        house_fee: u128,
        max_bet: u128,
        min_bet: u128,
        max_odds: u8,
        min_odds: u8,
        nft_fee: u128,
        owner_fee: u128,
    ) -> (r: Result<(), GameError>)
        requires
            old(self).has_account(old(self).contract_account@) ==> old(self).accounts@[old(
                self,
            ).contract_account@].storage_bytes_used + old(self).spec_create_delta(
                nft_contract@,
                partner_owner@,
                token_contract@,
            ) <= u128::MAX,
        ensures
            match r {
                Ok(()) => {
                    let cc = old(self).contract_account@;
                    let a0 = old(self).accounts@[cc];
                    let a1 = final(self).accounts@[cc];
                    &&& old(self).spec_create_err(
                        caller@,
                        attached_deposit,
                        nft_contract@,
                        partner_owner@,
                        token_contract@,
                        partner_fee,
                        bet_payment_adjustment,
                        house_fee,
                        max_bet,
                        min_bet,
                        max_odds,
                        min_odds,
                        nft_fee,
                        owner_fee,
                    ) is None
                    &&& final(self).games@ == old(self).games@.insert(
                        nft_contract@,
                        PartneredGame {
                            partner_owner,
                            blocked: false,
                            house_funds: 0,
                            partner_token: token_contract,
                            partner_fee,
                            partner_balance: 0,
                            bet_payment_adjustment,
                            house_fee,
                            max_bet,
                            min_bet,
                            max_odds,
                            min_odds,
                            nft_fee,
                            owner_fee,
                        },
                    )
                    &&& final(self).nft_balance@ == (if old(self).nft_balance@.contains_key(
                        token_contract@,
                    ) {
                        old(self).nft_balance@
                    } else {
                        old(self).nft_balance@.insert(token_contract@, 0)
                    })
                    &&& final(self).owner_balance@ == (if old(self).owner_balance@.contains_key(
                        token_contract@,
                    ) {
                        old(self).owner_balance@
                    } else {
                        old(self).owner_balance@.insert(token_contract@, 0)
                    })
                    &&& (old(self).nft_balance@.contains_key(token_contract@)
                        ==> final(self).nft_balance.keys() == old(self).nft_balance.keys())
                    &&& (!old(self).nft_balance@.contains_key(token_contract@)
                        ==> final(self).nft_balance.keys() == old(self).nft_balance.keys().push(
                        token_contract@,
                    ))
                    &&& (old(self).owner_balance@.contains_key(token_contract@)
                        ==> final(self).owner_balance.keys() == old(self).owner_balance.keys())
                    &&& (!old(self).owner_balance@.contains_key(token_contract@)
                        ==> final(self).owner_balance.keys() == old(self).owner_balance.keys().push(
                        token_contract@,
                    ))
                    &&& a1.storage_collateral == a0.storage_collateral
                    &&& a1.storage_bytes_used == a0.storage_bytes_used + old(
                        self,
                    ).spec_create_delta(nft_contract@, partner_owner@, token_contract@)
                    &&& a1.balances@ == a0.balances@
                    &&& final(self).accounts@.remove(cc) == old(self).accounts@.remove(cc)
                    &&& same_scalars(*final(self), *old(self))
                },
                Err(e) => Some(e) == old(self).spec_create_err(
                    caller@,
                    attached_deposit,
                    nft_contract@,
                    partner_owner@,
                    token_contract@,
                    partner_fee,
                    bet_payment_adjustment,
                    house_fee,
                    max_bet,
                    min_bet,
                    max_odds,
                    min_odds,
                    nft_fee,
                    owner_fee,
                ) && *final(self) == *old(self),
            },
    {
        match self.only_owner(caller, attached_deposit) {
            Ok(()) => (),
            Err(e) => {
                return Err(e);
            },
        }
        if self.games.contains(&nft_contract) {
            return Err(GameError::DuplicateGame);
        }
        let contract_id = self.contract_account.clone();
        let mut contract_account = match self.internal_get_account(&contract_id) {
            Some(a) => a,
            None => {
                return Err(GameError::AccountNotRegistered);
            },
        };
        match check_config(
            partner_fee,
            bet_payment_adjustment,
            house_fee,
            max_bet,
            min_bet,
            max_odds,
            min_odds,
            nft_fee,
            owner_fee,
        ) {
            Ok(()) => (),
            Err(e) => {
                return Err(e);
            },
        }
        let id_len = nft_contract.as_str().unicode_len() as u128;
        let owner_len = partner_owner.as_str().unicode_len() as u128;
        let token_len = token_contract.as_str().unicode_len() as u128;
        let mut delta: u128 = GAME_RECORD_BYTES + id_len + owner_len + token_len;
        let nft_entry_new = !self.nft_balance.contains(&token_contract);
        let owner_entry_new = !self.owner_balance.contains(&token_contract);
        if nft_entry_new {
            delta = delta + BALANCE_ENTRY_BYTES + token_len;
        }
        if owner_entry_new {
            delta = delta + BALANCE_ENTRY_BYTES + token_len;
        }
        let new_bytes = contract_account.storage_bytes_used + delta;
        proof {
            crate::account::lemma_covered_iff(contract_account.storage_collateral, new_bytes);
        }
        if new_bytes > contract_account.storage_collateral / crate::STORAGE_PRICE_PER_BYTE {
            return Err(GameError::InsufficientStorageCollateral);
        }
        if nft_entry_new {
            self.nft_balance.set(&token_contract, 0);
        }
        if owner_entry_new {
            self.owner_balance.set(&token_contract, 0);
        }
        let game_settings = PartneredGame {
            partner_owner,
            blocked: false,
            house_funds: 0,
            partner_token: token_contract,
            partner_fee,
            partner_balance: 0,
            bet_payment_adjustment,
            house_fee,
            max_bet,
            min_bet,
            max_odds,
            min_odds,
            nft_fee,
            owner_fee,
        };
        self.games.set(&nft_contract, game_settings);
        contract_account.storage_bytes_used = new_bytes;
        self.accounts.set(&contract_id, contract_account);
        proof {
            assert(self.accounts@.remove(old(self).contract_account@) =~= old(
                self,
            ).accounts@.remove(old(self).contract_account@));
        }
        Ok(())
    }

    /// The rejection, if any, of a game alteration, in the order the
    /// checks run: owner gate, unknown identifier, configuration
    /// validation.
    pub open spec fn spec_alter_err(
        &self,
        caller: Seq<char>,
        attached_deposit: u128,
        game_id: Seq<char>,
        partner_fee: u128,
        bet_payment_adjustment: u128,
        house_fee: u128,
        max_bet: u128,
        min_bet: u128,
        max_odds: u8,
        min_odds: u8,
        nft_fee: u128,
        owner_fee: u128,
    ) -> Option<GameError> {
        if self.spec_owner_gate(caller, attached_deposit) is Some {
            self.spec_owner_gate(caller, attached_deposit)
        } else if !self.games@.contains_key(game_id) {
            Some(GameError::GameNotFound)
        } else {
            spec_config_error(
                partner_fee,
                bet_payment_adjustment,
                house_fee,
                max_bet,
                min_bet,
                max_odds,
                min_odds,
                nft_fee,
                owner_fee,
            )
        }
    }

    /// Overwrites every mutable field of a registered game after the
    /// same validation as creation; the game's token, reserve and
    /// accrued partner balance stay as they are.  Owner-only.
    pub fn alter_partner(
        &mut self,
        caller: &String,
        attached_deposit: u128,
        game_id: String,
        partner_owner: String,
        partner_fee: u128,
        blocked: bool,
        bet_payment_adjustment: u128,
        house_fee: u128,
        max_bet: u128,
        min_bet: u128,
        max_odds: u8,
        min_odds: u8,
        nft_fee: u128,
        owner_fee: u128,
    ) -> (r: Result<(), GameError>)
        ensures
            match r {
                Ok(()) => {
                    let g0 = old(self).games@[game_id@];
                    &&& old(self).spec_alter_err(
                        caller@,
                        attached_deposit,
                        game_id@,
                        partner_fee,
                        bet_payment_adjustment,
                        house_fee,
                        max_bet,
                        min_bet,
                        max_odds,
                        min_odds,
                        nft_fee,
                        owner_fee,
                    ) is None
                    &&& final(self).games@ == old(self).games@.insert(
                        game_id@,
                        PartneredGame {
                            partner_owner,
                            blocked,
                            house_funds: g0.house_funds,
                            partner_token: g0.partner_token,
                            partner_fee,
                            partner_balance: g0.partner_balance,
                            bet_payment_adjustment,
                            house_fee,
                            max_bet,
                            min_bet,
                            max_odds,
                            min_odds,
                            nft_fee,
                            owner_fee,
                        },
                    )
                    &&& same_scalars(*final(self), *old(self))
                    &&& same_accounts(*final(self), *old(self))
                    &&& same_reserves(*final(self), *old(self))
                },
                Err(e) => Some(e) == old(self).spec_alter_err(
                    caller@,
                    attached_deposit,
                    game_id@,
                    partner_fee,
                    bet_payment_adjustment,
                    house_fee,
                    max_bet,
                    min_bet,
                    max_odds,
                    min_odds,
                    nft_fee,
                    owner_fee,
                ) && *final(self) == *old(self),
            },
    {
        match self.only_owner(caller, attached_deposit) {
            Ok(()) => (),
            Err(e) => {
                return Err(e);
            },
        }
        let mut game = match self.internal_get_game(&game_id) {
            Some(g) => g,
            None => {
                return Err(GameError::GameNotFound);
            },
        };
        match check_config(
            partner_fee,
            bet_payment_adjustment,
            house_fee,
            max_bet,
            min_bet,
            max_odds,
            min_odds,
            nft_fee,
            owner_fee,
        ) {
            Ok(()) => (),
            Err(e) => {
                return Err(e);
            },
        }
        game.partner_owner = partner_owner;
        game.partner_fee = partner_fee;
        game.blocked = blocked;
        game.bet_payment_adjustment = bet_payment_adjustment;
        game.house_fee = house_fee;
        game.max_bet = max_bet;
        game.min_bet = min_bet;
        game.max_odds = max_odds;
        game.min_odds = min_odds;
        game.nft_fee = nft_fee;
        game.owner_fee = owner_fee;
        self.internal_update_game(&game_id, &game);
        Ok(())
    }
}

/// Validation symmetry: game creation and game alteration apply the
/// same range and fee checks, so once their own preliminaries pass
/// (owner gate; a fresh identifier and a collateralized operating
/// account for creation, a known identifier for alteration), a
/// configuration is rejected as out of range or over the fee base by
/// one exactly when the other rejects it the same way.
pub proof fn lemma_validation_symmetry(
    c: Contract,
    d: Contract,
    caller_c: Seq<char>,
    deposit_c: u128,
    caller_d: Seq<char>,
    deposit_d: u128,
    new_game: Seq<char>,
    partner_owner: Seq<char>,
    token_contract: Seq<char>,
    existing_game: Seq<char>,
    partner_fee: u128,
    bet_payment_adjustment: u128,
    house_fee: u128,
    max_bet: u128,
    min_bet: u128,
    max_odds: u8,
    min_odds: u8,
    nft_fee: u128,
    owner_fee: u128,
)
    requires
        c.spec_owner_gate(caller_c, deposit_c) is None,
        !c.games@.contains_key(new_game),
        c.has_account(c.contract_account@),
        d.spec_owner_gate(caller_d, deposit_d) is None,
        d.games@.contains_key(existing_game),
    ensures
        c.spec_create_err(
            caller_c,
            deposit_c,
            new_game,
            partner_owner,
            token_contract,
            partner_fee,
            bet_payment_adjustment,
            house_fee,
            max_bet,
            min_bet,
            max_odds,
            min_odds,
            nft_fee,
            owner_fee,
        ) == Some(GameError::InvalidRange) <==> d.spec_alter_err(
            caller_d,
            deposit_d,
            existing_game,
            partner_fee,
            bet_payment_adjustment,
            house_fee,
            max_bet,
            min_bet,
            max_odds,
            min_odds,
            nft_fee,
            owner_fee,
        ) == Some(GameError::InvalidRange),
        c.spec_create_err(
            caller_c,
            deposit_c,
            new_game,
            partner_owner,
            token_contract,
            partner_fee,
            bet_payment_adjustment,
            house_fee,
            max_bet,
            min_bet,
            max_odds,
            min_odds,
            nft_fee,
            owner_fee,
        ) == Some(GameError::FeeOutOfRange) <==> d.spec_alter_err(
            caller_d,
            deposit_d,
            existing_game,
            partner_fee,
            bet_payment_adjustment,
            house_fee,
            max_bet,
            min_bet,
            max_odds,
            min_odds,
            nft_fee,
            owner_fee,
        ) == Some(GameError::FeeOutOfRange),
{
}

} // verus!
