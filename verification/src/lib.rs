//! Accounting and wagering core of a custodial betting platform.
//!
//! The library keeps per-account token balances backed by storage
//! collateral, a registry of partnered games with validated fee
//! schedules, and a wagering engine that splits every stake into
//! house, partner, platform-owner and payout shares.  Every public
//! operation is specified by a contract: per wager the ledger's
//! movements add up exactly, payouts never draw the house reserve
//! below zero, and only the rightful owner of a balance can move it.
//!
//! Entry points take the caller's identity, the attached deposit and
//! any drawn entropy as plain arguments; the surrounding runtime reads
//! them from its environment and performs the [`transfer::TransferRequest`]s
//! that withdrawals return.

use vstd::prelude::*;

pub mod account;
pub mod errors;
pub mod owner;
pub mod partner;
pub mod partnered_game;
pub mod player;
pub mod table;
pub mod token_receiver;
pub mod transfer;
pub mod view;
pub mod wager;

use crate::account::{Account, account_like, lemma_covered_iff, storage_covered, ACCOUNT_RECORD_BYTES};
use crate::errors::GameError;
use crate::partnered_game::PartneredGame;
use crate::table::Table;

verus! {

/// Denominator for all fee and adjustment fractions: a fee field of
/// 1_000 means 1% of the stake.
pub const FRACTIONAL_BASE: u128 = 100_000;

/// Price, in base-currency units, of one byte of tracked storage.
pub const STORAGE_PRICE_PER_BYTE: u128 = 10_000_000_000_000_000_000;

/// Whether a string is a well-formed account identifier.
pub uninterp spec fn account_id_valid(s: Seq<char>) -> bool;

/// Relies on `near_sdk::AccountId::validate`: whether a string is a
/// well-formed NEAR account identifier depends on its characters
/// alone.
#[verifier::external_body]
fn is_valid_account_id(s: &String) -> (r: bool)
    ensures
        r == account_id_valid(s@),
{
    near_sdk::AccountId::validate(s.as_str()).is_ok()
}

/// The platform's whole state: ownership, the halt flag, the wager
/// counter, the account ledger, the game registry and the per-token
/// platform reserves.
pub struct Contract {
    /// Identity allowed to administer the platform.
    pub owner_id: String,
    /// Identity of the NFT program that receives the NFT fee share.
    pub nft_account: String,
    /// The platform's own operating account; it absorbs the registry's
    /// storage growth.
    pub contract_account: String,
    /// When set, all non-owner mutating operations are suspended.
    pub panic_button: bool,
    /// Monotonically increasing wager counter, mixed into outcome
    /// derivation.
    pub game_count: u128,
    /// Account identifier to account record.
    pub accounts: Table<Account>,
    /// Game identifier to game record.
    pub games: Table<PartneredGame>,
    /// Token identifier to reserve owed to the NFT program.
    pub nft_balance: Table<u128>,
    /// Token identifier to reserve owed to the platform owner.
    pub owner_balance: Table<u128>,
}

/// The administrative scalars of the two states agree.
pub open spec fn same_scalars(a: Contract, b: Contract) -> bool {
    &&& a.owner_id == b.owner_id
    &&& a.nft_account == b.nft_account
    &&& a.contract_account == b.contract_account
    &&& a.panic_button == b.panic_button
    &&& a.game_count == b.game_count
}

/// The game registries of the two states agree.
pub open spec fn same_games(a: Contract, b: Contract) -> bool {
    a.games@ == b.games@
}

/// The account ledgers of the two states agree.
pub open spec fn same_accounts(a: Contract, b: Contract) -> bool {
    a.accounts@ == b.accounts@
}

/// The platform reserves of the two states agree, order included.
pub open spec fn same_reserves(a: Contract, b: Contract) -> bool {
    &&& a.nft_balance@ == b.nft_balance@
    &&& a.nft_balance.keys() == b.nft_balance.keys()
    &&& a.owner_balance@ == b.owner_balance@
    &&& a.owner_balance.keys() == b.owner_balance.keys()
}

/// The reserve recorded for a token, zero when the token was never
/// touched.
pub open spec fn reserve_of(m: Map<Seq<char>, u128>, token: Seq<char>) -> u128 {
    if m.contains_key(token) {
        m[token]
    } else {
        0
    }
}

impl Contract {
    /// Whether the ledger knows the account.
    pub open spec fn has_account(&self, id: Seq<char>) -> bool {
        self.accounts@.contains_key(id)
    }

    /// The credit an account holds in a token, zero when absent.
    pub open spec fn spec_credit_of(&self, id: Seq<char>, token: Seq<char>) -> u128 {
        self.accounts@[id].spec_credit(token)
    }

    /// Admission of administrative calls: the caller attaches one
    /// smallest unit of base currency to prove deliberate intent, and
    /// must be the platform owner.
    pub open spec fn spec_owner_gate(&self, caller: Seq<char>, attached_deposit: u128) -> Option<
        GameError,
    > {
        if attached_deposit != 1 {
            Some(GameError::MissingIntentProof)
        } else if caller != self.owner_id@ {
            Some(GameError::NotOwner)
        } else {
            None
        }
    }

    /// What a freshly constructed state looks like.
    pub open spec fn spec_genesis(
        c: Contract,
        owner_id: String,
        nft_account: String,
        contract_account: String,
        contract_balance: u128,
    ) -> bool {
        &&& c.owner_id == owner_id
        &&& c.nft_account == nft_account
        &&& c.contract_account == contract_account
        &&& !c.panic_button
        &&& c.game_count == 0
        &&& c.games@ == Map::<Seq<char>, PartneredGame>::empty()
        &&& c.nft_balance@ == Map::<Seq<char>, u128>::empty()
        &&& c.nft_balance.keys() == Seq::<Seq<char>>::empty()
        &&& c.owner_balance@ == Map::<Seq<char>, u128>::empty()
        &&& c.owner_balance.keys() == Seq::<Seq<char>>::empty()
        &&& c.accounts@.dom() == Set::<Seq<char>>::empty().insert(contract_account@)
        &&& c.accounts@[contract_account@].storage_collateral == contract_balance
        &&& c.accounts@[contract_account@].storage_bytes_used == ACCOUNT_RECORD_BYTES
        &&& c.accounts@[contract_account@].balances@ == Map::<Seq<char>, u128>::empty()
    }

    /// Constructs the platform at genesis: the given owner, no games,
    /// empty reserves, and an operating account whose collateral is
    /// the contract's starting balance.
    pub fn new(
        owner_id: String,
        nft_account: String,
        contract_account: String,
        contract_balance: u128,
    ) -> (c: Contract)
        requires
            account_id_valid(owner_id@),
        ensures
            Self::spec_genesis(c, owner_id, nft_account, contract_account, contract_balance),
    {
        let mut accounts: Table<Account> = Table::new();
        let entry = Account::new(contract_balance);
        accounts.set(&contract_account, entry);
        let c = Contract {
            owner_id,
            nft_account,
            contract_account,
            panic_button: false,
            game_count: 0,
            accounts,
            games: Table::new(),
            nft_balance: Table::new(),
            owner_balance: Table::new(),
        };
        proof {
            assert(c.accounts@.dom() =~= Set::<Seq<char>>::empty().insert(c.contract_account@));
        }
        c
    }

    /// Constructs the platform after checking that the owner identity
    /// is a well-formed account identifier; refuses it otherwise.
    pub fn try_new(
        owner_id: String,
        nft_account: String,
        contract_account: String,
        contract_balance: u128,
    ) -> (r: Option<Contract>)
        ensures
            match r {
                Some(c) => account_id_valid(owner_id@) && Self::spec_genesis(
                    c,
                    owner_id,
                    nft_account,
                    contract_account,
                    contract_balance,
                ),
                None => !account_id_valid(owner_id@),
            },
    {
        if is_valid_account_id(&owner_id) {
            Some(Self::new(owner_id, nft_account, contract_account, contract_balance))
        } else {
            None
        }
    }

    /// An independent copy of the stored account record, if the
    /// account is registered.
    pub fn internal_get_account(&self, account_id: &String) -> (r: Option<Account>)
        ensures
            match r {
                Some(a) => self.has_account(account_id@) && account_like(
                    a,
                    self.accounts@[account_id@],
                ),
                None => !self.has_account(account_id@),
            },
    {
        match self.accounts.get(account_id) {
            Some(a) => Some(a.snapshot()),
            None => None,
        }
    }

    /// Writes the account record under the identifier.
    pub fn internal_update_account(&mut self, account_id: &String, account: &Account)
        ensures
            final(self).has_account(account_id@),
            account_like(final(self).accounts@[account_id@], *account),
            final(self).accounts@.remove(account_id@) == old(self).accounts@.remove(account_id@),
            same_scalars(*final(self), *old(self)),
            same_games(*final(self), *old(self)),
            same_reserves(*final(self), *old(self)),
    {
        let copy = account.snapshot();
        self.accounts.set(account_id, copy);
        proof {
            assert(self.accounts@.remove(account_id@) =~= old(self).accounts@.remove(
                account_id@,
            ));
        }
    }

    /// Credits storage collateral to the account, creating it when it
    /// is not yet registered; deposits never fail.
    pub fn internal_deposit_storage_account(&mut self, account_id: &String, deposit: u128)
        requires
            old(self).has_account(account_id@) ==> old(self).accounts@[account_id@]
                .storage_collateral + deposit <= u128::MAX,
        ensures
            final(self).has_account(account_id@),
            old(self).has_account(account_id@) ==> {
                let a0 = old(self).accounts@[account_id@];
                let a1 = final(self).accounts@[account_id@];
                &&& a1.storage_collateral == a0.storage_collateral + deposit
                &&& a1.storage_bytes_used == a0.storage_bytes_used
                &&& a1.balances@ == a0.balances@
            },
            !old(self).has_account(account_id@) ==> {
                let a1 = final(self).accounts@[account_id@];
                &&& a1.storage_collateral == deposit
                &&& a1.storage_bytes_used == ACCOUNT_RECORD_BYTES
                &&& a1.balances@ == Map::<Seq<char>, u128>::empty()
            },
            final(self).accounts@.remove(account_id@) == old(self).accounts@.remove(account_id@),
            same_scalars(*final(self), *old(self)),
            same_games(*final(self), *old(self)),
            same_reserves(*final(self), *old(self)),
    {
        let entry = match self.accounts.take(account_id) {
            Some(mut a) => {
                a.deposit_storage_funds(deposit);
                a
            },
            None => Account::new(deposit),
        };
        self.accounts.set(account_id, entry);
        proof {
            assert(self.accounts@.remove(account_id@) =~= old(self).accounts@.remove(
                account_id@,
            ));
        }
    }

    /// Withdraws storage collateral that the account's tracked bytes
    /// do not need: the whole surplus when `amount` is zero, else
    /// exactly `amount`.  Fails when nothing is free or more than the
    /// surplus is asked for.
    pub fn internal_storage_withdraw_account(&mut self, account_id: &String, amount: u128) -> (r:
        Result<u128, GameError>)
        ensures
            match r {
                Ok(w) => {
                    let a0 = old(self).accounts@[account_id@];
                    let a1 = final(self).accounts@[account_id@];
                    &&& old(self).has_account(account_id@)
                    &&& a0.spec_available() > 0
                    &&& amount <= a0.spec_available()
                    &&& w as int == (if amount == 0 {
                        a0.spec_available()
                    } else {
                        amount as int
                    })
                    &&& final(self).has_account(account_id@)
                    &&& a1.storage_collateral == a0.storage_collateral - w
                    &&& a1.storage_bytes_used == a0.storage_bytes_used
                    &&& a1.balances@ == a0.balances@
                    &&& final(self).accounts@.remove(account_id@) == old(self).accounts@.remove(
                        account_id@,
                    )
                    &&& same_scalars(*final(self), *old(self))
                    &&& same_games(*final(self), *old(self))
                    &&& same_reserves(*final(self), *old(self))
                },
                Err(GameError::AccountNotRegistered) => !old(self).has_account(account_id@)
                    && *final(self) == *old(self),
                Err(GameError::InsufficientStorageCollateral) => {
                    let a0 = old(self).accounts@[account_id@];
                    &&& old(self).has_account(account_id@)
                    &&& (a0.spec_available() == 0 || amount > a0.spec_available())
                    &&& *final(self) == *old(self)
                },
                Err(_) => false,
            },
    {
        let available = match self.accounts.get(account_id) {
            Some(a) => a.storage_funds_available(),
            None => {
                return Err(GameError::AccountNotRegistered);
            },
        };
        if available == 0 {
            return Err(GameError::InsufficientStorageCollateral);
        }
        let withdraw_amount = if amount == 0 {
            available
        } else {
            amount
        };
        if withdraw_amount > available {
            return Err(GameError::InsufficientStorageCollateral);
        }
        let mut entry = match self.accounts.take(account_id) {
            Some(a) => a,
            None => {
                return Err(GameError::AccountNotRegistered);
            },
        };
        entry.withdraw_storage_funds(withdraw_amount);
        self.accounts.set(account_id, entry);
        proof {
            assert(self.accounts@.remove(account_id@) =~= old(self).accounts@.remove(
                account_id@,
            ));
        }
        Ok(withdraw_amount)
    }

    /// Writes the account record, but only when its collateral covers
    /// `new_bytes_used` tracked bytes; fails, leaving the state
    /// untouched, otherwise.
    pub fn internal_update_account_storage_check(
        &mut self,
        account_id: &String,
        account: Account,
        new_bytes_used: u128,
    ) -> (r: Result<(), GameError>)
        ensures
            match r {
                Ok(()) => {
                    let a1 = final(self).accounts@[account_id@];
                    &&& storage_covered(account.storage_collateral, new_bytes_used)
                    &&& final(self).has_account(account_id@)
                    &&& a1.storage_collateral == account.storage_collateral
                    &&& a1.storage_bytes_used == new_bytes_used
                    &&& a1.balances@ == account.balances@
                    &&& a1.balances.keys() == account.balances.keys()
                    &&& final(self).accounts@.remove(account_id@) == old(self).accounts@.remove(
                        account_id@,
                    )
                    &&& same_scalars(*final(self), *old(self))
                    &&& same_games(*final(self), *old(self))
                    &&& same_reserves(*final(self), *old(self))
                },
                Err(GameError::InsufficientStorageCollateral) => !storage_covered(
                    account.storage_collateral,
                    new_bytes_used,
                ) && *final(self) == *old(self),
                Err(_) => false,
            },
    {
        proof {
            lemma_covered_iff(account.storage_collateral, new_bytes_used);
        }
        if new_bytes_used > account.storage_collateral / STORAGE_PRICE_PER_BYTE {
            return Err(GameError::InsufficientStorageCollateral);
        }
        let mut entry = account;
        entry.storage_bytes_used = new_bytes_used;
        self.accounts.set(account_id, entry);
        proof {
            assert(self.accounts@.remove(account_id@) =~= old(self).accounts@.remove(
                account_id@,
            ));
        }
        Ok(())
    }

    /// An independent copy of the stored game record, if the game is
    /// registered.
    pub fn internal_get_game(&self, code: &String) -> (r: Option<PartneredGame>)
        ensures
            match r {
                Some(g) => self.games@.contains_key(code@) && g == self.games@[code@],
                None => !self.games@.contains_key(code@),
            },
    {
        match self.games.get(code) {
            Some(g) => Some(g.clone()),
            None => None,
        }
    }

    /// Writes the game record under the identifier.
    pub fn internal_update_game(&mut self, code: &String, game: &PartneredGame)
        ensures
            final(self).games@ == old(self).games@.insert(code@, *game),
            same_scalars(*final(self), *old(self)),
            same_accounts(*final(self), *old(self)),
            same_reserves(*final(self), *old(self)),
    {
        let copy = game.clone();
        self.games.set(code, copy);
    }
}

} // verus!
