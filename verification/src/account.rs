//! Per-participant accounts: token balances backed by storage
//! collateral.
//!
//! Every account deposits base currency as collateral for the bytes of
//! persistent state its records consume.  The cost model is explicit:
//! a record costs a fixed base plus a per-balance-entry amount, each
//! priced at [`crate::STORAGE_PRICE_PER_BYTE`].  An operation that
//! would leave an account's tracked bytes uncovered by its collateral
//! is rejected whole.

use crate::table::Table;
use crate::STORAGE_PRICE_PER_BYTE;
use vstd::arithmetic::div_mod::lemma_fundamental_div_mod;
use vstd::arithmetic::mul::lemma_mul_inequality;
use vstd::prelude::*;

verus! {

/// Tracked bytes charged for an account record itself.
pub const ACCOUNT_RECORD_BYTES: u128 = 100;

/// Tracked bytes charged for one token balance entry, on top of the
/// token identifier's length.
pub const BALANCE_ENTRY_BYTES: u128 = 40;

/// One participant's funds: storage collateral, the bytes of state it
/// must cover, and the per-token credit balances.
pub struct Account {
    /// Base currency deposited to back this account's storage.
    pub storage_collateral: u128,
    /// Tracked storage bytes attributed to this account.
    pub storage_bytes_used: u128,
    /// Token identifier to available credit.
    pub balances: Table<u128>,
}

/// Whether `bytes` of storage are paid for by `collateral`.
pub open spec fn storage_covered(collateral: u128, bytes: u128) -> bool {
    bytes * STORAGE_PRICE_PER_BYTE <= collateral
}

/// `bytes <= collateral / price` is the overflow-free way to test
/// coverage; this shows it agrees with the mathematical statement.
pub proof fn lemma_covered_iff(collateral: u128, bytes: u128)
    ensures
        (bytes <= collateral / STORAGE_PRICE_PER_BYTE) <==> storage_covered(collateral, bytes),
{
    let p = STORAGE_PRICE_PER_BYTE as int;
    let c = collateral as int;
    let b = bytes as int;
    lemma_fundamental_div_mod(c, p);
    if b <= c / p {
        lemma_mul_inequality(b, c / p, p);
    }
    if b * p <= c {
        if b > c / p {
            lemma_mul_inequality(c / p + 1, b, p);
        }
    }
}

/// The two accounts agree on everything the model observes.
pub open spec fn account_like(a: Account, b: Account) -> bool {
    &&& a.storage_collateral == b.storage_collateral
    &&& a.storage_bytes_used == b.storage_bytes_used
    &&& a.balances@ == b.balances@
    &&& a.balances.keys() == b.balances.keys()
}

impl Account {
    /// The credit available in the given token, zero when the token
    /// was never deposited.
    pub open spec fn spec_credit(&self, token: Seq<char>) -> u128 {
        if self.balances@.contains_key(token) {
            self.balances@[token]
        } else {
            0
        }
    }

    /// Collateral not needed to cover the tracked bytes.
    pub open spec fn spec_available(&self) -> int {
        let cost = self.storage_bytes_used * STORAGE_PRICE_PER_BYTE;
        if cost <= self.storage_collateral {
            self.storage_collateral - cost
        } else {
            0
        }
    }

    /// A fresh account holding `deposit` of collateral and no credits.
    pub fn new(deposit: u128) -> (a: Account)
        ensures
            a.storage_collateral == deposit,
            a.storage_bytes_used == ACCOUNT_RECORD_BYTES,
            a.balances@ == Map::<Seq<char>, u128>::empty(),
            a.balances.keys() == Seq::<Seq<char>>::empty(),
    {
        Account { storage_collateral: deposit, storage_bytes_used: ACCOUNT_RECORD_BYTES, balances: Table::new() }
    }

    /// An independent copy of the account.
    pub fn snapshot(&self) -> (a: Account)
        ensures
            account_like(a, *self),
    {
        Account {
            storage_collateral: self.storage_collateral,
            storage_bytes_used: self.storage_bytes_used,
            balances: self.balances.duplicate(),
        }
    }

    /// The credit available in the given token.
    pub fn credit_of(&self, token: &String) -> (r: u128)
        ensures
            r == self.spec_credit(token@),
    {
        match self.balances.get(token) {
            Some(v) => *v,
            None => 0,
        }
    }

    /// Writes the credit balance for the given token.
    pub fn set_credit(&mut self, token: &String, amount: u128)
        ensures
            final(self).balances@ == old(self).balances@.insert(token@, amount),
            old(self).balances@.contains_key(token@) ==> final(self).balances.keys() == old(
                self,
            ).balances.keys(),
            !old(self).balances@.contains_key(token@) ==> final(self).balances.keys() == old(
                self,
            ).balances.keys().push(token@),
            final(self).storage_collateral == old(self).storage_collateral,
            final(self).storage_bytes_used == old(self).storage_bytes_used,
    {
        self.balances.set(token, amount);
    }

    /// Adds collateral; creation and deposits never fail.
    pub fn deposit_storage_funds(&mut self, deposit: u128)
        requires
            old(self).storage_collateral + deposit <= u128::MAX,
        ensures
            final(self).storage_collateral == old(self).storage_collateral + deposit,
            final(self).storage_bytes_used == old(self).storage_bytes_used,
            final(self).balances@ == old(self).balances@,
            final(self).balances.keys() == old(self).balances.keys(),
    {
        self.storage_collateral = self.storage_collateral + deposit;
    }

    /// Removes collateral that the storage cost does not need.
    pub fn withdraw_storage_funds(&mut self, amount: u128)
        requires
            amount <= old(self).spec_available(),
        ensures
            final(self).storage_collateral == old(self).storage_collateral - amount,
            final(self).storage_bytes_used == old(self).storage_bytes_used,
            final(self).balances@ == old(self).balances@,
            final(self).balances.keys() == old(self).balances.keys(),
    {
        self.storage_collateral = self.storage_collateral - amount;
    }

    /// Collateral beyond what the tracked bytes cost.
    pub fn storage_funds_available(&self) -> (r: u128)
        ensures
            r == self.spec_available(),
    {
        let cap = u128::MAX / STORAGE_PRICE_PER_BYTE;
        if self.storage_bytes_used > cap {
            proof {
                lemma_covered_iff(u128::MAX, self.storage_bytes_used);
            }
            0
        } else {
            proof {
                lemma_covered_iff(u128::MAX, self.storage_bytes_used);
            }
            let cost = self.storage_bytes_used * STORAGE_PRICE_PER_BYTE;
            if cost <= self.storage_collateral {
                self.storage_collateral - cost
            } else {
                0
            }
        }
    }
}

} // verus!
