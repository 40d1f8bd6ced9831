//! Outbound value movements.
//!
//! The ledger commits its bookkeeping first and only then emits a
//! [`TransferRequest`]; the surrounding runtime performs the actual
//! asynchronous transfer.  A failed transfer after the ledger was
//! decremented is left to a higher-level recovery procedure.

use vstd::prelude::*;

verus! {

/// A request to move `amount` of `token` to `receiver`, emitted after
/// the corresponding ledger entry was already decremented.
#[derive(Debug)]
pub struct TransferRequest {
    /// Token contract the amount is denominated in.
    pub token: String,
    /// Quantity to transfer.
    pub amount: u128,
    /// Destination account.
    pub receiver: String,
}

} // verus!
