//! Error kinds returned by the contract's operations.
//!
//! Every failure is a synchronous abort of the whole operation: the
//! caller receives one of these kinds and the state is left exactly as
//! it was before the call.

use vstd::prelude::*;

verus! {

/// The reason an operation was refused.
///
/// Authorization: `NotOwner`, `NotPartnerOwner`, `MissingIntentProof`.
/// Not found: `AccountNotRegistered`, `GameNotFound`,
/// `TokenIndexOutOfBounds`.
/// Validation: `InvalidRange`, `FeeOutOfRange`, `BetTooSmall`,
/// `BetTooLarge`, `OddsTooLow`, `OddsTooHigh`, `TokenMismatch`,
/// `MalformedTransferMessage`.
/// Insufficient resources: `InsufficientBalance`, `InsufficientReserve`,
/// `InsufficientStorageCollateral`, `ZeroBalance`.
/// State: `DuplicateGame`, `OperationsSuspended`.
#[derive(Clone, Copy, Debug, PartialEq, Eq, Structural)]
pub enum GameError {
    NotOwner,
    NotPartnerOwner,
    MissingIntentProof,
    AccountNotRegistered,
    GameNotFound,
    TokenIndexOutOfBounds,
    InvalidRange,
    FeeOutOfRange,
    BetTooSmall,
    BetTooLarge,
    OddsTooLow,
    OddsTooHigh,
    TokenMismatch,
    MalformedTransferMessage,
    InsufficientBalance,
    InsufficientReserve,
    InsufficientStorageCollateral,
    ZeroBalance,
    DuplicateGame,
    OperationsSuspended,
}

impl GameError {
    /// A human-readable description of the error kind.
    pub fn describe(&self) -> &'static str {
        match self {
            GameError::NotOwner => "Only the platform owner can call this method",
            GameError::NotPartnerOwner => "Only the partner game owner can call this method",
            GameError::MissingIntentProof => {
                "Requires an attached deposit of exactly one minimal unit"
            },
            GameError::AccountNotRegistered => "Account is not registered",
            GameError::GameNotFound => "No game registered under this identifier",
            GameError::TokenIndexOutOfBounds => "Token index out of bounds",
            GameError::InvalidRange => "Max parameter must be greater than min parameter",
            GameError::FeeOutOfRange => "Fee parameters must not exceed the fractional base",
            GameError::BetTooSmall => "Minimum bet size not respected",
            GameError::BetTooLarge => "Maximum bet size not respected",
            GameError::OddsTooLow => "Minimum odds not respected",
            GameError::OddsTooHigh => "Maximum odds not respected",
            GameError::TokenMismatch => "Token sent is not the registered token type for the game",
            GameError::MalformedTransferMessage => {
                "Transfer message parameter could not be parsed"
            },
            GameError::InsufficientBalance => "Not enough balance for this operation",
            GameError::InsufficientReserve => {
                "House funds are not enough to cover this withdrawal or win"
            },
            GameError::InsufficientStorageCollateral => "Insufficient storage deposit",
            GameError::ZeroBalance => "Balance for this token is zero",
            GameError::DuplicateGame => "A game is already registered for this identifier",
            GameError::OperationsSuspended => {
                "Panic mode is on, all non-owner tasks are suspended"
            },
        }
    }
}

} // verus!
