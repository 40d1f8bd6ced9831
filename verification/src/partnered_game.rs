//! Partnered games: independently configured betting markets.
//!
//! Each game carries its manager, the single token it accepts, a fee
//! schedule in [`crate::FRACTIONAL_BASE`] fractions, stake and odds
//! bounds, the house reserve that backs payouts, and the partner's
//! accrued fee share.

use crate::errors::GameError;
use crate::FRACTIONAL_BASE;
use vstd::prelude::*;

verus! {

/// Tracked bytes charged to the operating account for one game
/// record, on top of the identifier lengths.
pub const GAME_RECORD_BYTES: u128 = 200;

/// One registered game's configuration and live balances.
#[derive(Debug)]
pub struct PartneredGame {
    /// Identity allowed to manage the game and draw its fee share.
    pub partner_owner: String,
    /// When set the game is marked as refusing new wagers.  The
    /// wagering path does not consult it; the flag is stored and
    /// reported only.
    pub blocked: bool,
    /// Reserve, in `partner_token` units, covering player wins.
    pub house_funds: u128,
    /// The single token this game accepts.
    pub partner_token: String,
    /// Partner's fee fraction of every stake.
    pub partner_fee: u128,
    /// Accrued, not yet withdrawn partner fee share.
    pub partner_balance: u128,
    /// Fraction applied to the fair payout; `FRACTIONAL_BASE` means a
    /// mathematically fair game.
    pub bet_payment_adjustment: u128,
    /// House fee fraction of every stake.
    pub house_fee: u128,
    /// Largest allowed stake, inclusive.
    pub max_bet: u128,
    /// Smallest allowed stake, inclusive.
    pub min_bet: u128,
    /// Largest allowed odds parameter, inclusive.
    pub max_odds: u8,
    /// Smallest allowed odds parameter, inclusive.
    pub min_odds: u8,
    /// NFT program fee fraction of every stake.
    pub nft_fee: u128,
    /// Platform owner fee fraction of every stake.
    pub owner_fee: u128,
}

impl Clone for PartneredGame {
    /// An exact copy of the game record.
    fn clone(&self) -> (r: Self)
        ensures
            r == *self,
    {
        PartneredGame {
            partner_owner: self.partner_owner.clone(),
            blocked: self.blocked,
            house_funds: self.house_funds,
            partner_token: self.partner_token.clone(),
            partner_fee: self.partner_fee,
            partner_balance: self.partner_balance,
            bet_payment_adjustment: self.bet_payment_adjustment,
            house_fee: self.house_fee,
            max_bet: self.max_bet,
            min_bet: self.min_bet,
            max_odds: self.max_odds,
            min_odds: self.min_odds,
            nft_fee: self.nft_fee,
            owner_fee: self.owner_fee,
        }
    }
}

/// Whether the stake and odds bounds of a configuration are ordered.
pub open spec fn spec_ranges_ok(max_bet: u128, min_bet: u128, max_odds: u8, min_odds: u8) -> bool {
    max_bet > min_bet && max_odds > min_odds
}

/// Whether every fee and adjustment fraction is at most
/// `FRACTIONAL_BASE`.
pub open spec fn spec_fees_ok(
    partner_fee: u128,
    bet_payment_adjustment: u128,
    house_fee: u128,
    nft_fee: u128,
    owner_fee: u128,
) -> bool {
    &&& partner_fee <= FRACTIONAL_BASE
    &&& bet_payment_adjustment <= FRACTIONAL_BASE
    &&& house_fee <= FRACTIONAL_BASE
    &&& nft_fee <= FRACTIONAL_BASE
    &&& owner_fee <= FRACTIONAL_BASE
}

/// The rejection, if any, that the shared configuration validation
/// yields: range violations first, then fee violations.
pub open spec fn spec_config_error(
    partner_fee: u128,
    bet_payment_adjustment: u128,
    house_fee: u128,
    max_bet: u128,
    min_bet: u128,
    max_odds: u8,
    min_odds: u8,
    nft_fee: u128,
    owner_fee: u128,
) -> Option<GameError> {
    if !spec_ranges_ok(max_bet, min_bet, max_odds, min_odds) {
        Some(GameError::InvalidRange)
    } else if !spec_fees_ok(partner_fee, bet_payment_adjustment, house_fee, nft_fee, owner_fee) {
        Some(GameError::FeeOutOfRange)
    } else {
        None
    }
}

/// The configuration validation shared by game creation and game
/// alteration: bounds must be ordered and every fraction at most
/// `FRACTIONAL_BASE`.
pub fn check_config(
    partner_fee: u128,
    bet_payment_adjustment: u128,
    house_fee: u128,
    max_bet: u128,
    min_bet: u128,
    max_odds: u8,
    min_odds: u8,
    nft_fee: u128,
    owner_fee: u128,
) -> (r: Result<(), GameError>)
    ensures
        r == (match spec_config_error(
            partner_fee,
            bet_payment_adjustment,
            house_fee,
            max_bet,
            min_bet,
            max_odds,
            min_odds,
            nft_fee,
            owner_fee,
        ) {
            Some(e) => Result::<(), GameError>::Err(e),
            None => Result::<(), GameError>::Ok(()),
        }),
{
    if !(max_bet > min_bet) {
        return Err(GameError::InvalidRange);
    }
    if !(max_odds > min_odds) {
        return Err(GameError::InvalidRange);
    }
    if house_fee > FRACTIONAL_BASE {
        return Err(GameError::FeeOutOfRange);
    }
    if partner_fee > FRACTIONAL_BASE {
        return Err(GameError::FeeOutOfRange);
    }
    if nft_fee > FRACTIONAL_BASE {
        return Err(GameError::FeeOutOfRange);
    }
    if owner_fee > FRACTIONAL_BASE {
        return Err(GameError::FeeOutOfRange);
    }
    if bet_payment_adjustment > FRACTIONAL_BASE {
        return Err(GameError::FeeOutOfRange);
    }
    Ok(())
}

} // verus!
