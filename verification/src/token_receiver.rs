//! Inbound value notifications from external token contracts.
//!
//! When a token contract notifies the platform of an incoming
//! transfer, the attached message names what the value is for: funding
//! a game's house reserve, or topping up the sender's own credit
//! balance.  The surrounding runtime parses the raw message; this
//! module dispatches the parsed form, refusing anything that did not
//! parse.

use crate::errors::GameError;
use crate::Contract;
use vstd::prelude::*;

verus! {

/// The parsed form of an inbound transfer message.
pub enum CallType {
    /// The amount funds the house reserve of the named game.
    FundGame { game_id: String },
    /// The amount tops up the sending account's own credit balance.
    DepositBalance,
}

impl Contract {
    /// Dispatches an inbound token transfer: `FundGame` credits the
    /// named game's reserve, `DepositBalance` credits the sender's
    /// balance in the sending token contract, and a message that did
    /// not parse is refused.  Returns how much of the amount is handed
    /// back to the sender: always zero, the full amount is consumed.
    pub fn ft_on_transfer(
        &mut self,
        sender_id: &String,
        token_contract: &String,
        amount: u128,
        msg: Option<CallType>,
    ) -> (r: Result<u128, GameError>)
        requires
            match msg {
                Some(CallType::FundGame { game_id }) => old(self).games@.contains_key(game_id@)
                    ==> old(self).games@[game_id@].house_funds + amount <= u128::MAX,
                Some(CallType::DepositBalance) => old(self).has_account(sender_id@) ==> {
                    let a = old(self).accounts@[sender_id@];
                    &&& a.spec_credit(token_contract@) + amount <= u128::MAX
                    &&& a.storage_bytes_used + old(self).spec_deposit_delta(
                        sender_id@,
                        token_contract@,
                    ) <= u128::MAX
                },
                None => true,
            },
        ensures
            match msg {
                None => {
                    &&& r == Err::<u128, GameError>(GameError::MalformedTransferMessage)
                    &&& *final(self) == *old(self)
                },
                Some(CallType::FundGame { game_id }) => match r {
                    Ok(v) => v == 0 && Self::spec_fund_game_house_post(
                        *old(self),
                        *final(self),
                        token_contract@,
                        amount,
                        game_id@,
                    ),
                    Err(e) => Some(e) == old(self).spec_fund_game_house_err(
                        token_contract@,
                        game_id@,
                    ) && *final(self) == *old(self),
                },
                Some(CallType::DepositBalance) => match r {
                    Ok(v) => v == 0 && Self::spec_user_deposit_post(
                        *old(self),
                        *final(self),
                        sender_id@,
                        token_contract@,
                        amount,
                    ),
                    Err(e) => Some(e) == old(self).spec_user_deposit_err(
                        sender_id@,
                        token_contract@,
                    ) && *final(self) == *old(self),
                },
            },
    {
        match msg {
            None => Err(GameError::MalformedTransferMessage),
            Some(CallType::FundGame { game_id }) => {
                match self.fund_game_house(token_contract, amount, game_id) {
                    Ok(()) => Ok(0),
                    Err(e) => Err(e),
                }
            },
            Some(CallType::DepositBalance) => {
                match self.user_deposit_balance(sender_id, token_contract, amount) {
                    Ok(()) => Ok(0),
                    Err(e) => Err(e),
                }
            },
        }
    }
}

} // verus!
