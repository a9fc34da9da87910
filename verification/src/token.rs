//! Token accounts, and the primitive that moves value between two of them.

use crate::error::ZeppayError;
use crate::identity::Identity;
use vstd::prelude::*;

verus! {

/// An account that holds value of one asset for one owner.
#[derive(Clone, Copy, Debug, PartialEq, Eq)]
pub struct TokenAccount {
    /// The asset that the account holds.
    pub mint: Identity,
    /// The identity that may move value out of the account.
    pub owner: Identity,
    /// The balance.
    pub amount: u64,
}

/// The mathematical view of a token account.
pub struct TokenAccountView {
    pub mint: Seq<u8>,
    pub owner: Seq<u8>,
    pub amount: nat,
}

impl View for TokenAccount {
    type V = TokenAccountView;

    open spec fn view(&self) -> TokenAccountView {
        TokenAccountView { mint: self.mint@, owner: self.owner@, amount: self.amount as nat }
    }
}

impl TokenAccountView {
    /// The account with `amount` taken out of it.
    pub open spec fn debited(self, amount: nat) -> TokenAccountView
        recommends
            amount <= self.amount,
    {
        TokenAccountView { amount: (self.amount - amount) as nat, ..self }
    }

    /// The account with `amount` put into it.
    pub open spec fn credited(self, amount: nat) -> TokenAccountView {
        TokenAccountView { amount: self.amount + amount, ..self }
    }
}

/// Why a transfer of `amount` from `from` to `to` under `authority` is
/// refused, or `None` where it goes through. The grounds are tried in this
/// order: the authority does not control the source; the source holds too
/// little; the two accounts hold different assets; the destination cannot
/// hold the sum.
pub open spec fn transfer_refusal(
    from: TokenAccountView,
    to: TokenAccountView,
    authority: Seq<u8>,
    amount: nat,
) -> Option<ZeppayError> {
    if from.owner != authority {
        Some(ZeppayError::Unauthorized)
    } else if from.amount < amount {
        Some(ZeppayError::InsufficientFunds)
    } else if from.mint != to.mint {
        Some(ZeppayError::MintMismatch)
    } else if to.amount + amount > u64::MAX {
        Some(ZeppayError::BalanceOverflow)
    } else {
        None
    }
}

/// Moves `amount` from `from` to `to`, authorized by `authority`. Either the
/// whole amount moves, or the transfer is refused and both accounts stay as
/// they were.
pub fn transfer(from: &mut TokenAccount, to: &mut TokenAccount, authority: &Identity, amount: u64) -> (outcome: Result<(), ZeppayError>)
    ensures
        match outcome {
            Ok(_) => {
                &&& transfer_refusal(old(from)@, old(to)@, authority@, amount as nat) is None
                &&& final(from)@ == old(from)@.debited(amount as nat)
                &&& final(to)@ == old(to)@.credited(amount as nat)
            },
            Err(refusal) => {
                &&& transfer_refusal(old(from)@, old(to)@, authority@, amount as nat) == Some(refusal)
                &&& *final(from) == *old(from)
                &&& *final(to) == *old(to)
            },
        },
{
    if !from.owner.same_as(authority) {
        return Err(ZeppayError::Unauthorized);
    }
    if from.amount < amount {
        return Err(ZeppayError::InsufficientFunds);
    }
    if !from.mint.same_as(&to.mint) {
        return Err(ZeppayError::MintMismatch);
    }
    if to.amount > u64::MAX - amount {
        return Err(ZeppayError::BalanceOverflow);
    }
    from.amount = from.amount - amount;
    to.amount = to.amount + amount;
    Ok(())
}

} // verus!
