//! The reasons for which an operation is refused.

use vstd::prelude::*;

verus! {

/// Why an operation was refused. Every refusal is final for the operation
/// that met it, and leaves every account and record as it was.
#[derive(Clone, Copy, Debug, PartialEq, Eq)]
pub enum ZeppayError {
    /// The claim would take the merchant past the allocation.
    OverClaim,
    /// The two token accounts of a transfer hold different assets.
    MintMismatch,
    /// The caller does not hold the role that the operation asks for, or an
    /// account does not answer to the authority that the operation asks for.
    Unauthorized,
    /// The source account holds less than the amount to move.
    InsufficientFunds,
    /// A record already stands at the custody address, open or closed.
    EscrowExists,
    /// No open record stands at the custody address.
    EscrowNotFound,
    /// The destination account cannot hold the amount on top of its balance.
    BalanceOverflow,
}

impl ZeppayError {
    /// The message that goes with the refusal.
    pub fn message(&self) -> (text: &'static str)
        ensures
            text@ == match *self {
                ZeppayError::OverClaim => "Merchant tried to claim more than allocated."@,
                ZeppayError::MintMismatch => "Token account mint mismatch."@,
                ZeppayError::Unauthorized => "Caller or authority is not the one required."@,
                ZeppayError::InsufficientFunds => "Source account holds less than the amount."@,
                ZeppayError::EscrowExists => "An escrow record already exists for this pair."@,
                ZeppayError::EscrowNotFound => "No open escrow record for this pair."@,
                ZeppayError::BalanceOverflow => "Destination balance would overflow."@,
            },
    {
        match self {
            ZeppayError::OverClaim => "Merchant tried to claim more than allocated.",
            ZeppayError::MintMismatch => "Token account mint mismatch.",
            ZeppayError::Unauthorized => "Caller or authority is not the one required.",
            ZeppayError::InsufficientFunds => "Source account holds less than the amount.",
            ZeppayError::EscrowExists => "An escrow record already exists for this pair.",
            ZeppayError::EscrowNotFound => "No open escrow record for this pair.",
            ZeppayError::BalanceOverflow => "Destination balance would overflow.",
        }
    }
}

} // verus!
