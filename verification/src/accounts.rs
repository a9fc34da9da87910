//! What each operation is handed: the caller, the record, and the token
//! accounts that it may touch.

use crate::escrow::{EscrowState, EscrowStateView};
use crate::identity::Identity;
use crate::token::{TokenAccount, TokenAccountView};
use vstd::prelude::*;

verus! {

/// The accounts of a direct transfer from a sponsor to a merchant.
#[derive(Clone, Copy, Debug, PartialEq, Eq)]
pub struct DirectTransfer {
    /// The caller, who signs for the source account.
    pub sponsor: Identity,
    /// The source.
    pub sponsor_token_account: TokenAccount,
    /// The destination.
    pub merchant_token_account: TokenAccount,
}

/// The mathematical view of the accounts of a direct transfer.
pub struct DirectTransferView {
    pub sponsor: Seq<u8>,
    pub sponsor_token_account: TokenAccountView,
    pub merchant_token_account: TokenAccountView,
}

impl View for DirectTransfer {
    type V = DirectTransferView;

    open spec fn view(&self) -> DirectTransferView {
        DirectTransferView {
            sponsor: self.sponsor@,
            sponsor_token_account: self.sponsor_token_account@,
            merchant_token_account: self.merchant_token_account@,
        }
    }
}

/// The accounts of opening an escrow.
#[derive(Clone, Copy, Debug, PartialEq, Eq)]
pub struct InitEscrow {
    /// The caller, who funds the escrow and signs for the source account.
    pub sponsor: Identity,
    /// The party that will be allowed to claim.
    pub merchant: Identity,
    /// What stands at the custody address of the pair.
    pub escrow: EscrowState,
    /// The source of the allocation.
    pub sponsor_token_account: TokenAccount,
    /// The custody account.
    pub escrow_token_account: TokenAccount,
}

/// The mathematical view of the accounts of opening an escrow.
pub struct InitEscrowView {
    pub sponsor: Seq<u8>,
    pub merchant: Seq<u8>,
    pub escrow: EscrowStateView,
    pub sponsor_token_account: TokenAccountView,
    pub escrow_token_account: TokenAccountView,
}

impl View for InitEscrow {
    type V = InitEscrowView;

    open spec fn view(&self) -> InitEscrowView {
        InitEscrowView {
            sponsor: self.sponsor@,
            merchant: self.merchant@,
            escrow: self.escrow@,
            sponsor_token_account: self.sponsor_token_account@,
            escrow_token_account: self.escrow_token_account@,
        }
    }
}

/// The accounts of a claim.
#[derive(Clone, Copy, Debug, PartialEq, Eq)]
pub struct ClaimFromEscrow {
    /// What stands at the custody address of the pair.
    pub escrow: EscrowState,
    /// The caller.
    pub merchant: Identity,
    /// The destination of the claim.
    pub merchant_token_account: TokenAccount,
    /// The custody account.
    pub escrow_token_account: TokenAccount,
    /// The authority that is presented as the signer for the custody account.
    pub escrow_signer: Identity,
}

/// The mathematical view of the accounts of a claim.
pub struct ClaimFromEscrowView {
    pub escrow: EscrowStateView,
    pub merchant: Seq<u8>,
    pub merchant_token_account: TokenAccountView,
    pub escrow_token_account: TokenAccountView,
    pub escrow_signer: Seq<u8>,
}

impl View for ClaimFromEscrow {
    type V = ClaimFromEscrowView;

    open spec fn view(&self) -> ClaimFromEscrowView {
        ClaimFromEscrowView {
            escrow: self.escrow@,
            merchant: self.merchant@,
            merchant_token_account: self.merchant_token_account@,
            escrow_token_account: self.escrow_token_account@,
            escrow_signer: self.escrow_signer@,
        }
    }
}

/// The accounts of a cancellation.
#[derive(Clone, Copy, Debug, PartialEq, Eq)]
pub struct CancelEscrow {
    /// What stands at the custody address of the pair.
    pub escrow: EscrowState,
    /// The caller.
    pub sponsor: Identity,
    /// The destination of the refund.
    pub sponsor_token_account: TokenAccount,
    /// The custody account.
    pub escrow_token_account: TokenAccount,
    /// The authority that is presented as the signer for the custody account.
    pub escrow_signer: Identity,
}

/// The mathematical view of the accounts of a cancellation.
pub struct CancelEscrowView {
    pub escrow: EscrowStateView,
    pub sponsor: Seq<u8>,
    pub sponsor_token_account: TokenAccountView,
    pub escrow_token_account: TokenAccountView,
    pub escrow_signer: Seq<u8>,
}

impl View for CancelEscrow {
    type V = CancelEscrowView;

    open spec fn view(&self) -> CancelEscrowView {
        CancelEscrowView {
            escrow: self.escrow@,
            sponsor: self.sponsor@,
            sponsor_token_account: self.sponsor_token_account@,
            escrow_token_account: self.escrow_token_account@,
            escrow_signer: self.escrow_signer@,
        }
    }
}

} // verus!
