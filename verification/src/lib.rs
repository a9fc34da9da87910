//! Custody escrow between a sponsor and a merchant.
//!
//! A sponsor sets an amount aside for a merchant; the merchant draws on it in
//! claims that together never pass the allocation; the sponsor may cancel and
//! take back what was not drawn. The custody account answers to an authority
//! that is derived from the two parties and that nobody holds a key for.

pub mod accounts;
pub mod authority;
pub mod error;
pub mod escrow;
pub mod identity;
pub mod laws;
pub mod lifecycle;
pub mod token;

pub use accounts::{CancelEscrow, ClaimFromEscrow, DirectTransfer, InitEscrow};
pub use authority::{derive_escrow_signer, DerivedAuthority};
pub use error::ZeppayError;
pub use escrow::{Escrow, EscrowClaimed, EscrowState};
pub use identity::Identity;
pub use lifecycle::{
    cancel_escrow, cancel_with_authority, claim_from_escrow, claim_with_authority, direct_transfer,
    init_escrow, init_with_authority, EmptyRefund,
};
pub use token::{transfer, TokenAccount};
