//! The four operations: a direct transfer, and the opening, claiming and
//! cancelling of an escrow. Each one either goes through as a whole or is
//! refused and leaves everything as it was.

use crate::accounts::{
    CancelEscrow, CancelEscrowView, ClaimFromEscrow, ClaimFromEscrowView, DirectTransfer,
    DirectTransferView, InitEscrow, InitEscrowView,
};
use crate::authority::{derive_escrow_signer, escrow_signer, outcome_view, DerivedAuthority};
use crate::error::ZeppayError;
use crate::escrow::{Escrow, EscrowClaimed, EscrowClaimedView, EscrowState, EscrowStateView, EscrowView};
use crate::identity::Identity;
use crate::token::{transfer, transfer_refusal};
use vstd::prelude::*;

verus! {

/// The authority that the parties of the record at a custody address derive
/// under a program; none where no escrow is open there.
pub open spec fn record_authority(escrow: EscrowStateView, program_id: Seq<u8>) -> Option<(Seq<u8>, u8)> {
    match escrow {
        EscrowStateView::Open(record) => escrow_signer(program_id, record.sponsor, record.merchant),
        _ => None,
    }
}

/// Whether the authority presented is the one that was derived.
pub open spec fn authority_matches(derived: Option<(Seq<u8>, u8)>, presented: Seq<u8>) -> bool {
    derived matches Some(authority) && authority.0 == presented
}

/// Why a claim of `amount` is refused, or `None` where it goes through. The
/// grounds are tried in this order: no escrow is open; the caller is not the
/// record's merchant; the authority presented is not the derived one; the claim
/// goes past the allocation; custody and destination hold different assets;
/// the transfer out of custody is refused.
pub open spec fn claim_refusal(
    ctx: ClaimFromEscrowView,
    authority: Option<(Seq<u8>, u8)>,
    amount: nat,
) -> Option<ZeppayError> {
    match ctx.escrow {
        EscrowStateView::Open(record) => {
            if ctx.merchant != record.merchant {
                Some(ZeppayError::Unauthorized)
            } else if !authority_matches(authority, ctx.escrow_signer) {
                Some(ZeppayError::Unauthorized)
            } else if record.amount_claimed + amount > record.amount_allocated {
                Some(ZeppayError::OverClaim)
            } else if ctx.escrow_token_account.mint != ctx.merchant_token_account.mint {
                Some(ZeppayError::MintMismatch)
            } else {
                transfer_refusal(ctx.escrow_token_account, ctx.merchant_token_account, ctx.escrow_signer, amount)
            }
        },
        _ => Some(ZeppayError::EscrowNotFound),
    }
}

/// The accounts after a claim of `amount` at `now` went through.
pub open spec fn claim_effect(ctx: ClaimFromEscrowView, amount: nat, now: int) -> ClaimFromEscrowView {
    match ctx.escrow {
        EscrowStateView::Open(record) => ClaimFromEscrowView {
            escrow: EscrowStateView::Open(record.claimed(amount, now)),
            escrow_token_account: ctx.escrow_token_account.debited(amount),
            merchant_token_account: ctx.merchant_token_account.credited(amount),
            ..ctx
        },
        _ => ctx,
    }
}

/// The accounts after a claim of `amount` was asked for at `now`: as
/// `claim_effect` says where it went through, untouched where it was refused.
pub open spec fn after_claim(
    ctx: ClaimFromEscrowView,
    authority: Option<(Seq<u8>, u8)>,
    amount: nat,
    now: int,
) -> ClaimFromEscrowView {
    if claim_refusal(ctx, authority, amount) is None {
        claim_effect(ctx, amount, now)
    } else {
        ctx
    }
}

/// The event that reports a claim of `amount` at `now` against a record.
pub open spec fn claim_event(record: EscrowView, amount: nat, now: int) -> EscrowClaimedView {
    EscrowClaimedView { sponsor: record.sponsor, merchant: record.merchant, amount, timestamp: now }
}

/// Lets the merchant draw `claim_amount` from the escrow at `now`, under the
/// authority that was derived for the record's parties. On success the amount
/// has moved from custody to the merchant's account, the record counts it as
/// claimed and remembers `now`, and the event of the claim is returned.
pub fn claim_with_authority(
    ctx: &mut ClaimFromEscrow,
    authority: Option<DerivedAuthority>,
    claim_amount: u64,
    now: i64,
) -> (outcome: Result<EscrowClaimed, ZeppayError>)
    ensures
        match outcome {
            Ok(event) => {
                &&& claim_refusal(old(ctx)@, outcome_view(authority), claim_amount as nat) is None
                &&& final(ctx)@ == claim_effect(old(ctx)@, claim_amount as nat, now as int)
                &&& old(ctx)@.escrow matches EscrowStateView::Open(record)
                &&& event@ == claim_event(record, claim_amount as nat, now as int)
            },
            Err(refusal) => {
                &&& claim_refusal(old(ctx)@, outcome_view(authority), claim_amount as nat) == Some(refusal)
                &&& *final(ctx) == *old(ctx)
            },
        },
        final(ctx)@ == after_claim(old(ctx)@, outcome_view(authority), claim_amount as nat, now as int),
        old(ctx)@.escrow matches EscrowStateView::Open(record) && old(ctx)@.merchant != record.merchant
            ==> outcome == Err::<EscrowClaimed, ZeppayError>(ZeppayError::Unauthorized) && *final(ctx) == *old(ctx),
        final(ctx)@.escrow matches EscrowStateView::Open(record) ==> record.wf(),
{
    let record = match ctx.escrow {
        EscrowState::Open(record) => record,
        _ => {
            return Err(ZeppayError::EscrowNotFound);
        },
    };
    proof {
        use_type_invariant(&record);
    }
    if !ctx.merchant.same_as(&record.merchant()) {
        return Err(ZeppayError::Unauthorized);
    }
    match authority {
        Some(derived) => {
            if !derived.address.same_as(&ctx.escrow_signer) {
                return Err(ZeppayError::Unauthorized);
            }
        },
        None => {
            return Err(ZeppayError::Unauthorized);
        },
    }
    let claimed = match record.with_claim(claim_amount, now) {
        Some(claimed) => claimed,
        None => {
            return Err(ZeppayError::OverClaim);
        },
    };
    if !ctx.escrow_token_account.mint.same_as(&ctx.merchant_token_account.mint) {
        return Err(ZeppayError::MintMismatch);
    }
    match transfer(&mut ctx.escrow_token_account, &mut ctx.merchant_token_account, &ctx.escrow_signer, claim_amount) {
        Ok(_) => {},
        Err(refusal) => {
            return Err(refusal);
        },
    }
    ctx.escrow = EscrowState::Open(claimed);
    Ok(EscrowClaimed { sponsor: record.sponsor(), merchant: record.merchant(), amount: claim_amount, timestamp: now })
}

/// Lets the merchant draw `claim_amount` from the escrow at `now`. The
/// authority over the custody account is derived from the record's own sponsor
/// and merchant under `program_id`; the claim then runs as
/// [`claim_with_authority`] says.
pub fn claim_from_escrow(
    ctx: &mut ClaimFromEscrow,
    program_id: &Identity,
    claim_amount: u64,
    now: i64,
) -> (outcome: Result<EscrowClaimed, ZeppayError>)
    ensures
        match outcome {
            Ok(event) => {
                &&& claim_refusal(old(ctx)@, record_authority(old(ctx)@.escrow, program_id@), claim_amount as nat) is None
                &&& final(ctx)@ == claim_effect(old(ctx)@, claim_amount as nat, now as int)
                &&& old(ctx)@.escrow matches EscrowStateView::Open(record)
                &&& event@ == claim_event(record, claim_amount as nat, now as int)
            },
            Err(refusal) => {
                &&& claim_refusal(old(ctx)@, record_authority(old(ctx)@.escrow, program_id@), claim_amount as nat)
                    == Some(refusal)
                &&& *final(ctx) == *old(ctx)
            },
        },
        final(ctx)@ == after_claim(
            old(ctx)@,
            record_authority(old(ctx)@.escrow, program_id@),
            claim_amount as nat,
            now as int,
        ),
        old(ctx)@.escrow matches EscrowStateView::Open(record) && old(ctx)@.merchant != record.merchant
            ==> outcome == Err::<EscrowClaimed, ZeppayError>(ZeppayError::Unauthorized) && *final(ctx) == *old(ctx),
        final(ctx)@.escrow matches EscrowStateView::Open(record) ==> record.wf(),
{
    let authority = match ctx.escrow {
        EscrowState::Open(record) => derive_escrow_signer(program_id, &record.sponsor(), &record.merchant()),
        _ => None,
    };
    claim_with_authority(ctx, authority, claim_amount, now)
}

/// What a cancellation does where nothing is left to refund.
#[derive(Clone, Copy, Debug, PartialEq, Eq)]
pub enum EmptyRefund {
    /// Ask for a transfer of zero all the same, and close the record once it
    /// went through.
    Transfer,
    /// Close the record without asking for a transfer.
    Skip,
}

/// Why a cancellation is refused, or `None` where it goes through. The
/// grounds are tried in this order: no escrow is open; the caller is not the
/// record's sponsor; the authority presented is not the derived one; the
/// transfer of the remainder out of custody is refused. Where nothing remains
/// and `empty_refund` is `Skip`, no transfer is asked for and none can be
/// refused.
pub open spec fn cancel_refusal(
    ctx: CancelEscrowView,
    authority: Option<(Seq<u8>, u8)>,
    empty_refund: EmptyRefund,
) -> Option<ZeppayError> {
    match ctx.escrow {
        EscrowStateView::Open(record) => {
            if ctx.sponsor != record.sponsor {
                Some(ZeppayError::Unauthorized)
            } else if !authority_matches(authority, ctx.escrow_signer) {
                Some(ZeppayError::Unauthorized)
            } else if record.remaining() == 0 && empty_refund is Skip {
                None
            } else {
                transfer_refusal(
                    ctx.escrow_token_account,
                    ctx.sponsor_token_account,
                    ctx.escrow_signer,
                    record.remaining(),
                )
            }
        },
        _ => Some(ZeppayError::EscrowNotFound),
    }
}

/// The accounts after a cancellation went through: the remainder is back with
/// the sponsor and the record is closed.
pub open spec fn cancel_effect(ctx: CancelEscrowView) -> CancelEscrowView {
    match ctx.escrow {
        EscrowStateView::Open(record) => CancelEscrowView {
            escrow: EscrowStateView::Closed,
            escrow_token_account: ctx.escrow_token_account.debited(record.remaining()),
            sponsor_token_account: ctx.sponsor_token_account.credited(record.remaining()),
            ..ctx
        },
        _ => ctx,
    }
}

/// The accounts after a cancellation was asked for: as `cancel_effect` says
/// where it went through, untouched where it was refused.
pub open spec fn after_cancel(
    ctx: CancelEscrowView,
    authority: Option<(Seq<u8>, u8)>,
    empty_refund: EmptyRefund,
) -> CancelEscrowView {
    if cancel_refusal(ctx, authority, empty_refund) is None {
        cancel_effect(ctx)
    } else {
        ctx
    }
}

/// Lets the sponsor cancel the escrow, under the authority that was derived
/// for the record's parties. On success all that the merchant has not drawn is
/// back in the sponsor's account, the record is closed for good, and the
/// amount refunded is returned.
pub fn cancel_with_authority(
    ctx: &mut CancelEscrow,
    authority: Option<DerivedAuthority>,
    empty_refund: EmptyRefund,
) -> (outcome: Result<u64, ZeppayError>)
    ensures
        match outcome {
            Ok(refund) => {
                &&& cancel_refusal(old(ctx)@, outcome_view(authority), empty_refund) is None
                &&& final(ctx)@ == cancel_effect(old(ctx)@)
                &&& old(ctx)@.escrow matches EscrowStateView::Open(record)
                &&& record.wf()
                &&& refund == record.amount_allocated - record.amount_claimed
            },
            Err(refusal) => {
                &&& cancel_refusal(old(ctx)@, outcome_view(authority), empty_refund) == Some(refusal)
                &&& *final(ctx) == *old(ctx)
            },
        },
        final(ctx)@ == after_cancel(old(ctx)@, outcome_view(authority), empty_refund),
        old(ctx)@.escrow matches EscrowStateView::Open(record) && old(ctx)@.sponsor != record.sponsor
            ==> outcome == Err::<u64, ZeppayError>(ZeppayError::Unauthorized) && *final(ctx) == *old(ctx),
{
    let record = match ctx.escrow {
        EscrowState::Open(record) => record,
        _ => {
            return Err(ZeppayError::EscrowNotFound);
        },
    };
    if !ctx.sponsor.same_as(&record.sponsor()) {
        return Err(ZeppayError::Unauthorized);
    }
    match authority {
        Some(derived) => {
            if !derived.address.same_as(&ctx.escrow_signer) {
                return Err(ZeppayError::Unauthorized);
            }
        },
        None => {
            return Err(ZeppayError::Unauthorized);
        },
    }
    let remaining = record.remaining();
    let skip = match empty_refund {
        EmptyRefund::Skip => remaining == 0,
        EmptyRefund::Transfer => false,
    };
    if !skip {
        match transfer(&mut ctx.escrow_token_account, &mut ctx.sponsor_token_account, &ctx.escrow_signer, remaining) {
            Ok(_) => {},
            Err(refusal) => {
                return Err(refusal);
            },
        }
    }
    ctx.escrow = EscrowState::Closed;
    Ok(remaining)
}

/// Lets the sponsor cancel the escrow. The authority over the custody account
/// is derived from the record's own sponsor and merchant under `program_id`;
/// the cancellation then runs as [`cancel_with_authority`] says.
pub fn cancel_escrow(
    ctx: &mut CancelEscrow,
    program_id: &Identity,
    empty_refund: EmptyRefund,
) -> (outcome: Result<u64, ZeppayError>)
    ensures
        match outcome {
            Ok(refund) => {
                &&& cancel_refusal(old(ctx)@, record_authority(old(ctx)@.escrow, program_id@), empty_refund) is None
                &&& final(ctx)@ == cancel_effect(old(ctx)@)
                &&& old(ctx)@.escrow matches EscrowStateView::Open(record)
                &&& record.wf()
                &&& refund == record.amount_allocated - record.amount_claimed
            },
            Err(refusal) => {
                &&& cancel_refusal(old(ctx)@, record_authority(old(ctx)@.escrow, program_id@), empty_refund)
                    == Some(refusal)
                &&& *final(ctx) == *old(ctx)
            },
        },
        final(ctx)@ == after_cancel(old(ctx)@, record_authority(old(ctx)@.escrow, program_id@), empty_refund),
        old(ctx)@.escrow matches EscrowStateView::Open(record) && old(ctx)@.sponsor != record.sponsor
            ==> outcome == Err::<u64, ZeppayError>(ZeppayError::Unauthorized) && *final(ctx) == *old(ctx),
{
    let authority = match ctx.escrow {
        EscrowState::Open(record) => derive_escrow_signer(program_id, &record.sponsor(), &record.merchant()),
        _ => None,
    };
    cancel_with_authority(ctx, authority, empty_refund)
}

/// Why the opening of an escrow of `amount` is refused, or `None` where it
/// goes through. The grounds are tried in this order: a record already stands
/// at the custody address, open or closed; the custody account does not answer
/// to the authority derived for the two parties; the transfer from the
/// sponsor's account into custody is refused.
pub open spec fn init_refusal(
    ctx: InitEscrowView,
    authority: Option<(Seq<u8>, u8)>,
    amount: nat,
) -> Option<ZeppayError> {
    if !(ctx.escrow is Uninitialized) {
        Some(ZeppayError::EscrowExists)
    } else if !authority_matches(authority, ctx.escrow_token_account.owner) {
        Some(ZeppayError::Unauthorized)
    } else {
        transfer_refusal(ctx.sponsor_token_account, ctx.escrow_token_account, ctx.sponsor, amount)
    }
}

/// The accounts after an escrow of `amount` was opened at `now`.
pub open spec fn init_effect(ctx: InitEscrowView, amount: nat, now: int) -> InitEscrowView {
    InitEscrowView {
        escrow: EscrowStateView::Open(EscrowView::opened(ctx.sponsor, ctx.merchant, amount, now)),
        sponsor_token_account: ctx.sponsor_token_account.debited(amount),
        escrow_token_account: ctx.escrow_token_account.credited(amount),
        ..ctx
    }
}

/// Opens the escrow of the calling sponsor for the merchant, into a custody
/// account that answers to the authority derived for the two of them:
/// `amount` moves from the sponsor's account into custody, and the record
/// starts with that allocation and nothing claimed. One pair has one escrow:
/// where a record already stands, nothing is opened and nothing moves.
pub fn init_with_authority(
    ctx: &mut InitEscrow,
    authority: Option<DerivedAuthority>,
    amount: u64,
    now: i64,
) -> (outcome: Result<(), ZeppayError>)
    ensures
        match outcome {
            Ok(_) => {
                &&& init_refusal(old(ctx)@, outcome_view(authority), amount as nat) is None
                &&& final(ctx)@ == init_effect(old(ctx)@, amount as nat, now as int)
            },
            Err(refusal) => {
                &&& init_refusal(old(ctx)@, outcome_view(authority), amount as nat) == Some(refusal)
                &&& *final(ctx) == *old(ctx)
            },
        },
{
    match ctx.escrow {
        EscrowState::Uninitialized => {},
        _ => {
            return Err(ZeppayError::EscrowExists);
        },
    }
    match authority {
        Some(derived) => {
            if !derived.address.same_as(&ctx.escrow_token_account.owner) {
                return Err(ZeppayError::Unauthorized);
            }
        },
        None => {
            return Err(ZeppayError::Unauthorized);
        },
    }
    match transfer(&mut ctx.sponsor_token_account, &mut ctx.escrow_token_account, &ctx.sponsor, amount) {
        Ok(_) => {},
        Err(refusal) => {
            return Err(refusal);
        },
    }
    ctx.escrow = EscrowState::Open(Escrow::open(ctx.sponsor, ctx.merchant, amount, now));
    Ok(())
}

/// Opens the escrow of the calling sponsor for the merchant. The authority
/// that the custody account has to answer to is derived from the two parties
/// under `program_id`; the opening then runs as [`init_with_authority`] says.
pub fn init_escrow(ctx: &mut InitEscrow, program_id: &Identity, amount: u64, now: i64) -> (outcome: Result<
    (),
    ZeppayError,
>)
    ensures
        match outcome {
            Ok(_) => {
                &&& init_refusal(
                    old(ctx)@,
                    escrow_signer(program_id@, old(ctx)@.sponsor, old(ctx)@.merchant),
                    amount as nat,
                ) is None
                &&& final(ctx)@ == init_effect(old(ctx)@, amount as nat, now as int)
            },
            Err(refusal) => {
                &&& init_refusal(
                    old(ctx)@,
                    escrow_signer(program_id@, old(ctx)@.sponsor, old(ctx)@.merchant),
                    amount as nat,
                ) == Some(refusal)
                &&& *final(ctx) == *old(ctx)
            },
        },
{
    let authority = derive_escrow_signer(program_id, &ctx.sponsor, &ctx.merchant);
    init_with_authority(ctx, authority, amount, now)
}

/// Why a direct transfer of `amount` is refused, or `None` where it goes through.
pub open spec fn direct_transfer_refusal(ctx: DirectTransferView, amount: nat) -> Option<ZeppayError> {
    transfer_refusal(ctx.sponsor_token_account, ctx.merchant_token_account, ctx.sponsor, amount)
}

/// The accounts after a direct transfer of `amount` went through.
pub open spec fn direct_transfer_effect(ctx: DirectTransferView, amount: nat) -> DirectTransferView {
    DirectTransferView {
        sponsor_token_account: ctx.sponsor_token_account.debited(amount),
        merchant_token_account: ctx.merchant_token_account.credited(amount),
        ..ctx
    }
}

/// Moves `amount` straight from the calling sponsor's account to the
/// merchant's, with no escrow and no derived authority in between.
pub fn direct_transfer(ctx: &mut DirectTransfer, amount: u64) -> (outcome: Result<(), ZeppayError>)
    ensures
        match outcome {
            Ok(_) => {
                &&& direct_transfer_refusal(old(ctx)@, amount as nat) is None
                &&& final(ctx)@ == direct_transfer_effect(old(ctx)@, amount as nat)
            },
            Err(refusal) => {
                &&& direct_transfer_refusal(old(ctx)@, amount as nat) == Some(refusal)
                &&& *final(ctx) == *old(ctx)
            },
        },
{
    transfer(&mut ctx.sponsor_token_account, &mut ctx.merchant_token_account, &ctx.sponsor, amount)
}

} // verus!
