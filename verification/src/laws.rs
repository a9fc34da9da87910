//! What holds of the operations taken together: of an opening, of any run of
//! claims against one escrow, and of the cancellation that ends it.

use crate::accounts::{CancelEscrowView, ClaimFromEscrowView, InitEscrowView};
use crate::error::ZeppayError;
use crate::escrow::{EscrowStateView, EscrowView};
use crate::lifecycle::{
    after_cancel, after_claim, authority_matches, cancel_effect, cancel_refusal, claim_refusal,
    init_effect, init_refusal, EmptyRefund,
};
use crate::token::TokenAccountView;
use vstd::prelude::*;

verus! {

/// The custody account holds exactly what the record has not paid out yet.
pub open spec fn custody_backs(record: EscrowView, custody: TokenAccountView) -> bool {
    custody.amount == record.remaining()
}

/// An opening that goes through leaves a record with the whole amount
/// allocated and nothing claimed, the sponsor's account lower by the amount
/// and the custody account higher by it, and the custody account answers to
/// the derived authority. Into an empty custody account, the custody balance
/// is then the amount, and it backs the new record.
pub proof fn opening_sets_the_allocation_aside(
    ctx: InitEscrowView,
    authority: Option<(Seq<u8>, u8)>,
    amount: nat,
    now: int,
)
    requires
        init_refusal(ctx, authority, amount) is None,
    ensures
        init_effect(ctx, amount, now).escrow matches EscrowStateView::Open(record) && {
            &&& record.wf()
            &&& record.amount_allocated == amount
            &&& record.amount_claimed == 0
            &&& record.last_claimed_at is None
            &&& record.created_at == now
            &&& record.sponsor == ctx.sponsor
            &&& record.merchant == ctx.merchant
            &&& ctx.escrow_token_account.amount == 0 ==> custody_backs(
                record,
                init_effect(ctx, amount, now).escrow_token_account,
            )
        },
        ctx.sponsor_token_account.amount >= amount,
        init_effect(ctx, amount, now).sponsor_token_account.amount == ctx.sponsor_token_account.amount - amount,
        init_effect(ctx, amount, now).escrow_token_account.amount == ctx.escrow_token_account.amount + amount,
        ctx.escrow_token_account.amount == 0 ==> init_effect(ctx, amount, now).escrow_token_account.amount == amount,
        authority_matches(authority, init_effect(ctx, amount, now).escrow_token_account.owner),
{
}

/// What was opened can be drawn. After an opening that went through, the
/// record's merchant, presenting the same derived authority and a destination
/// of the custody's asset with room for the allocation, is ready for claims:
/// nothing but the allocation stands in the way of any claim.
pub proof fn an_opened_escrow_is_ready_for_claims(
    ctx: InitEscrowView,
    authority: Option<(Seq<u8>, u8)>,
    amount: nat,
    now: int,
    destination: TokenAccountView,
)
    requires
        init_refusal(ctx, authority, amount) is None,
        destination.mint == ctx.escrow_token_account.mint,
        destination.amount + amount <= u64::MAX,
    ensures
        authority matches Some(derived) && ready_for_claims(
            ClaimFromEscrowView {
                escrow: init_effect(ctx, amount, now).escrow,
                merchant: ctx.merchant,
                merchant_token_account: destination,
                escrow_token_account: init_effect(ctx, amount, now).escrow_token_account,
                escrow_signer: derived.0,
            },
            authority,
        ),
{
}

/// What has to hold for the allocation to be the one thing that can stand in
/// the way of a claim: an escrow is open, the caller is its merchant, the
/// authority presented is the derived one and controls the custody account,
/// custody and destination hold the same asset, custody covers what the
/// record still owes, and the destination has room for it.
pub open spec fn ready_for_claims(ctx: ClaimFromEscrowView, authority: Option<(Seq<u8>, u8)>) -> bool {
    &&& ctx.escrow matches EscrowStateView::Open(record)
    &&& record.wf()
    &&& ctx.merchant == record.merchant
    &&& authority_matches(authority, ctx.escrow_signer)
    &&& ctx.escrow_token_account.owner == ctx.escrow_signer
    &&& ctx.escrow_token_account.mint == ctx.merchant_token_account.mint
    &&& ctx.escrow_token_account.amount >= record.remaining()
    &&& ctx.merchant_token_account.amount + record.remaining() <= u64::MAX
}

/// Readiness is no more than the allocation rule needs. Where an escrow is
/// open and its accounts are not ready, the claim of all that remains, which
/// keeps the claimed total within the allocation, is refused all the same, on
/// grounds other than an over-claim.
pub proof fn without_readiness_a_fitting_claim_is_refused(
    ctx: ClaimFromEscrowView,
    authority: Option<(Seq<u8>, u8)>,
)
    requires
        ctx.escrow matches EscrowStateView::Open(record) && record.wf(),
        !ready_for_claims(ctx, authority),
    ensures
        ctx.escrow matches EscrowStateView::Open(record) && {
            &&& record.amount_claimed + record.remaining() <= record.amount_allocated
            &&& claim_refusal(ctx, authority, record.remaining()) is Some
            &&& claim_refusal(ctx, authority, record.remaining()) != Some(ZeppayError::OverClaim)
        },
{
}

/// The accounts after a run of claims, each one asked for against what the
/// one before it left. A claim is an amount and the time it is asked for.
pub open spec fn after_claims(
    ctx: ClaimFromEscrowView,
    authority: Option<(Seq<u8>, u8)>,
    claims: Seq<(nat, int)>,
) -> ClaimFromEscrowView
    decreases claims.len(),
{
    if claims.len() == 0 {
        ctx
    } else {
        after_claim(after_claims(ctx, authority, claims.drop_last()), authority, claims.last().0, claims.last().1)
    }
}

/// The running sum of a run of claims, starting from what was claimed before
/// it: a claim counts where it keeps the sum within the allocation, and is
/// passed over where it does not.
pub open spec fn accepted_total(allocated: nat, claimed: nat, claims: Seq<(nat, int)>) -> nat
    decreases claims.len(),
{
    if claims.len() == 0 {
        claimed
    } else {
        let before = accepted_total(allocated, claimed, claims.drop_last());
        if before + claims.last().0 <= allocated {
            before + claims.last().0
        } else {
            before
        }
    }
}

/// A single claim against accounts that are ready for claims goes through if
/// and only if it keeps the claimed total within the allocation. Where it does
/// not, it is refused as an over-claim. Either way the accounts stay ready.
pub proof fn one_claim_is_bounded_by_the_allocation(
    ctx: ClaimFromEscrowView,
    authority: Option<(Seq<u8>, u8)>,
    amount: nat,
    now: int,
)
    requires
        ready_for_claims(ctx, authority),
    ensures
        ctx.escrow matches EscrowStateView::Open(record) && {
            let fits = record.amount_claimed + amount <= record.amount_allocated;
            &&& claim_refusal(ctx, authority, amount) == if fits {
                None
            } else {
                Some(ZeppayError::OverClaim)
            }
            &&& after_claim(ctx, authority, amount, now).escrow matches EscrowStateView::Open(next)
            &&& next.amount_allocated == record.amount_allocated
            &&& next.amount_claimed == if fits {
                record.amount_claimed + amount
            } else {
                record.amount_claimed
            }
        },
        ready_for_claims(after_claim(ctx, authority, amount, now), authority),
{
}

/// After any run of claims against accounts that were ready for claims, the
/// record counts as claimed exactly the running sum of the claims that fit.
/// That sum never passes the allocation, which never changes, and the
/// accounts are still ready.
pub proof fn claims_add_up_to_the_accepted_total(
    ctx: ClaimFromEscrowView,
    authority: Option<(Seq<u8>, u8)>,
    claims: Seq<(nat, int)>,
)
    requires
        ready_for_claims(ctx, authority),
    ensures
        ready_for_claims(after_claims(ctx, authority, claims), authority),
        ctx.escrow matches EscrowStateView::Open(record) && {
            &&& after_claims(ctx, authority, claims).escrow matches EscrowStateView::Open(last)
            &&& last.amount_allocated == record.amount_allocated
            &&& last.amount_claimed == accepted_total(record.amount_allocated, record.amount_claimed, claims)
            &&& last.amount_claimed <= record.amount_allocated
        },
    decreases claims.len(),
{
    if claims.len() > 0 {
        claims_add_up_to_the_accepted_total(ctx, authority, claims.drop_last());
        one_claim_is_bounded_by_the_allocation(
            after_claims(ctx, authority, claims.drop_last()),
            authority,
            claims.last().0,
            claims.last().1,
        );
    }
}

/// In any run of claims against one escrow whose accounts are ready for
/// claims, each claim goes through if and only if the running sum of the
/// claims accepted before it, with its own amount on top, stays within the
/// allocation. A claim that would pass the allocation is refused as an
/// over-claim and leaves the claimed total where it was.
pub proof fn each_claim_goes_through_iff_the_running_sum_fits(
    ctx: ClaimFromEscrowView,
    authority: Option<(Seq<u8>, u8)>,
    claims: Seq<(nat, int)>,
    k: int,
)
    requires
        ready_for_claims(ctx, authority),
        0 <= k < claims.len(),
    ensures
        ctx.escrow matches EscrowStateView::Open(record) && {
            let before = after_claims(ctx, authority, claims.take(k));
            let after = after_claims(ctx, authority, claims.take(k + 1));
            let running = accepted_total(record.amount_allocated, record.amount_claimed, claims.take(k));
            let fits = running + claims[k].0 <= record.amount_allocated;
            &&& running <= record.amount_allocated
            &&& claim_refusal(before, authority, claims[k].0) == if fits {
                None
            } else {
                Some(ZeppayError::OverClaim)
            }
            &&& after == after_claim(before, authority, claims[k].0, claims[k].1)
            &&& !fits ==> after == before
            &&& after.escrow matches EscrowStateView::Open(next)
            &&& next.amount_claimed == if fits {
                running + claims[k].0
            } else {
                running
            }
        },
{
    let upto = claims.take(k + 1);
    assert(upto.drop_last() =~= claims.take(k));
    assert(upto.last() == claims[k]);
    claims_add_up_to_the_accepted_total(ctx, authority, claims.take(k));
    one_claim_is_bounded_by_the_allocation(
        after_claims(ctx, authority, claims.take(k)),
        authority,
        claims[k].0,
        claims[k].1,
    );
}

/// A claim, accepted or refused, changes nothing of the record but the
/// claimed total and the time of the last claim, and the claimed total never
/// goes down.
pub proof fn claims_leave_the_terms_alone(
    ctx: ClaimFromEscrowView,
    authority: Option<(Seq<u8>, u8)>,
    amount: nat,
    now: int,
)
    requires
        ctx.escrow is Open,
    ensures
        ctx.escrow matches EscrowStateView::Open(record) && {
            &&& after_claim(ctx, authority, amount, now).escrow matches EscrowStateView::Open(next)
            &&& next.sponsor == record.sponsor
            &&& next.merchant == record.merchant
            &&& next.amount_allocated == record.amount_allocated
            &&& next.created_at == record.created_at
            &&& next.amount_claimed >= record.amount_claimed
        },
{
}

/// Whoever is not the record's merchant is turned away from a claim as
/// unauthorized, and nothing moves.
pub proof fn only_the_merchant_claims(
    ctx: ClaimFromEscrowView,
    authority: Option<(Seq<u8>, u8)>,
    amount: nat,
    now: int,
)
    requires
        ctx.escrow matches EscrowStateView::Open(record) && ctx.merchant != record.merchant,
    ensures
        claim_refusal(ctx, authority, amount) == Some(ZeppayError::Unauthorized),
        after_claim(ctx, authority, amount, now) == ctx,
{
}

/// Whoever is not the record's sponsor is turned away from a cancellation as
/// unauthorized, and nothing moves.
pub proof fn only_the_sponsor_cancels(
    ctx: CancelEscrowView,
    authority: Option<(Seq<u8>, u8)>,
    empty_refund: EmptyRefund,
)
    requires
        ctx.escrow matches EscrowStateView::Open(record) && ctx.sponsor != record.sponsor,
    ensures
        cancel_refusal(ctx, authority, empty_refund) == Some(ZeppayError::Unauthorized),
        after_cancel(ctx, authority, empty_refund) == ctx,
{
}

/// A claim, accepted or refused, leaves the custody account backing the record.
pub proof fn claims_keep_the_record_backed(
    ctx: ClaimFromEscrowView,
    authority: Option<(Seq<u8>, u8)>,
    amount: nat,
    now: int,
)
    requires
        ctx.escrow matches EscrowStateView::Open(record) && record.wf() && custody_backs(
            record,
            ctx.escrow_token_account,
        ),
    ensures
        after_claim(ctx, authority, amount, now).escrow matches EscrowStateView::Open(next) && next.wf()
            && custody_backs(next, after_claim(ctx, authority, amount, now).escrow_token_account),
{
}

/// A cancellation that goes through hands the sponsor exactly what was
/// allocated and not claimed, and closes the record. Where the custody account
/// backed the record, that is the whole custody balance of the moment before:
/// nothing stays behind in custody and nothing is made up.
pub proof fn cancelling_returns_the_remainder(
    ctx: CancelEscrowView,
    authority: Option<(Seq<u8>, u8)>,
    empty_refund: EmptyRefund,
)
    requires
        ctx.escrow matches EscrowStateView::Open(record) && record.wf(),
        cancel_refusal(ctx, authority, empty_refund) is None,
    ensures
        ctx.escrow matches EscrowStateView::Open(record) && {
            let after = cancel_effect(ctx);
            &&& after.escrow is Closed
            &&& after.sponsor_token_account.amount == ctx.sponsor_token_account.amount + (record.amount_allocated
                - record.amount_claimed)
            &&& after.escrow_token_account.amount == ctx.escrow_token_account.amount - (record.amount_allocated
                - record.amount_claimed)
            &&& after.sponsor_token_account.amount + after.escrow_token_account.amount
                == ctx.sponsor_token_account.amount + ctx.escrow_token_account.amount
            &&& custody_backs(record, ctx.escrow_token_account) ==> {
                &&& record.amount_allocated - record.amount_claimed == ctx.escrow_token_account.amount
                &&& after.escrow_token_account.amount == 0
            }
        },
{
}

} // verus!
