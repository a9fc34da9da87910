//! The escrow record, the states of the place where it is stored, and the
//! event that reports a claim.

use crate::identity::Identity;
use vstd::prelude::*;

verus! {

/// The record of one escrow: what the sponsor set aside for the merchant, and
/// how much of it the merchant has drawn. The merchant never draws more than
/// was set aside: no record holds `amount_claimed > amount_allocated`.
#[derive(Clone, Copy, Debug, PartialEq, Eq)]
pub struct Escrow {
    sponsor: Identity,
    merchant: Identity,
    amount_allocated: u64,
    amount_claimed: u64,
    created_at: i64,
    last_claimed_at: Option<i64>,
}

/// The mathematical view of an escrow record.
pub struct EscrowView {
    /// The funder.
    pub sponsor: Seq<u8>,
    /// The claimant.
    pub merchant: Seq<u8>,
    /// What was placed in custody when the escrow was opened.
    pub amount_allocated: nat,
    /// What the merchant has withdrawn so far.
    pub amount_claimed: nat,
    /// When the escrow was opened.
    pub created_at: int,
    /// When the merchant last withdrew, if ever.
    pub last_claimed_at: Option<int>,
}

impl EscrowView {
    /// The record's invariant: the merchant has drawn no more than was allocated.
    pub open spec fn wf(self) -> bool {
        self.amount_claimed <= self.amount_allocated
    }

    /// What the merchant may still draw, and what the sponsor gets back on cancelling.
    pub open spec fn remaining(self) -> nat {
        (self.amount_allocated - self.amount_claimed) as nat
    }

    /// The record of an escrow that was just opened.
    pub open spec fn opened(sponsor: Seq<u8>, merchant: Seq<u8>, amount: nat, now: int) -> EscrowView {
        EscrowView {
            sponsor,
            merchant,
            amount_allocated: amount,
            amount_claimed: 0,
            created_at: now,
            last_claimed_at: None,
        }
    }

    /// The record after the merchant drew `amount` at `now`.
    pub open spec fn claimed(self, amount: nat, now: int) -> EscrowView {
        EscrowView {
            amount_claimed: self.amount_claimed + amount,
            last_claimed_at: Some(now),
            ..self
        }
    }
}

/// The mathematical view of the moment of the last claim.
pub open spec fn moment_view(moment: Option<i64>) -> Option<int> {
    match moment {
        Some(at) => Some(at as int),
        None => None,
    }
}

impl View for Escrow {
    type V = EscrowView;

    closed spec fn view(&self) -> EscrowView {
        EscrowView {
            sponsor: self.sponsor@,
            merchant: self.merchant@,
            amount_allocated: self.amount_allocated as nat,
            amount_claimed: self.amount_claimed as nat,
            created_at: self.created_at as int,
            last_claimed_at: moment_view(self.last_claimed_at),
        }
    }
}

impl Escrow {
    /// The size of a stored record in bytes: two identities, two amounts, the
    /// time of opening, and the optional time of the last claim.
    pub const LEN: usize = 32 + 32 + 8 + 8 + 8 + 9;

    /// Every record that exists meets the invariant.
    #[verifier::type_invariant]
    pub open spec fn holds(self) -> bool {
        self@.wf()
    }

    /// The record of a new escrow: nothing claimed yet, no claim ever made.
    pub fn open(sponsor: Identity, merchant: Identity, amount: u64, now: i64) -> (escrow: Escrow)
        ensures
            escrow@ == EscrowView::opened(sponsor@, merchant@, amount as nat, now as int),
            escrow@.wf(),
    {
        Escrow {
            sponsor,
            merchant,
            amount_allocated: amount,
            amount_claimed: 0,
            created_at: now,
            last_claimed_at: None,
        }
    }

    /// A record with the given fields, or `None` where they break the
    /// invariant: where more would be claimed than was allocated.
    pub fn from_parts(
        sponsor: Identity,
        merchant: Identity,
        amount_allocated: u64,
        amount_claimed: u64,
        created_at: i64,
        last_claimed_at: Option<i64>,
    ) -> (escrow: Option<Escrow>)
        ensures
            escrow is Some <==> amount_claimed <= amount_allocated,
            escrow matches Some(record) ==> record@ == (EscrowView {
                sponsor: sponsor@,
                merchant: merchant@,
                amount_allocated: amount_allocated as nat,
                amount_claimed: amount_claimed as nat,
                created_at: created_at as int,
                last_claimed_at: moment_view(last_claimed_at),
            }),
    {
        if amount_claimed <= amount_allocated {
            Some(Escrow { sponsor, merchant, amount_allocated, amount_claimed, created_at, last_claimed_at })
        } else {
            None
        }
    }

    /// The record after the merchant drew `amount` at `now`, or `None` where
    /// that would take the merchant past the allocation.
    pub fn with_claim(self, amount: u64, now: i64) -> (escrow: Option<Escrow>)
        ensures
            self@.wf(),
            escrow is Some <==> self@.amount_claimed + amount <= self@.amount_allocated,
            escrow matches Some(record) ==> record@ == self@.claimed(amount as nat, now as int) && record@.wf(),
    {
        proof {
            use_type_invariant(&self);
        }
        if amount <= self.amount_allocated - self.amount_claimed {
            Some(Escrow {
                amount_claimed: self.amount_claimed + amount,
                last_claimed_at: Some(now),
                ..self
            })
        } else {
            None
        }
    }

    /// What the merchant may still draw. It is what the sponsor gets back on cancelling.
    pub fn remaining(&self) -> (left: u64)
        ensures
            self@.wf(),
            left == self@.remaining(),
    {
        proof {
            use_type_invariant(self);
        }
        self.amount_allocated - self.amount_claimed
    }

    /// The funder.
    pub fn sponsor(&self) -> (sponsor: Identity)
        ensures
            sponsor@ == self@.sponsor,
    {
        self.sponsor
    }

    /// The claimant.
    pub fn merchant(&self) -> (merchant: Identity)
        ensures
            merchant@ == self@.merchant,
    {
        self.merchant
    }

    /// What was placed in custody when the escrow was opened.
    pub fn amount_allocated(&self) -> (amount: u64)
        ensures
            amount == self@.amount_allocated,
    {
        self.amount_allocated
    }

    /// What the merchant has withdrawn so far.
    pub fn amount_claimed(&self) -> (amount: u64)
        ensures
            amount == self@.amount_claimed,
            self@.wf(),
    {
        proof {
            use_type_invariant(self);
        }
        self.amount_claimed
    }

    /// When the escrow was opened.
    pub fn created_at(&self) -> (at: i64)
        ensures
            at == self@.created_at,
    {
        self.created_at
    }

    /// When the merchant last withdrew, if ever.
    pub fn last_claimed_at(&self) -> (at: Option<i64>)
        ensures
            moment_view(at) == self@.last_claimed_at,
    {
        self.last_claimed_at
    }
}

/// What stands at the custody address of one (sponsor, merchant) pair. A pair
/// has one escrow, once: a closed record is never opened again.
#[derive(Clone, Copy, Debug, PartialEq, Eq)]
pub enum EscrowState {
    /// No escrow was ever opened here.
    Uninitialized,
    /// An escrow is open.
    Open(Escrow),
    /// The escrow that was open here was cancelled.
    Closed,
}

/// The mathematical view of the state of a custody address.
pub enum EscrowStateView {
    Uninitialized,
    Open(EscrowView),
    Closed,
}

impl View for EscrowState {
    type V = EscrowStateView;

    open spec fn view(&self) -> EscrowStateView {
        match *self {
            EscrowState::Uninitialized => EscrowStateView::Uninitialized,
            EscrowState::Open(escrow) => EscrowStateView::Open(escrow@),
            EscrowState::Closed => EscrowStateView::Closed,
        }
    }
}

/// Reports one successful claim to whoever reconciles the custody account.
#[derive(Clone, Copy, Debug, PartialEq, Eq)]
pub struct EscrowClaimed {
    pub sponsor: Identity,
    pub merchant: Identity,
    pub amount: u64,
    pub timestamp: i64,
}

/// The mathematical view of a claim event.
pub struct EscrowClaimedView {
    pub sponsor: Seq<u8>,
    pub merchant: Seq<u8>,
    pub amount: nat,
    pub timestamp: int,
}

impl View for EscrowClaimed {
    type V = EscrowClaimedView;

    open spec fn view(&self) -> EscrowClaimedView {
        EscrowClaimedView {
            sponsor: self.sponsor@,
            merchant: self.merchant@,
            amount: self.amount as nat,
            timestamp: self.timestamp as int,
        }
    }
}

} // verus!
