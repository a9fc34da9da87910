use zeppay::{
    cancel_escrow, claim_from_escrow, derive_escrow_signer, init_escrow, CancelEscrow,
    ClaimFromEscrow, EmptyRefund, EscrowState, Identity, InitEscrow, TokenAccount, ZeppayError,
};

fn id(tag: u8) -> Identity {
    Identity::new([tag; 32])
}

#[test]
fn open_claim_over_claim_cancel_and_claim_again() {
    let program = id(9);
    let sponsor = id(1);
    let merchant = id(2);
    let mint = id(3);
    let signer = derive_escrow_signer(&program, &sponsor, &merchant).unwrap().address;

    let mut open = InitEscrow {
        sponsor,
        merchant,
        escrow: EscrowState::Uninitialized,
        sponsor_token_account: TokenAccount { mint, owner: sponsor, amount: 5000 },
        escrow_token_account: TokenAccount { mint, owner: signer, amount: 0 },
    };
    assert_eq!(init_escrow(&mut open, &program, 1000, 100), Ok(()));
    assert_eq!(open.sponsor_token_account.amount, 4000);
    assert_eq!(open.escrow_token_account.amount, 1000);

    let mut claim = ClaimFromEscrow {
        escrow: open.escrow,
        merchant,
        merchant_token_account: TokenAccount { mint, owner: merchant, amount: 0 },
        escrow_token_account: open.escrow_token_account,
        escrow_signer: signer,
    };
    let event = claim_from_escrow(&mut claim, &program, 400, 110).unwrap();
    assert_eq!(event.sponsor, sponsor);
    assert_eq!(event.merchant, merchant);
    assert_eq!(event.amount, 400);
    assert_eq!(event.timestamp, 110);
    match claim.escrow {
        EscrowState::Open(record) => assert_eq!(record.amount_claimed(), 400),
        _ => panic!("the escrow is open"),
    }
    assert_eq!(claim.merchant_token_account.amount, 400);

    let before = claim;
    assert_eq!(claim_from_escrow(&mut claim, &program, 700, 120), Err(ZeppayError::OverClaim));
    assert_eq!(claim, before);
    match claim.escrow {
        EscrowState::Open(record) => {
            assert_eq!(record.amount_claimed(), 400);
            assert_eq!(record.last_claimed_at(), Some(110));
        }
        _ => panic!("the escrow is open"),
    }

    let mut cancel = CancelEscrow {
        escrow: claim.escrow,
        sponsor,
        sponsor_token_account: open.sponsor_token_account,
        escrow_token_account: claim.escrow_token_account,
        escrow_signer: signer,
    };
    assert_eq!(cancel_escrow(&mut cancel, &program, EmptyRefund::Transfer), Ok(600));
    assert_eq!(cancel.sponsor_token_account.amount, 4600);
    assert_eq!(cancel.escrow_token_account.amount, 0);
    assert_eq!(cancel.escrow, EscrowState::Closed);

    claim.escrow = cancel.escrow;
    claim.escrow_token_account = cancel.escrow_token_account;
    let closed = claim;
    assert_eq!(claim_from_escrow(&mut claim, &program, 1, 130), Err(ZeppayError::EscrowNotFound));
    assert_eq!(claim, closed);
    assert_eq!(claim.merchant_token_account.amount, 400);
}

#[test]
fn mint_mismatch_rejects_the_claim_and_moves_nothing() {
    let program = id(9);
    let sponsor = id(1);
    let merchant = id(2);
    let asset_a = id(3);
    let asset_b = id(4);
    let signer = derive_escrow_signer(&program, &sponsor, &merchant).unwrap().address;

    let mut open = InitEscrow {
        sponsor,
        merchant,
        escrow: EscrowState::Uninitialized,
        sponsor_token_account: TokenAccount { mint: asset_a, owner: sponsor, amount: 1000 },
        escrow_token_account: TokenAccount { mint: asset_a, owner: signer, amount: 0 },
    };
    assert_eq!(init_escrow(&mut open, &program, 1000, 100), Ok(()));

    let mut claim = ClaimFromEscrow {
        escrow: open.escrow,
        merchant,
        merchant_token_account: TokenAccount { mint: asset_b, owner: merchant, amount: 12 },
        escrow_token_account: open.escrow_token_account,
        escrow_signer: signer,
    };
    let before = claim;
    assert_eq!(claim_from_escrow(&mut claim, &program, 250, 110), Err(ZeppayError::MintMismatch));
    assert_eq!(claim, before);
    assert_eq!(claim.escrow_token_account.amount, 1000);
    assert_eq!(claim.merchant_token_account.amount, 12);
    assert_eq!(claim_from_escrow(&mut claim, &program, 1000, 111), Err(ZeppayError::MintMismatch));
    assert_eq!(claim, before);
}
