use zeppay::{transfer, Escrow, Identity, TokenAccount, ZeppayError};

fn id(tag: u8) -> Identity {
    Identity::new([tag; 32])
}

fn account(owner: u8, amount: u64) -> TokenAccount {
    TokenAccount { mint: id(3), owner: id(owner), amount }
}

#[test]
fn identities_compare_by_their_bytes() {
    let mut bytes = [7u8; 32];
    let first = Identity::new(bytes);
    assert!(first.same_as(&id(7)));
    assert_eq!(first.bytes, [7u8; 32]);
    bytes[31] = 8;
    assert!(!first.same_as(&Identity::new(bytes)));
    bytes[31] = 7;
    bytes[0] = 6;
    assert!(!first.same_as(&Identity::new(bytes)));
    assert!(!id(1).same_as(&id(2)));
}

#[test]
fn stored_record_takes_ninety_seven_bytes() {
    assert_eq!(Escrow::LEN, 97);
}

#[test]
fn new_record_has_nothing_claimed() {
    let record = Escrow::open(id(1), id(2), 1000, -5);
    assert_eq!(record.sponsor(), id(1));
    assert_eq!(record.merchant(), id(2));
    assert_eq!(record.amount_allocated(), 1000);
    assert_eq!(record.amount_claimed(), 0);
    assert_eq!(record.remaining(), 1000);
    assert_eq!(record.created_at(), -5);
    assert_eq!(record.last_claimed_at(), None);
}

#[test]
fn record_from_parts_keeps_the_invariant() {
    let record = Escrow::from_parts(id(1), id(2), 1000, 400, 10, Some(20)).unwrap();
    assert_eq!(record.amount_allocated(), 1000);
    assert_eq!(record.amount_claimed(), 400);
    assert_eq!(record.remaining(), 600);
    assert_eq!(record.created_at(), 10);
    assert_eq!(record.last_claimed_at(), Some(20));
    assert!(Escrow::from_parts(id(1), id(2), 1000, 1000, 10, None).is_some());
    assert_eq!(Escrow::from_parts(id(1), id(2), 1000, 1001, 10, None), None);
    assert_eq!(Escrow::from_parts(id(1), id(2), 0, 1, 10, None), None);
    assert!(Escrow::from_parts(id(1), id(2), 0, 0, 10, None).is_some());
}

#[test]
fn record_counts_a_claim_that_fits() {
    let record = Escrow::open(id(1), id(2), 1000, 1);
    let first = record.with_claim(400, 7).unwrap();
    assert_eq!(first.amount_claimed(), 400);
    assert_eq!(first.last_claimed_at(), Some(7));
    assert_eq!(first.amount_allocated(), 1000);
    assert_eq!(first.created_at(), 1);
    assert_eq!(first.with_claim(601, 8), None);
    assert_eq!(first.with_claim(u64::MAX, 8), None);
    let second = first.with_claim(600, 9).unwrap();
    assert_eq!(second.amount_claimed(), 1000);
    assert_eq!(second.remaining(), 0);
    assert_eq!(second.with_claim(1, 10), None);
    assert_eq!(second.with_claim(0, 10).unwrap().last_claimed_at(), Some(10));
}

#[test]
fn transfer_moves_the_amount_between_two_accounts() {
    let mut from = account(1, 100);
    let mut to = account(2, 5);
    assert_eq!(transfer(&mut from, &mut to, &id(1), 60), Ok(()));
    assert_eq!(from, account(1, 40));
    assert_eq!(to, account(2, 65));
    assert_eq!(transfer(&mut from, &mut to, &id(1), 0), Ok(()));
    assert_eq!(from.amount + to.amount, 105);
}

#[test]
fn transfer_is_refused_on_each_ground() {
    let mut from = account(1, 100);
    let mut to = account(2, u64::MAX - 50);
    assert_eq!(transfer(&mut from, &mut to, &id(2), 10), Err(ZeppayError::Unauthorized));
    assert_eq!(transfer(&mut from, &mut to, &id(1), 101), Err(ZeppayError::InsufficientFunds));
    assert_eq!(transfer(&mut from, &mut to, &id(1), 51), Err(ZeppayError::BalanceOverflow));
    to.mint = id(4);
    assert_eq!(transfer(&mut from, &mut to, &id(1), 10), Err(ZeppayError::MintMismatch));
    assert_eq!(from, account(1, 100));
    assert_eq!(to.amount, u64::MAX - 50);
}

#[test]
fn transfer_tries_its_grounds_in_order() {
    let mut from = account(1, 100);
    let mut to = account(2, u64::MAX);
    to.mint = id(4);
    assert_eq!(transfer(&mut from, &mut to, &id(9), 101), Err(ZeppayError::Unauthorized));
    assert_eq!(transfer(&mut from, &mut to, &id(1), 101), Err(ZeppayError::InsufficientFunds));
    assert_eq!(transfer(&mut from, &mut to, &id(1), 100), Err(ZeppayError::MintMismatch));
    to.mint = id(3);
    assert_eq!(transfer(&mut from, &mut to, &id(1), 100), Err(ZeppayError::BalanceOverflow));
    assert_eq!(transfer(&mut from, &mut to, &id(1), 0), Ok(()));
}

#[test]
fn each_refusal_has_its_message() {
    assert_eq!(ZeppayError::OverClaim.message(), "Merchant tried to claim more than allocated.");
    assert_eq!(ZeppayError::MintMismatch.message(), "Token account mint mismatch.");
    assert_eq!(ZeppayError::Unauthorized.message(), "Caller or authority is not the one required.");
    assert_eq!(ZeppayError::InsufficientFunds.message(), "Source account holds less than the amount.");
    assert_eq!(ZeppayError::EscrowExists.message(), "An escrow record already exists for this pair.");
    assert_eq!(ZeppayError::EscrowNotFound.message(), "No open escrow record for this pair.");
    assert_eq!(ZeppayError::BalanceOverflow.message(), "Destination balance would overflow.");
}
