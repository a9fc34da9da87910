use anchor_lang::prelude::Pubkey;
use zeppay::authority::ESCROW_SIGNER_TAG;
use zeppay::{derive_escrow_signer, Identity};

fn id(tag: u8) -> Identity {
    Identity::new([tag; 32])
}

#[test]
fn tag_is_the_ascii_of_escrow_signer() {
    assert_eq!(&ESCROW_SIGNER_TAG[..], &b"escrow_signer"[..]);
}

#[test]
fn derivation_gives_the_known_address_and_bump() {
    let found = derive_escrow_signer(&id(9), &id(1), &id(2)).unwrap();
    assert_eq!(
        found.address.bytes,
        [
            10, 117, 27, 205, 171, 205, 124, 155, 27, 67, 92, 42, 230, 84, 163, 208, 116, 165, 195,
            17, 152, 33, 11, 139, 114, 94, 248, 21, 119, 96, 101, 4
        ]
    );
    assert_eq!(found.bump, 251);
}

#[test]
fn derivation_depends_on_the_order_of_the_parties() {
    let found = derive_escrow_signer(&id(9), &id(2), &id(1)).unwrap();
    assert_eq!(
        found.address.bytes,
        [
            41, 131, 222, 232, 239, 138, 20, 251, 223, 104, 180, 229, 13, 50, 156, 99, 46, 201, 50,
            127, 0, 88, 222, 120, 42, 158, 166, 193, 164, 205, 178, 235
        ]
    );
    assert_eq!(found.bump, 255);
    assert_ne!(found, derive_escrow_signer(&id(9), &id(1), &id(2)).unwrap());
}

#[test]
fn derivation_depends_on_the_program() {
    let found = derive_escrow_signer(&id(7), &id(1), &id(2)).unwrap();
    assert_eq!(
        found.address.bytes,
        [
            183, 180, 87, 166, 45, 18, 211, 148, 131, 244, 97, 252, 30, 194, 221, 128, 24, 104,
            228, 173, 66, 143, 140, 92, 80, 157, 55, 241, 150, 187, 48, 17
        ]
    );
    assert_eq!(found.bump, 254);
}

#[test]
fn derivation_is_reproducible() {
    let first = derive_escrow_signer(&id(9), &id(1), &id(2));
    let second = derive_escrow_signer(&id(9), &id(1), &id(2));
    assert!(first.is_some());
    assert_eq!(first, second);
}

#[test]
fn derivation_is_none_of_its_inputs() {
    let found = derive_escrow_signer(&id(9), &id(1), &id(2)).unwrap();
    assert_ne!(found.address, id(9));
    assert_ne!(found.address, id(1));
    assert_ne!(found.address, id(2));
}

#[test]
fn derivation_agrees_with_the_address_scheme() {
    let program = Pubkey::new_from_array([9; 32]);
    let (address, bump) =
        Pubkey::find_program_address(&[b"escrow_signer", &[1u8; 32], &[2u8; 32]], &program);
    let found = derive_escrow_signer(&id(9), &id(1), &id(2)).unwrap();
    assert_eq!(found.address.bytes, address.to_bytes());
    assert_eq!(found.bump, bump);
    let again = Pubkey::create_program_address(
        &[b"escrow_signer", &[1u8; 32], &[2u8; 32], &[found.bump]],
        &program,
    )
    .unwrap();
    assert_eq!(again.to_bytes(), found.address.bytes);
}

#[test]
fn derived_address_has_no_key_pair() {
    let found = derive_escrow_signer(&id(0), &id(0), &id(0)).unwrap();
    assert_eq!(found.bump, 253);
    assert!(!Pubkey::new_from_array(found.address.bytes).is_on_curve());
}
