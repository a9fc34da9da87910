//! The derived authority: a signing identity that nobody holds a key for,
//! computed from the two parties of an escrow.

use crate::identity::Identity;
use anchor_lang::prelude::Pubkey;
use vstd::prelude::*;

verus! {

/// The domain tag of the escrow signer: the ASCII bytes of `escrow_signer`.
pub const ESCROW_SIGNER_TAG: [u8; 13] = [101, 115, 99, 114, 111, 119, 95, 115, 105, 103, 110, 101, 114];

/// What `Pubkey::try_find_program_address` of `anchor_lang` gives for a list
/// of seeds under a program: the program address that the seeds derive, with
/// the bump that was found for it, or `None` where the seeds derive none.
pub uninterp spec fn program_address(seeds: Seq<Seq<u8>>, program_id: Seq<u8>) -> Option<(Seq<u8>, u8)>;

/// A derived authority: its address, and the bump that completes its seeds.
#[derive(Clone, Copy, Debug, PartialEq, Eq)]
pub struct DerivedAuthority {
    pub address: Identity,
    pub bump: u8,
}

impl View for DerivedAuthority {
    type V = (Seq<u8>, u8);

    open spec fn view(&self) -> (Seq<u8>, u8) {
        (self.address@, self.bump)
    }
}

/// The view of a derivation's outcome.
pub open spec fn outcome_view(found: Option<DerivedAuthority>) -> Option<(Seq<u8>, u8)> {
    match found {
        Some(authority) => Some(authority@),
        None => None,
    }
}

/// The seeds of the escrow signer of one (sponsor, merchant) pair, before the bump.
pub open spec fn escrow_signer_seeds(sponsor: Seq<u8>, merchant: Seq<u8>) -> Seq<Seq<u8>> {
    seq![ESCROW_SIGNER_TAG@, sponsor, merchant]
}

/// The authority over the custody account of one (sponsor, merchant) pair under a program.
pub open spec fn escrow_signer(program_id: Seq<u8>, sponsor: Seq<u8>, merchant: Seq<u8>) -> Option<(Seq<u8>, u8)> {
    program_address(escrow_signer_seeds(sponsor, merchant), program_id)
}

/// Calls `Pubkey::try_find_program_address` of `anchor_lang` on three seeds:
/// a tag and two identities. Not proved, but taken from that function: what
/// comes back is the program address of exactly these seeds under
/// `program_id`, with its bump, or `None` where the search found none; it
/// depends on the bytes handed in and on nothing else.
#[verifier::external_body]
fn find_program_address(tag: &[u8], first: &Identity, second: &Identity, program_id: &Identity) -> (found: Option<DerivedAuthority>)
    ensures
        outcome_view(found) == program_address(seq![tag@, first@, second@], program_id@),
{
    let program = Pubkey::new_from_array(program_id.bytes);
    match Pubkey::try_find_program_address(&[tag, &first.bytes[..], &second.bytes[..]], &program) {
        Some((address, bump)) => Some(DerivedAuthority { address: Identity { bytes: address.to_bytes() }, bump }),
        None => None,
    }
}

/// Derives the authority over the custody account of one (sponsor, merchant)
/// pair. The same pair under the same program always gives the same outcome.
pub fn derive_escrow_signer(program_id: &Identity, sponsor: &Identity, merchant: &Identity) -> (found: Option<DerivedAuthority>)
    ensures
        outcome_view(found) == escrow_signer(program_id@, sponsor@, merchant@),
{
    find_program_address(ESCROW_SIGNER_TAG.as_slice(), sponsor, merchant, program_id)
}

} // verus!
