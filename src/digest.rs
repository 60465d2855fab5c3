use vstd::prelude::*;

verus! {

/// The 32-byte digest of a claim identifier, as computed from the
/// identifier's UTF-8 bytes.
pub uninterp spec fn claim_id_digest(claim_id: Seq<char>) -> [u8; 32];

/// Relies on `anchor_lang::solana_program::hash::hash` (SHA-256 over the
/// given bytes) and `Hash::to_bytes`: the digest depends on the identifier's
/// characters alone.
#[verifier::external_body]
pub(crate) fn hash_claim_id(claim_id: &String) -> (r: [u8; 32])
    ensures
        r == claim_id_digest(claim_id@),
{
    anchor_lang::solana_program::hash::hash(claim_id.as_bytes()).to_bytes()
}

} // verus!
