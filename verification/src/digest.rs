use vstd::prelude::*;

verus! {

/// The Keccak-256 digest of a byte string. The digest is a function of the
/// input bytes alone; its 32 bytes are not described further here.
pub uninterp spec fn keccak_of(data: Seq<u8>) -> Seq<u8>;

/// Relies on anchor_lang::solana_program::keccak::hash: it returns the
/// Keccak-256 digest of the input, a 32-byte value computed from the input
/// bytes alone.
#[verifier::external_body]
pub(crate) fn keccak256(data: &Vec<u8>) -> (r: Vec<u8>)
    ensures
        r@ == keccak_of(data@),
        r@.len() == 32,
{
    anchor_lang::solana_program::keccak::hash(data.as_slice()).to_bytes().to_vec()
}

} // verus!
