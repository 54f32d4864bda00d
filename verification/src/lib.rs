//! The accounting and trust core of a peer-to-peer bandwidth marketplace:
//! Seekers pay Wardens for measured usage out of reserved escrow, provider
//! eligibility is gated by an oracle-priced stake tier and a decaying
//! reputation score, and every settlement decision — validation, dual-custody
//! authorization, replay protection, micropayment arithmetic — is verified
//! here on plain values. The hosting runtime supplies time, storage, signature
//! verification and fund transfers, and acts only as this library decides.

use vstd::prelude::*;

pub mod admin;
pub mod bandwidth;
pub mod bytes;
pub mod digest;
pub mod errors;
pub mod laws;
pub mod payments;
pub mod reputation;
pub mod staking;
pub mod state;

verus! {

/// A 32-byte account address, as the ledger identifies every record and signer.
pub type Pubkey = [u8; 32];

/// The unset account address: thirty-two zero bytes.
pub const PUBKEY_DEFAULT: Pubkey = [
    0, 0, 0, 0, 0, 0, 0, 0, 0, 0, 0, 0, 0, 0, 0, 0, 0, 0, 0, 0, 0, 0, 0, 0, 0, 0, 0, 0, 0, 0, 0,
    0,
];

/// The address of the instructions sysvar account, whose data lists the
/// transaction's instructions ("Sysvar1nstructions1111111111111111111111111").
pub const INSTRUCTIONS_SYSVAR_ID: Pubkey = [
    6, 167, 213, 23, 24, 123, 209, 102, 53, 218, 212, 4, 85, 253, 194, 192, 193, 36, 198, 143, 33,
    86, 117, 165, 219, 186, 203, 95, 8, 0, 0, 0,
];

/// The address of the Ed25519 signature-verification program
/// ("Ed25519SigVerify111111111111111111111111111").
pub const ED25519_PROGRAM_ID: Pubkey = [
    3, 125, 70, 214, 124, 147, 251, 190, 18, 249, 66, 143, 131, 141, 64, 255, 5, 112, 116, 73, 39,
    244, 138, 100, 252, 202, 112, 68, 128, 0, 0, 0,
];

/// Returns true when two addresses are byte-for-byte equal.
pub fn pubkey_eq(a: &Pubkey, b: &Pubkey) -> (r: bool)
    ensures
        r == (a@ == b@),
{
    let mut i: usize = 0;
    while i < 32
        invariant
            0 <= i <= 32,
            forall|j: int| 0 <= j < i ==> a@[j] == b@[j],
        decreases 32 - i,
    {
        if a[i] != b[i] {
            assert(a@ != b@);
            return false;
        }
        i += 1;
    }
    assert(a@ =~= b@);
    true
}

} // verus!
