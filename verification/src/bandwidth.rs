use vstd::prelude::*;
use vstd::slice::slice_subrange;
use crate::bytes::{all_zero, bytes_all_zero, bytes_eq, i64_le_bytes, push_bytes, push_i64_le,
    push_u64_le, u64_le_bytes};
use crate::digest::{keccak256, keccak_of};
use crate::errors::BandwidthError;
use crate::{pubkey_eq, Pubkey, ED25519_PROGRAM_ID, INSTRUCTIONS_SYSVAR_ID};

verus! {

/// One instruction of the transaction, as the instructions sysvar reports it.
#[derive(Clone, Debug, PartialEq, Eq)]
pub struct LoadedInstruction {
    pub program_id: Pubkey,
    pub data: Vec<u8>,
}

/// The instructions sysvar account: its address and the transaction's
/// instruction list, in transaction order.
#[derive(Clone, Debug, PartialEq, Eq)]
pub struct InstructionsSysvar {
    pub key: Pubkey,
    pub instructions: Vec<LoadedInstruction>,
}

/// What checking one Ed25519-program instruction yields: the account must be
/// the instructions sysvar, the indexed instruction must exist and belong to
/// the Ed25519 program, and its data must embed exactly the expected
/// signature (at byte 14), public key, and message.
pub open spec fn spec_verify_ed25519_at(
    sysvar: InstructionsSysvar,
    index: int,
    message: Seq<u8>,
    signature: Seq<u8>,
    public_key: Seq<u8>,
) -> Result<(), BandwidthError> {
    if sysvar.key@ != INSTRUCTIONS_SYSVAR_ID@ {
        Err(BandwidthError::InvalidInstructionsSysvar)
    } else if !(0 <= index && index < sysvar.instructions@.len()) {
        Err(BandwidthError::Ed25519InstructionNotFound)
    } else if sysvar.instructions@[index].program_id@ != ED25519_PROGRAM_ID@ {
        Err(BandwidthError::InvalidEd25519Instruction)
    } else {
        let data = sysvar.instructions@[index].data@;
        if data.len() < 108 + message.len() {
            Err(BandwidthError::InvalidEd25519Data)
        } else if data.len() < 110 + message.len() {
            Err(BandwidthError::InvalidEd25519Data)
        } else if data.subrange(14, 78) != signature {
            Err(BandwidthError::SignatureMismatch)
        } else if data.subrange(78, 110) != public_key {
            Err(BandwidthError::PublicKeyMismatch)
        } else if data.subrange(110, 110 + message.len() as int) != message {
            Err(BandwidthError::MessageMismatch)
        } else {
            Ok(())
        }
    }
}

/// Confirms that the transaction carries an Ed25519-program instruction at
/// `instruction_index` whose data embeds exactly this message, signature and
/// public key; the Ed25519 program itself already verified the signature
/// cryptographically before this program ran.
pub fn verify_ed25519_signature_via_sysvar(
    instructions_sysvar: &InstructionsSysvar,
    message: &[u8],
    signature: &[u8; 64],
    public_key: &Pubkey,
    instruction_index: u16,
) -> (r: Result<(), BandwidthError>)
    requires
        message@.len() + 110 <= usize::MAX,
    ensures
        r == spec_verify_ed25519_at(
            *instructions_sysvar,
            instruction_index as int,
            message@,
            signature@,
            public_key@,
        ),
{
    if !pubkey_eq(&instructions_sysvar.key, &INSTRUCTIONS_SYSVAR_ID) {
        return Err(BandwidthError::InvalidInstructionsSysvar);
    }
    let index = instruction_index as usize;
    if index >= instructions_sysvar.instructions.len() {
        return Err(BandwidthError::Ed25519InstructionNotFound);
    }
    let ed25519_ix = &instructions_sysvar.instructions[index];
    if !pubkey_eq(&ed25519_ix.program_id, &ED25519_PROGRAM_ID) {
        return Err(BandwidthError::InvalidEd25519Instruction);
    }
    let data = ed25519_ix.data.as_slice();
    if data.len() < 108 + message.len() {
        return Err(BandwidthError::InvalidEd25519Data);
    }
    if data.len() < 110 + message.len() {
        return Err(BandwidthError::InvalidEd25519Data);
    }
    let ix_signature = slice_subrange(data, 14, 78);
    let ix_pubkey = slice_subrange(data, 78, 110);
    let ix_message = slice_subrange(data, 110, 110 + message.len());
    if !bytes_eq(ix_signature, signature.as_slice()) {
        return Err(BandwidthError::SignatureMismatch);
    }
    if !bytes_eq(ix_pubkey, public_key.as_slice()) {
        return Err(BandwidthError::PublicKeyMismatch);
    }
    if !bytes_eq(ix_message, message) {
        return Err(BandwidthError::MessageMismatch);
    }
    Ok(())
}

/// Dual-custody authorization: the Seeker's signature is checked against the
/// transaction's first instruction, the Warden's against its second, both over
/// the same message; the first failure wins.
pub open spec fn spec_verify_dual(
    sysvar: InstructionsSysvar,
    message: Seq<u8>,
    seeker_signature: Seq<u8>,
    seeker_pubkey: Seq<u8>,
    warden_signature: Seq<u8>,
    warden_pubkey: Seq<u8>,
) -> Result<(), BandwidthError> {
    match spec_verify_ed25519_at(sysvar, 0, message, seeker_signature, seeker_pubkey) {
        Err(e) => Err(e),
        Ok(()) => spec_verify_ed25519_at(sysvar, 1, message, warden_signature, warden_pubkey),
    }
}

/// Verifies the Seeker's and the Warden's signatures over the same message:
/// the Seeker's Ed25519 instruction is expected at transaction index 0, the
/// Warden's at index 1.
pub fn verify_dual_signatures(
    instructions_sysvar: &InstructionsSysvar,
    message: &[u8],
    seeker_signature: &[u8; 64],
    seeker_pubkey: &Pubkey,
    warden_signature: &[u8; 64],
    warden_pubkey: &Pubkey,
) -> (r: Result<(), BandwidthError>)
    requires
        message@.len() + 110 <= usize::MAX,
    ensures
        r == spec_verify_dual(
            *instructions_sysvar,
            message@,
            seeker_signature@,
            seeker_pubkey@,
            warden_signature@,
            warden_pubkey@,
        ),
{
    match verify_ed25519_signature_via_sysvar(
        instructions_sysvar,
        message,
        seeker_signature,
        seeker_pubkey,
        0,
    ) {
        Err(e) => Err(e),
        Ok(()) => verify_ed25519_signature_via_sysvar(
            instructions_sysvar,
            message,
            warden_signature,
            warden_pubkey,
            1,
        ),
    }
}

/// The bytes both parties sign for one bandwidth proof, before hashing:
/// connection address, then megabytes and timestamp in little-endian.
pub open spec fn proof_message_bytes(connection: Seq<u8>, mb_consumed: u64, timestamp: i64) -> Seq<
    u8,
> {
    connection + u64_le_bytes(mb_consumed) + i64_le_bytes(timestamp)
}

/// Builds the deterministic 32-byte message both parties must sign for one
/// bandwidth proof: the Keccak-256 digest of the connection address, the
/// megabytes consumed, and the proof timestamp.
pub fn create_proof_message(connection_pubkey: &Pubkey, mb_consumed: u64, timestamp: i64) -> (r:
    Vec<u8>)
    ensures
        r@ == keccak_of(proof_message_bytes(connection_pubkey@, mb_consumed, timestamp)),
        r@.len() == 32,
{
    let mut message: Vec<u8> = Vec::new();
    push_bytes(&mut message, connection_pubkey.as_slice());
    push_u64_le(&mut message, mb_consumed);
    push_i64_le(&mut message, timestamp);
    assert(message@ =~= proof_message_bytes(connection_pubkey@, mb_consumed, timestamp));
    keccak256(&message)
}

/// Range and freshness policy for a submitted proof: megabytes in (0, 10000],
/// proof age within [0, 3600] seconds of ledger time, neither signature all
/// zero; the first failure names the rejection.
pub open spec fn spec_validate_bandwidth_proof(
    mb_consumed: u64,
    timestamp: i64,
    current_timestamp: i64,
    seeker_signature: Seq<u8>,
    warden_signature: Seq<u8>,
) -> Result<(), BandwidthError> {
    if mb_consumed == 0 {
        Err(BandwidthError::ZeroBandwidth)
    } else if mb_consumed > 10000 {
        Err(BandwidthError::ExcessiveBandwidth)
    } else if current_timestamp - timestamp < i64::MIN || current_timestamp - timestamp
        > i64::MAX {
        Err(BandwidthError::InvalidTimestamp)
    } else if current_timestamp - timestamp < 0 || current_timestamp - timestamp > 3600 {
        Err(BandwidthError::ProofTooOld)
    } else if all_zero(seeker_signature) {
        Err(BandwidthError::InvalidSignature)
    } else if all_zero(warden_signature) {
        Err(BandwidthError::InvalidSignature)
    } else {
        Ok(())
    }
}

/// Validates a bandwidth proof against the range, freshness and
/// signature-presence policy.
pub fn validate_bandwidth_proof(
    mb_consumed: u64,
    timestamp: i64,
    current_timestamp: i64,
    seeker_signature: &[u8; 64],
    warden_signature: &[u8; 64],
) -> (r: Result<(), BandwidthError>)
    ensures
        r == spec_validate_bandwidth_proof(
            mb_consumed,
            timestamp,
            current_timestamp,
            seeker_signature@,
            warden_signature@,
        ),
{
    if mb_consumed == 0 {
        return Err(BandwidthError::ZeroBandwidth);
    }
    if mb_consumed > 10000 {
        return Err(BandwidthError::ExcessiveBandwidth);
    }
    let age = match current_timestamp.checked_sub(timestamp) {
        Some(a) => a,
        None => {
            return Err(BandwidthError::InvalidTimestamp);
        },
    };
    if age < 0 || age > 3600 {
        return Err(BandwidthError::ProofTooOld);
    }
    if bytes_all_zero(seeker_signature.as_slice()) {
        return Err(BandwidthError::InvalidSignature);
    }
    if bytes_all_zero(warden_signature.as_slice()) {
        return Err(BandwidthError::InvalidSignature);
    }
    Ok(())
}

/// The sum of a sequence of megabyte counts.
pub open spec fn sum_seq(s: Seq<u64>) -> int
    decreases s.len(),
{
    if s.len() == 0 {
        0
    } else {
        sum_seq(s.drop_last()) + s.last()
    }
}

pub proof fn lemma_sum_seq_nonneg(s: Seq<u64>)
    ensures
        sum_seq(s) >= 0,
    decreases s.len(),
{
    if s.len() > 0 {
        lemma_sum_seq_nonneg(s.drop_last());
    }
}

pub proof fn lemma_sum_seq_step(s: Seq<u64>, i: int)
    requires
        0 <= i < s.len(),
    ensures
        sum_seq(s.subrange(0, i + 1)) == sum_seq(s.subrange(0, i)) + s[i],
{
    assert(s.subrange(0, i + 1).drop_last() =~= s.subrange(0, i));
}

pub proof fn lemma_sum_seq_prefix_le(s: Seq<u64>, i: int)
    requires
        0 <= i <= s.len(),
    ensures
        sum_seq(s.subrange(0, i)) <= sum_seq(s),
    decreases s.len() - i,
{
    if i == s.len() {
        assert(s.subrange(0, i) =~= s);
    } else {
        lemma_sum_seq_step(s, i);
        lemma_sum_seq_prefix_le(s, i + 1);
    }
}

/// The last `window_size` entries of the history (all of it when shorter).
pub open spec fn bandwidth_window(history: Seq<u64>, window_size: int) -> Seq<u64> {
    if window_size < history.len() {
        history.subrange(history.len() - window_size, history.len() as int)
    } else {
        history
    }
}

/// The expected bandwidth: the mean (floor) of the most recent window of the
/// history, or zero for an empty history.
pub open spec fn expected_bandwidth(history: Seq<u64>, window_size: int) -> int {
    if history.len() == 0 {
        0
    } else {
        let w = bandwidth_window(history, window_size);
        sum_seq(w) / w.len() as int
    }
}

/// Computes the mean of the most recent `window_size` historical megabyte
/// counts, flooring; an empty history yields zero.
pub fn calculate_expected_bandwidth(historical_proofs: &[u64], window_size: usize) -> (r: u64)
    requires
        historical_proofs@.len() > 0 ==> window_size > 0,
        sum_seq(bandwidth_window(historical_proofs@, window_size as int)) <= u64::MAX,
    ensures
        r == expected_bandwidth(historical_proofs@, window_size as int),
{
    if historical_proofs.len() == 0 {
        return 0;
    }
    let w: usize = if window_size < historical_proofs.len() {
        window_size
    } else {
        historical_proofs.len()
    };
    let start: usize = historical_proofs.len() - w;
    let ghost window = bandwidth_window(historical_proofs@, window_size as int);
    assert(window =~= historical_proofs@.subrange(start as int, historical_proofs@.len() as int));
    let mut sum: u64 = 0;
    let mut i: usize = start;
    while i < historical_proofs.len()
        invariant
            start <= i <= historical_proofs@.len(),
            start + window.len() == historical_proofs@.len(),
            window == historical_proofs@.subrange(start as int, historical_proofs@.len() as int),
            sum == sum_seq(window.subrange(0, i - start)),
            sum_seq(window) <= u64::MAX,
        decreases historical_proofs@.len() - i,
    {
        proof {
            lemma_sum_seq_step(window, i - start);
            lemma_sum_seq_prefix_le(window, i - start + 1);
            lemma_sum_seq_nonneg(window.subrange(0, i - start));
            assert(window[i - start] == historical_proofs@[i as int]);
        }
        sum = sum + historical_proofs[i];
        i += 1;
    }
    proof {
        assert(window.subrange(0, window.len() as int) =~= window);
    }
    sum / (w as u64)
}

/// Whether a claim is anomalous: a non-zero expectation exceeded more than
/// `threshold_multiplier`-fold.
pub open spec fn spec_bandwidth_anomaly(
    claimed_mb: u64,
    expected_mb: u64,
    threshold_multiplier: u64,
) -> bool {
    expected_mb != 0 && claimed_mb > expected_mb * threshold_multiplier
}

/// Flags a claimed megabyte count that exceeds `threshold_multiplier` times
/// the expected count; a zero expectation never flags. Advisory only: the
/// caller records the signal without blocking settlement.
pub fn detect_bandwidth_anomaly(claimed_mb: u64, expected_mb: u64, threshold_multiplier: u64) -> (r:
    bool)
    ensures
        r == spec_bandwidth_anomaly(claimed_mb, expected_mb, threshold_multiplier),
{
    if expected_mb == 0 {
        return false;
    }
    match expected_mb.checked_mul(threshold_multiplier) {
        Some(threshold) => claimed_mb > threshold,
        None => false,
    }
}

/// The bytes hashed to identify one bandwidth proof for replay detection:
/// connection address, megabytes, timestamp, then both signatures.
pub open spec fn proof_hash_input(
    connection: Seq<u8>,
    mb_consumed: u64,
    timestamp: i64,
    seeker_sig: Seq<u8>,
    warden_sig: Seq<u8>,
) -> Seq<u8> {
    connection + u64_le_bytes(mb_consumed) + i64_le_bytes(timestamp) + seeker_sig + warden_sig
}

/// The megabyte counts of a proof history, in order.
pub open spec fn history_mb(history: Seq<crate::state::BandwidthProof>) -> Seq<u64> {
    history.map_values(|p: crate::state::BandwidthProof| p.mb_consumed)
}

/// The replay-detection hash of one recorded proof on a connection.
pub open spec fn spec_proof_hash(connection: Seq<u8>, p: crate::state::BandwidthProof) -> Seq<u8> {
    keccak_of(
        proof_hash_input(connection, p.mb_consumed, p.timestamp, p.seeker_signature@,
            p.warden_signature@),
    )
}

/// Whether a submitted proof replays one already in the history: some recorded
/// proof hashes to the same value.
pub open spec fn is_duplicate_proof(
    connection: Seq<u8>,
    history: Seq<crate::state::BandwidthProof>,
    proof: crate::state::BandwidthProof,
) -> bool {
    exists|i: int|
        0 <= i < history.len() && spec_proof_hash(connection, history[i]) == spec_proof_hash(
            connection,
            proof,
        )
}

/// Bounds the sum of a history whose entries each passed the range check.
pub proof fn lemma_sum_seq_le_10000(s: Seq<u64>)
    requires
        forall|i: int| 0 <= i < s.len() ==> s[i] <= 10000,
    ensures
        sum_seq(s) <= 10000 * s.len(),
    decreases s.len(),
{
    if s.len() > 0 {
        lemma_sum_seq_le_10000(s.drop_last());
    }
}

/// Hashes a complete bandwidth proof for duplicate detection: byte-identical
/// proofs on one connection hash identically.
pub fn hash_bandwidth_proof(
    connection: &Pubkey,
    mb_consumed: u64,
    timestamp: i64,
    seeker_sig: &[u8; 64],
    warden_sig: &[u8; 64],
) -> (r: Vec<u8>)
    ensures
        r@ == keccak_of(
            proof_hash_input(connection@, mb_consumed, timestamp, seeker_sig@, warden_sig@),
        ),
        r@.len() == 32,
{
    let mut data: Vec<u8> = Vec::new();
    push_bytes(&mut data, connection.as_slice());
    push_u64_le(&mut data, mb_consumed);
    push_i64_le(&mut data, timestamp);
    push_bytes(&mut data, seeker_sig.as_slice());
    push_bytes(&mut data, warden_sig.as_slice());
    assert(data@ =~= proof_hash_input(connection@, mb_consumed, timestamp, seeker_sig@, warden_sig@));
    keccak256(&data)
}

} // verus!
