use vstd::prelude::*;

verus! {

/// Every failure the settlement core can report to its caller.
#[derive(Clone, Copy, Debug, PartialEq, Eq, Structural)]
pub enum ArkhamErrorCode {
    // Staking errors
    InsufficientStake,
    HasActiveConnections,
    ReputationTooLow,
    UnstakeNotRequested,
    CooldownNotComplete,
    // Oracle errors
    InvalidPriceAccount,
    StalePrice,
    InvalidPriceConfidence,
    InvalidSignature,
    InvalidSigner,
    // Payment errors
    InsufficientEscrow,
    InsufficientConnectionEscrow,
    NothingToClaim,
    // Token errors
    InvalidStakeToken,
    TokenMintNotInitialized,
    TokenMintingNotImplemented,
    // Privacy errors
    PrivatePaymentsNotImplemented,
    // Reputation errors
    UnauthorizedReputationUpdate,
    // Admin errors
    UnauthorizedAdminAction,
    InvalidFeeBps,
    InvalidTierThresholds,
    InvalidTierMultiplier,
    InvalidGeoPremium,
    DuplicateRegionCode,
    TokenMintAlreadyInitialized,
    InvalidSubsidyDistribution,
    InsufficientTreasuryBalance,
    InvalidPeerId,
    UnauthorizedWardenUpdate,
    // General errors
    ArithmeticOverflow,
}

/// Failures of the oracle price-attestation check.
#[derive(Clone, Copy, Debug, PartialEq, Eq, Structural)]
pub enum OracleError {
    InvalidInstructionsSysvar,
    Ed25519InstructionNotFound,
    InvalidEd25519Instruction,
    InvalidEd25519Data,
    SignatureMismatch,
    PublicKeyMismatch,
    MessageMismatch,
}

/// Failures of bandwidth-proof validation and its dual-signature check.
#[derive(Clone, Copy, Debug, PartialEq, Eq, Structural)]
pub enum BandwidthError {
    ZeroBandwidth,
    ExcessiveBandwidth,
    InvalidTimestamp,
    ProofTooOld,
    InvalidSignature,
    AnomalousBandwidth,
    // Ed25519 verification errors
    InvalidInstructionsSysvar,
    Ed25519InstructionNotFound,
    InvalidEd25519Instruction,
    InvalidEd25519Data,
    SignatureMismatch,
    PublicKeyMismatch,
    MessageMismatch,
}

/// An error of either family, as proof settlement can fail both ways: with a
/// bandwidth-proof rejection or with an accounting error.
#[derive(Clone, Copy, Debug, PartialEq, Eq, Structural)]
pub enum ProtocolError {
    Arkham(ArkhamErrorCode),
    Bandwidth(BandwidthError),
}

/// How an oracle verification failure surfaces in the staking flow.
pub open spec fn arkham_code_of_oracle_error(error: OracleError) -> ArkhamErrorCode {
    match error {
        OracleError::InvalidInstructionsSysvar => ArkhamErrorCode::InvalidSigner,
        OracleError::Ed25519InstructionNotFound => ArkhamErrorCode::InvalidSignature,
        OracleError::InvalidEd25519Instruction => ArkhamErrorCode::InvalidSignature,
        OracleError::InvalidEd25519Data => ArkhamErrorCode::InvalidSignature,
        OracleError::SignatureMismatch => ArkhamErrorCode::InvalidSignature,
        OracleError::PublicKeyMismatch => ArkhamErrorCode::InvalidSigner,
        OracleError::MessageMismatch => ArkhamErrorCode::InvalidSignature,
    }
}

impl From<OracleError> for ArkhamErrorCode {
    fn from(error: OracleError) -> (r: Self) {
        match error {
            OracleError::InvalidInstructionsSysvar => ArkhamErrorCode::InvalidSigner,
            OracleError::Ed25519InstructionNotFound => ArkhamErrorCode::InvalidSignature,
            OracleError::InvalidEd25519Instruction => ArkhamErrorCode::InvalidSignature,
            OracleError::InvalidEd25519Data => ArkhamErrorCode::InvalidSignature,
            OracleError::SignatureMismatch => ArkhamErrorCode::InvalidSignature,
            OracleError::PublicKeyMismatch => ArkhamErrorCode::InvalidSigner,
            OracleError::MessageMismatch => ArkhamErrorCode::InvalidSignature,
        }
    }
}

impl vstd::std_specs::convert::FromSpecImpl<OracleError> for ArkhamErrorCode {
    open spec fn obeys_from_spec() -> bool {
        true
    }

    open spec fn from_spec(error: OracleError) -> Self {
        arkham_code_of_oracle_error(error)
    }
}

} // verus!
