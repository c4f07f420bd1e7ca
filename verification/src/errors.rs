//! The error taxonomy: a flat sum of kinds per failure class, so that no
//! caller ever has to match on message strings.

use vstd::prelude::*;

verus! {

/// Errors of the PVSS pipeline. The first group is recoverable at the
/// aggregator (the offending share is dropped and the aggregator is left
/// unchanged); the last two are fatal programmer errors.
#[derive(Clone, Copy, Debug, PartialEq, Eq, Structural)]
pub enum PVSSError {
    /// Fewer evaluations than the degree requires.
    InsufficientEvaluationsError,
    /// Interpolation points and evaluations differ in number.
    DifferentPointsEvalsError,
    /// The issuer id does not name a known participant.
    InvalidParticipantId(usize),
    /// Encryptions, commitments and participant count disagree in size.
    MismatchedCommitsEncryptionsParticipantsError(usize, usize, usize),
    /// The commitments do not commit to a polynomial of degree at most t.
    DualCodeError,
    /// The decomposition statement does not match the interpolated point.
    GSCheckError,
    /// The pairing equation for correctness of encryption fails.
    EncryptionCorrectnessError,
    /// The Fiat-Shamir proof attached to a share does not verify.
    NIZKProofDoesNotVerifyError,
    /// A decomposition proof inside an aggregated transcript fails.
    DecompProofVerificationError,
    /// An attestation signature does not verify.
    EdDSAInvalidSignatureError,
    /// A batch of attestation signatures does not verify.
    EdDSAInvalidSignatureBatchError,
    /// The combined proof-and-signature check failed.
    InvalidSignedProofError,
    /// Merge attempted across incompatible (degree, participants) pairs.
    TranscriptDifferentConfig(usize, usize, usize, usize),
    /// Two contributions for one id carry different statements.
    TranscriptDifferentCommitments,
    /// The weighted statement sum does not match the interpolation.
    AggregationReconstructionMismatchError,
    /// Fatal: an internal arithmetic invariant was violated (coincident
    /// interpolation points, or a contribution weight that cannot grow).
    EvaluationDomainError,
    /// Fatal: a value could not be serialized.
    SerializationError,
}

/// Errors of the NIZK proof systems.
#[derive(Clone, Copy, Debug, PartialEq, Eq, Structural)]
pub enum NIZKError {
    /// The structured reference string could not be generated.
    SRSSetupError,
    /// A knowledge-of-discrete-log proof does not verify.
    DLKVerify,
    /// A discrete-log-equality proof does not verify.
    DLEQVerify,
}

/// Errors of the signature schemes.
#[derive(Clone, Copy, Debug, PartialEq, Eq, Structural)]
pub enum SignatureError {
    /// A Schnorr signature does not verify.
    SchnorrVerify,
    /// The batch inputs disagree in length (keys, messages, signatures).
    BatchVerification(usize, usize, usize),
}

/// Errors of the attestation (EdDSA) layer.
#[derive(Clone, Copy, Debug, PartialEq, Eq, Structural)]
pub enum CryptoError {
    /// A signature or key failed to parse, or a signature does not verify.
    InvalidSignature,
    /// A secret key could not be loaded.
    InvalidSecretKey,
    /// Decoded text was not a valid encoding of the value.
    DecodeError,
}

} // verus!
