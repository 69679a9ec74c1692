//! The gateway's data model: the typed submission record, the decoded
//! proof record, the error taxonomy, and the outcome of an evaluation.

use vstd::prelude::*;

verus! {

/// A submission after the transport adapter has demultiplexed the call:
/// the miner's address, the pool-assigned nonce-extension encoding, the
/// pool's difficulty floor, and the still-undecoded proof blob.
#[derive(Clone, Debug, PartialEq, Eq)]
pub struct SubmissionRequest {
    pub prover_address: String,
    pub nonce_extension_value: u64,
    pub nonce_extension_length: u64,
    pub min_proof_target: u64,
    pub raw_proof_blob: String,
}

pub ghost struct SubmissionRequestView {
    pub prover_address: Seq<char>,
    pub nonce_extension_value: u64,
    pub nonce_extension_length: u64,
    pub min_proof_target: u64,
    pub raw_proof_blob: Seq<char>,
}

impl View for SubmissionRequest {
    type V = SubmissionRequestView;

    open spec fn view(&self) -> SubmissionRequestView {
        SubmissionRequestView {
            prover_address: self.prover_address@,
            nonce_extension_value: self.nonce_extension_value,
            nonce_extension_length: self.nonce_extension_length,
            min_proof_target: self.min_proof_target,
            raw_proof_blob: self.raw_proof_blob@,
        }
    }
}

/// The proof blob decoded into its six named fields.
#[derive(Clone, Debug, PartialEq, Eq)]
pub struct ParsedProof {
    pub task_id: u64,
    pub nonce: u64,
    pub epoch_challenge: String,
    pub solution_commitment: String,
    pub proof_bytes: String,
    pub target: u64,
}

pub ghost struct ParsedProofView {
    pub task_id: u64,
    pub nonce: u64,
    pub epoch_challenge: Seq<char>,
    pub solution_commitment: Seq<char>,
    pub proof_bytes: Seq<char>,
    pub target: u64,
}

impl View for ParsedProof {
    type V = ParsedProofView;

    open spec fn view(&self) -> ParsedProofView {
        ParsedProofView {
            task_id: self.task_id,
            nonce: self.nonce,
            epoch_challenge: self.epoch_challenge@,
            solution_commitment: self.solution_commitment@,
            proof_bytes: self.proof_bytes@,
            target: self.target,
        }
    }
}

/// Parse failures: a proof blob that did not yield all six fields, or a
/// transport parameter set with a missing or wrong-typed field.
#[derive(Clone, Debug, PartialEq, Eq)]
pub enum ParseError {
    Incomplete,
    MissingField(String),
}

/// The single ternary-collapsed result of evaluating a submission.
/// Collapsed to a boolean at the transport boundary; the taxonomy is kept
/// for logging.
#[derive(Clone, Copy, Debug, PartialEq, Eq, Structural)]
pub enum VerificationOutcome {
    Accepted,
    RejectedMalformed,
    RejectedNonceMismatch,
    RejectedBelowMinimumTarget,
    RejectedCryptographicVerificationFailed,
    RejectedVerifierError,
}

impl VerificationOutcome {
    /// A short name for the outcome, for operator-facing log records.
    pub fn describe(&self) -> (r: &'static str)
        ensures
            r@ == match *self {
                VerificationOutcome::Accepted => "accepted"@,
                VerificationOutcome::RejectedMalformed => "rejected: malformed"@,
                VerificationOutcome::RejectedNonceMismatch => "rejected: nonce mismatch"@,
                VerificationOutcome::RejectedBelowMinimumTarget => "rejected: below minimum target"@,
                VerificationOutcome::RejectedCryptographicVerificationFailed => "rejected: cryptographic verification failed"@,
                VerificationOutcome::RejectedVerifierError => "rejected: verifier error"@,
            },
    {
        match self {
            VerificationOutcome::Accepted => "accepted",
            VerificationOutcome::RejectedMalformed => "rejected: malformed",
            VerificationOutcome::RejectedNonceMismatch => "rejected: nonce mismatch",
            VerificationOutcome::RejectedBelowMinimumTarget => "rejected: below minimum target",
            VerificationOutcome::RejectedCryptographicVerificationFailed => "rejected: cryptographic verification failed",
            VerificationOutcome::RejectedVerifierError => "rejected: verifier error",
        }
    }

    /// The boolean shape the transport reports: acceptance and nothing else.
    pub fn accepted(&self) -> (r: bool)
        ensures
            r == (*self is Accepted),
    {
        match self {
            VerificationOutcome::Accepted => true,
            _ => false,
        }
    }
}

} // verus!
