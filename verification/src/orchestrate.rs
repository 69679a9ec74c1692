//! The verification orchestrator: sequences parsing, the nonce-extension
//! check, the minimum-target rule and the hex decoding of the verifier's
//! operands, short-circuiting on the first failure, and folds the
//! external verifier's answer into the final outcome.
//!
//! The nonce check comes strictly before the target check: a nonce that
//! is not pool-assigned is rejected regardless of how high its target is.
//! The target check comes strictly before any cryptographic work.

use vstd::prelude::*;
use crate::hexcodec::{hex_bytes, hex_decode, hex_ok};
use crate::model::{SubmissionRequest, SubmissionRequestView, VerificationOutcome};
use crate::parse::{parse_proof, proof_complete, proof_fields};
use crate::policy::{
    mask_spec, meets_minimum_target, nonce_matches, nonce_satisfies_extension, resolve_mask,
    target_meets,
};
use crate::submission::{parse_submission, request_of, ParamMap};

verus! {

/// The external verifier's answer for a forwarded job, as the caller
/// relays it: the operands did not decode into the verifier's native
/// representations, the verifier judged the proof, or the verifier
/// itself failed.
#[derive(Clone, Copy, Debug, PartialEq, Eq, Structural)]
pub enum VerifierResponse {
    OperandMalformed,
    Judged(bool),
    Errored,
}

/// Everything the external verifier needs for one submission, with the
/// challenge and proof already hex-decoded.
#[derive(Clone, Debug, PartialEq, Eq)]
pub struct VerificationJob {
    pub prover_address: String,
    pub task_id: u64,
    pub nonce: u64,
    pub solution_commitment: String,
    pub challenge_bytes: Vec<u8>,
    pub proof_bytes: Vec<u8>,
    pub target: u64,
}

pub ghost struct VerificationJobView {
    pub prover_address: Seq<char>,
    pub task_id: u64,
    pub nonce: u64,
    pub solution_commitment: Seq<char>,
    pub challenge_bytes: Seq<u8>,
    pub proof_bytes: Seq<u8>,
    pub target: u64,
}

impl View for VerificationJob {
    type V = VerificationJobView;

    open spec fn view(&self) -> VerificationJobView {
        VerificationJobView {
            prover_address: self.prover_address@,
            task_id: self.task_id,
            nonce: self.nonce,
            solution_commitment: self.solution_commitment@,
            challenge_bytes: self.challenge_bytes@,
            proof_bytes: self.proof_bytes@,
            target: self.target,
        }
    }
}

/// What the admission pipeline decides before any cryptography runs:
/// a final rejection, or a job for the external verifier.
pub enum AdmissionDecision {
    Reject(VerificationOutcome),
    Forward(VerificationJob),
}

/// The admission rule: the rejection a request earns before the verifier
/// is consulted, or nothing if it is to be forwarded.  The order of the
/// checks is part of the contract.
pub open spec fn screen_spec(req: SubmissionRequestView) -> Option<VerificationOutcome> {
    let f = proof_fields(req.raw_proof_blob);
    if !proof_complete(req.raw_proof_blob) {
        Some(VerificationOutcome::RejectedMalformed)
    } else if !(1 <= req.nonce_extension_length <= 8) {
        Some(VerificationOutcome::RejectedMalformed)
    } else if !nonce_matches(
        f.nonce->0,
        mask_spec(req.nonce_extension_value, req.nonce_extension_length),
    ) {
        Some(VerificationOutcome::RejectedNonceMismatch)
    } else if !target_meets(f.target->0, req.min_proof_target) {
        Some(VerificationOutcome::RejectedBelowMinimumTarget)
    } else if !hex_ok(f.challenge->0) || !hex_ok(f.proof_field->0) {
        Some(VerificationOutcome::RejectedMalformed)
    } else {
        None
    }
}

/// The job a forwarded request carries.
pub open spec fn job_spec(req: SubmissionRequestView) -> VerificationJobView
    recommends
        screen_spec(req) is None,
{
    let f = proof_fields(req.raw_proof_blob);
    VerificationJobView {
        prover_address: req.prover_address,
        task_id: f.task_id->0,
        nonce: f.nonce->0,
        solution_commitment: f.solution->0,
        challenge_bytes: hex_bytes(f.challenge->0),
        proof_bytes: hex_bytes(f.proof_field->0),
        target: f.target->0,
    }
}

/// How the verifier's answer folds into an outcome.
pub open spec fn collapse_spec(resp: VerifierResponse) -> VerificationOutcome {
    match resp {
        VerifierResponse::OperandMalformed => VerificationOutcome::RejectedMalformed,
        VerifierResponse::Judged(true) => VerificationOutcome::Accepted,
        VerifierResponse::Judged(false) => VerificationOutcome::RejectedCryptographicVerificationFailed,
        VerifierResponse::Errored => VerificationOutcome::RejectedVerifierError,
    }
}

/// The whole pipeline, as a function of the request and of the
/// verifier's response to its forwarded job.
pub open spec fn evaluate_spec(req: SubmissionRequestView, resp: VerifierResponse) -> VerificationOutcome {
    match screen_spec(req) {
        Some(o) => o,
        None => collapse_spec(resp),
    }
}

/// Runs every check that precedes cryptographic verification, in the
/// contractual order, and either rejects the request for good or hands
/// back the decoded job to put to the external verifier.
pub fn screen(req: &SubmissionRequest) -> (r: AdmissionDecision)
    ensures
        screen_spec(req@) matches Some(o) ==> (r matches AdmissionDecision::Reject(o2) && o2 == o),
        screen_spec(req@) is None ==> (r matches AdmissionDecision::Forward(job) && job@ == job_spec(
            req@,
        )),
{
    let parsed = match parse_proof(req.raw_proof_blob.as_str()) {
        Ok(p) => p,
        Err(_) => {
            return AdmissionDecision::Reject(VerificationOutcome::RejectedMalformed);
        },
    };
    let mask = match resolve_mask(req.nonce_extension_value, req.nonce_extension_length) {
        Ok(m) => m,
        Err(_) => {
            return AdmissionDecision::Reject(VerificationOutcome::RejectedMalformed);
        },
    };
    if !nonce_satisfies_extension(parsed.nonce, mask) {
        return AdmissionDecision::Reject(VerificationOutcome::RejectedNonceMismatch);
    }
    if !meets_minimum_target(parsed.target, req.min_proof_target) {
        return AdmissionDecision::Reject(VerificationOutcome::RejectedBelowMinimumTarget);
    }
    let challenge_bytes = match hex_decode(parsed.epoch_challenge.as_str()) {
        Some(b) => b,
        None => {
            return AdmissionDecision::Reject(VerificationOutcome::RejectedMalformed);
        },
    };
    let proof_bytes = match hex_decode(parsed.proof_bytes.as_str()) {
        Some(b) => b,
        None => {
            return AdmissionDecision::Reject(VerificationOutcome::RejectedMalformed);
        },
    };
    AdmissionDecision::Forward(
        VerificationJob {
            prover_address: req.prover_address.clone(),
            task_id: parsed.task_id,
            nonce: parsed.nonce,
            solution_commitment: parsed.solution_commitment,
            challenge_bytes,
            proof_bytes,
            target: parsed.target,
        },
    )
}

/// Folds the verifier's answer into the outcome it stands for.
pub fn collapse_response(resp: &VerifierResponse) -> (r: VerificationOutcome)
    ensures
        r == collapse_spec(*resp),
{
    match resp {
        VerifierResponse::OperandMalformed => VerificationOutcome::RejectedMalformed,
        VerifierResponse::Judged(true) => VerificationOutcome::Accepted,
        VerifierResponse::Judged(false) => VerificationOutcome::RejectedCryptographicVerificationFailed,
        VerifierResponse::Errored => VerificationOutcome::RejectedVerifierError,
    }
}

/// The orchestrator as a pure decision function: given a request and the
/// external verifier's response for its forwarded job, the final
/// outcome.  The result is a function of the request's fields and the
/// response alone, so evaluating the same request twice against an
/// unchanged verifier yields the same outcome.  When the request is
/// rejected before forwarding, the response is irrelevant and the
/// rejection stands whatever it is.
pub fn evaluate(req: &SubmissionRequest, resp: &VerifierResponse) -> (r: VerificationOutcome)
    ensures
        r == evaluate_spec(req@, *resp),
{
    match screen(req) {
        AdmissionDecision::Reject(o) => o,
        AdmissionDecision::Forward(_) => collapse_response(resp),
    }
}

/// Steps one and two of the pipeline in one call: extract the request
/// from the delivered parameters, folding an extraction failure into a
/// malformed-submission rejection, then evaluate it.
pub fn evaluate_params(params: &ParamMap, resp: &VerifierResponse) -> (r: VerificationOutcome)
    ensures
        r == (match request_of(params.entries@) {
            Ok(v) => evaluate_spec(v, *resp),
            Err(_) => VerificationOutcome::RejectedMalformed,
        }),
{
    match parse_submission(params) {
        Ok(req) => evaluate(&req, resp),
        Err(_) => VerificationOutcome::RejectedMalformed,
    }
}

/// A rejection decided at admission is final: no verifier response can
/// turn it into an acceptance, and the outcome does not depend on the
/// response at all.
pub proof fn lemma_rejection_final(req: SubmissionRequestView, a: VerifierResponse, b: VerifierResponse)
    requires
        screen_spec(req) is Some,
    ensures
        evaluate_spec(req, a) == evaluate_spec(req, b),
        evaluate_spec(req, a) != VerificationOutcome::Accepted,
{
}

} // verus!
