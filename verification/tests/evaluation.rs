use aleo_gateway::model::{SubmissionRequest, VerificationOutcome};
use aleo_gateway::orchestrate::{collapse_response, evaluate, screen, AdmissionDecision, VerifierResponse};

fn request(blob: &str, nonce_ex: u64, nonce_len: u64, min_target: u64) -> SubmissionRequest {
    SubmissionRequest {
        prover_address: "aleo1exampleaddress".to_string(),
        nonce_extension_value: nonce_ex,
        nonce_extension_length: nonce_len,
        min_proof_target: min_target,
        raw_proof_blob: blob.to_string(),
    }
}

#[test]
fn scenario_nonce_mismatch() {
    // Mask 0x100000000000000; nonce 0x1000 does not contain it.
    let req = request(
        "task_id:7,nonce:0x1000,challenge:abcd,solution:commit1,proof:beef,target:1000",
        0x1,
        1,
        500,
    );
    let outcome = evaluate(&req, &VerifierResponse::Judged(true));
    assert_eq!(outcome, VerificationOutcome::RejectedNonceMismatch);
    assert!(!outcome.accepted());
}

#[test]
fn scenario_below_minimum_target() {
    // The nonce now carries the pool-assigned byte, but 400 < 500.
    let req = request(
        "task_id:7,nonce:0x100000000000000,challenge:abcd,solution:commit1,proof:beef,target:400",
        0x1,
        1,
        500,
    );
    let outcome = evaluate(&req, &VerifierResponse::Judged(true));
    assert_eq!(outcome, VerificationOutcome::RejectedBelowMinimumTarget);
    assert!(!outcome.accepted());
}

#[test]
fn scenario_accepted() {
    let req = request(
        "task_id:7,nonce:0x100000000000000,challenge:abcd,solution:commit1,proof:beef,target:1000",
        0x1,
        1,
        500,
    );
    let outcome = evaluate(&req, &VerifierResponse::Judged(true));
    assert_eq!(outcome, VerificationOutcome::Accepted);
    assert!(outcome.accepted());
}

#[test]
fn scenario_missing_proof_key_is_malformed() {
    // No `proof` key: malformed regardless of everything else.
    let req = request(
        "task_id:7,nonce:0x100000000000000,challenge:abcd,solution:commit1,target:1000",
        0x1,
        1,
        500,
    );
    assert_eq!(
        evaluate(&req, &VerifierResponse::Judged(true)),
        VerificationOutcome::RejectedMalformed
    );
    assert_eq!(
        evaluate(&req, &VerifierResponse::Errored),
        VerificationOutcome::RejectedMalformed
    );
}

#[test]
fn verifier_answers_fold_into_outcomes() {
    let req = request(
        "task_id:7,nonce:0x100000000000000,challenge:abcd,solution:commit1,proof:beef,target:1000",
        0x1,
        1,
        500,
    );
    assert_eq!(
        evaluate(&req, &VerifierResponse::Judged(false)),
        VerificationOutcome::RejectedCryptographicVerificationFailed
    );
    assert_eq!(
        evaluate(&req, &VerifierResponse::Errored),
        VerificationOutcome::RejectedVerifierError
    );
    assert_eq!(
        evaluate(&req, &VerifierResponse::OperandMalformed),
        VerificationOutcome::RejectedMalformed
    );
    assert_eq!(
        collapse_response(&VerifierResponse::Judged(true)),
        VerificationOutcome::Accepted
    );
}

#[test]
fn evaluation_is_idempotent() {
    let req = request(
        "task_id:7,nonce:0x100000000000000,challenge:abcd,solution:commit1,proof:beef,target:1000",
        0x1,
        1,
        500,
    );
    for resp in [
        VerifierResponse::Judged(true),
        VerifierResponse::Judged(false),
        VerifierResponse::Errored,
        VerifierResponse::OperandMalformed,
    ] {
        assert_eq!(evaluate(&req.clone(), &resp), evaluate(&req.clone(), &resp));
    }
}

#[test]
fn screen_forwards_decoded_job() {
    let req = request(
        "task_id:7,nonce:0x100000000000000,challenge:abcd,solution:commit1,proof:beef,target:1000",
        0x1,
        1,
        500,
    );
    match screen(&req) {
        AdmissionDecision::Forward(job) => {
            assert_eq!(job.prover_address, "aleo1exampleaddress");
            assert_eq!(job.task_id, 7);
            assert_eq!(job.nonce, 0x100000000000000);
            assert_eq!(job.solution_commitment, "commit1");
            // The hex fields really are decoded, not echoed.
            assert_eq!(job.challenge_bytes, vec![0xab, 0xcd]);
            assert_eq!(job.proof_bytes, vec![0xbe, 0xef]);
            assert_eq!(job.target, 1000);
        }
        AdmissionDecision::Reject(o) => panic!("expected a forwarded job, got {:?}", o),
    }
}

#[test]
fn screen_rejects_bad_hex_operands() {
    // Odd length.
    let req = request(
        "task_id:7,nonce:0x100000000000000,challenge:abc,solution:commit1,proof:beef,target:1000",
        0x1,
        1,
        500,
    );
    assert_eq!(
        evaluate(&req, &VerifierResponse::Judged(true)),
        VerificationOutcome::RejectedMalformed
    );
    // A non-hex character in the proof.
    let req = request(
        "task_id:7,nonce:0x100000000000000,challenge:abcd,solution:commit1,proof:beeg,target:1000",
        0x1,
        1,
        500,
    );
    assert_eq!(
        evaluate(&req, &VerifierResponse::Judged(true)),
        VerificationOutcome::RejectedMalformed
    );
    // Mixed-case hex is fine.
    let req = request(
        "task_id:7,nonce:0x100000000000000,challenge:AbCd,solution:commit1,proof:BEef,target:1000",
        0x1,
        1,
        500,
    );
    assert_eq!(
        evaluate(&req, &VerifierResponse::Judged(true)),
        VerificationOutcome::Accepted
    );
}

#[test]
fn bad_extension_length_is_malformed() {
    for len in [0u64, 9, 255] {
        let req = request(
            "task_id:7,nonce:0x100000000000000,challenge:abcd,solution:commit1,proof:beef,target:1000",
            0x1,
            len,
            500,
        );
        assert_eq!(
            evaluate(&req, &VerifierResponse::Judged(true)),
            VerificationOutcome::RejectedMalformed
        );
    }
}

#[test]
fn nonce_check_precedes_target_check() {
    // Both the nonce and the target are wrong: the nonce mismatch wins.
    let req = request(
        "task_id:7,nonce:0x1,challenge:abcd,solution:commit1,proof:beef,target:1",
        0x1,
        1,
        500,
    );
    assert_eq!(
        evaluate(&req, &VerifierResponse::Judged(true)),
        VerificationOutcome::RejectedNonceMismatch
    );
}

#[test]
fn outcome_descriptions_are_distinct() {
    let outcomes = [
        VerificationOutcome::Accepted,
        VerificationOutcome::RejectedMalformed,
        VerificationOutcome::RejectedNonceMismatch,
        VerificationOutcome::RejectedBelowMinimumTarget,
        VerificationOutcome::RejectedCryptographicVerificationFailed,
        VerificationOutcome::RejectedVerifierError,
    ];
    for (i, a) in outcomes.iter().enumerate() {
        for (j, b) in outcomes.iter().enumerate() {
            assert_eq!(i == j, a.describe() == b.describe());
        }
    }
    assert_eq!(VerificationOutcome::Accepted.describe(), "accepted");
}
