use aleo_gateway::model::{ParseError, VerificationOutcome};
use aleo_gateway::orchestrate::{evaluate_params, VerifierResponse};
use aleo_gateway::submission::{
    find_num, find_text, parse_submission, parse_submission_document, ParamEntry, ParamMap,
    ParamValue,
};

fn text(key: &str, value: &str) -> ParamEntry {
    ParamEntry { key: key.to_string(), value: ParamValue::Text(value.to_string()) }
}

fn num(key: &str, value: u64) -> ParamEntry {
    ParamEntry { key: key.to_string(), value: ParamValue::Number(value) }
}

const BLOB: &str =
    "task_id:7,nonce:0x100000000000000,challenge:abcd,solution:commit1,proof:beef,target:1000";

fn flat_params() -> ParamMap {
    ParamMap {
        entries: vec![
            text("address", "aleo1exampleaddress"),
            num("nonce_ex", 0x1),
            num("nonce_len", 1),
            num("mix_target", 500),
            text("proof", BLOB),
        ],
    }
}

#[test]
fn flat_shape_builds_request() {
    let req = parse_submission(&flat_params()).unwrap();
    assert_eq!(req.prover_address, "aleo1exampleaddress");
    assert_eq!(req.nonce_extension_value, 0x1);
    assert_eq!(req.nonce_extension_length, 1);
    assert_eq!(req.min_proof_target, 500);
    assert_eq!(req.raw_proof_blob, BLOB);
}

#[test]
fn flat_shape_missing_field() {
    let mut params = flat_params();
    params.entries.retain(|e| e.key != "nonce_ex");
    assert_eq!(
        parse_submission(&params),
        Err(ParseError::MissingField("nonce_ex".to_string()))
    );
}

#[test]
fn flat_shape_wrong_typed_field_counts_as_missing() {
    let mut params = flat_params();
    // The minimum target arrives as text instead of a number.
    params.entries.retain(|e| e.key != "mix_target");
    params.entries.push(text("mix_target", "500"));
    assert_eq!(
        parse_submission(&params),
        Err(ParseError::MissingField("min_proof_target".to_string()))
    );
}

#[test]
fn first_missing_field_is_reported() {
    let params = ParamMap { entries: vec![text("proof", BLOB)] };
    assert_eq!(
        parse_submission(&params),
        Err(ParseError::MissingField("address".to_string()))
    );
}

#[test]
fn repeated_parameter_last_wins() {
    let mut params = flat_params();
    params.entries.push(num("mix_target", 700));
    let req = parse_submission(&params).unwrap();
    assert_eq!(req.min_proof_target, 700);
    assert_eq!(find_num(&params, "mix_target"), Some(700));
    assert_eq!(find_text(&params, "address"), Some("aleo1exampleaddress".to_string()));
    assert_eq!(find_text(&params, "no_such_key"), None);
}

fn nested_params() -> ParamMap {
    let input_param = "{\"nonce_ex\":1,\"nonce_len\":1,\"min_proof_target\":500,\"address\":\"aleo1exampleaddress\"}";
    ParamMap {
        entries: vec![text("input_param", input_param), text("proof", BLOB)],
    }
}

#[test]
fn nested_shape_builds_the_same_request() {
    let req = parse_submission(&nested_params()).unwrap();
    assert_eq!(req, parse_submission(&flat_params()).unwrap());
}

#[test]
fn nested_shape_missing_member() {
    let input_param = "{\"nonce_ex\":1,\"min_proof_target\":500,\"address\":\"aleo1exampleaddress\"}";
    let params = ParamMap {
        entries: vec![text("input_param", input_param), text("proof", BLOB)],
    };
    assert_eq!(
        parse_submission(&params),
        Err(ParseError::MissingField("nonce_len".to_string()))
    );
}

#[test]
fn nested_shape_unparsable_json() {
    let params = ParamMap {
        entries: vec![text("input_param", "{not json"), text("proof", BLOB)],
    };
    assert_eq!(
        parse_submission(&params),
        Err(ParseError::MissingField("address".to_string()))
    );
}

#[test]
fn document_entry_point() {
    let data = "{\"input_param\": \"{\\\"nonce_ex\\\":1,\\\"nonce_len\\\":1,\\\"min_proof_target\\\":500,\\\"address\\\":\\\"aleo1exampleaddress\\\"}\", \"proof\": \"task_id:7,nonce:0x100000000000000,challenge:abcd,solution:commit1,proof:beef,target:1000\"}";
    let req = parse_submission_document(data).unwrap();
    assert_eq!(req, parse_submission(&flat_params()).unwrap());
}

#[test]
fn document_entry_point_missing_parts() {
    assert_eq!(
        parse_submission_document("not json at all"),
        Err(ParseError::MissingField("input_param".to_string()))
    );
    assert_eq!(
        parse_submission_document("{\"proof\": \"x\"}"),
        Err(ParseError::MissingField("input_param".to_string()))
    );
    let no_proof = "{\"input_param\": \"{\\\"nonce_ex\\\":1,\\\"nonce_len\\\":1,\\\"min_proof_target\\\":500,\\\"address\\\":\\\"a\\\"}\"}";
    assert_eq!(
        parse_submission_document(no_proof),
        Err(ParseError::MissingField("proof".to_string()))
    );
}

#[test]
fn pipeline_from_flat_parameters() {
    assert_eq!(
        evaluate_params(&flat_params(), &VerifierResponse::Judged(true)),
        VerificationOutcome::Accepted
    );
    let mut low = flat_params();
    low.entries.retain(|e| e.key != "mix_target");
    low.entries.push(num("mix_target", 2000));
    assert_eq!(
        evaluate_params(&low, &VerifierResponse::Judged(true)),
        VerificationOutcome::RejectedBelowMinimumTarget
    );
    let incomplete = ParamMap { entries: vec![text("proof", BLOB)] };
    assert_eq!(
        evaluate_params(&incomplete, &VerifierResponse::Judged(true)),
        VerificationOutcome::RejectedMalformed
    );
}

#[test]
fn pipeline_from_nested_parameters() {
    assert_eq!(
        evaluate_params(&nested_params(), &VerifierResponse::Judged(true)),
        VerificationOutcome::Accepted
    );
    assert_eq!(
        evaluate_params(&nested_params(), &VerifierResponse::Judged(false)),
        VerificationOutcome::RejectedCryptographicVerificationFailed
    );
}
