//! Turning transport-delivered parameters into a typed
//! [`SubmissionRequest`].
//!
//! A transport adapter reduces whatever it received to a flat list of
//! key/value entries whose values are already plain text or numbers.
//! Two entry-point shapes are supported: the flat shape, where each
//! request field arrives as its own named parameter, and the nested
//! shape, where an `input_param` entry holds a JSON-encoded object with
//! the pool-assigned fields and a sibling `proof` entry holds the raw
//! proof blob.

use vstd::prelude::*;
use crate::jsonext::{json_number_member, json_str_member, json_string_member, json_u64_member};
use crate::model::{ParseError, SubmissionRequest, SubmissionRequestView};
use crate::parse::opt_str_view;
use crate::text::{chars_of, range_eq, str_owned};

verus! {

/// A parameter value as the transport reduced it: text, an unsigned
/// number, or something the gateway has no use for.
pub enum ParamValue {
    Text(String),
    Number(u64),
    Unusable,
}

/// One named transport parameter.
pub struct ParamEntry {
    pub key: String,
    pub value: ParamValue,
}

/// The parameters of one call, in the order the transport delivered them.
pub struct ParamMap {
    pub entries: Vec<ParamEntry>,
}

/// The text value of `key`: the last entry with that key that carries
/// text wins; entries of the wrong type count as absent.
pub open spec fn lookup_text(entries: Seq<ParamEntry>, key: Seq<char>) -> Option<Seq<char>>
    decreases entries.len(),
{
    if entries.len() == 0 {
        None
    } else {
        let e = entries.last();
        if e.key@ == key && e.value is Text {
            Some(e.value->Text_0@)
        } else {
            lookup_text(entries.drop_last(), key)
        }
    }
}

/// The numeric value of `key`, under the same last-wins rule.
pub open spec fn lookup_num(entries: Seq<ParamEntry>, key: Seq<char>) -> Option<u64>
    decreases entries.len(),
{
    if entries.len() == 0 {
        None
    } else {
        let e = entries.last();
        if e.key@ == key && e.value is Number {
            Some(e.value->Number_0)
        } else {
            lookup_num(entries.drop_last(), key)
        }
    }
}

/// Looks the text parameter `key` up.
pub fn find_text(params: &ParamMap, key: &str) -> (r: Option<String>)
    ensures
        opt_str_view(r) == lookup_text(params.entries@, key@),
{
    let kv = chars_of(key);
    let mut r: Option<String> = None;
    let mut idx: usize = 0;
    while idx < params.entries.len()
        invariant
            idx <= params.entries.len(),
            kv@ == key@,
            opt_str_view(r) == lookup_text(params.entries@.take(idx as int), key@),
        decreases params.entries.len() - idx,
    {
        let e = &params.entries[idx];
        proof {
            assert(params.entries@.take(idx + 1).drop_last() =~= params.entries@.take(idx as int));
            assert(params.entries@.take(idx + 1).last() == params.entries@[idx as int]);
        }
        match &e.value {
            ParamValue::Text(s) => {
                let ek = chars_of(e.key.as_str());
                proof {
                    assert(ek@.subrange(0, ek@.len() as int) =~= ek@);
                }
                if range_eq(&ek, 0, ek.len(), &kv) {
                    r = Some(s.clone());
                }
            },
            _ => {},
        }
        idx += 1;
    }
    proof {
        assert(params.entries@.take(params.entries@.len() as int) =~= params.entries@);
    }
    r
}

/// Looks the numeric parameter `key` up.
pub fn find_num(params: &ParamMap, key: &str) -> (r: Option<u64>)
    ensures
        r == lookup_num(params.entries@, key@),
{
    let kv = chars_of(key);
    let mut r: Option<u64> = None;
    let mut idx: usize = 0;
    while idx < params.entries.len()
        invariant
            idx <= params.entries.len(),
            kv@ == key@,
            r == lookup_num(params.entries@.take(idx as int), key@),
        decreases params.entries.len() - idx,
    {
        let e = &params.entries[idx];
        proof {
            assert(params.entries@.take(idx + 1).drop_last() =~= params.entries@.take(idx as int));
            assert(params.entries@.take(idx + 1).last() == params.entries@[idx as int]);
        }
        match &e.value {
            ParamValue::Number(x) => {
                let ek = chars_of(e.key.as_str());
                proof {
                    assert(ek@.subrange(0, ek@.len() as int) =~= ek@);
                }
                if range_eq(&ek, 0, ek.len(), &kv) {
                    r = Some(*x);
                }
            },
            _ => {},
        }
        idx += 1;
    }
    proof {
        assert(params.entries@.take(params.entries@.len() as int) =~= params.entries@);
    }
    r
}

/// Which request field is reported missing when several are: the first in
/// this fixed order.
pub open spec fn assemble_spec(
    address: Option<Seq<char>>,
    nonce_ex: Option<u64>,
    nonce_len: Option<u64>,
    min_target: Option<u64>,
    proof_blob: Option<Seq<char>>,
) -> Result<SubmissionRequestView, Seq<char>> {
    if address is None {
        Err("address"@)
    } else if nonce_ex is None {
        Err("nonce_ex"@)
    } else if nonce_len is None {
        Err("nonce_len"@)
    } else if min_target is None {
        Err("min_proof_target"@)
    } else if proof_blob is None {
        Err("proof"@)
    } else {
        Ok(
            SubmissionRequestView {
                prover_address: address->0,
                nonce_extension_value: nonce_ex->0,
                nonce_extension_length: nonce_len->0,
                min_proof_target: min_target->0,
                raw_proof_blob: proof_blob->0,
            },
        )
    }
}

/// Builds the typed request from the five extracted fields, or reports
/// the first missing one.  All five must be present: a missing field is a
/// terminal parse failure, never a partial match.
pub fn assemble_request(
    address: Option<String>,
    nonce_ex: Option<u64>,
    nonce_len: Option<u64>,
    min_target: Option<u64>,
    proof_blob: Option<String>,
) -> (r: Result<SubmissionRequest, ParseError>)
    ensures
        ({
            let sp = assemble_spec(
                opt_str_view(address),
                nonce_ex,
                nonce_len,
                min_target,
                opt_str_view(proof_blob),
            );
            match r {
                Ok(req) => sp matches Ok(v) && req@ == v,
                Err(e) => {
                    &&& sp matches Err(name)
                    &&& e matches ParseError::MissingField(f) && f@ == sp->Err_0
                },
            }
        }),
{
    let address = match address {
        Some(a) => a,
        None => {
            return Err(ParseError::MissingField(str_owned("address")));
        },
    };
    let nonce_ex = match nonce_ex {
        Some(x) => x,
        None => {
            return Err(ParseError::MissingField(str_owned("nonce_ex")));
        },
    };
    let nonce_len = match nonce_len {
        Some(x) => x,
        None => {
            return Err(ParseError::MissingField(str_owned("nonce_len")));
        },
    };
    let min_target = match min_target {
        Some(x) => x,
        None => {
            return Err(ParseError::MissingField(str_owned("min_proof_target")));
        },
    };
    let proof_blob = match proof_blob {
        Some(p) => p,
        None => {
            return Err(ParseError::MissingField(str_owned("proof")));
        },
    };
    Ok(
        SubmissionRequest {
            prover_address: address,
            nonce_extension_value: nonce_ex,
            nonce_extension_length: nonce_len,
            min_proof_target: min_target,
            raw_proof_blob: proof_blob,
        },
    )
}

/// The request the flat entry-point shape denotes.
pub open spec fn flat_request(entries: Seq<ParamEntry>) -> Result<SubmissionRequestView, Seq<char>> {
    assemble_spec(
        lookup_text(entries, "address"@),
        lookup_num(entries, "nonce_ex"@),
        lookup_num(entries, "nonce_len"@),
        lookup_num(entries, "mix_target"@),
        lookup_text(entries, "proof"@),
    )
}

/// The request the nested shape denotes: the pool-assigned fields are
/// the members of the JSON object encoded in the `input_param` entry,
/// the blob is the `proof` entry.
pub open spec fn nested_request(entries: Seq<ParamEntry>) -> Result<SubmissionRequestView, Seq<char>>
    recommends
        lookup_text(entries, "input_param"@) is Some,
{
    let ip = lookup_text(entries, "input_param"@)->0;
    assemble_spec(
        json_str_member(ip, "address"@),
        json_u64_member(ip, "nonce_ex"@),
        json_u64_member(ip, "nonce_len"@),
        json_u64_member(ip, "min_proof_target"@),
        lookup_text(entries, "proof"@),
    )
}

/// The request a delivered parameter set denotes: the nested shape when
/// an `input_param` entry is present, the flat shape otherwise.
pub open spec fn request_of(entries: Seq<ParamEntry>) -> Result<SubmissionRequestView, Seq<char>> {
    if lookup_text(entries, "input_param"@) is Some {
        nested_request(entries)
    } else {
        flat_request(entries)
    }
}

/// The request the direct entry point's single JSON document denotes:
/// its `input_param` member carries the nested object, its `proof`
/// member the raw blob.
pub open spec fn document_request(data: Seq<char>) -> Result<SubmissionRequestView, Seq<char>> {
    match json_str_member(data, "input_param"@) {
        Some(ip) => assemble_spec(
            json_str_member(ip, "address"@),
            json_u64_member(ip, "nonce_ex"@),
            json_u64_member(ip, "nonce_len"@),
            json_u64_member(ip, "min_proof_target"@),
            json_str_member(data, "proof"@),
        ),
        None => Err("input_param"@),
    }
}

/// Extracts the five request fields from a delivered parameter set: the
/// result is exactly the request the entries denote, or its first
/// missing field.
pub fn parse_submission(params: &ParamMap) -> (r: Result<SubmissionRequest, ParseError>)
    ensures
        match r {
            Ok(req) => request_of(params.entries@) matches Ok(v) && req@ == v,
            Err(e) => {
                &&& request_of(params.entries@) is Err
                &&& e matches ParseError::MissingField(f) && f@ == request_of(
                    params.entries@,
                )->Err_0
            },
        },
{
    let proof_blob = find_text(params, "proof");
    match find_text(params, "input_param") {
        Some(doc) => {
            let address = json_string_member(doc.as_str(), "address");
            let nonce_ex = json_number_member(doc.as_str(), "nonce_ex");
            let nonce_len = json_number_member(doc.as_str(), "nonce_len");
            let min_target = json_number_member(doc.as_str(), "min_proof_target");
            assemble_request(address, nonce_ex, nonce_len, min_target, proof_blob)
        },
        None => {
            let address = find_text(params, "address");
            let nonce_ex = find_num(params, "nonce_ex");
            let nonce_len = find_num(params, "nonce_len");
            let min_target = find_num(params, "mix_target");
            assemble_request(address, nonce_ex, nonce_len, min_target, proof_blob)
        },
    }
}

/// Extracts a request from the single JSON document of the direct
/// (batch/offline) entry point: the result is exactly the request the
/// document denotes, or its first missing field.  A document that does
/// not parse, or whose `input_param` member is absent or not a string,
/// is reported as missing `input_param`.
pub fn parse_submission_document(data: &str) -> (r: Result<SubmissionRequest, ParseError>)
    ensures
        match r {
            Ok(req) => document_request(data@) matches Ok(v) && req@ == v,
            Err(e) => {
                &&& document_request(data@) is Err
                &&& e matches ParseError::MissingField(f) && f@ == document_request(data@)->Err_0
            },
        },
{
    match json_string_member(data, "input_param") {
        Some(ip) => {
            let proof_blob = json_string_member(data, "proof");
            let address = json_string_member(ip.as_str(), "address");
            let nonce_ex = json_number_member(ip.as_str(), "nonce_ex");
            let nonce_len = json_number_member(ip.as_str(), "nonce_len");
            let min_target = json_number_member(ip.as_str(), "min_proof_target");
            assemble_request(address, nonce_ex, nonce_len, min_target, proof_blob)
        },
        None => Err(ParseError::MissingField(str_owned("input_param"))),
    }
}

} // verus!
