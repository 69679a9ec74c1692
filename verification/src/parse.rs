//! The parameter parser: turns the raw delimited proof blob
//! (`key:value` pairs separated by commas) into a typed [`ParsedProof`].
//!
//! Pairs are split on the first `:`; a pair with no `:` is silently
//! skipped.  Keys and values are trimmed.  Numeric values are unsigned
//! 64-bit numerals, decimal or `0x`-prefixed hex; a numeric value that
//! does not parse leaves its key unset rather than failing the whole
//! blob.  On a repeated key the last usable occurrence wins.  The parse
//! succeeds only when all six recognized keys received a value.

use vstd::prelude::*;
use crate::model::{ParseError, ParsedProof, ParsedProofView};
use crate::text::{
    chars_of, copy_range, dist_to, find_from, parse_u64_range, parse_u64_spec, range_eq,
    string_from_chars, trim_range, trim_spec,
};

verus! {

/// Last-wins choice between the result for the remaining pieces (`rest`)
/// and the one for an earlier piece (`head`).
pub open spec fn prefer<T>(rest: Option<T>, head: Option<T>) -> Option<T> {
    if rest is Some {
        rest
    } else {
        head
    }
}

/// The value a single `key:value` piece contributes for `key`: the
/// trimmed text after the first `:`, provided the trimmed part before it
/// equals `key`.
pub open spec fn piece_text(p: Seq<char>, key: Seq<char>) -> Option<Seq<char>> {
    let c = dist_to(p, ':');
    if c >= p.len() {
        None
    } else if trim_spec(p.subrange(0, c as int)) == key {
        Some(trim_spec(p.subrange(c + 1 as int, p.len() as int)))
    } else {
        None
    }
}

/// The numeric value a piece contributes: its text value read as a
/// 64-bit numeral, or nothing if it does not parse.
pub open spec fn piece_num(p: Seq<char>, key: Seq<char>) -> Option<u64> {
    match piece_text(p, key) {
        Some(v) => parse_u64_spec(v),
        None => None,
    }
}

/// The text value of `key` over the whole blob: the last piece that sets
/// it wins.
pub open spec fn field_text(s: Seq<char>, key: Seq<char>) -> Option<Seq<char>>
    decreases s.len(),
{
    let j = dist_to(s, ',');
    if j >= s.len() {
        piece_text(s, key)
    } else {
        prefer(
            field_text(s.subrange(j + 1 as int, s.len() as int), key),
            piece_text(s.subrange(0, j as int), key),
        )
    }
}

/// The numeric value of `key` over the whole blob: the last piece whose
/// value parses wins.
pub open spec fn field_num(s: Seq<char>, key: Seq<char>) -> Option<u64>
    decreases s.len(),
{
    let j = dist_to(s, ',');
    if j >= s.len() {
        piece_num(s, key)
    } else {
        prefer(
            field_num(s.subrange(j + 1 as int, s.len() as int), key),
            piece_num(s.subrange(0, j as int), key),
        )
    }
}

/// What each of the six recognized keys received, if anything.
pub ghost struct ProofFields {
    pub task_id: Option<u64>,
    pub nonce: Option<u64>,
    pub challenge: Option<Seq<char>>,
    pub solution: Option<Seq<char>>,
    pub proof_field: Option<Seq<char>>,
    pub target: Option<u64>,
}

pub open spec fn proof_fields(s: Seq<char>) -> ProofFields {
    ProofFields {
        task_id: field_num(s, "task_id"@),
        nonce: field_num(s, "nonce"@),
        challenge: field_text(s, "challenge"@),
        solution: field_text(s, "solution"@),
        proof_field: field_text(s, "proof"@),
        target: field_num(s, "target"@),
    }
}

/// A blob parses exactly when all six keys received a value.
pub open spec fn proof_complete(s: Seq<char>) -> bool {
    let f = proof_fields(s);
    &&& f.task_id is Some
    &&& f.nonce is Some
    &&& f.challenge is Some
    &&& f.solution is Some
    &&& f.proof_field is Some
    &&& f.target is Some
}

/// The record a complete blob denotes.
pub open spec fn parsed_of(s: Seq<char>) -> ParsedProofView
    recommends
        proof_complete(s),
{
    let f = proof_fields(s);
    ParsedProofView {
        task_id: f.task_id->0,
        nonce: f.nonce->0,
        epoch_challenge: f.challenge->0,
        solution_commitment: f.solution->0,
        proof_bytes: f.proof_field->0,
        target: f.target->0,
    }
}

/// The six recognized keys never coincide.
pub proof fn lemma_keys_distinct()
    ensures
        "task_id"@ != "nonce"@,
        "task_id"@ != "challenge"@,
        "task_id"@ != "solution"@,
        "task_id"@ != "proof"@,
        "task_id"@ != "target"@,
        "nonce"@ != "challenge"@,
        "nonce"@ != "solution"@,
        "nonce"@ != "proof"@,
        "nonce"@ != "target"@,
        "challenge"@ != "solution"@,
        "challenge"@ != "proof"@,
        "challenge"@ != "target"@,
        "solution"@ != "proof"@,
        "solution"@ != "target"@,
        "proof"@ != "target"@,
{
    reveal_strlit("task_id");
    reveal_strlit("nonce");
    reveal_strlit("challenge");
    reveal_strlit("solution");
    reveal_strlit("proof");
    reveal_strlit("target");
    assert("task_id"@.len() == 7);
    assert("nonce"@.len() == 5);
    assert("challenge"@.len() == 9);
    assert("solution"@.len() == 8);
    assert("proof"@.len() == 5);
    assert("target"@.len() == 6);
    assert("nonce"@[0] == 'n' && "proof"@[0] == 'p');
}

/// The executable key strings, one per recognized field.
struct Keys {
    task_id: Vec<char>,
    nonce: Vec<char>,
    challenge: Vec<char>,
    solution: Vec<char>,
    proof_key: Vec<char>,
    target: Vec<char>,
}

impl Keys {
    spec fn wf(&self) -> bool {
        &&& self.task_id@ == "task_id"@
        &&& self.nonce@ == "nonce"@
        &&& self.challenge@ == "challenge"@
        &&& self.solution@ == "solution"@
        &&& self.proof_key@ == "proof"@
        &&& self.target@ == "target"@
    }

    fn new() -> (r: Keys)
        ensures
            r.wf(),
    {
        Keys {
            task_id: chars_of("task_id"),
            nonce: chars_of("nonce"),
            challenge: chars_of("challenge"),
            solution: chars_of("solution"),
            proof_key: chars_of("proof"),
            target: chars_of("target"),
        }
    }
}

/// What one piece contributes to the six fields.
enum PieceValue {
    TaskId(u64),
    Nonce(u64),
    Challenge(String),
    Solution(String),
    ProofField(String),
    Target(u64),
    Nothing,
}

/// Reads the piece `v[lo..hi]` and reports which field it sets, if any.
fn classify_piece(v: &Vec<char>, lo: usize, hi: usize, keys: &Keys) -> (r: PieceValue)
    requires
        lo <= hi <= v.len(),
        keys.wf(),
    ensures
        ({
            let p = v@.subrange(lo as int, hi as int);
            &&& piece_num(p, "task_id"@) == (match r {
                PieceValue::TaskId(x) => Some(x),
                _ => None,
            })
            &&& piece_num(p, "nonce"@) == (match r {
                PieceValue::Nonce(x) => Some(x),
                _ => None,
            })
            &&& piece_text(p, "challenge"@) == (match r {
                PieceValue::Challenge(s) => Some(s@),
                _ => None,
            })
            &&& piece_text(p, "solution"@) == (match r {
                PieceValue::Solution(s) => Some(s@),
                _ => None,
            })
            &&& piece_text(p, "proof"@) == (match r {
                PieceValue::ProofField(s) => Some(s@),
                _ => None,
            })
            &&& piece_num(p, "target"@) == (match r {
                PieceValue::Target(x) => Some(x),
                _ => None,
            })
        }),
{
    let ghost p = v@.subrange(lo as int, hi as int);
    let c = find_from(v, ':', lo, hi);
    proof {
        assert forall|k: int| 0 <= k < c - lo implies p[k] != ':' by {
            assert(p[k] == v@[lo + k]);
        }
        assert(c - lo < p.len() ==> p[c - lo] == v@[c as int]);
        crate::text::lemma_dist_to_is(p, ':', c - lo);
    }
    if c == hi {
        return PieceValue::Nothing;
    }
    let key_range = trim_range(v, lo, c);
    let val_range = trim_range(v, c + 1, hi);
    let (klo, khi) = key_range;
    let (vlo, vhi) = val_range;
    proof {
        lemma_keys_distinct();
        assert(p.subrange(0, c - lo) =~= v@.subrange(lo as int, c as int));
        assert(p.subrange(c - lo + 1, p.len() as int) =~= v@.subrange(c + 1 as int, hi as int));
        assert(trim_spec(p.subrange(0, c - lo)) == v@.subrange(klo as int, khi as int));
        assert(trim_spec(p.subrange(c - lo + 1, p.len() as int)) == v@.subrange(
            vlo as int,
            vhi as int,
        ));
    }
    if range_eq(v, klo, khi, &keys.task_id) {
        match parse_u64_range(v, vlo, vhi) {
            Some(x) => PieceValue::TaskId(x),
            None => PieceValue::Nothing,
        }
    } else if range_eq(v, klo, khi, &keys.nonce) {
        match parse_u64_range(v, vlo, vhi) {
            Some(x) => PieceValue::Nonce(x),
            None => PieceValue::Nothing,
        }
    } else if range_eq(v, klo, khi, &keys.target) {
        match parse_u64_range(v, vlo, vhi) {
            Some(x) => PieceValue::Target(x),
            None => PieceValue::Nothing,
        }
    } else if range_eq(v, klo, khi, &keys.challenge) {
        let text = string_from_chars(&copy_range(v, vlo, vhi));
        PieceValue::Challenge(text)
    } else if range_eq(v, klo, khi, &keys.solution) {
        let text = string_from_chars(&copy_range(v, vlo, vhi));
        PieceValue::Solution(text)
    } else if range_eq(v, klo, khi, &keys.proof_key) {
        let text = string_from_chars(&copy_range(v, vlo, vhi));
        PieceValue::ProofField(text)
    } else {
        PieceValue::Nothing
    }
}

pub open spec fn opt_str_view(o: Option<String>) -> Option<Seq<char>> {
    match o {
        Some(s) => Some(s@),
        None => None,
    }
}

/// Decodes the raw proof blob into its six named fields.
///
/// Pure in its input: the result is a function of the blob's characters
/// alone.  A blob in which any of the six keys is missing (or only
/// carries unusable numeric text) yields `ParseError::Incomplete`.
pub fn parse_proof(raw: &str) -> (r: Result<ParsedProof, ParseError>)
    ensures
        (r is Ok) == proof_complete(raw@),
        r matches Ok(p) ==> p@ == parsed_of(raw@),
        r matches Err(e) ==> e is Incomplete,
{
    let v = chars_of(raw);
    let keys = Keys::new();
    let n = v.len();
    let mut task_id: Option<u64> = None;
    let mut nonce: Option<u64> = None;
    let mut challenge: Option<String> = None;
    let mut solution: Option<String> = None;
    let mut proof_field: Option<String> = None;
    let mut target: Option<u64> = None;
    let mut i: usize = 0;
    proof {
        assert(v@.subrange(0, n as int) =~= raw@);
    }
    loop
        invariant
            v@ == raw@,
            n == v.len(),
            keys.wf(),
            i <= n,
            field_num(raw@, "task_id"@) == prefer(
                field_num(v@.subrange(i as int, n as int), "task_id"@),
                task_id,
            ),
            field_num(raw@, "nonce"@) == prefer(
                field_num(v@.subrange(i as int, n as int), "nonce"@),
                nonce,
            ),
            field_text(raw@, "challenge"@) == prefer(
                field_text(v@.subrange(i as int, n as int), "challenge"@),
                opt_str_view(challenge),
            ),
            field_text(raw@, "solution"@) == prefer(
                field_text(v@.subrange(i as int, n as int), "solution"@),
                opt_str_view(solution),
            ),
            field_text(raw@, "proof"@) == prefer(
                field_text(v@.subrange(i as int, n as int), "proof"@),
                opt_str_view(proof_field),
            ),
            field_num(raw@, "target"@) == prefer(
                field_num(v@.subrange(i as int, n as int), "target"@),
                target,
            ),
        ensures
            field_num(raw@, "task_id"@) == task_id,
            field_num(raw@, "nonce"@) == nonce,
            field_text(raw@, "challenge"@) == opt_str_view(challenge),
            field_text(raw@, "solution"@) == opt_str_view(solution),
            field_text(raw@, "proof"@) == opt_str_view(proof_field),
            field_num(raw@, "target"@) == target,
        decreases n - i,
    {
        let j = find_from(&v, ',', i, n);
        let ghost s_tail = v@.subrange(i as int, n as int);
        let ghost p = v@.subrange(i as int, j as int);
        proof {
            assert forall|k: int| 0 <= k < j - i implies s_tail[k] != ',' by {
                assert(s_tail[k] == v@[i + k]);
            }
            assert(j - i < s_tail.len() ==> s_tail[j - i] == v@[j as int]);
            crate::text::lemma_dist_to_is(s_tail, ',', j - i);
            assert(s_tail.subrange(0, j - i) =~= p);
            if j < n {
                assert(s_tail.subrange(j - i + 1, s_tail.len() as int) =~= v@.subrange(
                    j + 1 as int,
                    n as int,
                ));
            }
        }
        let piece = classify_piece(&v, i, j, &keys);
        match piece {
            PieceValue::TaskId(x) => { task_id = Some(x); },
            PieceValue::Nonce(x) => { nonce = Some(x); },
            PieceValue::Challenge(s) => { challenge = Some(s); },
            PieceValue::Solution(s) => { solution = Some(s); },
            PieceValue::ProofField(s) => { proof_field = Some(s); },
            PieceValue::Target(x) => { target = Some(x); },
            PieceValue::Nothing => {},
        }
        if j < n {
            i = j + 1;
        } else {
            break;
        }
    }
    if task_id.is_some() && nonce.is_some() && challenge.is_some() && solution.is_some()
        && proof_field.is_some() && target.is_some() {
        Ok(
            ParsedProof {
                task_id: task_id.unwrap(),
                nonce: nonce.unwrap(),
                epoch_challenge: challenge.unwrap(),
                solution_commitment: solution.unwrap(),
                proof_bytes: proof_field.unwrap(),
                target: target.unwrap(),
            },
        )
    } else {
        Err(ParseError::Incomplete)
    }
}

/// The same parse, handing the fields back as one tuple:
/// `(task_id, nonce, challenge, solution, proof, target)`.
pub fn parse_parameters(input: &str) -> (r: Option<(u64, u64, String, String, String, u64)>)
    ensures
        (r is Some) == proof_complete(input@),
        r matches Some(t) ==> ({
            let p = parsed_of(input@);
            &&& t.0 == p.task_id
            &&& t.1 == p.nonce
            &&& t.2@ == p.epoch_challenge
            &&& t.3@ == p.solution_commitment
            &&& t.4@ == p.proof_bytes
            &&& t.5 == p.target
        }),
{
    match parse_proof(input) {
        Ok(p) => Some(
            (
                p.task_id,
                p.nonce,
                p.epoch_challenge,
                p.solution_commitment,
                p.proof_bytes,
                p.target,
            ),
        ),
        Err(_) => None,
    }
}

} // verus!
