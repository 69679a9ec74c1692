//! Hex decoding of the epoch challenge and proof fields, specified at the
//! character level and carried out by the `hex` crate.

use vstd::prelude::*;
use crate::text::{digit_value, is_hex_digit};

verus! {

/// A string that hex-decodes: an even number of characters, each an ASCII
/// hex digit of either case.
pub open spec fn hex_ok(s: Seq<char>) -> bool {
    &&& s.len() % 2 == 0
    &&& forall|i: int| 0 <= i < s.len() ==> is_hex_digit(s[i])
}

/// The bytes a hex string denotes: one byte per digit pair, high nibble
/// first.
pub open spec fn hex_bytes(s: Seq<char>) -> Seq<u8>
    decreases s.len(),
{
    if s.len() < 2 {
        Seq::empty()
    } else {
        seq![((digit_value(s[0]) * 16 + digit_value(s[1])) as u8)].add(
            hex_bytes(s.subrange(2, s.len() as int)),
        )
    }
}

/// Relies on `hex::decode` (hex 0.4): it succeeds exactly on an
/// even-length string of ASCII hex digits, upper or lower case, and
/// returns one byte per digit pair, high nibble first.
#[verifier::external_body]
pub fn hex_decode(s: &str) -> (r: Option<Vec<u8>>)
    ensures
        (r is Some) == hex_ok(s@),
        r matches Some(b) ==> b@ == hex_bytes(s@),
{
    hex::decode(s).ok()
}

} // verus!
