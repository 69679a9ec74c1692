//! Nonce-extension resolution and the minimum-target admission rule.
//!
//! The pool assigns the high-order `length_bytes` bytes of the 64-bit nonce
//! space to the miner; the mask derived from that assignment must be
//! contained in any nonce the miner hands back.  Independently, a claimed
//! difficulty target below the pool's floor is rejected before any
//! cryptographic work is spent on it.

use vstd::prelude::*;

verus! {

/// Error of the admission policy: the nonce-extension length is outside `1..=8`.
#[derive(Clone, Copy, Debug, PartialEq, Eq, Structural)]
pub enum PolicyError {
    InvalidExtensionLength,
}

/// The pool-assigned prefix mask: `value` shifted into the high-order
/// `length_bytes` bytes of the 64-bit nonce space.
pub open spec fn mask_spec(value: u64, length_bytes: u64) -> u64
    recommends
        1 <= length_bytes <= 8,
{
    (value << (((8 - length_bytes) * 8) as u64)) as u64
}

/// A nonce carries the pool assignment when every bit set in the mask is
/// also set in the nonce.
pub open spec fn nonce_matches(nonce: u64, mask: u64) -> bool {
    (mask & nonce) == mask
}

/// The minimum-target admission rule: the claimed target must reach the
/// floor; a tie is accepted.
pub open spec fn target_meets(claimed_target: u64, min_required: u64) -> bool {
    claimed_target >= min_required
}

/// Reconstructs the pool-assigned prefix mask from its compact
/// `(value, length_in_bytes)` encoding.  A length outside `1..=8` is
/// rejected rather than trusted: a length of `0` would shift by 64 bits.
pub fn resolve_mask(value: u64, length_bytes: u64) -> (r: Result<u64, PolicyError>)
    ensures
        1 <= length_bytes <= 8 ==> (r matches Ok(m) && m == mask_spec(value, length_bytes)),
        !(1 <= length_bytes <= 8) ==> (r matches Err(e) && e is InvalidExtensionLength),
{
    if 1 <= length_bytes && length_bytes <= 8 {
        let shift: u64 = (8 - length_bytes) * 8;
        Ok(value << shift)
    } else {
        Err(PolicyError::InvalidExtensionLength)
    }
}

/// Bitmask containment check: the nonce must have every pool-assigned bit
/// set exactly as assigned; the low, miner-chosen bits are free.
pub fn nonce_satisfies_extension(nonce: u64, mask: u64) -> (r: bool)
    ensures
        r == nonce_matches(nonce, mask),
{
    (mask & nonce) == mask
}

/// The admission rule as executable code.
pub fn meets_minimum_target(claimed_target: u64, min_required: u64) -> (r: bool)
    ensures
        r == target_meets(claimed_target, min_required),
{
    claimed_target >= min_required
}

/// A mask always contains itself: a nonce equal to the pool-assigned mask
/// passes the containment check.
pub proof fn lemma_mask_self_contained(value: u64, length_bytes: u64)
    requires
        1 <= length_bytes <= 8,
    ensures
        nonce_matches(mask_spec(value, length_bytes), mask_spec(value, length_bytes)),
{
    let m = mask_spec(value, length_bytes);
    assert((m & m) == m) by (bit_vector);
}

/// Clearing any single pool-assigned bit of the nonce (flipping a bit that
/// the mask has set) makes the containment check fail.
pub proof fn lemma_mask_bit_flip(value: u64, length_bytes: u64, bit: u64)
    requires
        1 <= length_bytes <= 8,
        bit < 64,
        mask_spec(value, length_bytes) & (1u64 << bit) != 0,
    ensures
        !nonce_matches(mask_spec(value, length_bytes) ^ (1u64 << bit), mask_spec(value, length_bytes)),
{
    let m = mask_spec(value, length_bytes);
    assert(bit < 64 && (m & (1u64 << bit)) != 0 ==> (m & (m ^ (1u64 << bit))) != m)
        by (bit_vector);
}

/// A tie between the claimed target and the floor is acceptance.
pub proof fn lemma_minimum_target_tie(t: u64)
    ensures
        target_meets(t, t),
{
}

/// A claimed target strictly below the floor is rejected.
pub proof fn lemma_minimum_target_strict(t: u64)
    requires
        t < u64::MAX,
    ensures
        !target_meets(t, (t + 1) as u64),
{
}

} // verus!
