use aleo_gateway::policy::{
    meets_minimum_target, nonce_satisfies_extension, resolve_mask, PolicyError,
};

#[test]
fn mask_shifts_value_into_high_bytes() {
    assert_eq!(resolve_mask(0x1, 1), Ok(0x0100000000000000));
    assert_eq!(resolve_mask(0xab, 1), Ok(0xab00000000000000));
    assert_eq!(resolve_mask(0xabcd, 2), Ok(0xabcd000000000000));
    // A length of 8 assigns the whole nonce.
    assert_eq!(resolve_mask(0x1122334455667788, 8), Ok(0x1122334455667788));
}

#[test]
fn mask_rejects_out_of_range_lengths() {
    assert_eq!(resolve_mask(0x1, 0), Err(PolicyError::InvalidExtensionLength));
    assert_eq!(resolve_mask(0x1, 9), Err(PolicyError::InvalidExtensionLength));
    assert_eq!(resolve_mask(0x1, u64::MAX), Err(PolicyError::InvalidExtensionLength));
}

#[test]
fn nonce_equal_to_mask_is_contained() {
    for len in 1..=8u64 {
        // A value filling all of its pool-assigned bytes.
        let value = if len == 8 { u64::MAX } else { (1u64 << (8 * len)) - 1 };
        let mask = resolve_mask(value, len).unwrap();
        assert!(nonce_satisfies_extension(mask, mask));
    }
}

#[test]
fn clearing_any_assigned_bit_fails_containment() {
    let mask = resolve_mask(0x1, 1).unwrap();
    assert_eq!(mask, 0x0100000000000000);
    // The mask has exactly bit 56 set; a nonce without it fails.
    assert!(!nonce_satisfies_extension(mask ^ (1u64 << 56), mask));
    assert!(!nonce_satisfies_extension(0, mask));
    // Extra low bits are the miner's to choose.
    assert!(nonce_satisfies_extension(mask | 0xfff, mask));

    let mask = resolve_mask(0xff, 2).unwrap();
    for bit in 48..56 {
        assert!(!nonce_satisfies_extension(mask ^ (1u64 << bit), mask));
    }
}

#[test]
fn minimum_target_tie_is_acceptance() {
    for t in [0u64, 1, 499, 500, u64::MAX] {
        assert!(meets_minimum_target(t, t));
    }
    assert!(!meets_minimum_target(499, 500));
    assert!(!meets_minimum_target(0, 1));
    assert!(!meets_minimum_target(u64::MAX - 1, u64::MAX));
    assert!(meets_minimum_target(501, 500));
}
