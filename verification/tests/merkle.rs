use anchor_lang::prelude::Pubkey as Address;
use sha2::{Digest, Sha256};
use xvault::rewards::{compute_leaf, verify_proof};
use xvault::Pubkey;

fn unique() -> Pubkey {
    Pubkey::new(Address::new_unique().to_bytes())
}

#[test]
fn test_merkle_proof_verification() {
    let owner = unique();
    let epoch = 1u64;
    let amount = 1_000_000u64;

    let leaf = compute_leaf(&owner, epoch, amount);

    // Single-leaf tree: root == leaf.
    assert!(verify_proof(&[], &leaf, &leaf));

    // Two-leaf tree.
    let other_leaf = compute_leaf(&unique(), epoch, 500_000);
    let (left, right) = if leaf <= other_leaf {
        (leaf, other_leaf)
    } else {
        (other_leaf, leaf)
    };
    let mut combined = [0u8; 64];
    combined[..32].copy_from_slice(&left);
    combined[32..].copy_from_slice(&right);
    let hash = Sha256::digest(&combined);
    let root: [u8; 32] = hash.into();

    // Prove `leaf` with `other_leaf` as sibling.
    assert!(verify_proof(&[other_leaf], &root, &leaf));
    // Different amount should fail.
    let bad_leaf = compute_leaf(&owner, epoch, 999_999);
    assert!(!verify_proof(&[other_leaf], &root, &bad_leaf));
}

#[test]
fn test_compute_leaf_deterministic() {
    let owner = unique();
    let a = compute_leaf(&owner, 5, 1_000);
    let b = compute_leaf(&owner, 5, 1_000);
    assert_eq!(a, b);
}
