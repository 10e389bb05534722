//! Merkle proofs over SHA-256: leaves commit to a claim, inner nodes to a sorted pair.

use sha2::{Digest, Sha256};
use vstd::bytes::u64_to_le_bytes;
use vstd::prelude::*;

use crate::pubkey::{same_bytes, Pubkey};

verus! {

/// What SHA-256 makes of `data`.
pub uninterp spec fn sha256_digest(data: Seq<u8>) -> [u8; 32];

/// Calls `sha2::Sha256::digest`: the SHA-256 hash of `data`, 32 bytes that depend on `data`
/// alone. The hasher counts the message's bits in a `u64`, so `data` is shorter than 2^61 bytes.
#[verifier::external_body]
fn sha256(data: &[u8]) -> (digest: [u8; 32])
    requires
        data@.len() < 0x2000_0000_0000_0000,
    ensures
        digest == sha256_digest(data@),
{
    Sha256::digest(data).into()
}

/// Whether `a` comes no later than `b` in lexicographic order.
pub open spec fn lex_le(a: Seq<u8>, b: Seq<u8>) -> bool
    decreases a.len(),
{
    if a.len() == 0 {
        true
    } else if b.len() == 0 {
        false
    } else if a[0] != b[0] {
        a[0] < b[0]
    } else {
        lex_le(a.skip(1), b.skip(1))
    }
}

/// The bytes that a claim's leaf is the hash of: owner, epoch and amount, the numbers in
/// little-endian order.
pub open spec fn leaf_bytes(owner: Pubkey, epoch: u64, amount: u64) -> Seq<u8> {
    owner@ + vstd::bytes::spec_u64_to_le_bytes(epoch) + vstd::bytes::spec_u64_to_le_bytes(amount)
}

/// The leaf of a claim.
pub open spec fn leaf_of(owner: Pubkey, epoch: u64, amount: u64) -> [u8; 32] {
    sha256_digest(leaf_bytes(owner, epoch, amount))
}

/// The bytes that an inner node is the hash of: its two children, the smaller one first.
pub open spec fn pair_bytes(a: Seq<u8>, b: Seq<u8>) -> Seq<u8> {
    if lex_le(a, b) {
        a + b
    } else {
        b + a
    }
}

/// The inner node over two children.
pub open spec fn node_of(a: [u8; 32], b: [u8; 32]) -> [u8; 32] {
    sha256_digest(pair_bytes(a@, b@))
}

/// The root that `leaf` leads to when it is joined with each node of `proof` in turn.
pub open spec fn root_from(leaf: [u8; 32], proof: Seq<[u8; 32]>) -> [u8; 32]
    decreases proof.len(),
{
    if proof.len() == 0 {
        leaf
    } else {
        node_of(root_from(leaf, proof.drop_last()), proof.last())
    }
}

/// Whether `a` comes no later than `b` in lexicographic order.
fn precedes(a: &[u8; 32], b: &[u8; 32]) -> (le: bool)
    ensures
        le == lex_le(a@, b@),
{
    let mut i: usize = 0;
    assert(a@.skip(0) =~= a@);
    assert(b@.skip(0) =~= b@);
    while i < 32
        invariant
            i <= 32,
            lex_le(a@, b@) == lex_le(a@.skip(i as int), b@.skip(i as int)),
        decreases 32 - i,
    {
        assert(a@.skip(i as int).skip(1) =~= a@.skip(i + 1));
        assert(b@.skip(i as int).skip(1) =~= b@.skip(i + 1));
        if a[i] != b[i] {
            return a[i] < b[i];
        }
        i = i + 1;
    }
    true
}

/// The bytes that a claim's leaf is the hash of.
pub fn leaf_preimage(owner: &Pubkey, epoch: u64, amount: u64) -> (data: Vec<u8>)
    ensures
        data@ == leaf_bytes(*owner, epoch, amount),
        data@.len() == 48,
{
    let mut data: Vec<u8> = Vec::with_capacity(32 + 8 + 8);
    data.extend_from_slice(owner.bytes.as_slice());
    let epoch_bytes: Vec<u8> = u64_to_le_bytes(epoch);
    let amount_bytes: Vec<u8> = u64_to_le_bytes(amount);
    data.extend_from_slice(epoch_bytes.as_slice());
    data.extend_from_slice(amount_bytes.as_slice());
    assert(data@ =~= leaf_bytes(*owner, epoch, amount));
    data
}

/// The bytes that the inner node over `a` and `b` is the hash of.
pub fn pair_preimage(a: &[u8; 32], b: &[u8; 32]) -> (data: Vec<u8>)
    ensures
        data@ == pair_bytes(a@, b@),
        data@.len() == 64,
{
    let mut data: Vec<u8> = Vec::with_capacity(64);
    if precedes(a, b) {
        data.extend_from_slice(a.as_slice());
        data.extend_from_slice(b.as_slice());
    } else {
        data.extend_from_slice(b.as_slice());
        data.extend_from_slice(a.as_slice());
    }
    assert(data@ =~= pair_bytes(a@, b@));
    data
}

/// The leaf that commits to a claim of `amount` by `owner` in `epoch`.
pub fn compute_leaf(owner: &Pubkey, epoch: u64, amount: u64) -> (leaf: [u8; 32])
    ensures
        leaf == leaf_of(*owner, epoch, amount),
{
    let data: Vec<u8> = leaf_preimage(owner, epoch, amount);
    sha256(data.as_slice())
}

/// Whether `proof` leads from `leaf` to `root`.
pub fn verify_proof(proof: &[[u8; 32]], root: &[u8; 32], leaf: &[u8; 32]) -> (valid: bool)
    ensures
        valid == (root_from(*leaf, proof@) == *root),
{
    let mut computed: [u8; 32] = *leaf;
    let mut i: usize = 0;
    while i < proof.len()
        invariant
            i <= proof.len(),
            computed == root_from(*leaf, proof@.take(i as int)),
        decreases proof.len() - i,
    {
        assert(proof@.take(i + 1).drop_last() =~= proof@.take(i as int));
        let data: Vec<u8> = pair_preimage(&computed, &proof[i]);
        computed = sha256(data.as_slice());
        i = i + 1;
    }
    assert(proof@.take(i as int) =~= proof@);
    same_bytes(&computed, root)
}

} // verus!
