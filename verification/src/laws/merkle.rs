//! Merkle proofs: what a root commits to.

use vstd::prelude::*;

use crate::pubkey::Pubkey;

verus! {

/// A Merkle tree over claims.
pub enum ClaimTree {
    Leaf { owner: Pubkey, epoch: u64, amount: u64 },
    Node { left: Box<ClaimTree>, right: Box<ClaimTree> },
}

impl ClaimTree {
    /// The root of the tree.
    pub open spec fn root(self) -> [u8; 32]
        decreases self,
    {
        match self {
            ClaimTree::Leaf { owner, epoch, amount } => crate::rewards::merkle::leaf_of(
                owner,
                epoch,
                amount,
            ),
            ClaimTree::Node { left, right } => crate::rewards::merkle::node_of(
                left.root(),
                right.root(),
            ),
        }
    }

    /// Whether the claim is a leaf of the tree.
    pub open spec fn has_claim(self, owner: Pubkey, epoch: u64, amount: u64) -> bool
        decreases self,
    {
        match self {
            ClaimTree::Leaf { owner: o, epoch: e, amount: a } => {
                &&& o == owner
                &&& e == epoch
                &&& a == amount
            },
            ClaimTree::Node { left, right } => {
                ||| left.has_claim(owner, epoch, amount)
                ||| right.has_claim(owner, epoch, amount)
            },
        }
    }

    /// Whether `x` is one of the strings that are hashed to build the tree.
    pub open spec fn hashes(self, x: Seq<u8>) -> bool
        decreases self,
    {
        match self {
            ClaimTree::Leaf { owner, epoch, amount } => x == crate::rewards::merkle::leaf_bytes(
                owner,
                epoch,
                amount,
            ),
            ClaimTree::Node { left, right } => {
                ||| x == crate::rewards::merkle::pair_bytes(left.root()@, right.root()@)
                ||| left.hashes(x)
                ||| right.hashes(x)
            },
        }
    }

    /// The nodes beside the path from the claim's leaf to the root.
    pub open spec fn proof_of(self, owner: Pubkey, epoch: u64, amount: u64) -> Seq<[u8; 32]>
        decreases self,
    {
        match self {
            ClaimTree::Leaf { .. } => Seq::empty(),
            ClaimTree::Node { left, right } => if left.has_claim(owner, epoch, amount) {
                left.proof_of(owner, epoch, amount).push(right.root())
            } else {
                right.proof_of(owner, epoch, amount).push(left.root())
            },
        }
    }
}

/// Whether two different strings have the same digest.
pub open spec fn collide(x: Seq<u8>, y: Seq<u8>) -> bool {
    &&& x != y
    &&& crate::rewards::merkle::sha256_digest(x) == crate::rewards::merkle::sha256_digest(y)
}

/// Whether `x` is one of the strings that are hashed on the way from a claim to the root that
/// `proof_nodes` lead to.
pub open spec fn path_hashes(
    owner: Pubkey,
    epoch: u64,
    amount: u64,
    proof_nodes: Seq<[u8; 32]>,
    x: Seq<u8>,
) -> bool
    decreases proof_nodes.len(),
{
    if proof_nodes.len() == 0 {
        x == crate::rewards::merkle::leaf_bytes(owner, epoch, amount)
    } else {
        let below = crate::rewards::merkle::root_from(
            crate::rewards::merkle::leaf_of(owner, epoch, amount),
            proof_nodes.drop_last(),
        );
        ||| x == crate::rewards::merkle::pair_bytes(below@, proof_nodes.last()@)
        ||| path_hashes(owner, epoch, amount, proof_nodes.drop_last(), x)
    }
}

/// Of two strings one comes no later than the other.
proof fn lemma_lex_total(a: Seq<u8>, b: Seq<u8>)
    ensures
        crate::rewards::merkle::lex_le(a, b) || crate::rewards::merkle::lex_le(b, a),
    decreases a.len(),
{
    if a.len() > 0 && b.len() > 0 && a[0] == b[0] {
        lemma_lex_total(a.skip(1), b.skip(1));
    }
}

/// Two strings of the same length that come no later than each other are equal.
proof fn lemma_lex_antisymmetric(a: Seq<u8>, b: Seq<u8>)
    requires
        a.len() == b.len(),
        crate::rewards::merkle::lex_le(a, b),
        crate::rewards::merkle::lex_le(b, a),
    ensures
        a == b,
    decreases a.len(),
{
    if a.len() > 0 {
        lemma_lex_antisymmetric(a.skip(1), b.skip(1));
        assert(a =~= seq![a[0]] + a.skip(1));
        assert(b =~= seq![b[0]] + b.skip(1));
    } else {
        assert(a =~= b);
    }
}

/// The order of two children does not matter: an inner node is the same either way.
pub proof fn law_children_commute(a: [u8; 32], b: [u8; 32])
    ensures
        crate::rewards::merkle::pair_bytes(a@, b@) == crate::rewards::merkle::pair_bytes(b@, a@),
        crate::rewards::merkle::node_of(a, b) == crate::rewards::merkle::node_of(b, a),
{
    lemma_lex_total(a@, b@);
    if crate::rewards::merkle::lex_le(a@, b@) && crate::rewards::merkle::lex_le(b@, a@) {
        lemma_lex_antisymmetric(a@, b@);
    }
}

/// A string comes no later than another if it is smaller at the first byte where they differ.
proof fn lemma_first_difference_decides(a: Seq<u8>, b: Seq<u8>, i: int)
    requires
        a.len() == b.len(),
        0 <= i <= a.len(),
        forall|k: int| 0 <= k < i ==> a[k] == #[trigger] b[k],
        i < a.len() ==> a[i] < b[i],
    ensures
        crate::rewards::merkle::lex_le(a, b),
    decreases a.len(),
{
    if a.len() > 0 && i > 0 {
        assert(a[0] == b[0]);
        assert forall|k: int| 0 <= k < i - 1 implies a.skip(1)[k] == #[trigger] b.skip(1)[k] by {
            assert(a[k + 1] == b[k + 1]);
        }
        lemma_first_difference_decides(a.skip(1), b.skip(1), i - 1);
    }
}

/// An inner node is the SHA-256 hash of its two children one after the other, first the one that is
/// smaller at the first byte where they differ; `i` is that byte, or 32 where they do not.
pub proof fn law_node_hashes_smaller_child_first(a: [u8; 32], b: [u8; 32], i: int)
    requires
        0 <= i <= 32,
        forall|k: int| 0 <= k < i ==> a@[k] == #[trigger] b@[k],
        i < 32 ==> a@[i] < b@[i],
    ensures
        crate::rewards::merkle::pair_bytes(a@, b@) == a@ + b@,
        crate::rewards::merkle::pair_bytes(b@, a@) == a@ + b@,
        crate::rewards::merkle::node_of(a, b) == crate::rewards::merkle::sha256_digest(a@ + b@),
        crate::rewards::merkle::node_of(b, a) == crate::rewards::merkle::sha256_digest(a@ + b@),
{
    lemma_first_difference_decides(a@, b@, i);
    law_children_commute(a, b);
}

/// A leaf is the SHA-256 hash of 48 bytes: the owner, the epoch and the amount, the numbers lowest
/// byte first.
pub proof fn law_leaf_hashes_owner_epoch_amount(owner: Pubkey, epoch: u64, amount: u64)
    ensures
        ({
            let data = crate::rewards::merkle::leaf_bytes(owner, epoch, amount);
            &&& data.len() == 48
            &&& data.subrange(0, 32) == owner.bytes@
            &&& data.subrange(32, 40) == vstd::bytes::spec_u64_to_le_bytes(epoch)
            &&& data.subrange(40, 48) == vstd::bytes::spec_u64_to_le_bytes(amount)
            &&& crate::rewards::merkle::leaf_of(owner, epoch, amount)
                == crate::rewards::merkle::sha256_digest(data)
        }),
{
    vstd::bytes::lemma_auto_spec_u64_to_from_le_bytes();
    let data = crate::rewards::merkle::leaf_bytes(owner, epoch, amount);
    assert(data.subrange(0, 32) =~= owner.bytes@);
    assert(data.subrange(32, 40) =~= vstd::bytes::spec_u64_to_le_bytes(epoch));
    assert(data.subrange(40, 48) =~= vstd::bytes::spec_u64_to_le_bytes(amount));
}

/// A proof climbs one level per node: no nodes leave the leaf, and a further node joins what the
/// others lead to.
pub proof fn law_proof_climbs_level_by_level(
    leaf: [u8; 32],
    proof_nodes: Seq<[u8; 32]>,
    last: [u8; 32],
)
    ensures
        crate::rewards::merkle::root_from(leaf, Seq::empty()) == leaf,
        crate::rewards::merkle::root_from(leaf, proof_nodes.push(last))
            == crate::rewards::merkle::node_of(
            crate::rewards::merkle::root_from(leaf, proof_nodes),
            last,
        ),
{
    assert(proof_nodes.push(last).drop_last() =~= proof_nodes);
}

/// Two pairs with the same bytes have the same children, in one order or the other.
proof fn lemma_pair_bytes_injective(a: [u8; 32], b: [u8; 32], c: [u8; 32], d: [u8; 32])
    requires
        crate::rewards::merkle::pair_bytes(a@, b@) == crate::rewards::merkle::pair_bytes(c@, d@),
    ensures
        (a == c && b == d) || (a == d && b == c),
{
    let ab = crate::rewards::merkle::pair_bytes(a@, b@);
    let cd = crate::rewards::merkle::pair_bytes(c@, d@);
    let (p, q) = if crate::rewards::merkle::lex_le(a@, b@) {
        (a, b)
    } else {
        (b, a)
    };
    let (r, s) = if crate::rewards::merkle::lex_le(c@, d@) {
        (c, d)
    } else {
        (d, c)
    };
    assert(ab == p@ + q@ && cd == r@ + s@);
    assert(p@ =~= ab.subrange(0, 32) && q@ =~= ab.subrange(32, 64));
    assert(r@ =~= cd.subrange(0, 32) && s@ =~= cd.subrange(32, 64));
    assert(p =~= r && q =~= s);
}

/// A leaf commits to every part of its claim: different claims are hashed from different bytes.
pub proof fn law_leaf_bytes_bind_claim(
    owner1: Pubkey,
    epoch1: u64,
    amount1: u64,
    owner2: Pubkey,
    epoch2: u64,
    amount2: u64,
)
    ensures
        crate::rewards::merkle::leaf_bytes(owner1, epoch1, amount1)
            == crate::rewards::merkle::leaf_bytes(owner2, epoch2, amount2) ==> owner1 == owner2
            && epoch1 == epoch2 && amount1 == amount2,
        crate::rewards::merkle::leaf_bytes(owner1, epoch1, amount1).len() == 48,
{
    vstd::bytes::lemma_auto_spec_u64_to_from_le_bytes();
    let x = crate::rewards::merkle::leaf_bytes(owner1, epoch1, amount1);
    let y = crate::rewards::merkle::leaf_bytes(owner2, epoch2, amount2);
    let e1 = vstd::bytes::spec_u64_to_le_bytes(epoch1);
    let e2 = vstd::bytes::spec_u64_to_le_bytes(epoch2);
    let a1 = vstd::bytes::spec_u64_to_le_bytes(amount1);
    let a2 = vstd::bytes::spec_u64_to_le_bytes(amount2);
    if x == y {
        assert(owner1@ =~= x.subrange(0, 32) && owner2@ =~= y.subrange(0, 32));
        assert(e1 =~= x.subrange(32, 40) && e2 =~= y.subrange(32, 40));
        assert(a1 =~= x.subrange(40, 48) && a2 =~= y.subrange(40, 48));
        assert(owner1.bytes =~= owner2.bytes);
    }
}

/// Every claim of a tree has a proof: the nodes beside its path lead from its leaf to the root.
pub proof fn law_every_claim_is_provable(
    tree: ClaimTree,
    owner: Pubkey,
    epoch: u64,
    amount: u64,
)
    requires
        tree.has_claim(owner, epoch, amount),
    ensures
        crate::rewards::merkle::root_from(
            crate::rewards::merkle::leaf_of(owner, epoch, amount),
            tree.proof_of(owner, epoch, amount),
        ) == tree.root(),
    decreases tree,
{
    match tree {
        ClaimTree::Leaf { .. } => {},
        ClaimTree::Node { left, right } => {
            let proof_nodes = tree.proof_of(owner, epoch, amount);
            if left.has_claim(owner, epoch, amount) {
                law_every_claim_is_provable(*left, owner, epoch, amount);
                assert(proof_nodes.drop_last() =~= left.proof_of(owner, epoch, amount));
            } else {
                law_every_claim_is_provable(*right, owner, epoch, amount);
                assert(proof_nodes.drop_last() =~= right.proof_of(owner, epoch, amount));
                law_children_commute(left.root(), right.root());
            }
        },
    }
}

/// Nothing but the claims of a tree has a proof against its root: a proof of any other claim would
/// hold a collision of SHA-256, between a string on its path and one in the tree.
pub proof fn law_only_claims_are_provable(
    tree: ClaimTree,
    owner: Pubkey,
    epoch: u64,
    amount: u64,
    proof_nodes: Seq<[u8; 32]>,
)
    requires
        crate::rewards::merkle::root_from(
            crate::rewards::merkle::leaf_of(owner, epoch, amount),
            proof_nodes,
        ) == tree.root(),
    ensures
        tree.has_claim(owner, epoch, amount) || exists|x: Seq<u8>, y: Seq<u8>|
            path_hashes(owner, epoch, amount, proof_nodes, x) && tree.hashes(y) && #[trigger]
            collide(x, y),
    decreases proof_nodes.len(),
{
    let leaf = crate::rewards::merkle::leaf_of(owner, epoch, amount);
    let leaf_data = crate::rewards::merkle::leaf_bytes(owner, epoch, amount);
    law_leaf_bytes_bind_claim(owner, epoch, amount, owner, epoch, amount);
    if proof_nodes.len() == 0 {
        assert(path_hashes(owner, epoch, amount, proof_nodes, leaf_data));
        match tree {
            ClaimTree::Leaf { owner: o, epoch: e, amount: a } => {
                law_leaf_bytes_bind_claim(owner, epoch, amount, o, e, a);
                if !tree.has_claim(owner, epoch, amount) {
                    let other = crate::rewards::merkle::leaf_bytes(o, e, a);
                    assert(tree.hashes(other));
                    assert(collide(leaf_data, other));
                }
            },
            ClaimTree::Node { left, right } => {
                let pair = crate::rewards::merkle::pair_bytes(left.root()@, right.root()@);
                assert(pair.len() == 64);
                assert(tree.hashes(pair));
                assert(collide(leaf_data, pair));
            },
        }
    } else {
        let rest = proof_nodes.drop_last();
        let below = crate::rewards::merkle::root_from(leaf, rest);
        let beside = proof_nodes.last();
        let joined = crate::rewards::merkle::pair_bytes(below@, beside@);
        assert(joined.len() == 64);
        assert(path_hashes(owner, epoch, amount, proof_nodes, joined));
        match tree {
            ClaimTree::Leaf { owner: o, epoch: e, amount: a } => {
                law_leaf_bytes_bind_claim(o, e, a, o, e, a);
                let other = crate::rewards::merkle::leaf_bytes(o, e, a);
                assert(tree.hashes(other));
                assert(collide(joined, other));
            },
            ClaimTree::Node { left, right } => {
                let pair = crate::rewards::merkle::pair_bytes(left.root()@, right.root()@);
                if joined != pair {
                    assert(tree.hashes(pair));
                    assert(collide(joined, pair));
                } else {
                    lemma_pair_bytes_injective(below, beside, left.root(), right.root());
                    let child = if below == left.root() {
                        *left
                    } else {
                        *right
                    };
                    law_only_claims_are_provable(child, owner, epoch, amount, rest);
                    if !tree.has_claim(owner, epoch, amount) {
                        let (x, y) = choose|x: Seq<u8>, y: Seq<u8>|
                            path_hashes(owner, epoch, amount, rest, x) && child.hashes(y)
                                && #[trigger] collide(x, y);
                        assert(path_hashes(owner, epoch, amount, proof_nodes, x));
                        assert(tree.hashes(y));
                        assert(collide(x, y));
                    }
                }
            },
        }
    }
}

/// One proof serves one claim: were two different claims led to the same root by the same proof,
/// their paths would hold a collision of SHA-256.
pub proof fn law_proof_serves_one_claim(
    owner1: Pubkey,
    epoch1: u64,
    amount1: u64,
    owner2: Pubkey,
    epoch2: u64,
    amount2: u64,
    proof_nodes: Seq<[u8; 32]>,
)
    requires
        crate::rewards::merkle::root_from(
            crate::rewards::merkle::leaf_of(owner1, epoch1, amount1),
            proof_nodes,
        ) == crate::rewards::merkle::root_from(
            crate::rewards::merkle::leaf_of(owner2, epoch2, amount2),
            proof_nodes,
        ),
    ensures
        (owner1 == owner2 && epoch1 == epoch2 && amount1 == amount2) || exists|
            x: Seq<u8>,
            y: Seq<u8>,
        |
            path_hashes(owner1, epoch1, amount1, proof_nodes, x) && path_hashes(
                owner2,
                epoch2,
                amount2,
                proof_nodes,
                y,
            ) && #[trigger] collide(x, y),
    decreases proof_nodes.len(),
{
    let leaf1 = crate::rewards::merkle::leaf_of(owner1, epoch1, amount1);
    let leaf2 = crate::rewards::merkle::leaf_of(owner2, epoch2, amount2);
    if proof_nodes.len() == 0 {
        let x = crate::rewards::merkle::leaf_bytes(owner1, epoch1, amount1);
        let y = crate::rewards::merkle::leaf_bytes(owner2, epoch2, amount2);
        law_leaf_bytes_bind_claim(owner1, epoch1, amount1, owner2, epoch2, amount2);
        if x != y {
            assert(path_hashes(owner1, epoch1, amount1, proof_nodes, x));
            assert(path_hashes(owner2, epoch2, amount2, proof_nodes, y));
            assert(collide(x, y));
        }
    } else {
        let rest = proof_nodes.drop_last();
        let below1 = crate::rewards::merkle::root_from(leaf1, rest);
        let below2 = crate::rewards::merkle::root_from(leaf2, rest);
        let beside = proof_nodes.last();
        let x = crate::rewards::merkle::pair_bytes(below1@, beside@);
        let y = crate::rewards::merkle::pair_bytes(below2@, beside@);
        if x != y {
            assert(path_hashes(owner1, epoch1, amount1, proof_nodes, x));
            assert(path_hashes(owner2, epoch2, amount2, proof_nodes, y));
            assert(collide(x, y));
        } else {
            lemma_pair_bytes_injective(below1, beside, below2, beside);
            law_proof_serves_one_claim(owner1, epoch1, amount1, owner2, epoch2, amount2, rest);
            if !(owner1 == owner2 && epoch1 == epoch2 && amount1 == amount2) {
                let (u, v) = choose|u: Seq<u8>, v: Seq<u8>|
                    path_hashes(owner1, epoch1, amount1, rest, u) && path_hashes(
                        owner2,
                        epoch2,
                        amount2,
                        rest,
                        v,
                    ) && #[trigger] collide(u, v);
                assert(path_hashes(owner1, epoch1, amount1, proof_nodes, u));
                assert(path_hashes(owner2, epoch2, amount2, proof_nodes, v));
                assert(collide(u, v));
            }
        }
    }
}

} // verus!
