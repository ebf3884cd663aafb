//! Building a Merkle tree over `(recipient, amount)` pairs and generating
//! sibling proofs for its leaves.
//!
//! Levels are built bottom-up: adjacent nodes are combined pairwise and an
//! odd last node is combined with itself. The proof for a leaf collects the
//! sibling at each level, and folding the leaf up that path (as
//! [`crate::utils::spec_fold_proof`] does) reconstructs the root.

use vstd::prelude::*;
use crate::utils::{
    create_airdrop_leaf, hash_pair, spec_airdrop_leaf, spec_fold_proof, spec_hash_pair,
    spec_verify_merkle_proof, views_of,
};
use vstd::slice::slice_index_get;

verus! {

/// The leaf digests of a recipient set: one unclaimed leaf per
/// `(recipient, amount)` pair, in order.
pub open spec fn spec_leaves_of(data: Seq<([u8; 32], u64)>) -> Seq<Seq<u8>> {
    data.map_values(|p: ([u8; 32], u64)| spec_airdrop_leaf(p.0@, p.1, 0))
}

/// One level up the tree: adjacent nodes combined pairwise, an odd last node
/// combined with itself.
pub open spec fn spec_level_up(level: Seq<Seq<u8>>) -> Seq<Seq<u8>> {
    Seq::new(
        (level.len() + 1) / 2,
        |i: int|
            if 2 * i + 1 < level.len() {
                spec_hash_pair(level[2 * i], level[2 * i + 1])
            } else {
                spec_hash_pair(level[2 * i], level[2 * i])
            },
    )
}

/// The root of the tree over a non-empty level: the single node left after
/// repeatedly moving one level up.
pub open spec fn spec_merkle_root(level: Seq<Seq<u8>>) -> Seq<u8>
    recommends
        level.len() >= 1,
    decreases level.len(),
{
    if level.len() <= 1 {
        level[0]
    } else {
        spec_merkle_root(spec_level_up(level))
    }
}

/// The sibling path for the node at `index`: at each level the neighbour it
/// is combined with (the node itself when it is an odd last node).
pub open spec fn spec_merkle_proof(level: Seq<Seq<u8>>, index: nat) -> Seq<Seq<u8>>
    recommends
        index < level.len(),
    decreases level.len(),
{
    if level.len() <= 1 {
        Seq::empty()
    } else {
        let sibling = if index % 2 == 0 {
            if index + 1 < level.len() {
                level[index as int + 1]
            } else {
                level[index as int]
            }
        } else {
            level[index as int - 1]
        };
        seq![sibling] + spec_merkle_proof(spec_level_up(level), index / 2)
    }
}

/// Law: for a tree built from any non-empty level with the pairing and
/// duplicate-last-odd-node rule, the generated sibling path for every index
/// folds that node back to the tree's root, so verification accepts it.
pub proof fn lemma_merkle_proof_soundness(level: Seq<Seq<u8>>, index: nat)
    requires
        index < level.len(),
    ensures
        spec_verify_merkle_proof(
            level[index as int],
            spec_merkle_proof(level, index),
            index,
            spec_merkle_root(level),
        ),
    decreases level.len(),
{
    if level.len() <= 1 {
        assert(spec_merkle_proof(level, index) =~= Seq::<Seq<u8>>::empty());
    } else {
        let up = spec_level_up(level);
        let ni = index / 2;
        assert(2 * ni + 1 < level.len() || 2 * ni < level.len());
        assert(ni < up.len());
        let node = level[index as int];
        let sibling = if index % 2 == 0 {
            if index + 1 < level.len() {
                level[index as int + 1]
            } else {
                level[index as int]
            }
        } else {
            level[index as int - 1]
        };
        let parent = if index % 2 == 0 {
            spec_hash_pair(node, sibling)
        } else {
            spec_hash_pair(sibling, node)
        };
        assert(up[ni as int] == parent);
        let path = spec_merkle_proof(level, index);
        let rest = spec_merkle_proof(up, ni);
        assert(path[0] == sibling);
        assert(path.skip(1) =~= rest);
        assert(spec_fold_proof(node, path, index) == spec_fold_proof(parent, rest, ni));
        lemma_merkle_proof_soundness(up, ni);
    }
}

/// Law: a tree with exactly one leaf has an empty proof, and its root is the
/// leaf itself.
pub proof fn lemma_single_leaf_tree(level: Seq<Seq<u8>>)
    requires
        level.len() == 1,
    ensures
        spec_merkle_proof(level, 0) =~= Seq::<Seq<u8>>::empty(),
        spec_merkle_root(level) == level[0],
{
}

/// Law: against an empty proof, verification succeeds exactly when the leaf
/// equals the expected root, whatever the index.
pub proof fn lemma_empty_proof_verifies_iff_equal(leaf: Seq<u8>, index: nat, root: Seq<u8>)
    ensures
        spec_verify_merkle_proof(leaf, Seq::empty(), index, root) <==> leaf == root,
{
}

/// The all-zero digest returned for an empty recipient set.
pub open spec fn spec_zero_digest() -> Seq<u8> {
    Seq::new(32, |i: int| 0u8)
}

/// Build the leaf digests for a recipient set, in order.
pub fn create_airdrop_leaves(airdrop_data: &[([u8; 32], u64)]) -> (leaves: Vec<[u8; 32]>)
    ensures
        views_of(leaves@) == spec_leaves_of(airdrop_data@),
{
    let mut leaves: Vec<[u8; 32]> = Vec::new();
    let mut i: usize = 0;
    while i < airdrop_data.len()
        invariant
            i <= airdrop_data@.len(),
            leaves@.len() == i,
            forall|k: int| 0 <= k < i ==> views_of(leaves@)[k] == spec_leaves_of(airdrop_data@)[k],
        decreases airdrop_data@.len() - i,
    {
        let entry = slice_index_get(airdrop_data, i);
        let leaf = create_airdrop_leaf(&entry.0, entry.1, 0);
        leaves.push(leaf);
        i = i + 1;
    }
    proof {
        assert(views_of(leaves@) =~= spec_leaves_of(airdrop_data@));
    }
    leaves
}

/// Combine a non-empty level pairwise into the next level up.
fn level_up(level: &Vec<[u8; 32]>) -> (next: Vec<[u8; 32]>)
    requires
        level@.len() >= 1,
    ensures
        views_of(next@) == spec_level_up(views_of(level@)),
        next@.len() == (level@.len() + 1) / 2,
{
    let ghost target = spec_level_up(views_of(level@));
    let mut next: Vec<[u8; 32]> = Vec::new();
    let mut idx: usize = 0;
    while idx < level.len()
        invariant
            target == spec_level_up(views_of(level@)),
            idx <= level@.len(),
            idx % 2 == 0 || idx == level@.len(),
            next@.len() == (idx + 1) / 2,
            forall|k: int| 0 <= k < next@.len() ==> views_of(next@)[k] == target[k],
        decreases level@.len() - idx,
    {
        let parent: [u8; 32] = if idx + 1 < level.len() {
            hash_pair(&level[idx], &level[idx + 1])
        } else {
            hash_pair(&level[idx], &level[idx])
        };
        proof {
            assert(2 * ((idx / 2) as int) == idx as int);
            assert(target[(idx / 2) as int] == parent@);
        }
        next.push(parent);
        if idx + 1 < level.len() {
            idx = idx + 2;
        } else {
            idx = idx + 1;
        }
    }
    proof {
        assert(views_of(next@) =~= target);
    }
    next
}

/// Build the Merkle root over a recipient set: the all-zero digest for an
/// empty set, otherwise the root of the tree over the leaf digests.
pub fn create_merkle_root(airdrop_data: &[([u8; 32], u64)]) -> (root: [u8; 32])
    ensures
        airdrop_data@.len() == 0 ==> root@ == spec_zero_digest(),
        airdrop_data@.len() >= 1 ==> root@ == spec_merkle_root(spec_leaves_of(airdrop_data@)),
{
    if airdrop_data.len() == 0 {
        let zero: [u8; 32] = [0u8; 32];
        proof {
            assert(zero@ =~= spec_zero_digest());
        }
        return zero;
    }
    let mut level: Vec<[u8; 32]> = create_airdrop_leaves(airdrop_data);
    proof {
        assert(level@.len() == views_of(level@).len());
        assert(spec_leaves_of(airdrop_data@).len() == airdrop_data@.len());
    }
    while level.len() > 1
        invariant
            level@.len() >= 1,
            spec_merkle_root(views_of(level@)) == spec_merkle_root(
                spec_leaves_of(airdrop_data@),
            ),
        decreases level@.len(),
    {
        level = level_up(&level);
    }
    level[0]
}

/// Build the sibling proof for the leaf at `target_index`: empty when the
/// index is out of range, otherwise the sibling path through the tree over
/// the leaf digests.
pub fn create_merkle_proof(airdrop_data: &[([u8; 32], u64)], target_index: usize) -> (proof: Vec<
    [u8; 32],
>)
    ensures
        target_index >= airdrop_data@.len() ==> proof@.len() == 0,
        target_index < airdrop_data@.len() ==> views_of(proof@) == spec_merkle_proof(
            spec_leaves_of(airdrop_data@),
            target_index as nat,
        ),
{
    let ghost leaves = spec_leaves_of(airdrop_data@);
    if target_index >= airdrop_data.len() {
        let empty: Vec<[u8; 32]> = Vec::new();
        return empty;
    }
    let mut level: Vec<[u8; 32]> = create_airdrop_leaves(airdrop_data);
    proof {
        assert(level@.len() == views_of(level@).len());
        assert(spec_leaves_of(airdrop_data@).len() == airdrop_data@.len());
    }
    let mut idx: usize = target_index;
    let mut proof: Vec<[u8; 32]> = Vec::new();
    while level.len() > 1
        invariant
            idx < level@.len(),
            views_of(proof@) + spec_merkle_proof(views_of(level@), idx as nat)
                == spec_merkle_proof(leaves, target_index as nat),
        decreases level@.len(),
    {
        let sibling: [u8; 32] = if idx % 2 == 0 {
            if idx + 1 < level.len() {
                level[idx + 1]
            } else {
                level[idx]
            }
        } else {
            level[idx - 1]
        };
        proof {
            let lv = views_of(level@);
            assert(spec_merkle_proof(lv, idx as nat) == seq![sibling@] + spec_merkle_proof(
                spec_level_up(lv),
                (idx as nat) / 2,
            ));
            assert(views_of(proof@.push(sibling)) =~= views_of(proof@) + seq![sibling@]);
            assert((views_of(proof@) + seq![sibling@]) + spec_merkle_proof(
                spec_level_up(lv),
                (idx as nat) / 2,
            ) =~= views_of(proof@) + spec_merkle_proof(lv, idx as nat));
            assert((idx as nat) / 2 < (lv.len() + 1) / 2);
        }
        proof.push(sibling);
        level = level_up(&level);
        idx = idx / 2;
    }
    proof {
        assert(spec_merkle_proof(views_of(level@), idx as nat) =~= Seq::<Seq<u8>>::empty());
        assert(views_of(proof@) + Seq::<Seq<u8>>::empty() =~= views_of(proof@));
    }
    proof
}

} // verus!
