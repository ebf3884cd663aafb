//! Hashing utilities and Merkle-proof verification.
//!
//! A leaf commits to a `(recipient, amount, claimed-flag)` triple as the
//! digest of a fixed 41-byte layout; internal nodes combine two children as
//! the digest of their 64-byte concatenation, order-sensitive.

use vstd::prelude::*;
use vstd::bytes::spec_u64_to_le_bytes;
use vstd::bytes::u64_to_le_bytes;
use vstd::slice::slice_index_get;

verus! {

/// A record type with a fixed byte length in storage.
pub trait DataLen {
    /// The exact number of bytes the record occupies.
    const LEN: usize;
}

/// The Keccak-256 digest of a byte sequence, left uninterpreted: the
/// contracts below only state which bytes are hashed, never the digest value.
pub uninterp spec fn keccak_of(data: Seq<u8>) -> Seq<u8>;

/// Relies on `solana_nostd_keccak::hash`: the Keccak-256 digest of the input,
/// a pure function of the input bytes alone (the `sol_keccak256` syscall
/// on-chain, the `sha3` crate elsewhere), always 32 bytes long.
#[verifier::external_body]
fn keccak(data: &[u8]) -> (r: [u8; 32])
    ensures
        r@ == keccak_of(data@),
{
    solana_nostd_keccak::hash(data)
}

/// The digest of two 32-byte nodes combined: `keccak(left || right)`.
pub open spec fn spec_hash_pair(left: Seq<u8>, right: Seq<u8>) -> Seq<u8> {
    keccak_of(left + right)
}

/// The 41-byte leaf layout: the recipient identity, the little-endian
/// amount, and the claimed flag.
pub open spec fn spec_leaf_bytes(recipient: Seq<u8>, amount: u64, is_claimed: u8) -> Seq<u8> {
    recipient + spec_u64_to_le_bytes(amount) + seq![is_claimed]
}

/// The leaf digest for a `(recipient, amount, claimed-flag)` triple.
pub open spec fn spec_airdrop_leaf(recipient: Seq<u8>, amount: u64, is_claimed: u8) -> Seq<u8> {
    keccak_of(spec_leaf_bytes(recipient, amount, is_claimed))
}

/// The views of a sequence of 32-byte values.
pub open spec fn views_of(s: Seq<[u8; 32]>) -> Seq<Seq<u8>> {
    s.map_values(|a: [u8; 32]| a@)
}

/// Folds a node up a Merkle path: each sibling is combined to the left or to
/// the right of the running node according to the lowest unconsumed bit of
/// `index`, which is then shifted out.
pub open spec fn spec_fold_proof(node: Seq<u8>, proof: Seq<Seq<u8>>, index: nat) -> Seq<u8>
    decreases proof.len(),
{
    if proof.len() == 0 {
        node
    } else {
        let next = if index % 2 == 0 {
            spec_hash_pair(node, proof[0])
        } else {
            spec_hash_pair(proof[0], node)
        };
        spec_fold_proof(next, proof.skip(1), index / 2)
    }
}

/// A proof is valid exactly when folding the leaf up the path reconstructs
/// the expected root. An empty proof is valid exactly when the leaf is the
/// root itself (the single-leaf tree).
pub open spec fn spec_verify_merkle_proof(
    leaf: Seq<u8>,
    proof: Seq<Seq<u8>>,
    index: nat,
    expected_root: Seq<u8>,
) -> bool {
    spec_fold_proof(leaf, proof, index) == expected_root
}

/// Copy 32 bytes out of a buffer, starting at `offset`.
pub fn read_bytes32(data: &[u8], offset: usize) -> (r: [u8; 32])
    requires
        offset + 32 <= data@.len(),
    ensures
        r@ == data@.subrange(offset as int, offset as int + 32),
{
    let n: usize = data.len();
    let mut r: [u8; 32] = [0u8; 32];
    let mut i: usize = 0;
    while i < 32
        invariant
            i <= 32,
            offset + 32 <= n,
            n == data@.len(),
            forall|j: int| 0 <= j < i ==> r@[j] == data@[offset + j],
        decreases 32 - i,
    {
        r[i] = *slice_index_get(data, offset + i);
        i = i + 1;
    }
    proof {
        assert(r@ =~= data@.subrange(offset as int, offset as int + 32));
    }
    r
}

/// Compare two 32-byte values.
pub fn bytes32_eq(a: &[u8; 32], b: &[u8; 32]) -> (r: bool)
    ensures
        r == (a@ == b@),
{
    let mut i: usize = 0;
    while i < 32
        invariant
            i <= 32,
            forall|j: int| 0 <= j < i ==> a@[j] == b@[j],
        decreases 32 - i,
    {
        if a[i] != b[i] {
            return false;
        }
        i += 1;
    }
    proof {
        assert(a@ =~= b@);
    }
    true
}

/// Hash two 32-byte nodes together, the left one first.
pub fn hash_pair(left: &[u8; 32], right: &[u8; 32]) -> (r: [u8; 32])
    ensures
        r@ == spec_hash_pair(left@, right@),
{
    let mut input: Vec<u8> = Vec::new();
    input.extend_from_slice(left.as_slice());
    input.extend_from_slice(right.as_slice());
    proof {
        assert(input@ =~= left@ + right@);
    }
    keccak(input.as_slice())
}

/// Build the leaf digest from a recipient identity, an amount and the
/// claimed flag, over the documented 41-byte layout.
pub fn create_airdrop_leaf(recipient: &[u8; 32], amount: u64, is_claimed: u8) -> (r: [u8; 32])
    ensures
        r@ == spec_airdrop_leaf(recipient@, amount, is_claimed),
{
    let mut input: Vec<u8> = Vec::new();
    input.extend_from_slice(recipient.as_slice());
    let mut amount_bytes = u64_to_le_bytes(amount);
    input.append(&mut amount_bytes);
    input.push(is_claimed);
    proof {
        assert(input@ =~= spec_leaf_bytes(recipient@, amount, is_claimed));
    }
    keccak(input.as_slice())
}

/// Verify a Merkle proof: fold the leaf up the sibling path and compare the
/// result with the expected root.
pub fn verify_merkle_proof(
    leaf: &[u8; 32],
    proof: &[[u8; 32]],
    leaf_index: u64,
    expected_root: &[u8; 32],
) -> (valid: bool)
    ensures
        valid == spec_verify_merkle_proof(
            leaf@,
            views_of(proof@),
            leaf_index as nat,
            expected_root@,
        ),
{
    let ghost all = views_of(proof@);
    proof {
        assert(all.skip(0) =~= all);
    }
    let mut computed_hash: [u8; 32] = *leaf;
    let mut index: u64 = leaf_index;
    let mut i: usize = 0;
    while i < proof.len()
        invariant
            i <= proof@.len(),
            all == views_of(proof@),
            spec_fold_proof(computed_hash@, all.skip(i as int), index as nat)
                == spec_fold_proof(leaf@, all, leaf_index as nat),
        decreases proof@.len() - i,
    {
        let element = *slice_index_get(proof, i);
        proof {
            assert(all.skip(i as int)[0] == element@);
            assert(all.skip(i as int).skip(1) =~= all.skip(i as int + 1));
        }
        if index % 2 == 0 {
            computed_hash = hash_pair(&computed_hash, &element);
        } else {
            computed_hash = hash_pair(&element, &computed_hash);
        }
        index = index / 2;
        i = i + 1;
    }
    proof {
        assert(all.skip(proof@.len() as int) =~= Seq::<Seq<u8>>::empty());
    }
    bytes32_eq(&computed_hash, expected_root)
}

} // verus!
