//! The instruction payloads and their explicit, bounds-checked decoders.
//!
//! Every payload has a fixed little-endian byte layout; a buffer whose length
//! does not match the declared layout is rejected before any field is read.

use vstd::prelude::*;
use vstd::bytes::{spec_u64_from_le_bytes, u64_from_le_bytes};
use vstd::slice::{slice_index_get, slice_subrange};
use crate::errors::AirdropError;
use crate::utils::{read_bytes32, DataLen};

verus! {

/// Payload of the initialize operation: the committed root, the allocation
/// to fund, and the bump of the campaign address.
pub struct InitializeAirdropInstructionData {
    /// The Merkle root to commit.
    pub merkle_root: [u8; 32],
    /// The native value to allocate and move into the campaign record.
    pub amount: u64,
    /// Bump seed of the campaign address.
    pub bump: u8,
}

impl DataLen for InitializeAirdropInstructionData {
    const LEN: usize = 41;
}

impl InitializeAirdropInstructionData {
    /// Decode the fixed 41-byte payload: the root, the little-endian amount
    /// and the bump. Any other length is rejected.
    pub fn parse(data: &[u8]) -> (r: Result<Self, AirdropError>)
        ensures
            match r {
                Ok(d) => {
                    &&& data@.len() == 41
                    &&& d.merkle_root@ == data@.subrange(0, 32)
                    &&& d.amount == spec_u64_from_le_bytes(data@.subrange(32, 40))
                    &&& d.bump == data@[40]
                },
                Err(e) => {
                    &&& data@.len() != 41
                    &&& e == AirdropError::InvalidInstructionData
                },
            },
    {
        if data.len() != 41 {
            return Err(AirdropError::InvalidInstructionData);
        }
        Ok(
            InitializeAirdropInstructionData {
                merkle_root: read_bytes32(data, 0),
                amount: u64_from_le_bytes(slice_subrange(data, 32, 40)),
                bump: *slice_index_get(data, 40),
            },
        )
    }
}

/// Payload of the rotate operation: the replacement root and the optional
/// allocation top-up.
pub struct UpdateMerkleRootInstructionData {
    /// The Merkle root that replaces the committed one.
    pub new_merkle_root: [u8; 32],
    /// Native value to add to the allocation; zero adds nothing.
    pub additional_amount: u64,
}

impl DataLen for UpdateMerkleRootInstructionData {
    const LEN: usize = 40;
}

impl UpdateMerkleRootInstructionData {
    /// Decode the fixed 40-byte payload: the new root and the little-endian
    /// top-up amount. Any other length is rejected.
    pub fn parse(data: &[u8]) -> (r: Result<Self, AirdropError>)
        ensures
            match r {
                Ok(d) => {
                    &&& data@.len() == 40
                    &&& d.new_merkle_root@ == data@.subrange(0, 32)
                    &&& d.additional_amount == spec_u64_from_le_bytes(data@.subrange(32, 40))
                },
                Err(e) => {
                    &&& data@.len() != 40
                    &&& e == AirdropError::InvalidInstructionData
                },
            },
    {
        if data.len() != 40 {
            return Err(AirdropError::InvalidInstructionData);
        }
        Ok(
            UpdateMerkleRootInstructionData {
                new_merkle_root: read_bytes32(data, 0),
                additional_amount: u64_from_le_bytes(slice_subrange(data, 32, 40)),
            },
        )
    }
}

/// The fixed head of a claim payload: the claimed amount, the leaf index,
/// the bump of the claim-record address, and the declared proof length.
pub struct ClaimAirdropInstructionData {
    /// The native value claimed, as committed in the leaf.
    pub amount: u64,
    /// The index of the leaf in the committed tree.
    pub leaf_index: u64,
    /// Bump seed of the claim-record address.
    pub bump: u8,
    /// The declared number of 32-byte proof elements that follow.
    pub proof_len: u8,
}

impl DataLen for ClaimAirdropInstructionData {
    const LEN: usize = 18;
}

impl ClaimAirdropInstructionData {
    /// Decode the fixed 18-byte head of a claim payload; trailing bytes (the
    /// proof) are allowed, a shorter buffer is rejected.
    pub fn parse(data: &[u8]) -> (r: Result<Self, AirdropError>)
        ensures
            match r {
                Ok(d) => {
                    &&& data@.len() >= 18
                    &&& d.amount == spec_u64_from_le_bytes(data@.subrange(0, 8))
                    &&& d.leaf_index == spec_u64_from_le_bytes(data@.subrange(8, 16))
                    &&& d.bump == data@[16]
                    &&& d.proof_len == data@[17]
                },
                Err(e) => {
                    &&& data@.len() < 18
                    &&& e == AirdropError::InvalidInstructionData
                },
            },
    {
        if data.len() < 18 {
            return Err(AirdropError::InvalidInstructionData);
        }
        Ok(
            ClaimAirdropInstructionData {
                amount: u64_from_le_bytes(slice_subrange(data, 0, 8)),
                leaf_index: u64_from_le_bytes(slice_subrange(data, 8, 16)),
                bump: *slice_index_get(data, 16),
                proof_len: *slice_index_get(data, 17),
            },
        )
    }
}

/// The proof elements a well-formed claim payload declares: `proof_len`
/// 32-byte siblings following the fixed head.
pub open spec fn spec_claim_proof(data: Seq<u8>) -> Seq<Seq<u8>>
    recommends
        data.len() == 18 + 32 * (data[17] as int),
{
    Seq::new(data[17] as nat, |k: int| data.subrange(18 + 32 * k, 18 + 32 * k + 32))
}

/// A parsed claim payload: the fixed head and the sibling proof it carries.
pub struct ClaimAirdrop {
    /// The fixed head of the payload.
    pub instruction_data: ClaimAirdropInstructionData,
    /// The sibling proof, one 32-byte digest per tree level.
    pub proof_data: Vec<[u8; 32]>,
}

impl ClaimAirdrop {
    /// Decode a whole claim payload: the fixed 18-byte head followed by
    /// exactly `proof_len` 32-byte siblings. A buffer whose total length
    /// does not match the declared proof length is rejected.
    pub fn parse_from_data(data: &[u8]) -> (r: Result<ClaimAirdrop, AirdropError>)
        ensures
            match r {
                Ok(c) => {
                    &&& data@.len() >= 18
                    &&& data@.len() == 18 + 32 * (data@[17] as int)
                    &&& c.instruction_data.amount == spec_u64_from_le_bytes(data@.subrange(0, 8))
                    &&& c.instruction_data.leaf_index == spec_u64_from_le_bytes(
                        data@.subrange(8, 16),
                    )
                    &&& c.instruction_data.bump == data@[16]
                    &&& c.instruction_data.proof_len == data@[17]
                    &&& c.proof_data@.len() == data@[17] as int
                    &&& forall|k: int|
                        0 <= k < c.proof_data@.len() ==> c.proof_data@[k]@ == spec_claim_proof(
                            data@,
                        )[k]
                },
                Err(e) => {
                    &&& (data@.len() < 18 || data@.len() != 18 + 32 * (data@[17] as int))
                    &&& e == AirdropError::InvalidInstructionData
                },
            },
    {
        let instruction_data = match ClaimAirdropInstructionData::parse(data) {
            Ok(d) => d,
            Err(e) => {
                return Err(e);
            },
        };
        let proof_len: usize = instruction_data.proof_len as usize;
        let expected_len: usize = 18 + proof_len * 32;
        if data.len() != expected_len {
            return Err(AirdropError::InvalidInstructionData);
        }
        let mut proof_data: Vec<[u8; 32]> = Vec::new();
        let mut k: usize = 0;
        while k < proof_len
            invariant
                k <= proof_len,
                proof_len <= 255,
                data@.len() == 18 + 32 * proof_len,
                proof_data@.len() == k,
                forall|j: int|
                    0 <= j < k ==> proof_data@[j]@ == data@.subrange(18 + 32 * j, 18 + 32 * j + 32),
            decreases proof_len - k,
        {
            let element = read_bytes32(data, 18 + 32 * k);
            proof_data.push(element);
            k = k + 1;
        }
        Ok(ClaimAirdrop { instruction_data, proof_data })
    }

    /// The sibling proof of this payload.
    pub fn get_proof(&self) -> (r: &Vec<[u8; 32]>)
        ensures
            r@ == self.proof_data@,
    {
        &self.proof_data
    }
}

} // verus!
