//! The stored record types: the global per-airdrop campaign record and the
//! per-claimant claim record, with their explicit, bounds-checked byte
//! layouts and the derivation of their storage addresses.

use vstd::prelude::*;
use vstd::bytes::{spec_u64_from_le_bytes, spec_u64_to_le_bytes, u64_from_le_bytes, u64_to_le_bytes};
use vstd::slice::{slice_index_get, slice_subrange};
use crate::errors::AirdropError;
use crate::pda::{derive_address_one_seed, derive_address_three_seeds, derived_address};
use crate::utils::{bytes32_eq, read_bytes32, DataLen};

verus! {

/// ASCII bytes of the campaign seed tag, `"merkle_tree"`.
pub open spec fn spec_airdrop_seed() -> Seq<u8> {
    seq![109u8, 101u8, 114u8, 107u8, 108u8, 101u8, 95u8, 116u8, 114u8, 101u8, 101u8]
}

/// The campaign seed tag, `"merkle_tree"` in ASCII.
pub fn airdrop_seed() -> (r: [u8; 11])
    ensures
        r@ == spec_airdrop_seed(),
{
    let r: [u8; 11] = [109u8, 101u8, 114u8, 107u8, 108u8, 101u8, 95u8, 116u8, 114u8, 101u8, 101u8];
    proof {
        assert(r@ =~= spec_airdrop_seed());
    }
    r
}

/// ASCII bytes of the claim-record seed tag, `"claim"`.
pub open spec fn spec_claim_seed() -> Seq<u8> {
    seq![99u8, 108u8, 97u8, 105u8, 109u8]
}

/// The claim-record seed tag, `"claim"` in ASCII.
pub fn claim_seed() -> (r: [u8; 5])
    ensures
        r@ == spec_claim_seed(),
{
    let r: [u8; 5] = [99u8, 108u8, 97u8, 105u8, 109u8];
    proof {
        assert(r@ =~= spec_claim_seed());
    }
    r
}

/// The derived campaign address under a program identity, for a bump byte.
pub open spec fn spec_airdrop_state_address(program_id: Seq<u8>, bump: u8) -> Seq<u8> {
    derived_address(seq![spec_airdrop_seed()], bump, program_id)
}

/// The derived claim-record address for a `(campaign, claimant)` pair under
/// a program identity, for a bump byte.
pub open spec fn spec_claim_record_address(
    airdrop: Seq<u8>,
    claimer: Seq<u8>,
    bump: u8,
    program_id: Seq<u8>,
) -> Seq<u8> {
    derived_address(seq![spec_claim_seed(), airdrop, claimer], bump, program_id)
}

/// The global per-airdrop record: committed root, administrator identity,
/// allocation and claim totals, and the derivation salt of its own address.
#[derive(Clone, Copy, Debug, PartialEq, Eq)]
pub struct AirdropState {
    /// The Merkle root over all `(recipient, amount)` leaves.
    pub merkle_root: [u8; 32],
    /// The sole identity allowed to rotate the root and top up allocation.
    pub authority: [u8; 32],
    /// Total native value allocated for this airdrop.
    pub airdrop_amount: u64,
    /// Total native value claimed so far.
    pub amount_claimed: u64,
    /// Bump seed of this record's derived address.
    pub bump: u8,
}

impl DataLen for AirdropState {
    const LEN: usize = 81;
}

/// The packed 81-byte layout of a campaign record: the root, the authority,
/// the two little-endian totals, and the bump.
pub open spec fn spec_state_bytes(s: AirdropState) -> Seq<u8> {
    s.merkle_root@ + s.authority@ + spec_u64_to_le_bytes(s.airdrop_amount) + spec_u64_to_le_bytes(
        s.amount_claimed,
    ) + seq![s.bump]
}

impl AirdropState {
    /// Encode the record into its packed 81-byte layout.
    pub fn to_bytes(&self) -> (r: Vec<u8>)
        ensures
            r@ == spec_state_bytes(*self),
            r@.len() == 81,
    {
        proof {
            vstd::bytes::lemma_auto_spec_u64_to_from_le_bytes();
        }
        let mut r: Vec<u8> = Vec::new();
        r.extend_from_slice(self.merkle_root.as_slice());
        r.extend_from_slice(self.authority.as_slice());
        let mut amount_bytes = u64_to_le_bytes(self.airdrop_amount);
        r.append(&mut amount_bytes);
        let mut claimed_bytes = u64_to_le_bytes(self.amount_claimed);
        r.append(&mut claimed_bytes);
        r.push(self.bump);
        proof {
            assert(r@ =~= spec_state_bytes(*self));
        }
        r
    }

    /// Decode a campaign record from its packed layout, rejecting any buffer
    /// that is not exactly 81 bytes long before any field is read.
    pub fn from_bytes(data: &[u8]) -> (r: Result<AirdropState, AirdropError>)
        ensures
            match r {
                Ok(s) => {
                    &&& data@.len() == 81
                    &&& spec_state_bytes(s) == data@
                    &&& s.merkle_root@ == data@.subrange(0, 32)
                    &&& s.authority@ == data@.subrange(32, 64)
                    &&& s.airdrop_amount == spec_u64_from_le_bytes(data@.subrange(64, 72))
                    &&& s.amount_claimed == spec_u64_from_le_bytes(data@.subrange(72, 80))
                    &&& s.bump == data@[80]
                },
                Err(e) => {
                    &&& data@.len() != 81
                    &&& e == AirdropError::InvalidAccountData
                },
            },
    {
        if data.len() != 81 {
            return Err(AirdropError::InvalidAccountData);
        }
        let s = AirdropState {
            merkle_root: read_bytes32(data, 0),
            authority: read_bytes32(data, 32),
            airdrop_amount: u64_from_le_bytes(slice_subrange(data, 64, 72)),
            amount_claimed: u64_from_le_bytes(slice_subrange(data, 72, 80)),
            bump: *slice_index_get(data, 80),
        };
        proof {
            vstd::bytes::lemma_auto_spec_u64_to_from_le_bytes();
            assert(spec_u64_to_le_bytes(s.airdrop_amount) == data@.subrange(64, 72));
            assert(spec_u64_to_le_bytes(s.amount_claimed) == data@.subrange(72, 80));
            assert(spec_state_bytes(s) =~= data@);
        }
        Ok(s)
    }

    /// Derive the campaign address for a program identity and bump.
    pub fn derive_address(program_id: &[u8; 32], bump: u8) -> (r: [u8; 32])
        ensures
            r@ == spec_airdrop_state_address(program_id@, bump),
    {
        let seed = airdrop_seed();
        derive_address_one_seed(seed.as_slice(), bump, program_id)
    }

    /// Require that `target` is the campaign address derived from the fixed
    /// seed tag and `bump` under `program_id`.
    pub fn validate_pda(target: &[u8; 32], program_id: &[u8; 32], bump: u8) -> (r: Result<
        (),
        AirdropError,
    >)
        ensures
            r == if target@ == spec_airdrop_state_address(program_id@, bump) {
                Ok::<(), AirdropError>(())
            } else {
                Err::<(), AirdropError>(AirdropError::InvalidAccountData)
            },
    {
        let expected = Self::derive_address(program_id, bump);
        if bytes32_eq(&expected, target) {
            Ok(())
        } else {
            Err(AirdropError::InvalidAccountData)
        }
    }
}

/// The per-claimant record: its mere existence marks the claim as made; the
/// stored byte is the derivation salt of its own address.
#[derive(Clone, Copy, Debug, PartialEq, Eq, Structural)]
pub struct ClaimStatus {
    /// Bump seed of this record's derived address.
    pub bump: u8,
}

impl DataLen for ClaimStatus {
    const LEN: usize = 1;
}

/// The packed 1-byte layout of a claim record.
pub open spec fn spec_claim_status_bytes(s: ClaimStatus) -> Seq<u8> {
    seq![s.bump]
}

impl ClaimStatus {
    /// Encode the record into its packed 1-byte layout.
    pub fn to_bytes(&self) -> (r: Vec<u8>)
        ensures
            r@ == spec_claim_status_bytes(*self),
            r@.len() == 1,
    {
        let mut r: Vec<u8> = Vec::new();
        r.push(self.bump);
        proof {
            assert(r@ =~= spec_claim_status_bytes(*self));
        }
        r
    }

    /// Decode a claim record from its packed layout, rejecting any buffer
    /// that is not exactly 1 byte long.
    pub fn from_bytes(data: &[u8]) -> (r: Result<ClaimStatus, AirdropError>)
        ensures
            match r {
                Ok(s) => data@.len() == 1 && spec_claim_status_bytes(s) == data@,
                Err(e) => data@.len() != 1 && e == AirdropError::InvalidAccountData,
            },
    {
        if data.len() != 1 {
            return Err(AirdropError::InvalidAccountData);
        }
        let s = ClaimStatus { bump: *slice_index_get(data, 0) };
        proof {
            assert(spec_claim_status_bytes(s) =~= data@);
        }
        Ok(s)
    }

    /// Derive the claim-record address for a `(campaign, claimant)` pair
    /// under a program identity, for a bump byte.
    pub fn derive_address(
        airdrop: &[u8; 32],
        claimer: &[u8; 32],
        program_id: &[u8; 32],
        bump: u8,
    ) -> (r: [u8; 32])
        ensures
            r@ == spec_claim_record_address(airdrop@, claimer@, bump, program_id@),
    {
        let seed = claim_seed();
        derive_address_three_seeds(seed.as_slice(), airdrop, claimer, bump, program_id)
    }

    /// Require that `target` is the claim-record address derived from the
    /// fixed seed tag, the campaign address, the claimant identity and
    /// `bump` under `program_id`.
    pub fn validate_pda(
        target: &[u8; 32],
        airdrop: &[u8; 32],
        claimer: &[u8; 32],
        program_id: &[u8; 32],
        bump: u8,
    ) -> (r: Result<(), AirdropError>)
        ensures
            r == if target@ == spec_claim_record_address(airdrop@, claimer@, bump, program_id@) {
                Ok::<(), AirdropError>(())
            } else {
                Err::<(), AirdropError>(AirdropError::InvalidAccountData)
            },
    {
        let expected = Self::derive_address(airdrop, claimer, program_id, bump);
        if bytes32_eq(&expected, target) {
            Ok(())
        } else {
            Err(AirdropError::InvalidAccountData)
        }
    }
}

} // verus!
