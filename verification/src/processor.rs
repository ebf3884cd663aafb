//! The operation handlers as pure state transitions.
//!
//! Each handler takes the program identity, the facts of the named accounts
//! (in the order the caller declares them), and the raw payload; it performs
//! every check of the operation eagerly and returns either the exact effects
//! to commit or the error of the first failing check. No state is touched on
//! any failure: a host applies the returned effects atomically or discards
//! the invocation whole.

use vstd::prelude::*;
use vstd::bytes::spec_u64_from_le_bytes;
use vstd::slice::{slice_index_get, slice_subrange};
use crate::errors::{AirdropError, AirdropProgramError};
use crate::instructions::{
    spec_claim_proof, ClaimAirdrop, InitializeAirdropInstructionData,
    UpdateMerkleRootInstructionData,
};
use crate::states::{
    spec_airdrop_state_address, spec_claim_record_address, AirdropState, ClaimStatus,
};
use crate::utils::{
    create_airdrop_leaf, spec_airdrop_leaf, spec_verify_merkle_proof, verify_merkle_proof,
    views_of,
};

verus! {

/// What one invocation reads of a named storage location: its address, its
/// native balance, whether the caller marked it writable, and its stored
/// bytes.
#[derive(Debug, Clone)]
pub struct LedgerAccount {
    /// The storage location's address.
    pub address: [u8; 32],
    /// The native balance held on the location.
    pub lamports: u64,
    /// Whether the caller declared the location writable.
    pub is_writable: bool,
    /// The bytes stored at the location; empty means uninitialized.
    pub data: Vec<u8>,
}

/// The claimed amount a claim payload declares.
pub open spec fn spec_claim_amount(data: Seq<u8>) -> u64 {
    spec_u64_from_le_bytes(data.subrange(0, 8))
}

/// The leaf index a claim payload declares.
pub open spec fn spec_claim_index(data: Seq<u8>) -> u64 {
    spec_u64_from_le_bytes(data.subrange(8, 16))
}

/// The checks of the initialize operation, in the order they are performed:
/// the outcome is `Ok` exactly when every check passes, and otherwise the
/// error of the first failing one.
pub open spec fn spec_initialize_check(
    program_id: Seq<u8>,
    accounts: Seq<LedgerAccount>,
    data: Seq<u8>,
) -> Result<(), AirdropError> {
    if accounts.len() != 3 {
        Err(AirdropError::NotEnoughAccountKeys)
    } else if !accounts[0].is_writable {
        Err(AirdropError::InvalidAccountData)
    } else if accounts[0].data@.len() != 0 {
        Err(AirdropError::AccountAlreadyInitialized)
    } else if data.len() != 41 {
        Err(AirdropError::InvalidInstructionData)
    } else if accounts[0].address@ != spec_airdrop_state_address(program_id, data[40]) {
        Err(AirdropError::InvalidAccountData)
    } else {
        Ok(())
    }
}

/// What a successful initialize commits: the campaign record written at the
/// campaign address, and the allocation moved from the authority onto it.
#[derive(Debug, Clone, PartialEq, Eq)]
pub struct InitializeEffects {
    /// The campaign record to create.
    pub state: AirdropState,
    /// Native value to move from the authority into the campaign record.
    pub transfer_amount: u64,
}

/// The exact effects a successful initialize returns: the committed root and
/// allocation come from the payload, the authority is the second account,
/// nothing is claimed yet, and the allocation is funded in full.
pub open spec fn spec_initialize_effects(
    eff: InitializeEffects,
    accounts: Seq<LedgerAccount>,
    data: Seq<u8>,
) -> bool {
    &&& eff.state.merkle_root@ == data.subrange(0, 32)
    &&& eff.state.authority@ == accounts[1].address@
    &&& eff.state.airdrop_amount == spec_u64_from_le_bytes(data.subrange(32, 40))
    &&& eff.state.amount_claimed == 0
    &&& eff.state.bump == data[40]
    &&& eff.transfer_amount == eff.state.airdrop_amount
}

/// Initialize a campaign: requires the campaign slot writable and empty, a
/// well-formed payload, and the campaign address derived from the fixed seed
/// tag and the supplied bump. Accounts: campaign record, authority, system
/// collaborator.
pub fn process_initialize(
    program_id: &[u8; 32],
    accounts: &[LedgerAccount],
    data: &[u8],
) -> (r: Result<InitializeEffects, AirdropError>)
    ensures
        match r {
            Ok(eff) => {
                &&& spec_initialize_check(program_id@, accounts@, data@) is Ok
                &&& spec_initialize_effects(eff, accounts@, data@)
            },
            Err(e) => spec_initialize_check(program_id@, accounts@, data@) == Err::<
                (),
                AirdropError,
            >(e),
        },
{
    if accounts.len() != 3 {
        return Err(AirdropError::NotEnoughAccountKeys);
    }
    let airdrop_state_acc = slice_index_get(accounts, 0);
    let authority = slice_index_get(accounts, 1);
    if !airdrop_state_acc.is_writable {
        return Err(AirdropError::InvalidAccountData);
    }
    if airdrop_state_acc.data.len() != 0 {
        return Err(AirdropError::AccountAlreadyInitialized);
    }
    let ix = match InitializeAirdropInstructionData::parse(data) {
        Ok(d) => d,
        Err(e) => {
            return Err(e);
        },
    };
    match AirdropState::validate_pda(&airdrop_state_acc.address, program_id, ix.bump) {
        Ok(()) => {},
        Err(e) => {
            return Err(e);
        },
    }
    let state = AirdropState {
        merkle_root: ix.merkle_root,
        authority: authority.address,
        airdrop_amount: ix.amount,
        amount_claimed: 0,
        bump: ix.bump,
    };
    Ok(InitializeEffects { state, transfer_amount: ix.amount })
}

/// The checks of the claim operation, in the order they are performed: the
/// outcome is `Ok` exactly when every check passes, and otherwise the error
/// of the first failing one.
pub open spec fn spec_claim_check(
    program_id: Seq<u8>,
    accounts: Seq<LedgerAccount>,
    data: Seq<u8>,
) -> Result<(), AirdropError> {
    if accounts.len() != 4 {
        Err(AirdropError::NotEnoughAccountKeys)
    } else if !accounts[0].is_writable || accounts[0].data@.len() == 0 {
        Err(AirdropError::InvalidAccountData)
    } else if !accounts[2].is_writable {
        Err(AirdropError::InvalidAccountData)
    } else if accounts[2].data@.len() != 0 {
        Err(AirdropError::Program(AirdropProgramError::AccountAlreadyClaimed))
    } else if data.len() < 18 || data.len() != 18 + 32 * (data[17] as int) {
        Err(AirdropError::InvalidInstructionData)
    } else if accounts[0].data@.len() != 81 {
        Err(AirdropError::InvalidAccountData)
    } else if !spec_verify_merkle_proof(
        spec_airdrop_leaf(accounts[1].address@, spec_claim_amount(data), 0),
        spec_claim_proof(data),
        spec_claim_index(data) as nat,
        accounts[0].data@.subrange(0, 32),
    ) {
        Err(AirdropError::Program(AirdropProgramError::InvalidProof))
    } else if accounts[2].address@ != spec_claim_record_address(
        accounts[0].address@,
        accounts[1].address@,
        data[16],
        program_id,
    ) {
        Err(AirdropError::InvalidAccountData)
    } else if accounts[0].lamports < spec_claim_amount(data) {
        Err(AirdropError::InsufficientFunds)
    } else {
        Ok(())
    }
}

/// What a successful claim commits: the claim record created at its derived
/// address (the irreversible "claimed" mark), the claimed value moved from
/// the campaign record to the claimant, and the claim total updated.
#[derive(Debug, Clone, PartialEq, Eq)]
pub struct ClaimEffects {
    /// The campaign record with the claim total updated.
    pub new_state: AirdropState,
    /// The claim record to create at the claim-record address.
    pub claim_record: ClaimStatus,
    /// Native value to move from the campaign record to the claimant.
    pub transfer_amount: u64,
}

/// The exact effects a successful claim returns: the root, authority,
/// allocation and bump of the stored campaign record are kept byte for byte,
/// the claim total grows by the claimed amount (saturating), the claim
/// record carries the supplied bump, and exactly the claimed amount moves.
pub open spec fn spec_claim_effects(
    eff: ClaimEffects,
    accounts: Seq<LedgerAccount>,
    data: Seq<u8>,
) -> bool {
    let stored = accounts[0].data@;
    &&& eff.new_state.merkle_root@ == stored.subrange(0, 32)
    &&& eff.new_state.authority@ == stored.subrange(32, 64)
    &&& eff.new_state.airdrop_amount == spec_u64_from_le_bytes(stored.subrange(64, 72))
    &&& eff.new_state.amount_claimed == spec_u64_from_le_bytes(
        stored.subrange(72, 80),
    ).saturating_add(spec_claim_amount(data))
    &&& eff.new_state.bump == stored[80]
    &&& eff.claim_record.bump == data[16]
    &&& eff.transfer_amount == spec_claim_amount(data)
}

/// Process one claim: requires the campaign record writable and initialized,
/// the claim-record slot writable and empty, a well-formed payload whose
/// proof reconstructs the committed root for the claimant's leaf, the
/// claim-record address derived from the campaign, the claimant and the
/// supplied bump, and a campaign balance covering the amount. Accounts:
/// campaign record, claimant, claim record, system collaborator.
pub fn process_claim(program_id: &[u8; 32], accounts: &[LedgerAccount], data: &[u8]) -> (r: Result<
    ClaimEffects,
    AirdropError,
>)
    ensures
        match r {
            Ok(eff) => {
                &&& spec_claim_check(program_id@, accounts@, data@) is Ok
                &&& spec_claim_effects(eff, accounts@, data@)
            },
            Err(e) => spec_claim_check(program_id@, accounts@, data@) == Err::<(), AirdropError>(
                e,
            ),
        },
{
    if accounts.len() != 4 {
        return Err(AirdropError::NotEnoughAccountKeys);
    }
    let airdrop_state_acc = slice_index_get(accounts, 0);
    let signer = slice_index_get(accounts, 1);
    let user_claim = slice_index_get(accounts, 2);
    if !airdrop_state_acc.is_writable || airdrop_state_acc.data.len() == 0 {
        return Err(AirdropError::InvalidAccountData);
    }
    if !user_claim.is_writable {
        return Err(AirdropError::InvalidAccountData);
    }
    if user_claim.data.len() != 0 {
        return Err(AirdropError::Program(AirdropProgramError::AccountAlreadyClaimed));
    }
    let claim = match ClaimAirdrop::parse_from_data(data) {
        Ok(c) => c,
        Err(e) => {
            return Err(e);
        },
    };
    let amount = claim.instruction_data.amount;
    let leaf_index = claim.instruction_data.leaf_index;
    let leaf = create_airdrop_leaf(&signer.address, amount, 0);
    let state = match AirdropState::from_bytes(airdrop_state_acc.data.as_slice()) {
        Ok(s) => s,
        Err(e) => {
            return Err(e);
        },
    };
    proof {
        assert(views_of(claim.proof_data@) =~= spec_claim_proof(data@));
    }
    let is_valid = verify_merkle_proof(
        &leaf,
        claim.get_proof().as_slice(),
        leaf_index,
        &state.merkle_root,
    );
    if !is_valid {
        return Err(AirdropError::Program(AirdropProgramError::InvalidProof));
    }
    match ClaimStatus::validate_pda(
        &user_claim.address,
        &airdrop_state_acc.address,
        &signer.address,
        program_id,
        claim.instruction_data.bump,
    ) {
        Ok(()) => {},
        Err(e) => {
            return Err(e);
        },
    }
    if airdrop_state_acc.lamports < amount {
        return Err(AirdropError::InsufficientFunds);
    }
    let new_state = AirdropState {
        merkle_root: state.merkle_root,
        authority: state.authority,
        airdrop_amount: state.airdrop_amount,
        amount_claimed: state.amount_claimed.saturating_add(amount),
        bump: state.bump,
    };
    Ok(
        ClaimEffects {
            new_state,
            claim_record: ClaimStatus { bump: claim.instruction_data.bump },
            transfer_amount: amount,
        },
    )
}

/// The checks of the rotate operation, in the order they are performed: the
/// outcome is `Ok` exactly when every check passes, and otherwise the error
/// of the first failing one.
pub open spec fn spec_update_root_check(
    accounts: Seq<LedgerAccount>,
    data: Seq<u8>,
) -> Result<(), AirdropError> {
    if accounts.len() != 3 {
        Err(AirdropError::NotEnoughAccountKeys)
    } else if !accounts[0].is_writable || accounts[0].data@.len() == 0 {
        Err(AirdropError::InvalidAccountData)
    } else if data.len() != 40 {
        Err(AirdropError::InvalidInstructionData)
    } else if accounts[0].data@.len() != 81 {
        Err(AirdropError::InvalidAccountData)
    } else if accounts[1].address@ != accounts[0].data@.subrange(32, 64) {
        Err(AirdropError::Program(AirdropProgramError::Unauthorized))
    } else {
        Ok(())
    }
}

/// What a successful rotation commits: the campaign record with the root
/// replaced and the allocation topped up, and the top-up moved from the
/// administrator onto the campaign record.
#[derive(Debug, Clone, PartialEq, Eq)]
pub struct UpdateRootEffects {
    /// The campaign record with the root replaced and allocation topped up.
    pub new_state: AirdropState,
    /// Native value to move from the administrator into the campaign record;
    /// zero moves nothing.
    pub transfer_amount: u64,
}

/// The exact effects a successful rotation returns: the root is replaced
/// unconditionally, the authority, claim total and bump are kept byte for
/// byte, the allocation grows by the top-up (saturating), and exactly the
/// top-up moves.
pub open spec fn spec_update_root_effects(
    eff: UpdateRootEffects,
    accounts: Seq<LedgerAccount>,
    data: Seq<u8>,
) -> bool {
    let stored = accounts[0].data@;
    &&& eff.new_state.merkle_root@ == data.subrange(0, 32)
    &&& eff.new_state.authority@ == stored.subrange(32, 64)
    &&& eff.new_state.airdrop_amount == spec_u64_from_le_bytes(
        stored.subrange(64, 72),
    ).saturating_add(spec_u64_from_le_bytes(data.subrange(32, 40)))
    &&& eff.new_state.amount_claimed == spec_u64_from_le_bytes(stored.subrange(72, 80))
    &&& eff.new_state.bump == stored[80]
    &&& eff.transfer_amount == spec_u64_from_le_bytes(data.subrange(32, 40))
}

/// Rotate the committed root and top up the allocation: requires the
/// campaign record writable and initialized, a well-formed payload, and the
/// caller equal to the stored administrator; nothing is mutated otherwise.
/// Accounts: campaign record, administrator, system collaborator.
pub fn process_update_root(accounts: &[LedgerAccount], data: &[u8]) -> (r: Result<
    UpdateRootEffects,
    AirdropError,
>)
    ensures
        match r {
            Ok(eff) => {
                &&& spec_update_root_check(accounts@, data@) is Ok
                &&& spec_update_root_effects(eff, accounts@, data@)
            },
            Err(e) => spec_update_root_check(accounts@, data@) == Err::<(), AirdropError>(e),
        },
{
    if accounts.len() != 3 {
        return Err(AirdropError::NotEnoughAccountKeys);
    }
    let airdrop_state_acc = slice_index_get(accounts, 0);
    let authority = slice_index_get(accounts, 1);
    if !airdrop_state_acc.is_writable || airdrop_state_acc.data.len() == 0 {
        return Err(AirdropError::InvalidAccountData);
    }
    let ix = match UpdateMerkleRootInstructionData::parse(data) {
        Ok(d) => d,
        Err(e) => {
            return Err(e);
        },
    };
    let state = match AirdropState::from_bytes(airdrop_state_acc.data.as_slice()) {
        Ok(s) => s,
        Err(e) => {
            return Err(e);
        },
    };
    if !crate::utils::bytes32_eq(&authority.address, &state.authority) {
        return Err(AirdropError::Program(AirdropProgramError::Unauthorized));
    }
    let new_state = AirdropState {
        merkle_root: ix.new_merkle_root,
        authority: state.authority,
        airdrop_amount: state.airdrop_amount.saturating_add(ix.additional_amount),
        amount_claimed: state.amount_claimed,
        bump: state.bump,
    };
    Ok(UpdateRootEffects { new_state, transfer_amount: ix.additional_amount })
}

/// The effects one dispatched instruction commits.
#[derive(Debug, Clone, PartialEq, Eq)]
pub enum InstructionEffects {
    /// An initialize was processed.
    Initialize(InitializeEffects),
    /// A claim was processed.
    Claim(ClaimEffects),
    /// A rotation was processed.
    UpdateRoot(UpdateRootEffects),
}

/// Dispatch one instruction by its leading discriminator byte (initialize,
/// claim, rotate) and process it; an empty payload or an unknown
/// discriminator is rejected.
pub fn process_instruction(
    program_id: &[u8; 32],
    accounts: &[LedgerAccount],
    instruction_data: &[u8],
) -> (r: Result<InstructionEffects, AirdropError>)
    ensures
        ({
            let payload = instruction_data@.subrange(1, instruction_data@.len() as int);
            match r {
                Ok(eff) => {
                    &&& instruction_data@.len() >= 1
                    &&& match eff {
                        InstructionEffects::Initialize(e) => {
                            &&& instruction_data@[0] == 0
                            &&& spec_initialize_check(program_id@, accounts@, payload) is Ok
                            &&& spec_initialize_effects(e, accounts@, payload)
                        },
                        InstructionEffects::Claim(e) => {
                            &&& instruction_data@[0] == 1
                            &&& spec_claim_check(program_id@, accounts@, payload) is Ok
                            &&& spec_claim_effects(e, accounts@, payload)
                        },
                        InstructionEffects::UpdateRoot(e) => {
                            &&& instruction_data@[0] == 2
                            &&& spec_update_root_check(accounts@, payload) is Ok
                            &&& spec_update_root_effects(e, accounts@, payload)
                        },
                    }
                },
                Err(e) => {
                    if instruction_data@.len() == 0 {
                        e == AirdropError::InvalidInstructionData
                    } else if instruction_data@[0] == 0 {
                        spec_initialize_check(program_id@, accounts@, payload) == Err::<
                            (),
                            AirdropError,
                        >(e)
                    } else if instruction_data@[0] == 1 {
                        spec_claim_check(program_id@, accounts@, payload) == Err::<
                            (),
                            AirdropError,
                        >(e)
                    } else if instruction_data@[0] == 2 {
                        spec_update_root_check(accounts@, payload) == Err::<(), AirdropError>(e)
                    } else {
                        e == AirdropError::InvalidInstructionData
                    }
                },
            }
        }),
{
    if instruction_data.len() == 0 {
        return Err(AirdropError::InvalidInstructionData);
    }
    let discriminator = *slice_index_get(instruction_data, 0);
    let payload = slice_subrange(instruction_data, 1, instruction_data.len());
    if discriminator == 0 {
        match process_initialize(program_id, accounts, payload) {
            Ok(eff) => Ok(InstructionEffects::Initialize(eff)),
            Err(e) => Err(e),
        }
    } else if discriminator == 1 {
        match process_claim(program_id, accounts, payload) {
            Ok(eff) => Ok(InstructionEffects::Claim(eff)),
            Err(e) => Err(e),
        }
    } else if discriminator == 2 {
        match process_update_root(accounts, payload) {
            Ok(eff) => Ok(InstructionEffects::UpdateRoot(eff)),
            Err(e) => Err(e),
        }
    } else {
        Err(AirdropError::InvalidInstructionData)
    }
}

/// Law: a claim that succeeded leaves a claim record behind, and the same
/// claim submitted again against the updated accounts fails with
/// `AccountAlreadyClaimed`, whatever else the first claim wrote to the
/// campaign record. An error carries no effects, so the retry changes no
/// balance and no counter.
pub proof fn lemma_claim_is_idempotent(
    program_id: Seq<u8>,
    accounts: Seq<LedgerAccount>,
    data: Seq<u8>,
    accounts_after: Seq<LedgerAccount>,
)
    requires
        spec_claim_check(program_id, accounts, data) is Ok,
        accounts_after.len() == 4,
        accounts_after[0].is_writable == accounts[0].is_writable,
        accounts_after[0].data@.len() == 81,
        accounts_after[2].is_writable == accounts[2].is_writable,
        accounts_after[2].data@.len() == 1,
    ensures
        spec_claim_check(program_id, accounts_after, data) == Err::<(), AirdropError>(
            AirdropError::Program(AirdropProgramError::AccountAlreadyClaimed),
        ),
{
}

/// Law: a successful claim increases the claim total by exactly the claimed
/// amount and keeps the root, the authority, the allocation and the bump of
/// the stored campaign record unchanged, provided the sum stays within the
/// numeric range (with the total already at the maximum the saturating
/// update stays there instead).
pub proof fn lemma_claim_accounting_exact(
    eff: ClaimEffects,
    accounts: Seq<LedgerAccount>,
    data: Seq<u8>,
)
    requires
        accounts.len() >= 1,
        data.len() >= 18,
        spec_claim_effects(eff, accounts, data),
        spec_u64_from_le_bytes(accounts[0].data@.subrange(72, 80)) + spec_claim_amount(data)
            <= u64::MAX,
    ensures
        eff.new_state.amount_claimed == spec_u64_from_le_bytes(
            accounts[0].data@.subrange(72, 80),
        ) + spec_claim_amount(data),
        eff.new_state.merkle_root@ == accounts[0].data@.subrange(0, 32),
        eff.new_state.authority@ == accounts[0].data@.subrange(32, 64),
        eff.new_state.airdrop_amount == spec_u64_from_le_bytes(accounts[0].data@.subrange(64, 72)),
        eff.transfer_amount == spec_claim_amount(data),
{
}

/// Law: when every account and payload check passes but the supplied proof
/// does not reconstruct the committed root for the claimant's leaf, the
/// claim fails with `InvalidProof`; an error carries no effects, so every
/// balance and counter is left untouched.
pub proof fn lemma_invalid_proof_rejected(
    program_id: Seq<u8>,
    accounts: Seq<LedgerAccount>,
    data: Seq<u8>,
)
    requires
        accounts.len() == 4,
        accounts[0].is_writable,
        accounts[0].data@.len() == 81,
        accounts[2].is_writable,
        accounts[2].data@.len() == 0,
        data.len() >= 18,
        data.len() == 18 + 32 * (data[17] as int),
        !spec_verify_merkle_proof(
            spec_airdrop_leaf(accounts[1].address@, spec_claim_amount(data), 0),
            spec_claim_proof(data),
            spec_claim_index(data) as nat,
            accounts[0].data@.subrange(0, 32),
        ),
    ensures
        spec_claim_check(program_id, accounts, data) == Err::<(), AirdropError>(
            AirdropError::Program(AirdropProgramError::InvalidProof),
        ),
{
}

/// Law: a rotation attempted by any identity other than the stored
/// administrator fails with `Unauthorized`; an error carries no effects, so
/// the stored root and allocation stay byte for byte as they were.
pub proof fn lemma_unauthorized_rotation_rejected(accounts: Seq<LedgerAccount>, data: Seq<u8>)
    requires
        accounts.len() == 3,
        accounts[0].is_writable,
        accounts[0].data@.len() == 81,
        data.len() == 40,
        accounts[1].address@ != accounts[0].data@.subrange(32, 64),
    ensures
        spec_update_root_check(accounts, data) == Err::<(), AirdropError>(
            AirdropError::Program(AirdropProgramError::Unauthorized),
        ),
{
}

/// Law: a successful rotation with top-up `x` increases the allocation by
/// exactly `x` and keeps the claim total and the bump unchanged, provided
/// the sum stays within the numeric range (with the allocation already at
/// the maximum the saturating update stays there instead).
pub proof fn lemma_rotation_top_up_exact(
    eff: UpdateRootEffects,
    accounts: Seq<LedgerAccount>,
    data: Seq<u8>,
)
    requires
        accounts.len() >= 1,
        data.len() == 40,
        spec_update_root_effects(eff, accounts, data),
        spec_u64_from_le_bytes(accounts[0].data@.subrange(64, 72)) + spec_u64_from_le_bytes(
            data.subrange(32, 40),
        ) <= u64::MAX,
    ensures
        eff.new_state.airdrop_amount == spec_u64_from_le_bytes(
            accounts[0].data@.subrange(64, 72),
        ) + spec_u64_from_le_bytes(data.subrange(32, 40)),
        eff.new_state.amount_claimed == spec_u64_from_le_bytes(accounts[0].data@.subrange(72, 80)),
        eff.new_state.bump == accounts[0].data@[80],
        eff.new_state.merkle_root@ == data.subrange(0, 32),
        eff.transfer_amount == spec_u64_from_le_bytes(data.subrange(32, 40)),
{
}

} // verus!
