use pinocchio_airdrop_distributor::errors::{AirdropError, AirdropProgramError};
use pinocchio_airdrop_distributor::processor::{
    process_claim, process_initialize, process_instruction, process_update_root,
    InstructionEffects, LedgerAccount,
};
use pinocchio_airdrop_distributor::states::{AirdropState, ClaimStatus};
use pinocchio_airdrop_distributor::instructions::{
    ClaimAirdrop, InitializeAirdropInstructionData, UpdateMerkleRootInstructionData,
};
use pinocchio_airdrop_distributor::tree::{create_merkle_proof, create_merkle_root};
use pinocchio_airdrop_distributor::utils::{create_airdrop_leaf, verify_merkle_proof};

const PROGRAM_ID: [u8; 32] =
    pinocchio_pubkey::from_str("22222222222222222222222222222222222222222222");

const SYSTEM_PROGRAM: [u8; 32] = [0u8; 32];

fn account(address: [u8; 32], lamports: u64, is_writable: bool, data: Vec<u8>) -> LedgerAccount {
    LedgerAccount { address, lamports, is_writable, data }
}

fn recipient_key(n: u8) -> [u8; 32] {
    let mut key = [0x5Au8; 32];
    key[0] = n;
    key
}

fn claim_payload(amount: u64, leaf_index: u64, bump: u8, proof: &[[u8; 32]]) -> Vec<u8> {
    let mut data = Vec::new();
    data.extend_from_slice(&amount.to_le_bytes());
    data.extend_from_slice(&leaf_index.to_le_bytes());
    data.push(bump);
    data.push(proof.len() as u8);
    for element in proof {
        data.extend_from_slice(element);
    }
    data
}

#[test]
fn campaign_address_matches_sha256_reference() {
    // the derived campaign address is the SHA-256 digest of the seed tag,
    // the bump, the program id and the fixed derivation marker
    let bump = 7u8;
    let derived = AirdropState::derive_address(&PROGRAM_ID, bump);
    let expected = solana_sha256_hasher::hashv(&[
        b"merkle_tree",
        &[bump],
        &PROGRAM_ID,
        b"ProgramDerivedAddress",
    ]);
    assert_eq!(derived, expected.to_bytes());
}

#[test]
fn claim_record_address_matches_sha256_reference() {
    let bump = 9u8;
    let airdrop = recipient_key(1);
    let claimer = recipient_key(2);
    let derived = ClaimStatus::derive_address(&airdrop, &claimer, &PROGRAM_ID, bump);
    let expected = solana_sha256_hasher::hashv(&[
        b"claim",
        &airdrop,
        &claimer,
        &[bump],
        &PROGRAM_ID,
        b"ProgramDerivedAddress",
    ]);
    assert_eq!(derived, expected.to_bytes());
}

#[test]
fn single_leaf_tree_has_empty_proof() {
    let recipients = vec![(recipient_key(3), 4200u64)];
    let root = create_merkle_root(&recipients);
    let leaf = create_airdrop_leaf(&recipients[0].0, recipients[0].1, 0);
    let proof = create_merkle_proof(&recipients, 0);

    assert!(proof.is_empty());
    assert_eq!(root, leaf);
    assert!(verify_merkle_proof(&leaf, &[], 0, &root));
    // an empty proof also verifies whatever the index says
    assert!(verify_merkle_proof(&leaf, &[], 5, &root));
    // and fails exactly when the leaf is not the root
    let other = create_airdrop_leaf(&recipients[0].0, 4201, 0);
    assert!(!verify_merkle_proof(&other, &[], 0, &root));
}

#[test]
fn bit_flips_invalidate_proof() {
    let recipients = vec![
        (recipient_key(4), 1000u64),
        (recipient_key(5), 2000u64),
        (recipient_key(6), 1500u64),
        (recipient_key(7), 3000u64),
    ];
    let root = create_merkle_root(&recipients);
    let index = 1usize;
    let proof = create_merkle_proof(&recipients, index);
    let leaf = create_airdrop_leaf(&recipients[index].0, recipients[index].1, 0);

    assert!(verify_merkle_proof(&leaf, &proof, index as u64, &root));

    // flipping any single bit of the leaf makes verification fail
    for byte in 0..32 {
        for bit in 0..8 {
            let mut mutated = leaf;
            mutated[byte] ^= 1 << bit;
            assert!(!verify_merkle_proof(&mutated, &proof, index as u64, &root));
        }
    }

    // flipping any single bit of any proof element makes verification fail
    for element in 0..proof.len() {
        for byte in 0..32 {
            for bit in 0..8 {
                let mut mutated = proof.clone();
                mutated[element][byte] ^= 1 << bit;
                assert!(!verify_merkle_proof(&leaf, &mutated, index as u64, &root));
            }
        }
    }

    // flipping any single bit of the root makes verification fail
    for byte in 0..32 {
        for bit in 0..8 {
            let mut mutated = root;
            mutated[byte] ^= 1 << bit;
            assert!(!verify_merkle_proof(&leaf, &proof, index as u64, &mutated));
        }
    }

    // flipping any consumed bit of the index makes verification fail (one
    // index bit is consumed per proof element; higher bits are never read)
    for bit in 0..proof.len() {
        let mutated = (index as u64) ^ (1u64 << bit);
        assert!(!verify_merkle_proof(&leaf, &proof, mutated, &root));
    }
}

#[test]
fn state_layout_round_trip() {
    let state = AirdropState {
        merkle_root: recipient_key(8),
        authority: recipient_key(9),
        airdrop_amount: 0x0102030405060708,
        amount_claimed: 0x1112131415161718,
        bump: 0xFE,
    };
    let bytes = state.to_bytes();

    // the packed layout, byte for byte
    let mut expected = Vec::new();
    expected.extend_from_slice(&state.merkle_root);
    expected.extend_from_slice(&state.authority);
    expected.extend_from_slice(&0x0102030405060708u64.to_le_bytes());
    expected.extend_from_slice(&0x1112131415161718u64.to_le_bytes());
    expected.push(0xFE);
    assert_eq!(bytes, expected);

    let decoded = AirdropState::from_bytes(&bytes).unwrap();
    assert_eq!(decoded, state);

    // any other length is rejected before any field is read
    assert_eq!(
        AirdropState::from_bytes(&bytes[..80]),
        Err(AirdropError::InvalidAccountData),
    );

    let record = ClaimStatus { bump: 3 };
    assert_eq!(record.to_bytes(), vec![3u8]);
    assert_eq!(ClaimStatus::from_bytes(&[3u8]), Ok(record));
    assert_eq!(ClaimStatus::from_bytes(&[]), Err(AirdropError::InvalidAccountData));
}

#[test]
fn instruction_payload_parsing() {
    // initialize payload: root, little-endian amount, bump — exactly 41 bytes
    let mut init = Vec::new();
    init.extend_from_slice(&[7u8; 32]);
    init.extend_from_slice(&258u64.to_le_bytes());
    init.push(9);
    let parsed = InitializeAirdropInstructionData::parse(&init).unwrap();
    assert_eq!(parsed.merkle_root, [7u8; 32]);
    assert_eq!(parsed.amount, 258);
    assert_eq!(parsed.bump, 9);
    assert!(InitializeAirdropInstructionData::parse(&init[..40]).is_err());

    // rotate payload: new root, little-endian top-up — exactly 40 bytes
    let mut rotate = Vec::new();
    rotate.extend_from_slice(&[8u8; 32]);
    rotate.extend_from_slice(&0x0100u64.to_le_bytes());
    let parsed = UpdateMerkleRootInstructionData::parse(&rotate).unwrap();
    assert_eq!(parsed.new_merkle_root, [8u8; 32]);
    assert_eq!(parsed.additional_amount, 256);
    assert!(UpdateMerkleRootInstructionData::parse(&rotate[..39]).is_err());

    // claim payload: fixed head, then exactly proof_len 32-byte siblings
    let proof = [[0x21u8; 32], [0x22u8; 32]];
    let claim = claim_payload(50_000_000, 3, 200, &proof);
    let parsed = ClaimAirdrop::parse_from_data(&claim).unwrap();
    assert_eq!(parsed.instruction_data.amount, 50_000_000);
    assert_eq!(parsed.instruction_data.leaf_index, 3);
    assert_eq!(parsed.instruction_data.bump, 200);
    assert_eq!(parsed.instruction_data.proof_len, 2);
    assert_eq!(parsed.get_proof().as_slice(), &proof);
    // a truncated proof, and a head shorter than 18 bytes, are rejected
    assert!(ClaimAirdrop::parse_from_data(&claim[..claim.len() - 1]).is_err());
    assert!(ClaimAirdrop::parse_from_data(&claim[..17]).is_err());
}

#[test]
fn program_error_codes() {
    assert_eq!(AirdropProgramError::InvalidProof.code(), 0);
    assert_eq!(AirdropProgramError::Unauthorized.code(), 1);
    assert_eq!(AirdropProgramError::AccountAlreadyClaimed.code(), 2);
}

#[test]
fn structural_failures_are_rejected() {
    let maker = [0x02u8; 32];
    let bump = 254u8;
    let airdrop_address = AirdropState::derive_address(&PROGRAM_ID, bump);

    // too few accounts
    let two_accounts = vec![
        account(airdrop_address, 0, true, vec![]),
        account(maker, 1, true, vec![]),
    ];
    assert_eq!(
        process_initialize(&PROGRAM_ID, &two_accounts, &[0u8; 41]),
        Err(AirdropError::NotEnoughAccountKeys),
    );

    // a campaign slot that is not writable
    let not_writable = vec![
        account(airdrop_address, 0, false, vec![]),
        account(maker, 1, true, vec![]),
        account(SYSTEM_PROGRAM, 1, false, vec![]),
    ];
    assert_eq!(
        process_initialize(&PROGRAM_ID, &not_writable, &[0u8; 41]),
        Err(AirdropError::InvalidAccountData),
    );

    // a campaign slot that already holds data
    let already_there = vec![
        account(airdrop_address, 0, true, vec![1u8]),
        account(maker, 1, true, vec![]),
        account(SYSTEM_PROGRAM, 1, false, vec![]),
    ];
    assert_eq!(
        process_initialize(&PROGRAM_ID, &already_there, &[0u8; 41]),
        Err(AirdropError::AccountAlreadyInitialized),
    );

    // a mis-sized payload
    let fresh = vec![
        account(airdrop_address, 0, true, vec![]),
        account(maker, 1, true, vec![]),
        account(SYSTEM_PROGRAM, 1, false, vec![]),
    ];
    assert_eq!(
        process_initialize(&PROGRAM_ID, &fresh, &[0u8; 40]),
        Err(AirdropError::InvalidInstructionData),
    );

    // a campaign address that is not the derived one
    let wrong_address = vec![
        account(recipient_key(10), 0, true, vec![]),
        account(maker, 1, true, vec![]),
        account(SYSTEM_PROGRAM, 1, false, vec![]),
    ];
    let mut init_data = vec![0u8; 40];
    init_data.push(bump);
    assert_eq!(
        process_initialize(&PROGRAM_ID, &wrong_address, &init_data),
        Err(AirdropError::InvalidAccountData),
    );

    // an empty instruction, and an unknown discriminator
    assert_eq!(
        process_instruction(&PROGRAM_ID, &fresh, &[]),
        Err(AirdropError::InvalidInstructionData),
    );
    assert_eq!(
        process_instruction(&PROGRAM_ID, &fresh, &[9u8]),
        Err(AirdropError::InvalidInstructionData),
    );
}

#[test]
fn claim_structural_failures_are_rejected() {
    let maker = [0x02u8; 32];
    let claimer = [0x03u8; 32];

    let recipients = vec![(claimer, 50_000_000u64), (recipient_key(11), 75_000_000u64)];
    let merkle_root = create_merkle_root(&recipients);
    let amount: u64 = 125_000_000;

    let airdrop_bump = 254u8;
    let airdrop_address = AirdropState::derive_address(&PROGRAM_ID, airdrop_bump);
    let state = AirdropState {
        merkle_root,
        authority: maker,
        airdrop_amount: amount,
        amount_claimed: 0,
        bump: airdrop_bump,
    };

    let user_bump = 200u8;
    let user_claim_address =
        ClaimStatus::derive_address(&airdrop_address, &claimer, &PROGRAM_ID, user_bump);

    let proof = create_merkle_proof(&recipients, 0);
    let data = claim_payload(50_000_000, 0, user_bump, &proof);

    // a declared proof length that does not match the supplied bytes
    let mut mismatched = data.clone();
    mismatched[17] = proof.len() as u8 + 1;
    let accounts = vec![
        account(airdrop_address, amount, true, state.to_bytes()),
        account(claimer, 1, true, vec![]),
        account(user_claim_address, 0, true, vec![]),
        account(SYSTEM_PROGRAM, 1, false, vec![]),
    ];
    assert_eq!(
        process_claim(&PROGRAM_ID, &accounts, &mismatched),
        Err(AirdropError::InvalidInstructionData),
    );

    // a claim-record slot that is not the derived address
    let wrong_record = vec![
        account(airdrop_address, amount, true, state.to_bytes()),
        account(claimer, 1, true, vec![]),
        account(recipient_key(12), 0, true, vec![]),
        account(SYSTEM_PROGRAM, 1, false, vec![]),
    ];
    assert_eq!(
        process_claim(&PROGRAM_ID, &wrong_record, &data),
        Err(AirdropError::InvalidAccountData),
    );

    // a campaign record whose stored bytes are mis-sized
    let short_state = vec![
        account(airdrop_address, amount, true, vec![1u8; 80]),
        account(claimer, 1, true, vec![]),
        account(user_claim_address, 0, true, vec![]),
        account(SYSTEM_PROGRAM, 1, false, vec![]),
    ];
    assert_eq!(
        process_claim(&PROGRAM_ID, &short_state, &data),
        Err(AirdropError::InvalidAccountData),
    );

    // a campaign balance that cannot cover the claim
    let poor = vec![
        account(airdrop_address, 49_999_999, true, state.to_bytes()),
        account(claimer, 1, true, vec![]),
        account(user_claim_address, 0, true, vec![]),
        account(SYSTEM_PROGRAM, 1, false, vec![]),
    ];
    assert_eq!(
        process_claim(&PROGRAM_ID, &poor, &data),
        Err(AirdropError::InsufficientFunds),
    );

    // the same claim against sufficient balance succeeds
    let effects = process_claim(&PROGRAM_ID, &accounts, &data).unwrap();
    assert_eq!(effects.transfer_amount, 50_000_000);
}

#[test]
fn claim_total_saturates_at_maximum() {
    let maker = [0x02u8; 32];
    let claimer = [0x03u8; 32];

    let recipients = vec![(claimer, 50_000_000u64), (recipient_key(13), 75_000_000u64)];
    let merkle_root = create_merkle_root(&recipients);

    let airdrop_bump = 254u8;
    let airdrop_address = AirdropState::derive_address(&PROGRAM_ID, airdrop_bump);
    let state = AirdropState {
        merkle_root,
        authority: maker,
        airdrop_amount: u64::MAX,
        amount_claimed: u64::MAX - 1,
        bump: airdrop_bump,
    };

    let user_bump = 200u8;
    let user_claim_address =
        ClaimStatus::derive_address(&airdrop_address, &claimer, &PROGRAM_ID, user_bump);

    let proof = create_merkle_proof(&recipients, 0);
    let data = claim_payload(50_000_000, 0, user_bump, &proof);

    let accounts = vec![
        account(airdrop_address, u64::MAX, true, state.to_bytes()),
        account(claimer, 1, true, vec![]),
        account(user_claim_address, 0, true, vec![]),
        account(SYSTEM_PROGRAM, 1, false, vec![]),
    ];

    let effects = process_claim(&PROGRAM_ID, &accounts, &data).unwrap();
    // the claim total clamps at the numeric maximum instead of wrapping
    assert_eq!(effects.new_state.amount_claimed, u64::MAX);
    assert_eq!(effects.transfer_amount, 50_000_000);
}

#[test]
fn allocation_saturates_at_maximum() {
    let maker = [0x02u8; 32];
    let airdrop_bump = 254u8;
    let airdrop_address = AirdropState::derive_address(&PROGRAM_ID, airdrop_bump);
    let state = AirdropState {
        merkle_root: recipient_key(14),
        authority: maker,
        airdrop_amount: u64::MAX - 5,
        amount_claimed: 0,
        bump: airdrop_bump,
    };

    let mut data = vec![];
    data.extend_from_slice(&recipient_key(15));
    data.extend_from_slice(&10u64.to_le_bytes());

    let accounts = vec![
        account(airdrop_address, 1, true, state.to_bytes()),
        account(maker, 1, true, vec![]),
        account(SYSTEM_PROGRAM, 1, false, vec![]),
    ];

    let effects = process_update_root(&accounts, &data).unwrap();
    // the allocation clamps at the numeric maximum instead of wrapping
    assert_eq!(effects.new_state.airdrop_amount, u64::MAX);
    assert_eq!(effects.new_state.amount_claimed, 0);
    assert_eq!(effects.new_state.merkle_root, recipient_key(15));
}

#[test]
fn end_to_end_campaign_scenario() {
    let maker = [0x02u8; 32];
    let recipient_a = recipient_key(16);
    let recipient_b = recipient_key(17);
    let recipient_c = recipient_key(18);

    let recipients = vec![
        (recipient_a, 100_000_000u64),
        (recipient_b, 200_000_000u64),
        (recipient_c, 150_000_000u64),
    ];
    let merkle_root = create_merkle_root(&recipients);
    let total: u64 = 450_000_000;

    // initialize the campaign
    let airdrop_bump = 254u8;
    let airdrop_address = AirdropState::derive_address(&PROGRAM_ID, airdrop_bump);
    let mut init_data = vec![0u8];
    init_data.extend_from_slice(&merkle_root);
    init_data.extend_from_slice(&total.to_le_bytes());
    init_data.push(airdrop_bump);

    let init_accounts = vec![
        account(airdrop_address, 0, true, vec![]),
        account(maker, 1_000_000_000, true, vec![]),
        account(SYSTEM_PROGRAM, 1, false, vec![]),
    ];
    let init_effects = match process_instruction(&PROGRAM_ID, &init_accounts, &init_data) {
        Ok(InstructionEffects::Initialize(effects)) => effects,
        other => panic!("initialize did not succeed: {:?}", other),
    };
    assert_eq!(init_effects.transfer_amount, total);

    // claimant B submits (amount = 200_000_000, index = 1, proof = p_B)
    let rent = 1_000_000u64;
    let campaign_lamports = rent + init_effects.transfer_amount;
    let user_bump = 200u8;
    let user_claim_address =
        ClaimStatus::derive_address(&airdrop_address, &recipient_b, &PROGRAM_ID, user_bump);
    let proof_b = create_merkle_proof(&recipients, 1);
    let mut claim_data = vec![1u8];
    claim_data.extend_from_slice(&claim_payload(200_000_000, 1, user_bump, &proof_b));

    let claim_accounts = vec![
        account(airdrop_address, campaign_lamports, true, init_effects.state.to_bytes()),
        account(recipient_b, 1_000_000_000, true, vec![]),
        account(user_claim_address, 0, true, vec![]),
        account(SYSTEM_PROGRAM, 1, false, vec![]),
    ];
    let claim_effects = match process_instruction(&PROGRAM_ID, &claim_accounts, &claim_data) {
        Ok(InstructionEffects::Claim(effects)) => effects,
        other => panic!("claim did not succeed: {:?}", other),
    };

    // the campaign balance is reduced by exactly the claimed amount, and the
    // claim total records it
    assert_eq!(claim_effects.transfer_amount, 200_000_000);
    assert_eq!(campaign_lamports - claim_effects.transfer_amount, rent + 250_000_000);
    assert_eq!(claim_effects.new_state.amount_claimed, 200_000_000);

    // a resubmission of the same instruction finds the claim record created
    // by the first one and fails
    let retry_accounts = vec![
        account(
            airdrop_address,
            campaign_lamports - claim_effects.transfer_amount,
            true,
            claim_effects.new_state.to_bytes(),
        ),
        account(recipient_b, 1_200_000_000, true, vec![]),
        account(user_claim_address, rent, true, claim_effects.claim_record.to_bytes()),
        account(SYSTEM_PROGRAM, 1, false, vec![]),
    ];
    let retry = process_instruction(&PROGRAM_ID, &retry_accounts, &claim_data);
    assert!(retry == Err(AirdropError::Program(AirdropProgramError::AccountAlreadyClaimed)));
}
