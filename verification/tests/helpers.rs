use std::str::FromStr;

use multiplier_proxy::effects::InitializePlan;
use multiplier_proxy::identity::Identity;
use multiplier_proxy::pda::{find_program_address, SeedTag, SigningProof};
use multiplier_proxy::state::ProxyState;
use multiplier_proxy::token_2022_helpers::{
    token_2022_program_id, update_multiplier, AccountMeta, ScaledUiAmountMintInstruction,
    TokenInstruction, TOKEN_2022_PROGRAM_ID,
};
use solana_program::pubkey::Pubkey;

fn id(first: u8) -> Identity {
    Identity::new([first; 32])
}

#[test]
fn token_program_id_is_the_base58_name() {
    let expected = Pubkey::from_str("TokenzQdBNbLqP5VEhdkAS6EPFLC1PHnBqCXEpPxuEb").unwrap();
    assert_eq!(TOKEN_2022_PROGRAM_ID, expected.to_bytes());
    assert_eq!(token_2022_program_id().bytes, expected.to_bytes());
}

#[test]
fn opcodes() {
    assert_eq!(TokenInstruction::ScaledUiAmountExtension.discriminant(), 43);
    assert_eq!(ScaledUiAmountMintInstruction::Initialize.discriminant(), 0);
    assert_eq!(ScaledUiAmountMintInstruction::UpdateMultiplier.discriminant(), 1);
}

#[test]
fn account_meta_constructors() {
    assert_eq!(
        AccountMeta::new(id(1), false),
        AccountMeta { pubkey: id(1), is_signer: false, is_writable: true }
    );
    assert_eq!(
        AccountMeta::new_readonly(id(2), true),
        AccountMeta { pubkey: id(2), is_signer: true, is_writable: false }
    );
    let theirs = solana_program::instruction::AccountMeta::new(Pubkey::new_from_array([1; 32]), true);
    let ours = AccountMeta::new(id(1), true);
    assert_eq!(
        (ours.pubkey.bytes, ours.is_signer, ours.is_writable),
        (theirs.pubkey.to_bytes(), theirs.is_signer, theirs.is_writable)
    );
    let theirs =
        solana_program::instruction::AccountMeta::new_readonly(Pubkey::new_from_array([1; 32]), false);
    let ours = AccountMeta::new_readonly(id(1), false);
    assert_eq!(
        (ours.pubkey.bytes, ours.is_signer, ours.is_writable),
        (theirs.pubkey.to_bytes(), theirs.is_signer, theirs.is_writable)
    );
}

#[test]
fn update_multiplier_exact_payload() {
    let ix = update_multiplier(&id(3), &id(4), 1.05f64.to_bits(), 1_700_000_000).unwrap();
    assert_eq!(
        ix.data,
        vec![43, 1, 205, 204, 204, 204, 204, 204, 240, 63, 0, 241, 83, 101, 0, 0, 0, 0]
    );
    assert_eq!(ix.data.len(), 18);
}

#[test]
fn update_multiplier_payload_is_opcodes_then_le_fields() {
    for (m, ts) in [(1.05f64, 1_700_000_000i64), (2.0, -1), (1e-300, i64::MIN), (f64::MAX, i64::MAX)] {
        let ix = update_multiplier(&id(3), &id(4), m.to_bits(), ts).unwrap();
        let mut expected = vec![43u8, 1u8];
        expected.extend_from_slice(&m.to_le_bytes());
        expected.extend_from_slice(&ts.to_le_bytes());
        assert_eq!(ix.data, expected);
    }
}

#[test]
fn update_multiplier_accounts_and_program() {
    let ix = update_multiplier(&id(3), &id(4), 1.05f64.to_bits(), 0).unwrap();
    assert_eq!(ix.program_id, token_2022_program_id());
    assert_eq!(
        ix.accounts,
        vec![
            AccountMeta { pubkey: id(3), is_signer: false, is_writable: true },
            AccountMeta { pubkey: id(4), is_signer: true, is_writable: false },
        ]
    );
}

#[test]
fn update_multiplier_builds_for_any_bits() {
    assert!(update_multiplier(&id(3), &id(4), f64::NAN.to_bits(), 0).is_ok());
    assert!(update_multiplier(&id(3), &id(4), 0, 0).is_ok());
}

#[test]
fn derivation_agrees_with_the_host_library() {
    for first in [0u8, 1, 7, 200] {
        let program = id(first);
        let pubkey = Pubkey::new_from_array(program.bytes);
        let (state, state_bump) = Pubkey::find_program_address(&[b"state"], &pubkey);
        let (signing, signing_bump) = Pubkey::find_program_address(&[b"proxy_authority"], &pubkey);
        assert_eq!(
            find_program_address(SeedTag::State, &program),
            Some((Identity::new(state.to_bytes()), state_bump))
        );
        assert_eq!(
            find_program_address(SeedTag::Authority, &program),
            Some((Identity::new(signing.to_bytes()), signing_bump))
        );
    }
}

#[test]
fn derivation_is_not_the_identity() {
    let program = id(9);
    let (address, bump) = find_program_address(SeedTag::State, &program).unwrap();
    assert_ne!(address, program);
    let again = Pubkey::create_program_address(
        &[b"state", &[bump]],
        &Pubkey::new_from_array(program.bytes),
    )
    .unwrap();
    assert_eq!(address.bytes, again.to_bytes());
}

#[test]
fn derivation_is_repeatable_and_separates_tags() {
    let program = id(11);
    let first = find_program_address(SeedTag::State, &program);
    assert_eq!(first, find_program_address(SeedTag::State, &program));
    assert_ne!(first.unwrap().0, find_program_address(SeedTag::Authority, &program).unwrap().0);
    assert_ne!(first.unwrap().0, find_program_address(SeedTag::State, &id(12)).unwrap().0);
}

#[test]
fn seed_tag_bytes() {
    assert_eq!(SeedTag::State.bytes(), b"state");
    assert_eq!(SeedTag::Authority.bytes(), b"proxy_authority");
}

fn sample_plan() -> InitializePlan {
    InitializePlan {
        payer: id(1),
        state_account: id(2),
        owner: id(3),
        state_bump: 250,
        record: ProxyState { initialized: true, authority: id(4), token_mint: id(5), bump: 251 },
        authority_pda: id(6),
    }
}

#[test]
fn create_account_call() {
    let plan = sample_plan();
    assert_eq!(plan.space(), 66);
    let call = plan.create_account(1_350_240);
    assert_eq!(call.accounts, vec![0, 1, 4]);
    assert_eq!(call.signer, SigningProof { tag: SeedTag::State, bump: 250 });
    assert_eq!(call.instruction.program_id, Identity::zero());
    assert_eq!(
        call.instruction.accounts,
        vec![
            AccountMeta { pubkey: id(1), is_signer: true, is_writable: true },
            AccountMeta { pubkey: id(2), is_signer: true, is_writable: true },
        ]
    );
    let mut expected = vec![0u8, 0, 0, 0];
    expected.extend_from_slice(&1_350_240u64.to_le_bytes());
    expected.extend_from_slice(&66u64.to_le_bytes());
    expected.extend_from_slice(&[3u8; 32]);
    assert_eq!(call.instruction.data, expected);
}

#[test]
#[allow(deprecated)]
fn create_account_call_agrees_with_the_host_library() {
    let plan = sample_plan();
    let call = plan.create_account(42);
    let theirs = solana_program::system_instruction::create_account(
        &Pubkey::new_from_array([1; 32]),
        &Pubkey::new_from_array([2; 32]),
        42,
        ProxyState::LEN as u64,
        &Pubkey::new_from_array([3; 32]),
    );
    assert_eq!(call.instruction.program_id.bytes, theirs.program_id.to_bytes());
    assert_eq!(call.instruction.program_id.bytes, solana_program::system_program::id().to_bytes());
    assert_eq!(call.instruction.data, theirs.data);
    assert_eq!(call.instruction.accounts.len(), theirs.accounts.len());
    for (ours, theirs) in call.instruction.accounts.iter().zip(theirs.accounts.iter()) {
        assert_eq!(ours.pubkey.bytes, theirs.pubkey.to_bytes());
        assert_eq!(ours.is_signer, theirs.is_signer);
        assert_eq!(ours.is_writable, theirs.is_writable);
    }
}

#[test]
fn identity_basics() {
    assert!(Identity::zero().is_zero());
    assert!(!id(1).is_zero());
    let mut almost = [0u8; 32];
    almost[31] = 1;
    assert!(!Identity::new(almost).is_zero());
    assert!(id(1).equals(&id(1)));
    assert!(!id(1).equals(&id(2)));
    assert!(!Identity::new(almost).equals(&Identity::zero()));
    assert_eq!(Identity::zero().bytes, Pubkey::default().to_bytes());

    let data: Vec<u8> = (0u8..40).collect();
    let read = Identity::read_from(&data, 3);
    assert_eq!(&read.bytes[..], &data[3..35]);
    let mut out = vec![9u8];
    read.append_to(&mut out);
    assert_eq!(out.len(), 33);
    assert_eq!(&out[1..], &data[3..35]);
}
