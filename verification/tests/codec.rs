use multiplier_proxy::error::ProcessError;
use multiplier_proxy::identity::Identity;
use multiplier_proxy::instruction::ProxyInstruction;
use multiplier_proxy::state::ProxyState;
use multiplier_proxy::wire::{append_u64_le, read_u64_le, to_signed_value, to_unsigned_bits};

fn id(first: u8) -> Identity {
    let mut bytes = [0u8; 32];
    for (i, b) in bytes.iter_mut().enumerate() {
        *b = first.wrapping_add(i as u8);
    }
    Identity::new(bytes)
}

fn sample_state() -> ProxyState {
    ProxyState { initialized: true, authority: id(10), token_mint: id(100), bump: 254 }
}

fn state_bytes(state: &ProxyState) -> Vec<u8> {
    let mut out = Vec::new();
    state.serialize(&mut out);
    out
}

fn instruction_bytes(instruction: &ProxyInstruction) -> Vec<u8> {
    let mut out = Vec::new();
    instruction.serialize(&mut out).unwrap();
    out
}

#[test]
fn state_len_is_sixty_six() {
    assert_eq!(ProxyState::LEN, 66);
    assert_eq!(ProxyState::LEN, 1 + 32 + 32 + 1);
    assert_eq!(state_bytes(&sample_state()).len(), ProxyState::LEN);
}

#[test]
fn seeds_are_the_ascii_tags() {
    assert_eq!(&ProxyState::STATE_SEED[..], b"state");
    assert_eq!(&ProxyState::AUTHORITY_SEED[..], b"proxy_authority");
}

#[test]
fn state_layout_is_flag_authority_mint_bump() {
    let state = sample_state();
    let bytes = state_bytes(&state);
    assert_eq!(bytes[0], 1);
    assert_eq!(&bytes[1..33], &state.authority.bytes[..]);
    assert_eq!(&bytes[33..65], &state.token_mint.bytes[..]);
    assert_eq!(bytes[65], 254);
}

#[test]
fn state_serialize_appends() {
    let mut out = vec![7u8, 8, 9];
    sample_state().serialize(&mut out);
    assert_eq!(out.len(), 69);
    assert_eq!(&out[..3], &[7, 8, 9]);
    assert_eq!(&out[3..], &state_bytes(&sample_state())[..]);
}

#[test]
fn state_bytes_agree_with_borsh() {
    for initialized in [false, true] {
        let state = ProxyState { initialized, authority: id(3), token_mint: id(77), bump: 9 };
        let expected =
            borsh::to_vec(&(initialized, state.authority.bytes, state.token_mint.bytes, 9u8))
                .unwrap();
        assert_eq!(state_bytes(&state), expected);
    }
}

#[test]
fn state_decoding_agrees_with_borsh() {
    let mut inputs: Vec<Vec<u8>> = vec![
        vec![],
        vec![0u8; 65],
        vec![0u8; 66],
        vec![0u8; 67],
        state_bytes(&sample_state()),
    ];
    let mut bad_flag = state_bytes(&sample_state());
    bad_flag[0] = 2;
    inputs.push(bad_flag);
    let mut high_flag = state_bytes(&sample_state());
    high_flag[0] = 255;
    inputs.push(high_flag);
    for data in inputs {
        let ours = ProxyState::try_from_slice(&data);
        let theirs = borsh::from_slice::<(bool, [u8; 32], [u8; 32], u8)>(&data);
        match (ours, theirs) {
            (Ok(state), Ok((initialized, authority, token_mint, bump))) => {
                assert_eq!(state.initialized, initialized);
                assert_eq!(state.authority.bytes, authority);
                assert_eq!(state.token_mint.bytes, token_mint);
                assert_eq!(state.bump, bump);
            }
            (Err(e), Err(_)) => assert_eq!(e, ProcessError::Deserialization),
            (ours, theirs) => panic!("disagreement on {:?}: {:?} against {:?}", data, ours, theirs.is_ok()),
        }
    }
}

#[test]
fn state_round_trip() {
    let state = sample_state();
    assert_eq!(ProxyState::try_from_slice(&state_bytes(&state)), Ok(state));
    let blank = ProxyState { initialized: false, authority: Identity::zero(), token_mint: Identity::zero(), bump: 0 };
    assert_eq!(state_bytes(&blank), vec![0u8; 66]);
    assert_eq!(ProxyState::try_from_slice(&[0u8; 66]), Ok(blank));
}

#[test]
fn state_of_wrong_size_is_refused() {
    assert_eq!(ProxyState::try_from_slice(&[]), Err(ProcessError::Deserialization));
    assert_eq!(ProxyState::try_from_slice(&[1u8; 65]), Err(ProcessError::Deserialization));
    assert_eq!(ProxyState::try_from_slice(&[1u8; 67]), Err(ProcessError::Deserialization));
    assert!(ProxyState::try_from_slice(&[1u8; 66]).is_ok());
}

#[test]
fn state_with_bad_flag_is_refused() {
    let mut bytes = state_bytes(&sample_state());
    bytes[0] = 2;
    assert_eq!(ProxyState::try_from_slice(&bytes), Err(ProcessError::Deserialization));
}

#[test]
fn little_endian_exact_values() {
    let mut out = Vec::new();
    append_u64_le(&mut out, 0x0102_0304_0506_0708);
    assert_eq!(out, vec![8, 7, 6, 5, 4, 3, 2, 1]);
    assert_eq!(read_u64_le(&out, 0), 0x0102_0304_0506_0708);
    let mut out = vec![0xaa];
    append_u64_le(&mut out, 1_700_000_000);
    assert_eq!(out, vec![0xaa, 0, 241, 83, 101, 0, 0, 0, 0]);
    assert_eq!(read_u64_le(&out, 1), 1_700_000_000);
}

#[test]
fn little_endian_agrees_with_std() {
    for x in [0u64, 1, 255, 256, u64::MAX, 0x8000_0000_0000_0000, 0x3ff0_cccc_cccc_cccd] {
        let mut out = Vec::new();
        append_u64_le(&mut out, x);
        assert_eq!(out, x.to_le_bytes().to_vec());
        assert_eq!(read_u64_le(&out, 0), x);
    }
}

#[test]
fn signed_bits_agree_with_std() {
    for x in [0i64, 1, -1, i64::MAX, i64::MIN, 1_700_000_000, -1_700_000_000] {
        assert_eq!(to_unsigned_bits(x), x as u64);
        assert_eq!(to_unsigned_bits(x).to_le_bytes(), x.to_le_bytes());
        assert_eq!(to_signed_value(x as u64), x);
    }
    assert_eq!(to_unsigned_bits(-1), u64::MAX);
    assert_eq!(to_signed_value(0x8000_0000_0000_0000), i64::MIN);
}

#[test]
fn instruction_tags_are_zero_one_two() {
    assert_eq!(instruction_bytes(&ProxyInstruction::Initialize { authority: id(1) })[0], 0);
    assert_eq!(
        instruction_bytes(&ProxyInstruction::UpdateMultiplier {
            new_multiplier: 1.5f64.to_bits(),
            effective_timestamp: 0
        })[0],
        1
    );
    assert_eq!(instruction_bytes(&ProxyInstruction::UpdateAuthority { new_authority: id(1) })[0], 2);
}

#[test]
fn initialize_layout() {
    let bytes = instruction_bytes(&ProxyInstruction::Initialize { authority: id(5) });
    assert_eq!(bytes.len(), 33);
    assert_eq!(&bytes[1..], &id(5).bytes[..]);
    assert_eq!(bytes, borsh::to_vec(&(0u8, id(5).bytes)).unwrap());
}

#[test]
fn update_multiplier_layout() {
    let bytes = instruction_bytes(&ProxyInstruction::UpdateMultiplier {
        new_multiplier: 1.05f64.to_bits(),
        effective_timestamp: 1_700_000_000,
    });
    assert_eq!(bytes, vec![1, 205, 204, 204, 204, 204, 204, 240, 63, 0, 241, 83, 101, 0, 0, 0, 0]);
    assert_eq!(bytes, borsh::to_vec(&(1u8, 1.05f64, 1_700_000_000i64)).unwrap());
}

#[test]
fn update_authority_layout() {
    let bytes = instruction_bytes(&ProxyInstruction::UpdateAuthority { new_authority: id(9) });
    assert_eq!(bytes.len(), 33);
    assert_eq!(bytes, borsh::to_vec(&(2u8, id(9).bytes)).unwrap());
}

#[test]
fn instruction_round_trip() {
    let all = [
        ProxyInstruction::Initialize { authority: id(1) },
        ProxyInstruction::UpdateMultiplier { new_multiplier: 2.5f64.to_bits(), effective_timestamp: -7 },
        ProxyInstruction::UpdateMultiplier { new_multiplier: f64::INFINITY.to_bits(), effective_timestamp: i64::MIN },
        ProxyInstruction::UpdateMultiplier { new_multiplier: 0, effective_timestamp: i64::MAX },
        ProxyInstruction::UpdateAuthority { new_authority: Identity::zero() },
    ];
    for instruction in all {
        assert_eq!(ProxyInstruction::try_from_slice(&instruction_bytes(&instruction)), Ok(instruction));
    }
}

#[test]
fn instruction_decoding_reads_fields() {
    let data = borsh::to_vec(&(1u8, -0.25f64, -5i64)).unwrap();
    assert_eq!(
        ProxyInstruction::try_from_slice(&data),
        Ok(ProxyInstruction::UpdateMultiplier {
            new_multiplier: (-0.25f64).to_bits(),
            effective_timestamp: -5
        })
    );
    let data = borsh::to_vec(&(2u8, id(40).bytes)).unwrap();
    assert_eq!(
        ProxyInstruction::try_from_slice(&data),
        Ok(ProxyInstruction::UpdateAuthority { new_authority: id(40) })
    );
}

#[test]
fn instruction_with_unknown_tag_is_refused() {
    let mut data = instruction_bytes(&ProxyInstruction::Initialize { authority: id(1) });
    data[0] = 3;
    assert_eq!(ProxyInstruction::try_from_slice(&data), Err(ProcessError::Deserialization));
    data[0] = 255;
    assert_eq!(ProxyInstruction::try_from_slice(&data), Err(ProcessError::Deserialization));
}

#[test]
fn instruction_of_wrong_size_is_refused() {
    assert_eq!(ProxyInstruction::try_from_slice(&[]), Err(ProcessError::Deserialization));
    assert_eq!(ProxyInstruction::try_from_slice(&[0]), Err(ProcessError::Deserialization));
    assert_eq!(ProxyInstruction::try_from_slice(&[0u8; 32]), Err(ProcessError::Deserialization));
    assert_eq!(ProxyInstruction::try_from_slice(&[0u8; 34]), Err(ProcessError::Deserialization));
    let mut update = instruction_bytes(&ProxyInstruction::UpdateMultiplier {
        new_multiplier: 1.0f64.to_bits(),
        effective_timestamp: 1,
    });
    update.push(0);
    assert_eq!(ProxyInstruction::try_from_slice(&update), Err(ProcessError::Deserialization));
    update.truncate(16);
    assert_eq!(ProxyInstruction::try_from_slice(&update), Err(ProcessError::Deserialization));
    let mut with_other_tag = instruction_bytes(&ProxyInstruction::Initialize { authority: id(1) });
    with_other_tag[0] = 1;
    assert_eq!(ProxyInstruction::try_from_slice(&with_other_tag), Err(ProcessError::Deserialization));
}

#[test]
fn nan_multiplier_has_no_encoding() {
    let nan = ProxyInstruction::UpdateMultiplier { new_multiplier: f64::NAN.to_bits(), effective_timestamp: 0 };
    let mut out = vec![1u8, 2];
    assert_eq!(nan.serialize(&mut out), Err(ProcessError::Deserialization));
    assert_eq!(out, vec![1u8, 2]);
    assert!(borsh::to_vec(&(1u8, f64::NAN, 0i64)).is_err());

    let mut data = vec![1u8];
    data.extend_from_slice(&f64::NAN.to_bits().to_le_bytes());
    data.extend_from_slice(&0i64.to_le_bytes());
    assert_eq!(ProxyInstruction::try_from_slice(&data), Err(ProcessError::Deserialization));
    assert!(borsh::from_slice::<(u8, f64, i64)>(&data).is_err());
}
