//! The bytes that are hashed and signed.

use multi_gomoku::encoding::{
    app_account, encode_app_id_preimage, encode_app_state, MULTI_GOMOKU_ID,
};
use multi_gomoku::module::Module;
use multi_gomoku::runtime::{Sr25519Runtime, Trait};
use multi_gomoku::types::{AppInitiateRequest, AppState};
use parity_scale_codec::Encode;
use sp_core::{sr25519, Pair};
use sp_runtime::traits::AccountIdConversion;
use sp_runtime::ModuleId;

#[test]
fn module_account_is_tag_identifier_and_zeros() {
    let mut expected = b"modlm_gomoku".to_vec();
    expected.extend_from_slice(&[0u8; 20]);
    assert_eq!(app_account().to_vec(), expected);
    assert_eq!(Module::<Sr25519Runtime>::app_account().to_vec(), expected);
    assert_eq!(&MULTI_GOMOKU_ID, b"m_gomoku");
    let converted: [u8; 32] = ModuleId(*b"m_gomoku").into_account();
    assert_eq!(app_account(), converted);
}

#[test]
fn app_state_is_laid_out_field_by_field() {
    let app_state = AppState {
        seq_num: 0x0102_0304_0506_0708_090a_0b0c_0d0e_0f10,
        board_state: vec![9, 8, 7],
        timeout: 0x1122_3344_5566_7788,
        app_id: [0xaa; 32],
    };
    let mut expected: Vec<u8> = vec![
        0x10, 0x0f, 0x0e, 0x0d, 0x0c, 0x0b, 0x0a, 0x09, 0x08, 0x07, 0x06, 0x05, 0x04, 0x03, 0x02,
        0x01,
    ];
    expected.extend_from_slice(&[9, 8, 7]);
    expected.extend_from_slice(&[0x88, 0x77, 0x66, 0x55, 0x44, 0x33, 0x22, 0x11]);
    expected.extend_from_slice(&[0xaa; 32]);
    assert_eq!(encode_app_state(&app_state), expected);
}

#[test]
fn app_state_of_a_full_board_has_284_bytes() {
    let mut board_state = vec![0u8; 228];
    board_state[1] = 1;
    board_state[227] = 2;
    let app_state = AppState { seq_num: 1, board_state: board_state.clone(), timeout: 2, app_id: [3; 32] };
    let encoded = encode_app_state(&app_state);
    assert_eq!(encoded.len(), 16 + 228 + 8 + 32);
    assert_eq!(&encoded[..16], &1u128.to_le_bytes());
    assert_eq!(&encoded[16..244], &board_state[..]);
    assert_eq!(&encoded[244..252], &2u64.to_le_bytes());
    assert_eq!(&encoded[252..], &[3u8; 32]);
}

#[test]
fn app_state_agrees_with_the_codec() {
    let app_state = AppState {
        seq_num: u128::MAX - 5,
        board_state: vec![0, 1, 2, 255],
        timeout: u64::MAX,
        app_id: [7; 32],
    };
    let mut expected = app_state.seq_num.encode();
    for cell in &app_state.board_state {
        expected.extend(cell.encode());
    }
    expected.extend(app_state.timeout.encode());
    expected.extend(app_state.app_id.encode());
    assert_eq!(encode_app_state(&app_state), expected);
}

#[test]
fn app_state_of_an_empty_board() {
    let app_state = AppState { seq_num: 0, board_state: vec![], timeout: 0, app_id: [0; 32] };
    assert_eq!(encode_app_state(&app_state), vec![0u8; 56]);
}

#[test]
fn app_id_preimage_is_laid_out_field_by_field() {
    let request = AppInitiateRequest {
        nonce: 0x0a0b,
        player_num: 2,
        players: vec![[1; 32], [2; 32]],
        timeout: 0x0c0d,
        min_stone_offchain: 5,
        max_stone_onchain: 5,
    };
    let mut expected = b"modlm_gomoku".to_vec();
    expected.extend_from_slice(&[0u8; 20]);
    expected.extend_from_slice(&[0x0b, 0x0a, 0, 0, 0, 0, 0, 0, 0, 0, 0, 0, 0, 0, 0, 0]);
    expected.extend_from_slice(&[0x0d, 0x0c, 0, 0, 0, 0, 0, 0]);
    expected.extend_from_slice(&[1u8; 32]);
    expected.extend_from_slice(&[2u8; 32]);
    assert_eq!(encode_app_id_preimage(&request), expected);
}

#[test]
fn app_id_preimage_ignores_what_is_not_hashed() {
    let request = AppInitiateRequest {
        nonce: 1,
        player_num: 2,
        players: vec![[1; 32], [2; 32]],
        timeout: 2,
        min_stone_offchain: 5,
        max_stone_onchain: 5,
    };
    let other = AppInitiateRequest {
        player_num: 9,
        min_stone_offchain: 0,
        max_stone_onchain: 200,
        ..request.clone()
    };
    assert_eq!(encode_app_id_preimage(&request), encode_app_id_preimage(&other));
    let renumbered = AppInitiateRequest { nonce: 2, ..request.clone() };
    assert_ne!(encode_app_id_preimage(&request), encode_app_id_preimage(&renumbered));
}

#[test]
fn app_id_is_the_blake2_digest_of_the_preimage() {
    let request = AppInitiateRequest {
        nonce: 7,
        player_num: 2,
        players: vec![[1; 32], [2; 32]],
        timeout: 2,
        min_stone_offchain: 5,
        max_stone_onchain: 5,
    };
    let preimage = encode_app_id_preimage(&request);
    let expected = sp_core::hashing::blake2_256(&preimage);
    assert_eq!(Module::<Sr25519Runtime>::calculate_app_id(&request), expected);
    assert_eq!(Sr25519Runtime::hash(&preimage), expected);
    assert_ne!(expected.to_vec(), preimage);
}

#[test]
fn blake2_digest_of_the_empty_string() {
    let expected: [u8; 32] = [
        0x0e, 0x57, 0x51, 0xc0, 0x26, 0xe5, 0x43, 0xb2, 0xe8, 0xab, 0x2e, 0xb0, 0x60, 0x99, 0xda,
        0xa1, 0xd1, 0xe5, 0xdf, 0x47, 0x77, 0x8f, 0x77, 0x87, 0xfa, 0xab, 0x45, 0xcd, 0xf1, 0x2f,
        0xe3, 0xa8,
    ];
    assert_eq!(Sr25519Runtime::hash(&vec![]), expected);
}

#[test]
fn signatures_are_checked_against_message_and_signer() {
    let alice = sr25519::Pair::from_seed(&[1; 32]);
    let bob = sr25519::Pair::from_seed(&[2; 32]);
    let message = b"a snapshot".to_vec();
    let signature = alice.sign(&message).0.to_vec();
    assert!(Sr25519Runtime::verify(&signature, &message, &alice.public().0));
    assert!(!Sr25519Runtime::verify(&signature, &message, &bob.public().0));
    assert!(!Sr25519Runtime::verify(&signature, &b"another snapshot".to_vec(), &alice.public().0));
    let mut tampered = signature.clone();
    tampered[10] ^= 1;
    assert!(!Sr25519Runtime::verify(&tampered, &message, &alice.public().0));
}

#[test]
fn signatures_of_another_length_are_refused() {
    let alice = sr25519::Pair::from_seed(&[1; 32]);
    let message = b"a snapshot".to_vec();
    let signature = alice.sign(&message).0.to_vec();
    assert!(!Sr25519Runtime::verify(&signature[..63].to_vec(), &message, &alice.public().0));
    let mut longer = signature.clone();
    longer.push(0);
    assert!(!Sr25519Runtime::verify(&longer, &message, &alice.public().0));
    assert!(!Sr25519Runtime::verify(&vec![], &message, &alice.public().0));
    assert!(!Sr25519Runtime::verify(&alice.public().0.to_vec(), &message, &alice.public().0));
}
