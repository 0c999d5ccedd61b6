//! Whole games on the engine, with signed snapshots.

use multi_gomoku::board::state_index;
use multi_gomoku::encoding::encode_app_state;
use multi_gomoku::module::Module;
use multi_gomoku::runtime::Sr25519Runtime;
use multi_gomoku::types::{
    AccountId, AppId, AppInitiateRequest, AppState, AppStatus, Error, ErrorKind, Event,
    StateProof,
};
use sp_core::{sr25519, Pair};

type Engine = Module<Sr25519Runtime>;

/// Two key pairs, the one with the smaller identity first.
fn players() -> (sr25519::Pair, sr25519::Pair) {
    let a = sr25519::Pair::from_seed(&[11; 32]);
    let b = sr25519::Pair::from_seed(&[22; 32]);
    if a.public().0 < b.public().0 {
        (a, b)
    } else {
        (b, a)
    }
}

fn request(nonce: u128, a: &sr25519::Pair, b: &sr25519::Pair) -> AppInitiateRequest {
    AppInitiateRequest {
        nonce,
        player_num: 2,
        players: vec![a.public().0, b.public().0],
        timeout: 2,
        min_stone_offchain: 0,
        max_stone_onchain: 5,
    }
}

fn board(winner: u8, turn: u8, black_id: u8, stones: &[(u8, u8, u8)]) -> Vec<u8> {
    let mut board = vec![0u8; 228];
    board[0] = winner;
    board[1] = turn;
    board[2] = black_id;
    for (x, y, color) in stones {
        board[state_index(*x, *y)] = *color;
    }
    board
}

fn signed(seq_num: u128, board_state: Vec<u8>, app_id: AppId, signers: &[&sr25519::Pair]) -> StateProof {
    let app_state = AppState { seq_num, board_state, timeout: 2, app_id };
    let encoded = encode_app_state(&app_state);
    let sigs = signers.iter().map(|p| p.sign(&encoded).0.to_vec()).collect();
    StateProof { app_state, sigs }
}

fn cell(engine: &Engine, app_id: &AppId, x: u8, y: u8) -> u8 {
    engine.gomoku_info(app_id).unwrap().board_state().unwrap()[state_index(x, y)]
}

#[test]
fn settle_then_play_on_the_ledger() {
    let (a, b) = players();
    let mut engine = Engine::new();
    let app_id = engine.app_initiate(&request(0, &a, &b)).unwrap();
    assert_eq!(engine.gomoku_info(&app_id).unwrap().status(), AppStatus::Idle);

    // An empty board but for the turn byte; the second player holds black.
    let height = 10;
    let proof = signed(1, board(0, 1, 2, &[]), app_id, &[&a, &b]);
    assert_eq!(engine.update_by_state(&proof, height), Ok(Event::IntendSettle(app_id, 1)));
    let settled = engine.gomoku_info(&app_id).unwrap();
    assert_eq!(settled.status(), AppStatus::Settle);
    assert_eq!(settled.deadline(), height + 2);
    assert_eq!(settled.seq_num(), 1);

    // Not before the deadline has passed.
    assert_eq!(
        engine.update_by_action(&b.public().0, &app_id, &vec![3, 12], height + 2),
        Err(Error::NotInActionMode)
    );
    assert_eq!(
        engine.update_by_action(&b.public().0, &app_id, &vec![3, 12], height + 3),
        Ok(())
    );
    let playing = engine.gomoku_info(&app_id).unwrap();
    assert_eq!(playing.status(), AppStatus::Action);
    assert_eq!(cell(&engine, &app_id, 3, 12), 1);
    assert_eq!(engine.get_state(&app_id, 0), Some(vec![2]));
    assert_eq!(playing.seq_num(), 2);
    assert_eq!(playing.deadline(), height + 5);
}

#[test]
fn the_fifth_stone_finalizes_with_black_as_winner() {
    let (a, b) = players();
    let mut engine = Engine::new();
    let app_id = engine.app_initiate(&request(1, &a, &b)).unwrap();
    let four = [(0, 0, 1), (0, 1, 1), (0, 2, 1), (0, 3, 1), (8, 8, 2), (8, 9, 2), (8, 10, 2)];
    let proof = signed(1, board(0, 1, 1, &four), app_id, &[&a, &b]);
    assert!(engine.update_by_state(&proof, 1).is_ok());
    assert_eq!(engine.update_by_action(&a.public().0, &app_id, &vec![0, 4], 4), Ok(()));
    let won = engine.gomoku_info(&app_id).unwrap();
    assert_eq!(won.status(), AppStatus::Finalized);
    assert_eq!(engine.get_state(&app_id, 1), Some(vec![1]));
    assert_eq!(engine.get_state(&app_id, 0), Some(vec![0]));
    assert_eq!(engine.get_outcome(&app_id, 1), Ok(()));
    assert_eq!(engine.get_outcome(&app_id, 2), Err(Error::OutcomeMismatch));
    assert_eq!(engine.is_finalized(&app_id), Ok(()));
    assert_eq!(cell(&engine, &app_id, 0, 4), 1);
}

#[test]
fn the_silent_color_forfeits() {
    for (turn, winner) in [(1u8, 2u8), (2, 1)] {
        let (a, b) = players();
        let mut engine = Engine::new();
        let app_id = engine.app_initiate(&request(2, &a, &b)).unwrap();
        // The color that is not `turn` moves first, so that `turn` is on turn
        // when the action window runs out.
        let first = 3 - turn;
        let proof = signed(1, board(0, first, 1, &[]), app_id, &[&a, &b]);
        assert!(engine.update_by_state(&proof, 1).is_ok());
        let mover = if first == 1 { a.public().0 } else { b.public().0 };
        assert_eq!(engine.update_by_action(&mover, &app_id, &vec![7, 7], 4), Ok(()));
        assert_eq!(engine.get_state(&app_id, 0), Some(vec![turn]));
        let deadline = engine.gomoku_info(&app_id).unwrap().deadline();
        assert_eq!(engine.finalize_on_timeout(&app_id, deadline), Err(Error::DeadlineNotPassed));
        assert_eq!(engine.is_finalized(&app_id), Err(Error::NotFinalized));
        assert_eq!(engine.finalize_on_timeout(&app_id, deadline + 1), Ok(()));
        assert_eq!(engine.is_finalized(&app_id), Ok(()));
        assert_eq!(engine.get_outcome(&app_id, winner), Ok(()));
        assert_eq!(engine.get_outcome(&app_id, turn), Err(Error::OutcomeMismatch));
        assert_eq!(engine.get_state(&app_id, 0), Some(vec![0]));
        assert_eq!(cell(&engine, &app_id, 7, 7), first);
    }
}

#[test]
fn an_unknown_session_is_not_found() {
    let (a, b) = players();
    let mut engine = Engine::new();
    let known = engine.app_initiate(&request(3, &a, &b)).unwrap();
    let unknown: AppId = [9; 32];
    assert_ne!(known, unknown);
    let proof = signed(1, board(0, 1, 1, &[]), unknown, &[&a, &b]);
    assert_eq!(engine.update_by_state(&proof, 1), Err(Error::SessionNotFound));
    assert_eq!(
        engine.update_by_action(&a.public().0, &unknown, &vec![0, 0], 1),
        Err(Error::SessionNotFound)
    );
    assert_eq!(engine.finalize_on_timeout(&unknown, 1), Err(Error::SessionNotFound));
    assert_eq!(engine.is_finalized(&unknown), Err(Error::SessionNotFound));
    assert_eq!(engine.get_outcome(&unknown, 0), Err(Error::SessionNotFound));
    assert_eq!(engine.get_state(&unknown, 2), None);
    assert!(engine.gomoku_info(&unknown).is_none());
    assert_eq!(Error::SessionNotFound.kind(), ErrorKind::NotFound);
    // An unsigned snapshot for an unknown session is not found either.
    let unsigned = signed(1, board(0, 1, 1, &[]), unknown, &[]);
    assert_eq!(engine.update_by_state(&unsigned, 1), Err(Error::SessionNotFound));
}

#[test]
fn a_session_is_opened_once() {
    let (a, b) = players();
    let mut engine = Engine::new();
    let first = engine.app_initiate(&request(4, &a, &b)).unwrap();
    assert_eq!(engine.app_initiate(&request(4, &a, &b)), Err(Error::SessionAlreadyExists));
    // Another nonce gives another session.
    let second = engine.app_initiate(&request(5, &a, &b)).unwrap();
    assert_ne!(first, second);
    // What exists is found before the players are looked at.
    let mut swapped = request(4, &a, &b);
    swapped.players.reverse();
    assert_eq!(engine.app_initiate(&swapped), Err(Error::PlayersNotAscending));
    assert_eq!(engine.initiate_with_id(first, &swapped), Err(Error::SessionAlreadyExists));
    assert_eq!(engine.initiate_with_id([7; 32], &swapped), Err(Error::PlayersNotAscending));
    assert_eq!(engine.initiate_with_id([7; 32], &request(6, &a, &b)), Ok(()));
    assert_eq!(engine.gomoku_info(&[7; 32]).unwrap().status(), AppStatus::Idle);
}

#[test]
fn a_refused_request_opens_nothing() {
    let (a, b) = players();
    let mut engine = Engine::new();
    let mut lonely = request(0, &a, &b);
    lonely.players.pop();
    assert_eq!(engine.app_initiate(&lonely), Err(Error::TooFewPlayers));
    assert!(engine.gomoku_info(&Engine::calculate_app_id(&lonely)).is_none());
    let mut twice = request(0, &a, &b);
    twice.players = vec![a.public().0, a.public().0];
    assert_eq!(engine.app_initiate(&twice), Err(Error::PlayersNotAscending));
    assert!(engine.gomoku_info(&Engine::calculate_app_id(&twice)).is_none());
}

#[test]
fn every_player_must_have_signed() {
    let (a, b) = players();
    let stranger = sr25519::Pair::from_seed(&[33; 32]);
    let mut engine = Engine::new();
    let app_id = engine.app_initiate(&request(6, &a, &b)).unwrap();
    let good = board(0, 1, 1, &[]);
    // No signature, one signature, signatures in the wrong order, a stranger's.
    for signers in [vec![], vec![&a], vec![&b, &a], vec![&a, &stranger], vec![&stranger, &b]] {
        let proof = signed(1, good.clone(), app_id, &signers);
        assert_eq!(engine.update_by_state(&proof, 1), Err(Error::InvalidCoSignature));
    }
    // A signature on another snapshot.
    let mut proof = signed(1, good.clone(), app_id, &[&a, &b]);
    proof.app_state.seq_num = 2;
    assert_eq!(engine.update_by_state(&proof, 1), Err(Error::InvalidCoSignature));
    let mut proof = signed(1, good.clone(), app_id, &[&a, &b]);
    proof.app_state.board_state[5] = 1;
    assert_eq!(engine.update_by_state(&proof, 1), Err(Error::InvalidCoSignature));
    let mut proof = signed(1, good.clone(), app_id, &[&a, &b]);
    proof.app_state.timeout = 3;
    assert_eq!(engine.update_by_state(&proof, 1), Err(Error::InvalidCoSignature));
    // A signature cut short.
    let mut proof = signed(1, good.clone(), app_id, &[&a, &b]);
    proof.sigs[1].pop();
    assert_eq!(engine.update_by_state(&proof, 1), Err(Error::InvalidCoSignature));
    assert_eq!(Error::InvalidCoSignature.kind(), ErrorKind::Unauthorized);
    // Nothing of this has touched the session.
    let info = engine.gomoku_info(&app_id).unwrap();
    assert_eq!(info.status(), AppStatus::Idle);
    assert_eq!(info.seq_num(), 0);
    assert_eq!(info.board_state(), None);
    // Signatures beyond the last player are not looked at.
    let mut proof = signed(1, good, app_id, &[&a, &b]);
    proof.sigs.push(vec![1, 2, 3]);
    assert_eq!(engine.update_by_state(&proof, 1), Ok(Event::IntendSettle(app_id, 1)));
}

#[test]
fn a_snapshot_signed_for_one_session_does_not_fit_another() {
    let (a, b) = players();
    let mut engine = Engine::new();
    let first = engine.app_initiate(&request(7, &a, &b)).unwrap();
    let second = engine.app_initiate(&request(8, &a, &b)).unwrap();
    let mut proof = signed(1, board(0, 1, 1, &[]), first, &[&a, &b]);
    proof.app_state.app_id = second;
    assert_eq!(engine.update_by_state(&proof, 1), Err(Error::InvalidCoSignature));
    assert_eq!(engine.gomoku_info(&second).unwrap().status(), AppStatus::Idle);
    assert_eq!(engine.gomoku_info(&first).unwrap().status(), AppStatus::Idle);
}

#[test]
fn valid_signers_checks_each_signer_in_turn() {
    let (a, b) = players();
    let message = b"what was agreed".to_vec();
    let by_a = a.sign(&message).0.to_vec();
    let by_b = b.sign(&message).0.to_vec();
    let signers: Vec<AccountId> = vec![a.public().0, b.public().0];
    assert_eq!(Engine::valid_signers(&vec![by_a.clone(), by_b.clone()], &message, &signers), Ok(()));
    assert_eq!(
        Engine::valid_signers(&vec![by_b.clone(), by_a.clone()], &message, &signers),
        Err(Error::InvalidCoSignature)
    );
    assert_eq!(
        Engine::valid_signers(&vec![by_a.clone()], &message, &signers),
        Err(Error::InvalidCoSignature)
    );
    assert_eq!(
        Engine::valid_signers(&vec![by_a.clone(), by_b.clone()], &b"something else".to_vec(), &signers),
        Err(Error::InvalidCoSignature)
    );
    assert_eq!(Engine::valid_signers(&vec![], &message, &vec![]), Ok(()));
    assert_eq!(Engine::valid_signers(&vec![by_a], &message, &vec![signers[0]]), Ok(()));
}

#[test]
fn sessions_do_not_touch_each_other() {
    let (a, b) = players();
    let mut engine = Engine::new();
    let first = engine.app_initiate(&request(10, &a, &b)).unwrap();
    let second = engine.app_initiate(&request(11, &a, &b)).unwrap();
    let proof = signed(1, board(0, 1, 1, &[(4, 4, 2)]), first, &[&a, &b]);
    assert!(engine.update_by_state(&proof, 1).is_ok());
    assert_eq!(engine.update_by_action(&a.public().0, &first, &vec![1, 1], 4), Ok(()));
    let untouched = engine.gomoku_info(&second).unwrap();
    assert_eq!(untouched.status(), AppStatus::Idle);
    assert_eq!(untouched.seq_num(), 0);
    assert_eq!(untouched.board_state(), None);
    assert_eq!(engine.get_state(&second, 2), None);
    assert_eq!(engine.get_outcome(&second, 0), Err(Error::EmptyBoardState));
    assert_eq!(engine.is_finalized(&second), Err(Error::NotFinalized));
    assert_eq!(engine.finalize_on_timeout(&second, 1_000), Ok(()));
    assert_eq!(engine.gomoku_info(&second).unwrap().status(), AppStatus::Idle);
    assert_eq!(engine.gomoku_info(&first).unwrap().status(), AppStatus::Action);
}

#[test]
fn a_refused_move_changes_nothing() {
    let (a, b) = players();
    let mut engine = Engine::new();
    let app_id = engine.app_initiate(&request(12, &a, &b)).unwrap();
    let proof = signed(1, board(0, 1, 1, &[(4, 4, 2)]), app_id, &[&a, &b]);
    assert!(engine.update_by_state(&proof, 1).is_ok());
    let before = engine.gomoku_info(&app_id).unwrap();
    let refusals = [
        (b.public().0, vec![0u8, 0], 4u64, Error::NotYourTurn),
        (a.public().0, vec![4, 4], 4, Error::CellOccupied),
        (a.public().0, vec![15, 4], 4, Error::OutOfBoundaryMove),
        (a.public().0, vec![4], 4, Error::InvalidActionLength),
        (a.public().0, vec![0, 0], 3, Error::NotInActionMode),
    ];
    for (caller, action, now, error) in refusals {
        assert_eq!(engine.update_by_action(&caller, &app_id, &action, now), Err(error));
        let after = engine.gomoku_info(&app_id).unwrap();
        assert_eq!(after.board_state(), before.board_state());
        assert_eq!(after.status(), before.status());
        assert_eq!(after.seq_num(), before.seq_num());
        assert_eq!(after.deadline(), before.deadline());
        assert_eq!(after.stone_num(), before.stone_num());
        assert_eq!(after.stone_num_onchain(), before.stone_num_onchain());
    }
}
