use cipher_stratego::bridge::on_check_shot_result;
use cipher_stratego::bridge::on_reveal_result;
use cipher_stratego::bridge::request_reveal;
use cipher_stratego::bridge::OffsetRegistry;
use cipher_stratego::circuits::RevealedBoards;
use cipher_stratego::game::fire_shot;
use cipher_stratego::game::forfeit;
use cipher_stratego::game::initialize_game;
use cipher_stratego::game::join_game;
use cipher_stratego::game::submit_board;
use cipher_stratego::game::Game;
use cipher_stratego::types::GameError;
use cipher_stratego::types::GameState;
use cipher_stratego::types::HitOrMiss;
use cipher_stratego::types::PlayerId;

fn pid(key: u64) -> PlayerId {
    PlayerId { key }
}

fn rows8() -> Vec<Vec<u8>> {
    vec![
        vec![0u8; 16],
        vec![0u8; 16],
        vec![0u8; 16],
        vec![0u8; 16],
        vec![0u8; 16],
        vec![0u8; 16],
        vec![0u8; 16],
        vec![0u8; 16],
    ]
}

/// A session in player 0's turn: created with seed 1 by player 1's key,
/// joined by key 2, both boards committed.
fn in_play_session(log_capacity: usize) -> (Game, OffsetRegistry) {
    let a = pid(1);
    let b = pid(2);
    let mut g = initialize_game(1, a, log_capacity);
    let reg = OffsetRegistry::new();
    assert!(join_game(&mut g, b).is_ok());
    assert!(submit_board(&mut g, a, rows8(), vec![0u8; 32], vec![0u8; 16]).is_ok());
    assert!(submit_board(&mut g, b, rows8(), vec![0u8; 32], vec![0u8; 16]).is_ok());
    assert_eq!(g.game_state, GameState::P1Turn);
    (g, reg)
}

#[test]
fn create_sets_creator_and_phase() {
    let g = initialize_game(7, pid(11), 64);
    assert_eq!(g.game_seed, 7);
    assert_eq!(g.creator, pid(11));
    assert!(g.challenger.is_none());
    assert_eq!(g.game_state, GameState::AwaitingPlayer);
    assert_eq!(g.turn_number, 0);
    assert!(g.shot_log.is_empty());
    assert!(g.pending_computation.is_none());
}

#[test]
fn join_moves_to_board_setup() {
    let mut g = initialize_game(1, pid(1), 64);
    assert_eq!(join_game(&mut g, pid(2)), Ok(()));
    assert_eq!(g.challenger, Some(pid(2)));
    assert_eq!(g.game_state, GameState::BoardSetup);
}

#[test]
fn join_rejects_creator() {
    let mut g = initialize_game(1, pid(1), 64);
    assert_eq!(join_game(&mut g, pid(1)), Err(GameError::SelfJoin));
    assert_eq!(g.game_state, GameState::AwaitingPlayer);
}

#[test]
fn join_rejects_wrong_phase() {
    let mut g = initialize_game(1, pid(1), 64);
    assert!(join_game(&mut g, pid(2)).is_ok());
    assert_eq!(join_game(&mut g, pid(3)), Err(GameError::InvalidPhase));
}

#[test]
fn join_rejects_taken_slot() {
    // A session whose slot 1 is somehow taken while it still awaits a
    // player; only a hand-built value can be in this shape.
    let mut g = initialize_game(1, pid(1), 64);
    g.challenger = Some(pid(2));
    assert_eq!(join_game(&mut g, pid(3)), Err(GameError::SlotOccupied));
}

#[test]
fn submit_rejects_wrong_phase() {
    let mut g = initialize_game(1, pid(1), 64);
    assert_eq!(
        submit_board(&mut g, pid(1), rows8(), vec![], vec![]),
        Err(GameError::InvalidPhase)
    );
}

#[test]
fn submit_rejects_outsider() {
    let mut g = initialize_game(1, pid(1), 64);
    assert!(join_game(&mut g, pid(2)).is_ok());
    assert_eq!(
        submit_board(&mut g, pid(9), rows8(), vec![], vec![]),
        Err(GameError::NotAParticipant)
    );
}

#[test]
fn second_submission_rejected() {
    let mut g = initialize_game(1, pid(1), 64);
    assert!(join_game(&mut g, pid(2)).is_ok());
    assert_eq!(submit_board(&mut g, pid(2), rows8(), vec![], vec![]), Ok(()));
    assert_eq!(g.game_state, GameState::BoardSetup);
    assert_eq!(
        submit_board(&mut g, pid(2), rows8(), vec![], vec![]),
        Err(GameError::AlreadySubmitted)
    );
}

#[test]
fn both_boards_start_play() {
    let (g, _) = in_play_session(64);
    assert!(g.board_0.is_some());
    assert!(g.board_1.is_some());
    assert_eq!(g.game_state, GameState::P1Turn);
}

#[test]
fn happy_path_first_shot_hits() {
    // Create with seed 1, join as B, both boards in; A fires at x=3, y=4;
    // the service answers Hit with seven ship cells left.
    let (mut g, mut reg) = in_play_session(64);
    let req = fire_shot(&mut g, &mut reg, pid(1), 77, 4, 3).unwrap();
    assert!(matches!(
        req,
        cipher_stratego::types::ComputationRequest::CheckShot {
            offset: 77,
            target_player: 1,
            coord: cipher_stratego::types::Coordinate { x: 3, y: 4 },
        }
    ));
    assert!(g.pending_computation.is_some());
    assert_eq!(g.game_state, GameState::P1Turn);
    assert_eq!(on_check_shot_result(&mut g, &mut reg, 77, true, 7), Ok(()));
    assert_eq!(g.shot_log.len(), 1);
    assert_eq!(g.shot_log[0].player, pid(1));
    assert_eq!(g.shot_log[0].coord.x, 3);
    assert_eq!(g.shot_log[0].coord.y, 4);
    assert_eq!(g.shot_log[0].result, HitOrMiss::Hit);
    assert_eq!(g.turn_number, 1);
    assert!(g.pending_computation.is_none());
    assert_eq!(g.game_state, GameState::P2Turn);
}

#[test]
fn second_shot_waits_for_callback_then_duplicate_is_rejected() {
    let (mut g, mut reg) = in_play_session(64);
    assert!(fire_shot(&mut g, &mut reg, pid(1), 77, 4, 3).is_ok());
    // Before the callback the session is suspended.
    assert_eq!(
        fire_shot(&mut g, &mut reg, pid(1), 78, 4, 3),
        Err(GameError::ComputationInProgress)
    );
    assert!(on_check_shot_result(&mut g, &mut reg, 77, true, 7).is_ok());
    // B's turn passes back to A.
    assert!(fire_shot(&mut g, &mut reg, pid(2), 79, 0, 0).is_ok());
    assert!(on_check_shot_result(&mut g, &mut reg, 79, false, 8).is_ok());
    // After resolution the same cell cannot be fired upon again.
    assert_eq!(
        fire_shot(&mut g, &mut reg, pid(1), 80, 4, 3),
        Err(GameError::DuplicateTarget)
    );
}

#[test]
fn outsider_cannot_fire() {
    let (mut g, mut reg) = in_play_session(64);
    assert_eq!(
        fire_shot(&mut g, &mut reg, pid(9), 77, 4, 3),
        Err(GameError::NotAParticipant)
    );
}

#[test]
fn defender_cannot_fire_out_of_turn() {
    let (mut g, mut reg) = in_play_session(64);
    assert_eq!(
        fire_shot(&mut g, &mut reg, pid(2), 77, 4, 3),
        Err(GameError::NotYourTurn)
    );
}

#[test]
fn firing_before_play_is_rejected() {
    let mut g = initialize_game(1, pid(1), 64);
    let mut reg = OffsetRegistry::new();
    assert!(join_game(&mut g, pid(2)).is_ok());
    assert_eq!(
        fire_shot(&mut g, &mut reg, pid(1), 77, 0, 0),
        Err(GameError::NotYourTurn)
    );
}

#[test]
fn full_ledger_rejects_further_shots() {
    let (mut g, mut reg) = in_play_session(1);
    assert!(fire_shot(&mut g, &mut reg, pid(1), 77, 4, 3).is_ok());
    assert!(on_check_shot_result(&mut g, &mut reg, 77, false, 8).is_ok());
    assert_eq!(
        fire_shot(&mut g, &mut reg, pid(2), 78, 0, 0),
        Err(GameError::LedgerFull)
    );
}

#[test]
fn reused_offset_is_rejected_across_sessions() {
    let (mut g1, mut reg) = in_play_session(64);
    let a2 = pid(5);
    let b2 = pid(6);
    let mut g2 = initialize_game(2, a2, 64);
    assert!(join_game(&mut g2, b2).is_ok());
    assert!(submit_board(&mut g2, a2, rows8(), vec![], vec![]).is_ok());
    assert!(submit_board(&mut g2, b2, rows8(), vec![], vec![]).is_ok());
    // Session 1 holds offset 77 in flight; session 2 may not reuse it.
    assert!(fire_shot(&mut g1, &mut reg, pid(1), 77, 4, 3).is_ok());
    assert_eq!(
        fire_shot(&mut g2, &mut reg, a2, 77, 0, 0),
        Err(GameError::DuplicateOffset)
    );
    // Once retired, the offset may serve again.
    assert!(on_check_shot_result(&mut g1, &mut reg, 77, false, 8).is_ok());
    assert!(fire_shot(&mut g2, &mut reg, a2, 77, 0, 0).is_ok());
}

#[test]
fn callback_without_pending_request_is_rejected() {
    let (mut g, mut reg) = in_play_session(64);
    assert_eq!(
        on_check_shot_result(&mut g, &mut reg, 77, true, 7),
        Err(GameError::UnknownOffset)
    );
}

#[test]
fn callback_with_wrong_offset_is_rejected() {
    let (mut g, mut reg) = in_play_session(64);
    assert!(fire_shot(&mut g, &mut reg, pid(1), 77, 4, 3).is_ok());
    assert_eq!(
        on_check_shot_result(&mut g, &mut reg, 78, true, 7),
        Err(GameError::UnknownOffset)
    );
    // The pending request survives a spoofed callback.
    assert!(g.pending_computation.is_some());
    assert_eq!(on_check_shot_result(&mut g, &mut reg, 77, true, 7), Ok(()));
}

#[test]
fn last_ship_cell_ends_the_game() {
    let (mut g, mut reg) = in_play_session(64);
    assert!(fire_shot(&mut g, &mut reg, pid(1), 77, 4, 3).is_ok());
    assert!(on_check_shot_result(&mut g, &mut reg, 77, true, 0).is_ok());
    assert_eq!(g.game_state, GameState::P1Won);
}

#[test]
fn defender_win_is_assigned_to_player_two() {
    let (mut g, mut reg) = in_play_session(64);
    assert!(fire_shot(&mut g, &mut reg, pid(1), 77, 4, 3).is_ok());
    assert!(on_check_shot_result(&mut g, &mut reg, 77, false, 8).is_ok());
    assert!(fire_shot(&mut g, &mut reg, pid(2), 78, 0, 0).is_ok());
    assert!(on_check_shot_result(&mut g, &mut reg, 78, true, 0).is_ok());
    assert_eq!(g.game_state, GameState::P2Won);
}

#[test]
fn forfeit_declares_the_other_player_winner() {
    let (mut g, _) = in_play_session(64);
    assert_eq!(forfeit(&mut g, pid(2)), Ok(()));
    assert_eq!(g.game_state, GameState::P1Won);
}

#[test]
fn forfeit_by_creator_declares_joiner_winner() {
    let (mut g, _) = in_play_session(64);
    assert_eq!(forfeit(&mut g, pid(1)), Ok(()));
    assert_eq!(g.game_state, GameState::P2Won);
}

#[test]
fn forfeit_rejects_outsider_and_wrong_phase() {
    let mut g = initialize_game(1, pid(1), 64);
    assert_eq!(forfeit(&mut g, pid(9)), Err(GameError::NotAParticipant));
    assert_eq!(forfeit(&mut g, pid(1)), Err(GameError::InvalidPhase));
    let (mut g2, _) = in_play_session(64);
    assert!(forfeit(&mut g2, pid(2)).is_ok());
    assert_eq!(forfeit(&mut g2, pid(1)), Err(GameError::InvalidPhase));
}

#[test]
fn forfeit_waits_for_pending_resolution() {
    let (mut g, mut reg) = in_play_session(64);
    assert!(fire_shot(&mut g, &mut reg, pid(1), 77, 4, 3).is_ok());
    assert_eq!(forfeit(&mut g, pid(2)), Err(GameError::ComputationInProgress));
}

#[test]
fn reveal_only_after_the_game_is_over() {
    let (mut g, mut reg) = in_play_session(64);
    assert_eq!(
        request_reveal(&mut g, &mut reg, 90),
        Err(GameError::GameNotOver)
    );
}

#[test]
fn reveal_round_trip_publishes_both_grids() {
    let (mut g, mut reg) = in_play_session(64);
    assert!(forfeit(&mut g, pid(2)).is_ok());
    let req = request_reveal(&mut g, &mut reg, 90).unwrap();
    assert!(matches!(
        req,
        cipher_stratego::types::ComputationRequest::RevealBoards { offset: 90 }
    ));
    // A second request while the first is in flight is refused.
    assert_eq!(
        request_reveal(&mut g, &mut reg, 91),
        Err(GameError::ComputationInProgress)
    );
    let mut p1 = [[0u8; 8]; 8];
    p1[0][0] = 1;
    let p2 = [[0u8; 8]; 8];
    let published = RevealedBoards {
        p1_board: p1,
        p2_board: p2,
    };
    assert_eq!(on_reveal_result(&mut g, &mut reg, 90, published), Ok(()));
    assert!(g.pending_computation.is_none());
    let stored = g.revealed_boards.unwrap();
    assert_eq!(stored.p1_board, p1);
    assert_eq!(stored.p2_board, p2);
    // The session is closed; a further reveal is refused.
    assert_eq!(
        request_reveal(&mut g, &mut reg, 92),
        Err(GameError::InvalidPhase)
    );
}

#[test]
fn reveal_callback_must_match_pending_kind_and_offset() {
    let (mut g, mut reg) = in_play_session(64);
    assert!(forfeit(&mut g, pid(2)).is_ok());
    let empty = RevealedBoards {
        p1_board: [[0u8; 8]; 8],
        p2_board: [[0u8; 8]; 8],
    };
    assert_eq!(
        on_reveal_result(&mut g, &mut reg, 90, empty),
        Err(GameError::UnknownOffset)
    );
    assert!(request_reveal(&mut g, &mut reg, 90).is_ok());
    assert_eq!(
        on_reveal_result(&mut g, &mut reg, 91, empty),
        Err(GameError::UnknownOffset)
    );
    // A shot callback cannot answer a reveal request.
    assert_eq!(
        on_check_shot_result(&mut g, &mut reg, 90, true, 7),
        Err(GameError::UnknownOffset)
    );
    assert_eq!(on_reveal_result(&mut g, &mut reg, 90, empty), Ok(()));
}

#[test]
fn reveal_of_a_session_missing_boards_is_rejected() {
    // Only a hand-built value can be over without commitments.
    let g0 = initialize_game(1, pid(1), 64);
    let mut g = Game {
        game_state: GameState::P1Won,
        challenger: Some(pid(2)),
        ..g0
    };
    let mut reg = OffsetRegistry::new();
    assert_eq!(
        request_reveal(&mut g, &mut reg, 90),
        Err(GameError::BoardsNotSubmitted)
    );
}

#[test]
fn board_commitment_is_stored_as_submitted() {
    let mut g = initialize_game(1, pid(1), 64);
    assert!(join_game(&mut g, pid(2)).is_ok());
    let rows: Vec<Vec<u8>> = (0u8..8).map(|i| vec![i; 16]).collect();
    let key = vec![7u8; 32];
    let nonce = vec![9u8; 16];
    assert!(submit_board(&mut g, pid(2), rows.clone(), key.clone(), nonce.clone()).is_ok());
    assert!(g.board_0.is_none());
    let stored = g.board_1.as_ref().unwrap();
    assert_eq!(stored.rows, rows);
    assert_eq!(stored.public_key, key);
    assert_eq!(stored.nonce, nonce);
}
