use reversi::api::{make_move, GameResponse};
use reversi::error::GameError;
use reversi::game::state::GameState;
use reversi::game::types::Position;

#[test]
fn test_game_response_conversion() {
    let game_state = GameState::new();
    let response = GameResponse::from_game_state(&game_state);

    assert_eq!(response.id, game_state.id);
    assert_eq!(response.current_player, 1); // Black
    assert_eq!(response.score, (2, 2));
    assert_eq!(response.game_status, "in_progress");
    assert_eq!(response.valid_moves.len(), 4); // Initial valid moves
}

#[test]
fn make_move_applies_and_reports_the_flips() {
    let mut game_state = GameState::new();
    let response = make_move(&mut game_state, Position::new(2, 3).unwrap()).unwrap();

    assert!(response.success);
    assert_eq!(response.flipped_positions, vec![(3, 3)]);
    assert_eq!(response.game_state.score, (4, 1));
    assert_eq!(response.game_state.current_player, 2); // White
    assert_eq!(response.game_state.move_count, 1);
}

#[test]
fn make_move_rejects_an_illegal_placement() {
    let mut game_state = GameState::new();
    let result = make_move(&mut game_state, Position::new(0, 0).unwrap());

    assert!(matches!(result, Err(GameError::InvalidMove { .. })));
    assert_eq!(game_state.get_move_count(), 0);
}
