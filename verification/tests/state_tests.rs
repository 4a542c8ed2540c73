use reversi::game::state::{GameState, GameStatus, Move};
use reversi::game::types::{Player, Position};

#[test]
fn test_game_state_new() {
    let game = GameState::new();

    assert_eq!(game.current_player, Player::Black);
    assert!(matches!(game.game_status, GameStatus::InProgress));
    assert_eq!(game.move_history.len(), 0);
    assert_eq!(game.get_score(), (2, 2));
}

#[test]
fn test_game_state_new_with_id() {
    let custom_id = uuid::Uuid::new_v4().as_u128();
    let game = GameState::new_with_id(custom_id);

    assert_eq!(game.id, custom_id);
    assert_eq!(game.current_player, Player::Black);
}

#[test]
fn test_game_state_status_checks() {
    let mut game = GameState::new();

    assert!(!game.is_finished());
    assert!(!game.is_paused());

    game.pause();
    assert!(game.is_paused());
    assert!(!game.is_finished());

    game.resume();
    assert!(!game.is_paused());

    game.finish(Some(Player::Black));
    assert!(game.is_finished());
}

#[test]
fn test_game_state_switch_player() {
    let mut game = GameState::new();

    assert_eq!(game.current_player, Player::Black);

    game.switch_player();
    assert_eq!(game.current_player, Player::White);

    game.switch_player();
    assert_eq!(game.current_player, Player::Black);
}

#[test]
fn test_game_state_add_move() {
    let mut game = GameState::new();
    let pos = Position::new(2, 3).unwrap();
    let game_move = Move::new(Player::Black, pos, vec![]);

    assert_eq!(game.get_move_count(), 0);

    game.add_move(game_move.clone());
    assert_eq!(game.get_move_count(), 1);
    assert_eq!(game.move_history[0].position, pos);
}

#[test]
fn test_game_state_finish() {
    let mut game = GameState::new();

    game.finish(Some(Player::Black));

    assert!(game.is_finished());
    if let GameStatus::Finished { winner, score } = &game.game_status {
        assert_eq!(*winner, Some(Player::Black));
        assert_eq!(*score, (2, 2)); // Initial board state
    } else {
        panic!("Game should be finished");
    }
}

#[test]
fn test_game_state_pause_resume() {
    let mut game = GameState::new();

    // Can only pause in progress games
    game.pause();
    assert!(game.is_paused());

    // Can only resume paused games
    game.resume();
    assert!(!game.is_paused());
    assert!(matches!(game.game_status, GameStatus::InProgress));

    // Cannot pause finished games
    game.finish(None);
    game.pause();
    assert!(game.is_finished()); // Should still be finished
}

#[test]
fn fresh_games_carry_distinct_identifiers() {
    let first = GameState::new();
    let second = GameState::new();
    assert_ne!(first.id, second.id);
}
