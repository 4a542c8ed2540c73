use reversi::error::GameError;
use reversi::game::board::Board;
use reversi::game::rules::ReversiRules;
use reversi::game::state::GameState;
use reversi::game::types::{Cell, Player, Position};

#[test]
fn test_is_valid_move_initial_board() {
    let board = Board::new();

    assert!(ReversiRules::is_valid_move(&board, Position::new(2, 3).unwrap(), Player::Black));
    assert!(ReversiRules::is_valid_move(&board, Position::new(3, 2).unwrap(), Player::Black));
    assert!(ReversiRules::is_valid_move(&board, Position::new(4, 5).unwrap(), Player::Black));
    assert!(ReversiRules::is_valid_move(&board, Position::new(5, 4).unwrap(), Player::Black));

    assert!(!ReversiRules::is_valid_move(&board, Position::new(0, 0).unwrap(), Player::Black));
    assert!(!ReversiRules::is_valid_move(&board, Position::new(3, 3).unwrap(), Player::Black));
}

#[test]
fn test_get_flipped_positions() {
    let board = Board::new();

    let flipped =
        ReversiRules::get_flipped_positions(&board, Position::new(2, 3).unwrap(), Player::Black);
    assert_eq!(flipped.len(), 1);
    assert!(flipped.contains(&Position::new(3, 3).unwrap()));
}

#[test]
fn test_get_valid_moves_initial() {
    let board = Board::new();
    let valid_moves = ReversiRules::get_valid_moves(&board, Player::Black);

    assert_eq!(valid_moves.len(), 4);
    assert!(valid_moves.contains(&Position::new(2, 3).unwrap()));
    assert!(valid_moves.contains(&Position::new(3, 2).unwrap()));
    assert!(valid_moves.contains(&Position::new(4, 5).unwrap()));
    assert!(valid_moves.contains(&Position::new(5, 4).unwrap()));
}

#[test]
fn test_apply_move() {
    let mut game_state = GameState::new();
    let position = Position::new(2, 3).unwrap();

    let result = ReversiRules::apply_move(&mut game_state, position);
    assert!(result.is_ok());

    let flipped = result.unwrap();
    assert_eq!(flipped.len(), 1);

    assert_eq!(game_state.board.get_cell(position), Some(Cell::Black));

    assert_eq!(game_state.get_move_count(), 1);
}

#[test]
fn test_apply_invalid_move() {
    let mut game_state = GameState::new();
    let position = Position::new(0, 0).unwrap();

    let result = ReversiRules::apply_move(&mut game_state, position);
    assert!(result.is_err());

    if let Err(GameError::InvalidMove { reason }) = result {
        assert!(reason.contains("not a valid move"));
    } else {
        panic!("Expected InvalidMove error");
    }
}

#[test]
fn test_apply_move_finished_game() {
    let mut game_state = GameState::new();
    game_state.finish(Some(Player::Black));

    let position = Position::new(2, 3).unwrap();
    let result = ReversiRules::apply_move(&mut game_state, position);

    assert!(matches!(result, Err(GameError::GameFinished)));
}

#[test]
fn test_has_valid_moves() {
    let board = Board::new();

    assert!(ReversiRules::has_valid_moves(&board, Player::Black));
    assert!(ReversiRules::has_valid_moves(&board, Player::White));
}

#[test]
fn test_is_game_over_initial() {
    let board = Board::new();
    assert!(!ReversiRules::is_game_over(&board));
}

#[test]
fn test_determine_winner() {
    let mut board = Board::new();

    assert_eq!(ReversiRules::determine_winner(&board), None);

    board.set_cell(Position::new(0, 0).unwrap(), Cell::Black);
    assert_eq!(ReversiRules::determine_winner(&board), Some(Player::Black));

    board.set_cell(Position::new(0, 1).unwrap(), Cell::White);
    board.set_cell(Position::new(0, 2).unwrap(), Cell::White);
    assert_eq!(ReversiRules::determine_winner(&board), Some(Player::White));
}

#[test]
fn test_handle_turn_with_moves() {
    let mut game_state = GameState::new();

    let switched = ReversiRules::handle_turn(&mut game_state);
    assert!(!switched);
    assert_eq!(game_state.current_player, Player::Black);
}

#[test]
fn flips_of_every_legal_opening_move_change_hands() {
    let board = Board::new();
    for position in ReversiRules::get_valid_moves(&board, Player::Black) {
        let flipped = ReversiRules::get_flipped_positions(&board, position, Player::Black);
        assert!(!flipped.is_empty());
        for flip in &flipped {
            assert_eq!(board.get_cell(*flip), Some(Cell::White));
        }
        let mut game_state = GameState::new();
        ReversiRules::apply_move(&mut game_state, position).unwrap();
        for flip in &flipped {
            assert_eq!(game_state.board.get_cell(*flip), Some(Cell::Black));
        }
    }
}

#[test]
fn legality_is_a_pure_function_of_the_board() {
    let board = Board::new();
    let position = Position::new(2, 3).unwrap();
    let first = ReversiRules::is_valid_move(&board, position, Player::Black);
    let second = ReversiRules::is_valid_move(&board, position, Player::Black);
    assert_eq!(first, second);
    assert!(first);
}

#[test]
fn mover_alternates_across_applied_moves() {
    let mut game_state = GameState::new();
    assert_eq!(game_state.current_player, Player::Black);

    let first = ReversiRules::get_valid_moves(&game_state.board, game_state.current_player)[0];
    ReversiRules::apply_move(&mut game_state, first).unwrap();
    assert_eq!(game_state.current_player, Player::Black);
    game_state.switch_player();
    assert_eq!(game_state.current_player, Player::White);

    let second = ReversiRules::get_valid_moves(&game_state.board, game_state.current_player)[0];
    ReversiRules::apply_move(&mut game_state, second).unwrap();
    game_state.switch_player();
    assert_eq!(game_state.current_player, Player::Black);
}

#[test]
fn opening_move_end_to_end_tally() {
    let mut game_state = GameState::new();
    let moves = ReversiRules::get_valid_moves(&game_state.board, Player::Black);
    assert_eq!(moves.len(), 4);
    assert!(moves.contains(&Position { row: 2, col: 3 }));
    assert!(moves.contains(&Position { row: 3, col: 2 }));
    assert!(moves.contains(&Position { row: 4, col: 5 }));
    assert!(moves.contains(&Position { row: 5, col: 4 }));

    let flipped =
        ReversiRules::apply_move(&mut game_state, Position { row: 2, col: 3 }).unwrap();
    assert_eq!(flipped, vec![Position { row: 3, col: 3 }]);
    assert_eq!(game_state.get_score(), (4, 1));
}
