use reversi::game::state::Move;
use reversi::game::types::{Cell, Player, Position};

#[test]
fn test_player_opposite() {
    assert_eq!(Player::Black.opposite(), Player::White);
    assert_eq!(Player::White.opposite(), Player::Black);
}

#[test]
fn test_player_to_cell() {
    assert_eq!(Player::Black.to_cell(), Cell::Black);
    assert_eq!(Player::White.to_cell(), Cell::White);
}

#[test]
fn test_position_new_valid() {
    let pos = Position::new(3, 4);
    assert!(pos.is_some());
    assert_eq!(pos.unwrap(), Position { row: 3, col: 4 });
}

#[test]
fn test_position_new_invalid() {
    assert!(Position::new(8, 4).is_none());
    assert!(Position::new(3, 8).is_none());
    assert!(Position::new(10, 10).is_none());
}

#[test]
fn test_position_is_valid() {
    assert!(Position { row: 0, col: 0 }.is_valid());
    assert!(Position { row: 7, col: 7 }.is_valid());
    assert!(!Position { row: 8, col: 0 }.is_valid());
    assert!(!Position { row: 0, col: 8 }.is_valid());
}

#[test]
fn test_move_creation() {
    let pos = Position::new(3, 4).unwrap();
    let flipped = vec![Position::new(3, 3).unwrap()];
    let move_obj = Move::new(Player::Black, pos, flipped.clone());

    assert_eq!(move_obj.player, Player::Black);
    assert_eq!(move_obj.position, pos);
    assert_eq!(move_obj.flipped, flipped);
}
