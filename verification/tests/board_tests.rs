use reversi::game::board::Board;
use reversi::game::types::{Cell, Position};

#[test]
fn test_board_new_initial_state() {
    let board = Board::new();

    assert_eq!(board.get_cell(Position::new(3, 3).unwrap()), Some(Cell::White));
    assert_eq!(board.get_cell(Position::new(3, 4).unwrap()), Some(Cell::Black));
    assert_eq!(board.get_cell(Position::new(4, 3).unwrap()), Some(Cell::Black));
    assert_eq!(board.get_cell(Position::new(4, 4).unwrap()), Some(Cell::White));

    assert_eq!(board.get_cell(Position::new(0, 0).unwrap()), Some(Cell::Empty));
    assert_eq!(board.get_cell(Position::new(7, 7).unwrap()), Some(Cell::Empty));
}

#[test]
fn test_board_get_cell_invalid_position() {
    let board = Board::new();
    assert_eq!(board.get_cell(Position { row: 8, col: 0 }), None);
    assert_eq!(board.get_cell(Position { row: 0, col: 8 }), None);
}

#[test]
fn test_board_set_cell() {
    let mut board = Board::new();
    let pos = Position::new(0, 0).unwrap();

    assert!(board.set_cell(pos, Cell::Black));
    assert_eq!(board.get_cell(pos), Some(Cell::Black));
}

#[test]
fn test_board_set_cell_invalid_position() {
    let mut board = Board::new();
    assert!(!board.set_cell(Position { row: 8, col: 0 }, Cell::Black));
}

#[test]
fn test_board_is_empty() {
    let board = Board::new();

    assert!(board.is_empty(Position::new(0, 0).unwrap()));
    assert!(!board.is_empty(Position::new(3, 3).unwrap()));
}

#[test]
fn test_board_count_pieces_initial() {
    let board = Board::new();
    let (black_count, white_count) = board.count_pieces();

    assert_eq!(black_count, 2);
    assert_eq!(white_count, 2);
}

#[test]
fn test_board_display() {
    let board = Board::new();
    let display = board.display();

    assert!(display.contains("0 1 2 3 4 5 6 7"));
    assert!(display.contains("●"));
    assert!(display.contains("○"));
    assert!(display.contains("."));
}

#[test]
fn test_board_display_exact_layout() {
    let board = Board::new();
    let display = board.display();
    let lines: Vec<&str> = display.lines().collect();

    assert_eq!(lines.len(), 9);
    assert_eq!(lines[0], "  0 1 2 3 4 5 6 7");
    assert_eq!(lines[4], "3 . . . ○ ● . . . ");
    assert_eq!(lines[5], "4 . . . ● ○ . . . ");
    assert_eq!(lines[1], "0 . . . . . . . . ");
}
