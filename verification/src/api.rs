//! The value shapes of the plain-games interface, and the move
//! transaction its handlers run.

use vstd::prelude::*;
use vstd::string::StringExecFns;

use crate::ai::strategies::Difficulty;
use crate::battle::service::game_advanced;
use crate::error::{GameError, GameResult};
use crate::game::board::count_cells;
use crate::game::rules::{
    flip_seq, invalid_move_text, is_legal, valid_moves_seq, ReversiRules,
};
use crate::game::state::{GameState, GameStatus};
use crate::game::types::{Cell, Player, Position};

verus! {

/// A request to open a game between two players.
#[derive(Debug)]
pub struct CreateGameRequest {
    pub player1_type: PlayerTypeRequest,
    pub player2_type: PlayerTypeRequest,
}

/// The kind of player a seat is given to.
#[derive(Debug)]
pub enum PlayerTypeRequest {
    Human { name: String },
    AI { difficulty: Difficulty },
}

/// A request to place a piece.
#[derive(Debug)]
pub struct MakeMoveRequest {
    pub row: usize,
    pub col: usize,
}

/// The caller-facing view of a game: the board as digits (empty, black,
/// white), the mover as a digit, the legal moves, the status and tally.
#[derive(Debug)]
pub struct GameResponse {
    pub id: u128,
    pub board: Vec<Vec<u8>>,
    pub current_player: u8,
    pub valid_moves: Vec<(usize, usize)>,
    pub game_status: String,
    pub score: (u8, u8),
    pub move_count: u32,
}

/// The digit a cell is shown as.
pub open spec fn cell_digit(c: Cell) -> u8 {
    match c {
        Cell::Empty => 0u8,
        Cell::Black => 1u8,
        Cell::White => 2u8,
    }
}

/// The digit a player is shown as.
pub open spec fn player_digit(p: Player) -> u8 {
    match p {
        Player::Black => 1u8,
        Player::White => 2u8,
    }
}

/// The status text a game is shown with.
pub open spec fn status_text(status: GameStatus) -> Seq<char> {
    match status {
        GameStatus::InProgress => "in_progress"@,
        GameStatus::Paused => "paused"@,
        GameStatus::Finished { winner, .. } => match winner {
            Some(Player::Black) => "finished_black_wins"@,
            Some(Player::White) => "finished_white_wins"@,
            None => "finished_tie"@,
        },
    }
}

/// What a faithful view of `game_state` holds.
pub open spec fn game_response_matches(r: GameResponse, game_state: GameState) -> bool {
    &&& r.id == game_state.id
    &&& r.board@.len() == 8
    &&& forall|i: int| 0 <= i < 8 ==> (#[trigger] r.board@[i])@.len() == 8
    &&& forall|i: int, j: int| 0 <= i < 8 && 0 <= j < 8 ==> (#[trigger] r.board@[i]@[j])
        == cell_digit(game_state.board@[i * 8 + j])
    &&& r.current_player == player_digit(game_state.current_player)
    &&& r.valid_moves@.len() == valid_moves_seq(game_state.board@, game_state.current_player).len()
    &&& forall|i: int| 0 <= i < r.valid_moves@.len() ==> (#[trigger] r.valid_moves@[i]) == (
        valid_moves_seq(game_state.board@, game_state.current_player)[i].row,
        valid_moves_seq(game_state.board@, game_state.current_player)[i].col,
    )
    &&& r.game_status@ == status_text(game_state.game_status)
    &&& r.score.0 == count_cells(game_state.board@, Cell::Black)
    &&& r.score.1 == count_cells(game_state.board@, Cell::White)
    &&& r.move_count == game_state.move_history@.len() as u32
}

impl GameResponse {
    /// Builds the caller-facing view of a game.
    pub fn from_game_state(game_state: &GameState) -> (r: GameResponse)
        requires
            game_state.wf(),
        ensures
            game_response_matches(r, *game_state),
    {
        let mut board: Vec<Vec<u8>> = Vec::new();
        let mut row: usize = 0;
        while row < 8
            invariant
                game_state.wf(),
                row <= 8,
                board@.len() == row,
                forall|i: int| 0 <= i < row ==> (#[trigger] board@[i])@.len() == 8,
                forall|i: int, j: int| 0 <= i < row && 0 <= j < 8 ==> (#[trigger] board@[i]@[j])
                    == cell_digit(game_state.board@[i * 8 + j]),
            decreases 8 - row,
        {
            let mut line: Vec<u8> = Vec::new();
            let mut col: usize = 0;
            while col < 8
                invariant
                    game_state.wf(),
                    row < 8,
                    col <= 8,
                    line@.len() == col,
                    forall|j: int| 0 <= j < col ==> (#[trigger] line@[j]) == cell_digit(
                        game_state.board@[row as int * 8 + j],
                    ),
                decreases 8 - col,
            {
                let cell = match game_state.board.get_cell(Position { row, col }) {
                    Some(cell) => cell,
                    None => Cell::Empty,
                };
                line.push(
                    match cell {
                        Cell::Empty => 0,
                        Cell::Black => 1,
                        Cell::White => 2,
                    },
                );
                col += 1;
            }
            board.push(line);
            row += 1;
        }
        let moves = ReversiRules::get_valid_moves(&game_state.board, game_state.current_player);
        let mut valid_moves: Vec<(usize, usize)> = Vec::new();
        let mut i: usize = 0;
        while i < moves.len()
            invariant
                i <= moves@.len(),
                valid_moves@.len() == i,
                forall|j: int| 0 <= j < i ==> (#[trigger] valid_moves@[j]) == (
                    moves@[j].row,
                    moves@[j].col,
                ),
            decreases moves@.len() - i,
        {
            let position = moves[i];
            valid_moves.push((position.row, position.col));
            i += 1;
        }
        let game_status = match &game_state.game_status {
            GameStatus::InProgress => String::from_str("in_progress"),
            GameStatus::Paused => String::from_str("paused"),
            GameStatus::Finished { winner, .. } => match winner {
                Some(Player::Black) => String::from_str("finished_black_wins"),
                Some(Player::White) => String::from_str("finished_white_wins"),
                None => String::from_str("finished_tie"),
            },
        };
        let score = game_state.get_score();
        GameResponse {
            id: game_state.id,
            board,
            current_player: match game_state.current_player {
                Player::Black => 1,
                Player::White => 2,
            },
            valid_moves,
            game_status,
            score,
            move_count: #[verifier::truncate] (game_state.get_move_count() as u32),
        }
    }
}

/// The outcome of an accepted placement: the updated view and the flipped
/// squares.
#[derive(Debug)]
pub struct MoveResponse {
    pub success: bool,
    pub game_state: GameResponse,
    pub flipped_positions: Vec<(usize, usize)>,
    pub message: Option<String>,
}

/// The body of an error reply.
#[derive(Debug)]
pub struct ErrorResponse {
    pub error: String,
    pub details: Option<String>,
}

/// Carries out one placement on a game: applies the move, hands the turn
/// over, advances past a stuck mover or to the end of the game, and
/// reports the view and the flipped squares. An illegal move or a
/// finished game is refused and leaves the game untouched.
pub fn make_move(game_state: &mut GameState, position: Position) -> (r: GameResult<MoveResponse>)
    requires
        old(game_state).wf(),
    ensures
        final(game_state).wf(),
        old(game_state).is_finished() ==> (r matches Err(GameError::GameFinished)) && *final(game_state) == *old(game_state),
        !old(game_state).is_finished() && !is_legal(
            old(game_state).board@,
            old(game_state).current_player,
            position,
        ) ==> (r matches Err(GameError::InvalidMove { reason }) && reason@ == invalid_move_text(
            position,
            old(game_state).current_player,
        )) && *final(game_state) == *old(game_state),
        !old(game_state).is_finished() && is_legal(
            old(game_state).board@,
            old(game_state).current_player,
            position,
        ) ==> game_advanced(
            *old(game_state),
            *final(game_state),
            old(game_state).current_player,
            position,
        ) && (r matches Ok(resp) && resp.success == true && game_response_matches(
            resp.game_state,
            *final(game_state),
        ) && resp.message is None && {
            let flips = flip_seq(
                old(game_state).board@,
                old(game_state).current_player,
                position,
            );
            &&& resp.flipped_positions@.len() == flips.len()
            &&& forall|i: int| 0 <= i < flips.len() ==> (#[trigger] resp.flipped_positions@[i])
                == (flips[i].row, flips[i].col)
        }),
{
    let flipped_positions = match ReversiRules::apply_move(game_state, position) {
        Ok(flipped) => flipped,
        Err(e) => {
            return Err(e);
        },
    };
    game_state.switch_player();
    let _ = ReversiRules::handle_turn(game_state);
    let mut flipped: Vec<(usize, usize)> = Vec::new();
    let mut i: usize = 0;
    while i < flipped_positions.len()
        invariant
            i <= flipped_positions@.len(),
            flipped@.len() == i,
            forall|j: int| 0 <= j < i ==> (#[trigger] flipped@[j]) == (
                flipped_positions@[j].row,
                flipped_positions@[j].col,
            ),
        decreases flipped_positions@.len() - i,
    {
        let position = flipped_positions[i];
        flipped.push((position.row, position.col));
        i += 1;
    }
    let response = MoveResponse {
        success: true,
        game_state: GameResponse::from_game_state(game_state),
        flipped_positions: flipped,
        message: None,
    };
    Ok(response)
}

} // verus!
