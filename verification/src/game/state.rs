//! The state of one game: board, current mover, progress status and the
//! ordered log of applied moves.

use vstd::prelude::*;

use crate::game::board::{count_cells, initial_cells, Board};
use crate::game::types::{Cell, Player, Position};
use crate::platform::{fresh_id, now_millis};

verus! {

/// A record of one applied move: who placed where, which pieces were
/// flipped, and when.
#[derive(Debug, Clone, PartialEq, Eq)]
pub struct Move {
    pub player: Player,
    pub position: Position,
    pub flipped: Vec<Position>,
    pub timestamp: i64,
}

impl Move {
    /// Builds a move record stamped with the current time.
    pub fn new(player: Player, position: Position, flipped: Vec<Position>) -> (r: Move)
        ensures
            r.player == player,
            r.position == position,
            r.flipped@ == flipped@,
    {
        Move { player, position, flipped, timestamp: now_millis() }
    }
}

/// The progress of a game. A finished game records the winner (`None` for a
/// tie) and the final piece tally `(black, white)`.
#[derive(Debug, Clone, Copy, PartialEq, Eq)]
pub enum GameStatus {
    InProgress,
    Finished { winner: Option<Player>, score: (u8, u8) },
    Paused,
}

/// The whole state of one game. Black always moves first.
#[derive(Debug, Clone)]
pub struct GameState {
    pub id: u128,
    pub board: Board,
    pub current_player: Player,
    pub game_status: GameStatus,
    pub move_history: Vec<Move>,
    pub created_at: i64,
    pub last_updated: i64,
}

impl GameState {
    /// A game state is well formed when its board is.
    pub open spec fn wf(&self) -> bool {
        self.board.wf()
    }

    /// Whether the game has been finished.
    pub open spec fn spec_is_finished(&self) -> bool {
        self.game_status is Finished
    }

    /// Whether the game is paused.
    pub open spec fn spec_is_paused(&self) -> bool {
        self.game_status is Paused
    }

    /// The fields of `post` that the game logic reads are those of `pre`;
    /// only the update timestamp may differ.
    pub open spec fn same_but_time(pre: GameState, post: GameState) -> bool {
        &&& post.id == pre.id
        &&& post.board@ == pre.board@
        &&& post.current_player == pre.current_player
        &&& post.game_status == pre.game_status
        &&& post.move_history@ == pre.move_history@
        &&& post.created_at == pre.created_at
    }

    /// A freshly created game: opening board, black to move, empty log.
    pub open spec fn is_initial(&self) -> bool {
        &&& self.board@ == initial_cells()
        &&& self.current_player == Player::Black
        &&& self.game_status == GameStatus::InProgress
        &&& self.move_history@ == Seq::<Move>::empty()
        &&& self.created_at == self.last_updated
    }

    /// Starts a new game under a fresh identifier.
    pub fn new() -> (r: GameState)
        ensures
            r.wf(),
            r.is_initial(),
    {
        let now = now_millis();
        GameState {
            id: fresh_id(),
            board: Board::new(),
            current_player: Player::Black,
            game_status: GameStatus::InProgress,
            move_history: Vec::new(),
            created_at: now,
            last_updated: now,
        }
    }

    /// Starts a new game under the given identifier.
    pub fn new_with_id(id: u128) -> (r: GameState)
        ensures
            r.wf(),
            r.is_initial(),
            r.id == id,
    {
        let now = now_millis();
        GameState {
            id,
            board: Board::new(),
            current_player: Player::Black,
            game_status: GameStatus::InProgress,
            move_history: Vec::new(),
            created_at: now,
            last_updated: now,
        }
    }

    /// Whether the game has been finished.
    #[verifier::when_used_as_spec(spec_is_finished)]
    pub fn is_finished(&self) -> (r: bool)
        ensures
            r == self.spec_is_finished(),
    {
        match self.game_status {
            GameStatus::Finished { .. } => true,
            _ => false,
        }
    }

    /// Whether the game is paused.
    #[verifier::when_used_as_spec(spec_is_paused)]
    pub fn is_paused(&self) -> (r: bool)
        ensures
            r == self.spec_is_paused(),
    {
        match self.game_status {
            GameStatus::Paused => true,
            _ => false,
        }
    }

    /// Hands the turn to the other player and stamps the update time.
    pub fn switch_player(&mut self)
        ensures
            final(self).current_player == old(self).current_player.opposite(),
            final(self).id == old(self).id,
            final(self).board@ == old(self).board@,
            final(self).game_status == old(self).game_status,
            final(self).move_history@ == old(self).move_history@,
            final(self).created_at == old(self).created_at,
    {
        self.current_player = self.current_player.opposite();
        self.last_updated = now_millis();
    }

    /// Appends a move to the log and stamps the update time.
    pub fn add_move(&mut self, game_move: Move)
        ensures
            final(self).move_history@ == old(self).move_history@.push(game_move),
            final(self).id == old(self).id,
            final(self).board@ == old(self).board@,
            final(self).current_player == old(self).current_player,
            final(self).game_status == old(self).game_status,
            final(self).created_at == old(self).created_at,
    {
        self.move_history.push(game_move);
        self.last_updated = now_millis();
    }

    /// Pauses a game in progress; any other status is left as it is.
    pub fn pause(&mut self)
        ensures
            old(self).game_status is InProgress ==> final(self).game_status == GameStatus::Paused
                && Self::same_but_time(
                GameState { game_status: GameStatus::Paused, ..*old(self) },
                *final(self),
            ),
            !(old(self).game_status is InProgress) ==> *final(self) == *old(self),
    {
        match self.game_status {
            GameStatus::InProgress => {
                self.game_status = GameStatus::Paused;
                self.last_updated = now_millis();
            },
            _ => {},
        }
    }

    /// Resumes a paused game; any other status is left as it is.
    pub fn resume(&mut self)
        ensures
            old(self).game_status is Paused ==> final(self).game_status == GameStatus::InProgress
                && Self::same_but_time(
                GameState { game_status: GameStatus::InProgress, ..*old(self) },
                *final(self),
            ),
            !(old(self).game_status is Paused) ==> *final(self) == *old(self),
    {
        match self.game_status {
            GameStatus::Paused => {
                self.game_status = GameStatus::InProgress;
                self.last_updated = now_millis();
            },
            _ => {},
        }
    }

    /// Finishes the game, recording the winner and the final tally.
    pub fn finish(&mut self, winner: Option<Player>)
        requires
            old(self).wf(),
        ensures
            final(self).wf(),
            final(self).game_status == (GameStatus::Finished {
                winner,
                score: (
                    count_cells(old(self).board@, Cell::Black) as u8,
                    count_cells(old(self).board@, Cell::White) as u8,
                ),
            }),
            final(self).id == old(self).id,
            final(self).board@ == old(self).board@,
            final(self).current_player == old(self).current_player,
            final(self).move_history@ == old(self).move_history@,
            final(self).created_at == old(self).created_at,
    {
        let (black_count, white_count) = self.board.count_pieces();
        self.game_status = GameStatus::Finished { winner, score: (black_count, white_count) };
        self.last_updated = now_millis();
    }

    /// The current piece tally, `(black, white)`.
    pub fn get_score(&self) -> (r: (u8, u8))
        requires
            self.wf(),
        ensures
            r.0 == count_cells(self.board@, Cell::Black),
            r.1 == count_cells(self.board@, Cell::White),
    {
        self.board.count_pieces()
    }

    /// How many moves have been applied so far.
    pub fn get_move_count(&self) -> (r: usize)
        ensures
            r == self.move_history@.len(),
    {
        self.move_history.len()
    }
}

impl Default for GameState {
    /// Starts a new game under a fresh identifier.
    fn default() -> (r: Self)
        ensures
            r.wf(),
            r.is_initial(),
    {
        Self::new()
    }
}

} // verus!
