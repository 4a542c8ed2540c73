//! Basic value types of the game: cells, players and board coordinates.

use vstd::prelude::*;

verus! {

/// The state of one square of the board.
#[derive(Debug, Clone, Copy, PartialEq, Eq, Structural, Hash)]
pub enum Cell {
    Empty,
    Black,
    White,
}

/// One of the two players. Black moves first.
#[derive(Debug, Clone, Copy, PartialEq, Eq, Structural, Hash)]
pub enum Player {
    Black,
    White,
}

impl Player {
    /// The opponent of this player.
    pub open spec fn spec_opposite(self) -> Player {
        match self {
            Player::Black => Player::White,
            Player::White => Player::Black,
        }
    }

    /// Returns the opponent of this player.
    #[verifier::when_used_as_spec(spec_opposite)]
    pub fn opposite(self) -> (r: Player)
        ensures
            r == self.spec_opposite(),
    {
        match self {
            Player::Black => Player::White,
            Player::White => Player::Black,
        }
    }

    /// The cell colour owned by this player.
    pub open spec fn spec_to_cell(self) -> Cell {
        match self {
            Player::Black => Cell::Black,
            Player::White => Cell::White,
        }
    }

    /// Converts the player to the cell state of its colour.
    #[verifier::when_used_as_spec(spec_to_cell)]
    pub fn to_cell(self) -> (r: Cell)
        ensures
            r == self.spec_to_cell(),
    {
        match self {
            Player::Black => Cell::Black,
            Player::White => Cell::White,
        }
    }

    /// The position of this player in the fixed player order: Black first.
    pub open spec fn spec_ordinal(self) -> usize {
        match self {
            Player::Black => 0usize,
            Player::White => 1usize,
        }
    }

    /// Returns the position of this player in the fixed player order.
    #[verifier::when_used_as_spec(spec_ordinal)]
    pub fn ordinal(self) -> (r: usize)
        ensures
            r == self.spec_ordinal(),
    {
        match self {
            Player::Black => 0,
            Player::White => 1,
        }
    }
}

/// Taking the opponent twice leads back to the same player, and the
/// opponent is never the player itself: handing the turn over always
/// changes the mover, and handing it over twice restores it.
pub proof fn lemma_opposite_involution(p: Player)
    ensures
        p.spec_opposite().spec_opposite() == p,
        p.spec_opposite() != p,
{
}

/// A coordinate on the 8x8 board. Only rows and columns below 8 address a
/// square; `is_valid` tells the two apart.
#[derive(Debug, Clone, Copy, PartialEq, Eq, Structural, Hash)]
pub struct Position {
    pub row: usize,
    pub col: usize,
}

impl Position {
    /// Whether the coordinate addresses a square of the 8x8 board.
    pub open spec fn spec_is_valid(&self) -> bool {
        self.row < 8 && self.col < 8
    }

    /// Builds a position, rejecting coordinates outside the 8x8 board.
    pub fn new(row: usize, col: usize) -> (r: Option<Position>)
        ensures
            r == if row < 8 && col < 8 {
                Some(Position { row, col })
            } else {
                None::<Position>
            },
    {
        if row < 8 && col < 8 {
            Some(Position { row, col })
        } else {
            None
        }
    }

    /// Checks that the coordinate addresses a square of the 8x8 board.
    #[verifier::when_used_as_spec(spec_is_valid)]
    pub fn is_valid(&self) -> (r: bool)
        ensures
            r == self.spec_is_valid(),
    {
        self.row < 8 && self.col < 8
    }
}

} // verus!
