//! The 8x8 board: cell storage, piece counts and a printable rendering.

use vstd::prelude::*;
use vstd::string::StringExecFns;

use crate::game::types::{Cell, Player, Position};

verus! {

/// The index of the square `(row, col)` in the row-major cell sequence.
pub open spec fn sq(row: int, col: int) -> int {
    row * 8 + col
}

/// The standard opening position: the four centre squares hold two pieces
/// of each colour, everything else is empty.
pub open spec fn initial_cells() -> Seq<Cell> {
    Seq::new(64, |i: int|
        if i == sq(3, 3) || i == sq(4, 4) {
            Cell::White
        } else if i == sq(3, 4) || i == sq(4, 3) {
            Cell::Black
        } else {
            Cell::Empty
        })
}

/// How many squares of `s` hold the cell state `c`.
pub open spec fn count_cells(s: Seq<Cell>, c: Cell) -> int
    decreases s.len(),
{
    if s.len() == 0 {
        0
    } else {
        count_cells(s.drop_last(), c) + if s.last() == c { 1int } else { 0int }
    }
}

pub proof fn lemma_count_cells_bound(s: Seq<Cell>, c: Cell)
    ensures
        0 <= count_cells(s, c) <= s.len(),
    decreases s.len(),
{
    if s.len() > 0 {
        lemma_count_cells_bound(s.drop_last(), c);
    }
}

/// An 8x8 reversi board. Its view is the row-major sequence of its 64 cells.
#[derive(Debug, Clone, PartialEq, Eq)]
pub struct Board {
    cells: Vec<Cell>,
}

impl View for Board {
    type V = Seq<Cell>;

    closed spec fn view(&self) -> Seq<Cell> {
        self.cells@
    }
}

impl Board {
    /// A board is well formed when it holds exactly 64 cells.
    pub open spec fn wf(&self) -> bool {
        self@.len() == 64
    }

    /// The cell at `(row, col)`, as a mathematical value.
    pub open spec fn spec_cell(&self, row: int, col: int) -> Cell {
        self@[sq(row, col)]
    }

    /// Builds a board in the standard opening position.
    pub fn new() -> (r: Board)
        ensures
            r.wf(),
            r@ == initial_cells(),
    {
        let mut cells: Vec<Cell> = Vec::new();
        let mut i: usize = 0;
        while i < 64
            invariant
                i <= 64,
                cells@.len() == i,
                forall|j: int| 0 <= j < i ==> cells@[j] == Cell::Empty,
            decreases 64 - i,
        {
            cells.push(Cell::Empty);
            i += 1;
        }
        let mut board = Board { cells };
        board.cells.set(3 * 8 + 3, Cell::White);
        board.cells.set(3 * 8 + 4, Cell::Black);
        board.cells.set(4 * 8 + 3, Cell::Black);
        board.cells.set(4 * 8 + 4, Cell::White);
        proof {
            assert(board@ =~= initial_cells());
        }
        board
    }

    /// Reads the cell at `position`; `None` when the coordinate lies outside
    /// the board.
    pub fn get_cell(&self, position: Position) -> (r: Option<Cell>)
        requires
            self.wf(),
        ensures
            r == if position.is_valid() {
                Some(self.spec_cell(position.row as int, position.col as int))
            } else {
                None::<Cell>
            },
    {
        if position.is_valid() {
            Some(self.cells[position.row * 8 + position.col])
        } else {
            None
        }
    }

    /// Writes `cell` at `position`, returning whether the coordinate was on
    /// the board; an out-of-bounds write leaves the board unchanged.
    pub fn set_cell(&mut self, position: Position, cell: Cell) -> (r: bool)
        requires
            old(self).wf(),
        ensures
            final(self).wf(),
            r == position.is_valid(),
            position.is_valid() ==> final(self)@ == old(self)@.update(
                sq(position.row as int, position.col as int),
                cell,
            ),
            !position.is_valid() ==> final(self)@ == old(self)@,
    {
        if position.is_valid() {
            self.cells.set(position.row * 8 + position.col, cell);
            true
        } else {
            false
        }
    }

    /// Whether `position` lies on the board and its square is empty.
    pub fn is_empty(&self, position: Position) -> (r: bool)
        requires
            self.wf(),
        ensures
            r == (position.is_valid() && self.spec_cell(
                position.row as int,
                position.col as int,
            ) == Cell::Empty),
    {
        match self.get_cell(position) {
            Some(c) => c == Cell::Empty,
            None => false,
        }
    }

    /// Counts the pieces of both colours; returns `(black, white)`.
    pub fn count_pieces(&self) -> (r: (u8, u8))
        requires
            self.wf(),
        ensures
            r.0 == count_cells(self@, Cell::Black),
            r.1 == count_cells(self@, Cell::White),
    {
        let mut black_count: u8 = 0;
        let mut white_count: u8 = 0;
        let mut i: usize = 0;
        while i < 64
            invariant
                self.wf(),
                i <= 64,
                black_count == count_cells(self@.take(i as int), Cell::Black),
                white_count == count_cells(self@.take(i as int), Cell::White),
            decreases 64 - i,
        {
            proof {
                lemma_count_cells_bound(self@.take(i as int), Cell::Black);
                lemma_count_cells_bound(self@.take(i as int), Cell::White);
                assert(self@.take(i + 1).drop_last() =~= self@.take(i as int));
            }
            match self.cells[i] {
                Cell::Black => { black_count += 1; },
                Cell::White => { white_count += 1; },
                Cell::Empty => {},
            }
            i += 1;
        }
        proof {
            assert(self@.take(64) =~= self@);
        }
        (black_count, white_count)
    }

    /// The printed symbol of a cell, followed by a space.
    pub open spec fn symbol_str(c: Cell) -> Seq<char> {
        match c {
            Cell::Empty => ". "@,
            Cell::Black => "● "@,
            Cell::White => "○ "@,
        }
    }

    /// The printed label of a row, followed by a space.
    pub open spec fn row_label(row: int) -> Seq<char> {
        if row == 0 { "0 "@ }
        else if row == 1 { "1 "@ }
        else if row == 2 { "2 "@ }
        else if row == 3 { "3 "@ }
        else if row == 4 { "4 "@ }
        else if row == 5 { "5 "@ }
        else if row == 6 { "6 "@ }
        else { "7 "@ }
    }

    /// The printed form of the first `n` cells of row `row`.
    pub open spec fn row_cells_str(cells: Seq<Cell>, row: int, n: int) -> Seq<char>
        decreases n,
    {
        if n <= 0 {
            Seq::empty()
        } else {
            Self::row_cells_str(cells, row, n - 1) + Self::symbol_str(cells[sq(row, n - 1)])
        }
    }

    /// The printed form of the first `n` rows of the board, labels included.
    pub open spec fn rows_str(cells: Seq<Cell>, n: int) -> Seq<char>
        decreases n,
    {
        if n <= 0 {
            Seq::empty()
        } else {
            Self::rows_str(cells, n - 1) + Self::row_label(n - 1) + Self::row_cells_str(
                cells,
                n - 1,
                8,
            ) + "\n"@
        }
    }

    /// The full printed form of a board: a column header and eight rows.
    pub open spec fn display_str(cells: Seq<Cell>) -> Seq<char> {
        "  0 1 2 3 4 5 6 7\n"@ + Self::rows_str(cells, 8)
    }

    /// Renders the board as text: a column header, then one labelled line per
    /// row, black pieces drawn filled, white pieces drawn hollow.
    pub fn display(&self) -> (r: String)
        requires
            self.wf(),
        ensures
            r@ == Self::display_str(self@),
    {
        let mut result = String::from_str("  0 1 2 3 4 5 6 7\n");
        let mut row: usize = 0;
        while row < 8
            invariant
                self.wf(),
                row <= 8,
                result@ == "  0 1 2 3 4 5 6 7\n"@ + Self::rows_str(self@, row as int),
            decreases 8 - row,
        {
            let label: &str = match row {
                0 => "0 ",
                1 => "1 ",
                2 => "2 ",
                3 => "3 ",
                4 => "4 ",
                5 => "5 ",
                6 => "6 ",
                _ => "7 ",
            };
            result.append(label);
            let mut col: usize = 0;
            while col < 8
                invariant
                    self.wf(),
                    row < 8,
                    col <= 8,
                    result@ == "  0 1 2 3 4 5 6 7\n"@ + Self::rows_str(self@, row as int)
                        + Self::row_label(row as int) + Self::row_cells_str(
                        self@,
                        row as int,
                        col as int,
                    ),
                decreases 8 - col,
            {
                let symbol: &str = match self.cells[row * 8 + col] {
                    Cell::Empty => ". ",
                    Cell::Black => "● ",
                    Cell::White => "○ ",
                };
                result.append(symbol);
                col += 1;
            }
            result.append("\n");
            row += 1;
        }
        result
    }
}

impl Default for Board {
    /// Builds a board in the standard opening position.
    fn default() -> (r: Self)
        ensures
            r.wf(),
            r@ == initial_cells(),
    {
        Self::new()
    }
}

} // verus!
