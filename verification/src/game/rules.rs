//! The rules of the game: move legality, capture computation, move
//! application and termination.

use vstd::prelude::*;
use vstd::string::StringExecFns;

use crate::error::{GameError, GameResult};
use crate::game::board::{count_cells, sq, Board};
use crate::game::state::{GameState, GameStatus, Move};
use crate::game::types::{Cell, Player, Position};
use crate::numerals::{dec_str, usize_to_string};

verus! {

/// Whether `(row, col)` lies on the 8x8 board.
pub open spec fn in_bounds(row: int, col: int) -> bool {
    0 <= row < 8 && 0 <= col < 8
}

/// The movement vector of direction `d`; the eight directions are numbered
/// row by row, from upper-left to lower-right.
pub open spec fn dir_delta(d: int) -> (int, int) {
    if d == 0 { (-1, -1) }
    else if d == 1 { (-1, 0) }
    else if d == 2 { (-1, 1) }
    else if d == 3 { (0, -1) }
    else if d == 4 { (0, 1) }
    else if d == 5 { (1, -1) }
    else if d == 6 { (1, 0) }
    else { (1, 1) }
}

/// The row reached after `i` steps from `p` in direction `d`.
pub open spec fn step_row(p: Position, d: int, i: int) -> int {
    p.row + i * dir_delta(d).0
}

/// The column reached after `i` steps from `p` in direction `d`.
pub open spec fn step_col(p: Position, d: int, i: int) -> int {
    p.col + i * dir_delta(d).1
}

/// Whether the square reached after `i` steps from `p` in direction `d`
/// lies on the board.
pub open spec fn step_in_bounds(p: Position, d: int, i: int) -> bool {
    in_bounds(step_row(p, d, i), step_col(p, d, i))
}

/// The position reached after `i` steps from `p` in direction `d`.
pub open spec fn step_pos(p: Position, d: int, i: int) -> Position {
    Position { row: step_row(p, d, i) as usize, col: step_col(p, d, i) as usize }
}

/// Whether the square `i` steps from `p` in direction `d` is on the board
/// and holds a piece of `player`'s opponent.
pub open spec fn opp_at(b: Seq<Cell>, player: Player, p: Position, d: int, i: int) -> bool {
    step_in_bounds(p, d, i) && b[sq(step_row(p, d, i), step_col(p, d, i))]
        == player.opposite().to_cell()
}

/// Whether the square `i` steps from `p` in direction `d` is on the board
/// and holds a piece of `player`'s own colour.
pub open spec fn own_at(b: Seq<Cell>, player: Player, p: Position, d: int, i: int) -> bool {
    step_in_bounds(p, d, i) && b[sq(step_row(p, d, i), step_col(p, d, i))] == player.to_cell()
}

/// Whether the first `k` steps from `p` in direction `d` all hold opponent
/// pieces.
pub open spec fn opp_run(b: Seq<Cell>, player: Player, p: Position, d: int, k: int) -> bool {
    forall|i: int| 1 <= i <= k ==> #[trigger] opp_at(b, player, p, d, i)
}

/// Whether direction `d` captures exactly `n` pieces from `p`: an unbroken
/// run of `n >= 1` opponent pieces followed by one of the mover's own.
pub open spec fn captures_exactly(
    b: Seq<Cell>,
    player: Player,
    p: Position,
    d: int,
    n: int,
) -> bool {
    n >= 1 && opp_run(b, player, p, d, n) && own_at(b, player, p, d, n + 1)
}

/// Whether direction `d` captures at least one piece from `p`.
pub open spec fn captures_dir(b: Seq<Cell>, player: Player, p: Position, d: int) -> bool {
    exists|n: int| #[trigger] captures_exactly(b, player, p, d, n)
}

/// How many pieces direction `d` captures from `p` (meaningful only when
/// the direction captures at all).
pub open spec fn capture_len(b: Seq<Cell>, player: Player, p: Position, d: int) -> int {
    choose|n: int| #[trigger] captures_exactly(b, player, p, d, n)
}

/// The positions flipped along direction `d` by a placement at `p`, in
/// order of increasing distance; empty when the direction captures nothing.
pub open spec fn dir_flip_seq(b: Seq<Cell>, player: Player, p: Position, d: int) -> Seq<
    Position,
> {
    if captures_dir(b, player, p, d) {
        Seq::new(capture_len(b, player, p, d) as nat, |i: int| step_pos(p, d, i + 1))
    } else {
        Seq::empty()
    }
}

/// The flips of the first `n` directions, concatenated in direction order.
pub open spec fn flips_upto(b: Seq<Cell>, player: Player, p: Position, n: int) -> Seq<Position>
    decreases n,
{
    if n <= 0 {
        Seq::empty()
    } else {
        flips_upto(b, player, p, n - 1) + dir_flip_seq(b, player, p, n - 1)
    }
}

/// Every position flipped by a placement of `player` at `p`, over all eight
/// directions.
pub open spec fn flip_seq(b: Seq<Cell>, player: Player, p: Position) -> Seq<Position> {
    flips_upto(b, player, p, 8)
}

/// A placement is legal on an empty on-board square from which at least one
/// direction captures.
pub open spec fn is_legal(b: Seq<Cell>, player: Player, p: Position) -> bool {
    &&& p.is_valid()
    &&& b[sq(p.row as int, p.col as int)] == Cell::Empty
    &&& exists|d: int| 0 <= d < 8 && #[trigger] captures_dir(b, player, p, d)
}

/// The position addressing square index `i` of the row-major cell sequence.
pub open spec fn pos_of(i: int) -> Position {
    Position { row: (i / 8) as usize, col: (i % 8) as usize }
}

/// Whether some entry of `s` addresses square index `i`.
pub open spec fn covers(s: Seq<Position>, i: int) -> bool {
    exists|j: int| 0 <= j < s.len() && sq(#[trigger] s[j].row as int, s[j].col as int) == i
}

/// The board after `player` places at `p`: the placed square and every
/// flipped square take the mover's colour, everything else is unchanged.
pub open spec fn applied_cells(b: Seq<Cell>, player: Player, p: Position) -> Seq<Cell> {
    Seq::new(64, |i: int|
        if i == sq(p.row as int, p.col as int) || covers(flip_seq(b, player, p), i) {
            player.to_cell()
        } else {
            b[i]
        })
}

/// The legal placements of `player` among the first `n` squares, in
/// row-major order.
pub open spec fn valid_positions_upto(b: Seq<Cell>, player: Player, n: int) -> Seq<Position>
    decreases n,
{
    if n <= 0 {
        Seq::empty()
    } else {
        valid_positions_upto(b, player, n - 1) + if is_legal(b, player, pos_of(n - 1)) {
            seq![pos_of(n - 1)]
        } else {
            Seq::empty()
        }
    }
}

/// All legal placements of `player`, in row-major order.
pub open spec fn valid_moves_seq(b: Seq<Cell>, player: Player) -> Seq<Position> {
    valid_positions_upto(b, player, 64)
}

/// Whether `player` has any legal placement on `b`.
pub open spec fn has_move(b: Seq<Cell>, player: Player) -> bool {
    exists|p: Position| p.is_valid() && #[trigger] is_legal(b, player, p)
}

/// Whether the game on `b` is over: neither player has a legal placement.
pub open spec fn game_over(b: Seq<Cell>) -> bool {
    !has_move(b, Player::Black) && !has_move(b, Player::White)
}

/// The winner on `b`: the colour with the higher tally, none on a tie.
pub open spec fn winner_of(b: Seq<Cell>) -> Option<Player> {
    let black = count_cells(b, Cell::Black);
    let white = count_cells(b, Cell::White);
    if black > white {
        Some(Player::Black)
    } else if white > black {
        Some(Player::White)
    } else {
        None
    }
}

/// Stepping once more moves by exactly one direction vector.
proof fn lemma_step_succ(p: Position, d: int, k: int)
    ensures
        step_row(p, d, k + 1) == step_row(p, d, k) + dir_delta(d).0,
        step_col(p, d, k + 1) == step_col(p, d, k) + dir_delta(d).1,
{
    let dr = dir_delta(d).0;
    let dc = dir_delta(d).1;
    assert((k + 1) * dr == k * dr + dr) by (nonlinear_arith);
    assert((k + 1) * dc == k * dc + dc) by (nonlinear_arith);
}

/// Step zero stays in place and step one moves by one vector.
proof fn lemma_step_base(p: Position, d: int)
    ensures
        step_row(p, d, 0) == p.row,
        step_col(p, d, 0) == p.col,
        step_row(p, d, 1) == p.row + dir_delta(d).0,
        step_col(p, d, 1) == p.col + dir_delta(d).1,
{
    let dr = dir_delta(d).0;
    let dc = dir_delta(d).1;
    assert(0 * dr == 0 && 0 * dc == 0) by (nonlinear_arith);
    assert(1 * dr == dr && 1 * dc == dc) by (nonlinear_arith);
}

/// A walk that is still on the board after `k + 1` steps has taken at most
/// seven steps so far.
proof fn lemma_step_bound(p: Position, d: int, k: int)
    requires
        0 <= d < 8,
        p.is_valid(),
        0 <= k,
        step_in_bounds(p, d, k + 1),
    ensures
        k < 8,
{
    if k >= 8 {
        let dr = dir_delta(d).0;
        let dc = dir_delta(d).1;
        if dr == 1 {
            assert((k + 1) * 1 == k + 1) by (nonlinear_arith);
        } else if dr == -1 {
            assert((k + 1) * (-1) == -(k + 1)) by (nonlinear_arith);
        } else {
            assert((k + 1) * 0 == 0) by (nonlinear_arith);
            if dc == 1 {
                assert((k + 1) * 1 == k + 1) by (nonlinear_arith);
            } else {
                assert((k + 1) * (-1) == -(k + 1)) by (nonlinear_arith);
            }
        }
    }
}

/// The mover's own colour and the opponent's colour differ.
proof fn lemma_cells_differ(player: Player)
    ensures
        player.to_cell() != player.opposite().to_cell(),
        player.to_cell() != Cell::Empty,
        player.opposite().to_cell() != Cell::Empty,
{
}

/// A direction captures exactly one run length.
proof fn lemma_capture_unique(b: Seq<Cell>, player: Player, p: Position, d: int, n1: int, n2: int)
    requires
        captures_exactly(b, player, p, d, n1),
        captures_exactly(b, player, p, d, n2),
    ensures
        n1 == n2,
{
    lemma_cells_differ(player);
    if n1 < n2 {
        assert(opp_at(b, player, p, d, n1 + 1));
        assert(own_at(b, player, p, d, n1 + 1));
    } else if n2 < n1 {
        assert(opp_at(b, player, p, d, n2 + 1));
        assert(own_at(b, player, p, d, n2 + 1));
    }
}

/// A walk of `k` opponent pieces whose next square neither continues the
/// run nor closes it with `k >= 1` captures nothing in this direction.
proof fn lemma_blocked(b: Seq<Cell>, player: Player, p: Position, d: int, k: int)
    requires
        0 <= k,
        opp_run(b, player, p, d, k),
        !opp_at(b, player, p, d, k + 1),
        !(own_at(b, player, p, d, k + 1) && k >= 1),
    ensures
        !captures_dir(b, player, p, d),
{
    lemma_cells_differ(player);
    assert forall|n: int| !#[trigger] captures_exactly(b, player, p, d, n) by {
        if captures_exactly(b, player, p, d, n) {
            if n + 1 <= k {
                assert(opp_at(b, player, p, d, n + 1));
                assert(own_at(b, player, p, d, n + 1));
            } else if n == k {
                assert(own_at(b, player, p, d, k + 1));
            } else {
                assert(n >= k + 1);
                assert(opp_at(b, player, p, d, k + 1));
            }
        }
    }
}

/// The flips of a capturing direction are non-empty; of the others, empty.
proof fn lemma_dir_flip_len(b: Seq<Cell>, player: Player, p: Position, d: int)
    ensures
        captures_dir(b, player, p, d) ==> dir_flip_seq(b, player, p, d).len() >= 1,
        !captures_dir(b, player, p, d) ==> dir_flip_seq(b, player, p, d).len() == 0,
{
    if captures_dir(b, player, p, d) {
        let n = choose|n: int| #[trigger] captures_exactly(b, player, p, d, n);
        assert(captures_exactly(b, player, p, d, capture_len(b, player, p, d)));
    }
}

/// The concatenated flips are non-empty exactly when some direction
/// captures.
proof fn lemma_flips_upto_nonempty(b: Seq<Cell>, player: Player, p: Position, n: int)
    requires
        0 <= n <= 8,
    ensures
        flips_upto(b, player, p, n).len() > 0 <==> exists|d: int|
            0 <= d < n && #[trigger] captures_dir(b, player, p, d),
    decreases n,
{
    if n > 0 {
        lemma_flips_upto_nonempty(b, player, p, n - 1);
        lemma_dir_flip_len(b, player, p, n - 1);
        if flips_upto(b, player, p, n).len() > 0 {
            if dir_flip_seq(b, player, p, n - 1).len() > 0 {
                assert(captures_dir(b, player, p, n - 1));
            }
        }
        if exists|d: int| 0 <= d < n && #[trigger] captures_dir(b, player, p, d) {
            let d = choose|d: int| 0 <= d < n && #[trigger] captures_dir(b, player, p, d);
            if d < n - 1 {
                assert(flips_upto(b, player, p, n - 1).len() > 0);
            }
        }
    }
}

/// A legal placement flips at least one piece, and a placement that flips
/// a piece on an empty on-board square is legal.
pub proof fn lemma_flip_seq_nonempty(b: Seq<Cell>, player: Player, p: Position)
    ensures
        flip_seq(b, player, p).len() > 0 <==> exists|d: int|
            0 <= d < 8 && #[trigger] captures_dir(b, player, p, d),
{
    lemma_flips_upto_nonempty(b, player, p, 8);
}

/// Every flipped position lies on the board, held an opponent piece before
/// the placement, and its square index is that of no other start square.
proof fn lemma_dir_flip_members(b: Seq<Cell>, player: Player, p: Position, d: int)
    ensures
        forall|j: int| 0 <= j < dir_flip_seq(b, player, p, d).len() ==> {
            let q = #[trigger] dir_flip_seq(b, player, p, d)[j];
            &&& q.is_valid()
            &&& q == step_pos(p, d, j + 1)
            &&& b[sq(q.row as int, q.col as int)] == player.opposite().to_cell()
        },
{
    if captures_dir(b, player, p, d) {
        let n = capture_len(b, player, p, d);
        assert(captures_exactly(b, player, p, d, n));
        assert forall|j: int| 0 <= j < dir_flip_seq(b, player, p, d).len() implies {
            let q = #[trigger] dir_flip_seq(b, player, p, d)[j];
            &&& q.is_valid()
            &&& q == step_pos(p, d, j + 1)
            &&& b[sq(q.row as int, q.col as int)] == player.opposite().to_cell()
        } by {
            assert(opp_at(b, player, p, d, j + 1));
        }
    }
}

/// Every position of the flip sequence lies on the board and held an
/// opponent piece before the placement.
pub proof fn lemma_flips_upto_members(b: Seq<Cell>, player: Player, p: Position, n: int)
    requires
        0 <= n <= 8,
    ensures
        forall|j: int| 0 <= j < flips_upto(b, player, p, n).len() ==> {
            let q = #[trigger] flips_upto(b, player, p, n)[j];
            &&& q.is_valid()
            &&& b[sq(q.row as int, q.col as int)] == player.opposite().to_cell()
        },
    decreases n,
{
    if n > 0 {
        lemma_flips_upto_members(b, player, p, n - 1);
        lemma_dir_flip_members(b, player, p, n - 1);
    }
}

/// The membership of the row-major legal-move list: a position stands in
/// the prefix list exactly when its square index lies below the bound and
/// the placement is legal.
proof fn lemma_valid_positions_upto_contains(b: Seq<Cell>, player: Player, n: int, q: Position)
    requires
        0 <= n <= 64,
    ensures
        valid_positions_upto(b, player, n).contains(q) <==> (q.is_valid() && sq(
            q.row as int,
            q.col as int,
        ) < n && is_legal(b, player, q)),
    decreases n,
{
    if n > 0 {
        lemma_valid_positions_upto_contains(b, player, n - 1, q);
        let prev = valid_positions_upto(b, player, n - 1);
        let here = valid_positions_upto(b, player, n);
        assert(pos_of(n - 1).row as int == (n - 1) / 8 && pos_of(n - 1).col as int == (n - 1) % 8);
        assert(0 <= (n - 1) / 8 < 8 && 0 <= (n - 1) % 8 < 8 && (n - 1) / 8 * 8 + (n - 1) % 8 == n
            - 1) by (nonlinear_arith)
            requires
                0 < n <= 64,
        ;
        assert(pos_of(n - 1).is_valid());
        assert(sq(pos_of(n - 1).row as int, pos_of(n - 1).col as int) == n - 1);
        if q.is_valid() && sq(q.row as int, q.col as int) == n - 1 {
            assert(q.row as int == (n - 1) / 8 && q.col as int == (n - 1) % 8)
                by (nonlinear_arith)
                requires
                    0 <= q.row < 8,
                    0 <= q.col < 8,
                    q.row * 8 + q.col == n - 1,
            ;
            assert(q == pos_of(n - 1));
        }
        if is_legal(b, player, pos_of(n - 1)) {
            assert(here == prev + seq![pos_of(n - 1)]);
            assert forall|x: Position| here.contains(x) <==> prev.contains(x) || x == pos_of(
                n - 1,
            ) by {
                if prev.contains(x) {
                    let j = choose|j: int| 0 <= j < prev.len() && prev[j] == x;
                    assert(here[j] == x);
                }
                if x == pos_of(n - 1) {
                    assert(here[here.len() - 1] == x);
                }
                if here.contains(x) {
                    let j = choose|j: int| 0 <= j < here.len() && here[j] == x;
                    if j < prev.len() {
                        assert(prev[j] == x);
                    }
                }
            }
        } else {
            assert(here =~= prev);
        }
    }
}

/// The legal-move list never exceeds the number of squares scanned.
pub proof fn lemma_valid_positions_upto_len(b: Seq<Cell>, player: Player, n: int)
    requires
        0 <= n,
    ensures
        valid_positions_upto(b, player, n).len() <= n,
    decreases n,
{
    if n > 0 {
        lemma_valid_positions_upto_len(b, player, n - 1);
    }
}

/// A non-empty legal-move list means some legal move exists, and the other
/// way round.
proof fn lemma_valid_moves_exist(b: Seq<Cell>, player: Player)
    ensures
        valid_moves_seq(b, player).len() > 0 <==> has_move(b, player),
{
    let s = valid_moves_seq(b, player);
    if s.len() > 0 {
        let q = s[0];
        assert(s.contains(q));
        lemma_valid_positions_upto_contains(b, player, 64, q);
    }
    if has_move(b, player) {
        let q = choose|q: Position| q.is_valid() && #[trigger] is_legal(b, player, q);
        assert(sq(q.row as int, q.col as int) < 64);
        lemma_valid_positions_upto_contains(b, player, 64, q);
        assert(s.contains(q));
    }
}

/// Every entry of the legal-move list is a legal placement, and every
/// legal placement stands in the list.
pub proof fn lemma_valid_moves_members(b: Seq<Cell>, player: Player)
    ensures
        forall|j: int| 0 <= j < valid_moves_seq(b, player).len() ==> is_legal(
            b,
            player,
            #[trigger] valid_moves_seq(b, player)[j],
        ),
        forall|q: Position| valid_moves_seq(b, player).contains(q) <==> (q.is_valid() && sq(
            q.row as int,
            q.col as int,
        ) < 64 && #[trigger] is_legal(b, player, q)),
{
    assert forall|q: Position| valid_moves_seq(b, player).contains(q) <==> (q.is_valid() && sq(
        q.row as int,
        q.col as int,
    ) < 64 && #[trigger] is_legal(b, player, q)) by {
        lemma_valid_positions_upto_contains(b, player, 64, q);
    }
    assert forall|j: int| 0 <= j < valid_moves_seq(b, player).len() implies is_legal(
        b,
        player,
        #[trigger] valid_moves_seq(b, player)[j],
    ) by {
        assert(valid_moves_seq(b, player).contains(valid_moves_seq(b, player)[j]));
    }
}

/// The reason text of an illegal-placement error.
pub open spec fn invalid_move_text(position: Position, player: Player) -> Seq<char> {
    "Position ("@ + dec_str(position.row as int) + ", "@ + dec_str(position.col as int)
        + ") is not a valid move for "@ + player_name(player)
}

/// The printed name of a player.
pub open spec fn player_name(player: Player) -> Seq<char> {
    match player {
        Player::Black => "Black"@,
        Player::White => "White"@,
    }
}

/// What a successful application of a move did to the game state: the board
/// took the placement and its flips, the mover and status are untouched,
/// and one record was appended to the log.
pub open spec fn move_applied(pre: GameState, post: GameState, position: Position) -> bool {
    &&& post.board@ == applied_cells(pre.board@, pre.current_player, position)
    &&& post.current_player == pre.current_player
    &&& post.game_status == pre.game_status
    &&& post.id == pre.id
    &&& post.created_at == pre.created_at
    &&& post.move_history@.len() == pre.move_history@.len() + 1
    &&& post.move_history@.take(pre.move_history@.len() as int) == pre.move_history@
    &&& post.move_history@.last().player == pre.current_player
    &&& post.move_history@.last().position == position
    &&& post.move_history@.last().flipped@ == flip_seq(pre.board@, pre.current_player, position)
}

/// The board during move application, after the placement itself and the
/// first `j` flips have been written.
pub open spec fn partially_applied(
    b: Seq<Cell>,
    player: Player,
    p: Position,
    flips: Seq<Position>,
    j: int,
) -> Seq<Cell> {
    Seq::new(64, |i: int|
        if i == sq(p.row as int, p.col as int) || covers(flips.take(j), i) {
            player.to_cell()
        } else {
            b[i]
        })
}

/// Every legal placement flips at least one piece; each flipped square held
/// the opponent's colour immediately before the placement and holds the
/// mover's colour immediately after it.
pub proof fn lemma_flips_of_legal_move(b: Seq<Cell>, player: Player, p: Position)
    requires
        b.len() == 64,
        is_legal(b, player, p),
    ensures
        flip_seq(b, player, p).len() > 0,
        forall|j: int| 0 <= j < flip_seq(b, player, p).len() ==> {
            let q = #[trigger] flip_seq(b, player, p)[j];
            &&& q.is_valid()
            &&& b[sq(q.row as int, q.col as int)] == player.opposite().to_cell()
            &&& applied_cells(b, player, p)[sq(q.row as int, q.col as int)] == player.to_cell()
        },
{
    lemma_flip_seq_nonempty(b, player, p);
    lemma_flips_upto_members(b, player, p, 8);
    assert forall|j: int| 0 <= j < flip_seq(b, player, p).len() implies {
        let q = #[trigger] flip_seq(b, player, p)[j];
        &&& q.is_valid()
        &&& b[sq(q.row as int, q.col as int)] == player.opposite().to_cell()
        &&& applied_cells(b, player, p)[sq(q.row as int, q.col as int)] == player.to_cell()
    } by {
        let q = flip_seq(b, player, p)[j];
        assert(covers(flip_seq(b, player, p), sq(q.row as int, q.col as int)));
    }
}

/// Legality reads nothing but the board cells, the mover and the position:
/// two boards with the same cells agree on every legality question.
pub proof fn lemma_legal_is_pure(board1: Board, board2: Board, player: Player, p: Position)
    requires
        board1@ == board2@,
    ensures
        is_legal(board1@, player, p) == is_legal(board2@, player, p),
        flip_seq(board1@, player, p) == flip_seq(board2@, player, p),
{
}

/// Applying a move leaves the mover unchanged, so the explicit switch that
/// follows it hands the turn to the opponent: across an apply-and-switch
/// round the mover strictly alternates.
pub proof fn lemma_mover_alternates(
    pre: GameState,
    mid: GameState,
    post: GameState,
    position: Position,
)
    requires
        move_applied(pre, mid, position),
        post.current_player == mid.current_player.opposite(),
    ensures
        post.current_player == pre.current_player.opposite(),
        post.current_player != pre.current_player,
{
}

/// The rules of the game, offered as associated functions.
pub struct ReversiRules;

impl ReversiRules {
    /// Returns the direction vector of direction `d`.
    fn dir_delta_exec(d: usize) -> (r: (i8, i8))
        requires
            d < 8,
        ensures
            r.0 as int == dir_delta(d as int).0,
            r.1 as int == dir_delta(d as int).1,
    {
        match d {
            0 => (-1, -1),
            1 => (-1, 0),
            2 => (-1, 1),
            3 => (0, -1),
            4 => (0, 1),
            5 => (1, -1),
            6 => (1, 0),
            _ => (1, 1),
        }
    }

    /// Moves one square from `(row, col)` by `(dr, dc)`, or reports that
    /// the move leaves the board.
    fn step_from(row: usize, col: usize, dr: i8, dc: i8) -> (r: Option<(usize, usize)>)
        requires
            row < 8,
            col < 8,
            -1 <= dr as int <= 1,
            -1 <= dc as int <= 1,
        ensures
            match r {
                Some(q) => in_bounds(row + dr as int, col + dc as int) && q.0 == row + dr as int
                    && q.1 == col + dc as int,
                None => !in_bounds(row + dr as int, col + dc as int),
            },
    {
        let nr = row as i16 + dr as i16;
        let nc = col as i16 + dc as i16;
        if 0 <= nr && nr < 8 && 0 <= nc && nc < 8 {
            Some((nr as usize, nc as usize))
        } else {
            None
        }
    }

    /// Walks direction `d` from `position` and returns the run of opponent
    /// pieces it captures; an uncapturing direction yields nothing.
    fn capture_line(board: &Board, position: Position, player: Player, d: usize) -> (line: Vec<
        Position,
    >)
        requires
            board.wf(),
            position.is_valid(),
            d < 8,
        ensures
            line@ == dir_flip_seq(board@, player, position, d as int),
    {
        let ghost b = board@;
        let ghost di = d as int;
        let opponent_cell = player.opposite().to_cell();
        let player_cell = player.to_cell();
        let (dr, dc) = Self::dir_delta_exec(d);
        let mut line: Vec<Position> = Vec::new();
        proof {
            lemma_step_base(position, di);
        }
        let mut cur = Self::step_from(position.row, position.col, dr, dc);
        loop
            invariant
                board.wf(),
                b == board@,
                position.is_valid(),
                d < 8,
                di == d as int,
                dr as int == dir_delta(di).0,
                dc as int == dir_delta(di).1,
                line@.len() <= 8,
                opponent_cell == player.opposite().to_cell(),
                player_cell == player.to_cell(),
                opp_run(b, player, position, di, line@.len() as int),
                line@ =~= Seq::new(line@.len(), |i: int| step_pos(position, di, i + 1)),
                match cur {
                    Some(q) => step_in_bounds(position, di, line@.len() as int + 1) && q.0 == step_row(
                        position,
                        di,
                        line@.len() as int + 1,
                    ) && q.1 == step_col(position, di, line@.len() as int + 1),
                    None => !step_in_bounds(position, di, line@.len() as int + 1),
                },
            decreases 8 - line@.len(),
        {
            let ghost k = line@.len() as int;
            match cur {
                None => {
                    proof {
                        lemma_blocked(b, player, position, di, k);
                    }
                    return Vec::new();
                },
                Some((r, c)) => {
                    proof {
                        lemma_step_bound(position, di, k);
                    }
                    let cell = match board.get_cell(Position { row: r, col: c }) {
                        Some(cell) => cell,
                        None => {
                            proof {
                                assert(false);
                            }
                            Cell::Empty
                        },
                    };
                    if cell == opponent_cell {
                        line.push(Position { row: r, col: c });
                        proof {
                            assert(opp_at(b, player, position, di, k + 1));
                            assert(opp_run(b, player, position, di, k + 1));
                            assert(line@ =~= Seq::new(
                                (k + 1) as nat,
                                |i: int| step_pos(position, di, i + 1),
                            ));
                            lemma_step_succ(position, di, k + 1);
                        }
                        cur = Self::step_from(r, c, dr, dc);
                    } else if cell == player_cell {
                        if line.len() > 0 {
                            proof {
                                assert(own_at(b, player, position, di, k + 1));
                                assert(captures_exactly(b, player, position, di, k));
                                assert(captures_dir(b, player, position, di));
                                lemma_capture_unique(
                                    b,
                                    player,
                                    position,
                                    di,
                                    capture_len(b, player, position, di),
                                    k,
                                );
                                assert(line@ =~= dir_flip_seq(b, player, position, di));
                            }
                            return line;
                        } else {
                            proof {
                                lemma_cells_differ(player);
                                lemma_blocked(b, player, position, di, 0);
                            }
                            return Vec::new();
                        }
                    } else {
                        proof {
                            lemma_cells_differ(player);
                            assert(cell == Cell::Empty);
                            lemma_blocked(b, player, position, di, k);
                        }
                        return Vec::new();
                    }
                },
            }
        }
    }

    /// Returns every position flipped by `player` placing at `position`:
    /// each of the eight directions contributes its capture run, nearest
    /// piece first.
    pub fn get_flipped_positions(board: &Board, position: Position, player: Player) -> (r: Vec<
        Position,
    >)
        requires
            board.wf(),
            position.is_valid(),
        ensures
            r@ == flip_seq(board@, player, position),
    {
        let mut flipped: Vec<Position> = Vec::new();
        let mut d: usize = 0;
        while d < 8
            invariant
                board.wf(),
                position.is_valid(),
                d <= 8,
                flipped@ == flips_upto(board@, player, position, d as int),
            decreases 8 - d,
        {
            let mut line = Self::capture_line(board, position, player, d);
            flipped.append(&mut line);
            d += 1;
        }
        flipped
    }

    /// Checks that `player` may place at `position`: the square is empty
    /// and at least one piece would flip.
    pub fn is_valid_move(board: &Board, position: Position, player: Player) -> (r: bool)
        requires
            board.wf(),
        ensures
            r == is_legal(board@, player, position),
    {
        if !board.is_empty(position) {
            return false;
        }
        let flipped = Self::get_flipped_positions(board, position, player);
        proof {
            lemma_flip_seq_nonempty(board@, player, position);
        }
        flipped.len() > 0
    }

    /// Returns every legal placement of `player`, in row-major order; an
    /// empty result signals a forced pass.
    pub fn get_valid_moves(board: &Board, player: Player) -> (r: Vec<Position>)
        requires
            board.wf(),
        ensures
            r@ == valid_moves_seq(board@, player),
    {
        let mut valid_moves: Vec<Position> = Vec::new();
        let mut row: usize = 0;
        while row < 8
            invariant
                board.wf(),
                row <= 8,
                valid_moves@ == valid_positions_upto(board@, player, row as int * 8),
            decreases 8 - row,
        {
            let mut col: usize = 0;
            while col < 8
                invariant
                    board.wf(),
                    row < 8,
                    col <= 8,
                    valid_moves@ == valid_positions_upto(
                        board@,
                        player,
                        row as int * 8 + col as int,
                    ),
                decreases 8 - col,
            {
                let position = Position { row, col };
                proof {
                    let n = row as int * 8 + col as int;
                    assert(n / 8 == row as int && n % 8 == col as int) by (nonlinear_arith)
                        requires
                            0 <= row < 8,
                            0 <= col < 8,
                            n == row as int * 8 + col as int,
                    ;
                    assert(pos_of(n) == position);
                }
                if Self::is_valid_move(board, position, player) {
                    valid_moves.push(position);
                    proof {
                        assert(valid_moves@ =~= valid_positions_upto(
                            board@,
                            player,
                            row as int * 8 + col as int + 1,
                        ));
                    }
                } else {
                    proof {
                        assert(valid_moves@ =~= valid_positions_upto(
                            board@,
                            player,
                            row as int * 8 + col as int + 1,
                        ));
                    }
                }
                col += 1;
            }
            row += 1;
        }
        valid_moves
    }

    /// Checks whether `player` has any legal placement; used for pass
    /// detection.
    pub fn has_valid_moves(board: &Board, player: Player) -> (r: bool)
        requires
            board.wf(),
        ensures
            r == has_move(board@, player),
    {
        proof {
            lemma_valid_moves_exist(board@, player);
        }
        Self::get_valid_moves(board, player).len() > 0
    }

    /// Checks whether the game is over: neither player can place.
    pub fn is_game_over(board: &Board) -> (r: bool)
        requires
            board.wf(),
        ensures
            r == game_over(board@),
    {
        !Self::has_valid_moves(board, Player::Black) && !Self::has_valid_moves(
            board,
            Player::White,
        )
    }

    /// Copies a list of positions.
    fn copy_positions(v: &Vec<Position>) -> (r: Vec<Position>)
        ensures
            r@ == v@,
    {
        let mut r: Vec<Position> = Vec::new();
        let mut i: usize = 0;
        while i < v.len()
            invariant
                i <= v@.len(),
                r@ == v@.take(i as int),
            decreases v@.len() - i,
        {
            r.push(v[i]);
            proof {
                assert(r@ =~= v@.take(i + 1));
            }
            i += 1;
        }
        proof {
            assert(v@.take(v@.len() as int) =~= v@);
        }
        r
    }

    /// Applies the current mover's placement at `position`: writes the
    /// mover's colour there, rewrites every captured piece, and appends a
    /// record to the log. Fails on a finished game or an illegal placement,
    /// leaving the state untouched; the turn is not advanced here.
    pub fn apply_move(game_state: &mut GameState, position: Position) -> (r: GameResult<
        Vec<Position>,
    >)
        requires
            old(game_state).wf(),
        ensures
            final(game_state).wf(),
            old(game_state).is_finished() ==> (r matches Err(GameError::GameFinished)
                && *final(game_state) == *old(game_state)),
            !old(game_state).is_finished() && !is_legal(
                old(game_state).board@,
                old(game_state).current_player,
                position,
            ) ==> (r matches Err(GameError::InvalidMove { reason }) && reason@
                == invalid_move_text(position, old(game_state).current_player))
                && *final(game_state) == *old(game_state),
            !old(game_state).is_finished() && is_legal(
                old(game_state).board@,
                old(game_state).current_player,
                position,
            ) ==> (r matches Ok(v) && v@ == flip_seq(
                old(game_state).board@,
                old(game_state).current_player,
                position,
            )) && move_applied(*old(game_state), *final(game_state), position),
    {
        if game_state.is_finished() {
            return Err(GameError::GameFinished);
        }
        if !Self::is_valid_move(&game_state.board, position, game_state.current_player) {
            let mut reason = String::from_str("Position (");
            reason.append(usize_to_string(position.row).as_str());
            reason.append(", ");
            reason.append(usize_to_string(position.col).as_str());
            reason.append(") is not a valid move for ");
            reason.append(
                match game_state.current_player {
                    Player::Black => "Black",
                    Player::White => "White",
                },
            );
            return Err(GameError::InvalidMove { reason });
        }
        let player = game_state.current_player;
        let flipped_positions = Self::get_flipped_positions(&game_state.board, position, player);
        let ghost pre_board = game_state.board@;
        let ghost flips = flipped_positions@;
        proof {
            lemma_flips_upto_members(pre_board, player, position, 8);
        }
        game_state.board.set_cell(position, player.to_cell());
        proof {
            assert(game_state.board@ =~= partially_applied(pre_board, player, position, flips, 0));
        }
        let mut i: usize = 0;
        while i < flipped_positions.len()
            invariant
                game_state.board.wf(),
                i <= flips.len(),
                flips == flipped_positions@,
                flips == flip_seq(pre_board, player, position),
                pre_board.len() == 64,
                position.is_valid(),
                forall|j: int| 0 <= j < flips.len() ==> (#[trigger] flips[j]).is_valid(),
                game_state.board@ == partially_applied(pre_board, player, position, flips, i as int),
                game_state.current_player == player,
                game_state.id == old(game_state).id,
                game_state.game_status == old(game_state).game_status,
                game_state.move_history@ == old(game_state).move_history@,
                game_state.created_at == old(game_state).created_at,
            decreases flips.len() - i,
        {
            let flip_pos = flipped_positions[i];
            let ghost before = game_state.board@;
            game_state.board.set_cell(flip_pos, player.to_cell());
            proof {
                let ghost si = sq(flip_pos.row as int, flip_pos.col as int);
                assert forall|x: int| 0 <= x < 64 implies game_state.board@[x]
                    == partially_applied(pre_board, player, position, flips, i + 1)[x] by {
                    if x == si {
                        assert(sq(flips.take(i + 1)[i as int].row as int,
                            flips.take(i + 1)[i as int].col as int) == x);
                        assert(covers(flips.take(i + 1), x));
                    } else {
                        if covers(flips.take(i + 1), x) {
                            let j = choose|j: int| 0 <= j < flips.take(i + 1).len() && sq(
                                #[trigger] flips.take(i + 1)[j].row as int,
                                flips.take(i + 1)[j].col as int,
                            ) == x;
                            assert(j != i);
                            assert(sq(flips.take(i as int)[j].row as int,
                                flips.take(i as int)[j].col as int) == x);
                            assert(covers(flips.take(i as int), x));
                        }
                        if covers(flips.take(i as int), x) {
                            let j = choose|j: int| 0 <= j < flips.take(i as int).len() && sq(
                                #[trigger] flips.take(i as int)[j].row as int,
                                flips.take(i as int)[j].col as int,
                            ) == x;
                            assert(sq(flips.take(i + 1)[j].row as int,
                                flips.take(i + 1)[j].col as int) == x);
                            assert(covers(flips.take(i + 1), x));
                        }
                    }
                }
                assert(game_state.board@ =~= partially_applied(
                    pre_board,
                    player,
                    position,
                    flips,
                    i + 1,
                ));
            }
            i += 1;
        }
        proof {
            assert(flips.take(flips.len() as int) =~= flips);
            assert(game_state.board@ =~= applied_cells(pre_board, player, position));
        }
        let game_move = Move::new(player, position, Self::copy_positions(&flipped_positions));
        game_state.add_move(game_move);
        proof {
            assert(game_state.move_history@.take(old(game_state).move_history@.len() as int)
                =~= old(game_state).move_history@);
        }
        Ok(flipped_positions)
    }

    /// Advances the turn where the current mover is stuck: a no-op while
    /// the mover can place; otherwise the turn passes, and if the other
    /// player cannot place either, the game is finished with the computed
    /// winner. Returns whether anything changed.
    pub fn handle_turn(game_state: &mut GameState) -> (r: bool)
        requires
            old(game_state).wf(),
        ensures
            final(game_state).wf(),
            has_move(old(game_state).board@, old(game_state).current_player) ==> r == false
                && *final(game_state) == *old(game_state),
            !has_move(old(game_state).board@, old(game_state).current_player) ==> {
                &&& r == true
                &&& final(game_state).current_player == old(
                    game_state,
                ).current_player.opposite()
                &&& final(game_state).board@ == old(game_state).board@
                &&& final(game_state).move_history@ == old(game_state).move_history@
                &&& final(game_state).id == old(game_state).id
                &&& final(game_state).created_at == old(game_state).created_at
                &&& if has_move(old(game_state).board@, old(game_state).current_player.opposite()) {
                    final(game_state).game_status == old(game_state).game_status
                } else {
                    final(game_state).game_status == (GameStatus::Finished {
                        winner: winner_of(old(game_state).board@),
                        score: (
                            count_cells(old(game_state).board@, Cell::Black) as u8,
                            count_cells(old(game_state).board@, Cell::White) as u8,
                        ),
                    })
                }
            },
    {
        if Self::has_valid_moves(&game_state.board, game_state.current_player) {
            return false;
        }
        game_state.switch_player();
        if Self::has_valid_moves(&game_state.board, game_state.current_player) {
            return true;
        }
        let winner = Self::determine_winner(&game_state.board);
        game_state.finish(winner);
        true
    }

    /// Determines the winner from the final tally; a tie yields `None`.
    pub fn determine_winner(board: &Board) -> (r: Option<Player>)
        requires
            board.wf(),
        ensures
            r == winner_of(board@),
    {
        let (black_count, white_count) = board.count_pieces();
        if black_count > white_count {
            Some(Player::Black)
        } else if white_count > black_count {
            Some(Player::White)
        } else {
            None
        }
    }
}

} // verus!
