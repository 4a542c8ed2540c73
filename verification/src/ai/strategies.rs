//! The opponent strategies: a reproducible pseudo-random selector for the
//! lowest tier, and two higher-tier placeholders.

use vstd::prelude::*;
use vstd::string::StringExecFns;
use vstd::arithmetic::div_mod::{lemma_add_mod_noop, lemma_mod_bound, lemma_mul_mod_noop_left};

use crate::error::AIError;
use crate::game::rules::{
    lemma_valid_positions_upto_len, valid_moves_seq, ReversiRules,
};
use crate::game::state::GameState;
use crate::game::types::{Player, Position};

verus! {

/// The difficulty tiers of the opponent strategies.
#[derive(Debug, Clone, PartialEq, Eq, Structural)]
pub enum Difficulty {
    /// The lowest tier: the reproducible pseudo-random selector.
    Beginner,
    /// The middle tier: a depth-limited search, left as a placeholder.
    Intermediate,
    /// The highest tier: a pruned search, left as a placeholder.
    Advanced,
}

/// The index of the move the lowest-tier strategy picks from a list of
/// `n_moves` legal moves: reproducible, not random.
pub open spec fn random_index(move_count: int, player: Player, n_moves: int) -> int {
    (move_count * 7 + player.spec_ordinal() * 3) % n_moves
}

/// The reproducible index always lands inside the legal-move list.
pub proof fn lemma_random_index_in_range(move_count: int, player: Player, n_moves: int)
    requires
        n_moves > 0,
    ensures
        0 <= random_index(move_count, player, n_moves) < n_moves,
{
    lemma_mod_bound(move_count * 7 + player.spec_ordinal() * 3, n_moves);
}

/// Whether `r` is a strategy failure carrying exactly the message `msg`.
pub open spec fn is_strategy_error(r: Result<Position, AIError>, msg: Seq<char>) -> bool {
    match r {
        Err(AIError::StrategyError { message }) => message@ == msg,
        _ => false,
    }
}

/// The lowest-tier strategy: picks among the legal moves by a reproducible
/// formula over the move count and the mover.
#[derive(Debug, Clone)]
pub struct RandomAI;

impl RandomAI {
    /// Builds the lowest-tier strategy.
    pub fn new() -> (r: Self) {
        RandomAI
    }

    /// Picks the move `(move_count * 7 + mover_ordinal * 3) mod n` from the
    /// `n` legal moves; fails fast on a finished game and reports when no
    /// legal move exists.
    pub fn calculate_move(&self, game_state: &GameState) -> (r: Result<Position, AIError>)
        requires
            game_state.wf(),
        ensures
            game_state.is_finished() ==> is_strategy_error(
                r,
                "Cannot calculate move for finished game"@,
            ),
            !game_state.is_finished() && valid_moves_seq(
                game_state.board@,
                game_state.current_player,
            ).len() == 0 ==> r matches Err(AIError::NoValidMoves),
            !game_state.is_finished() && valid_moves_seq(
                game_state.board@,
                game_state.current_player,
            ).len() > 0 ==> r == Ok::<Position, AIError>(
                valid_moves_seq(game_state.board@, game_state.current_player)[random_index(
                    game_state.move_history@.len() as int,
                    game_state.current_player,
                    valid_moves_seq(game_state.board@, game_state.current_player).len() as int,
                )],
            ),
    {
        if game_state.is_finished() {
            return Err(AIError::StrategyError {
                message: String::from_str("Cannot calculate move for finished game"),
            });
        }
        let valid_moves = ReversiRules::get_valid_moves(&game_state.board, game_state.current_player);
        if valid_moves.len() == 0 {
            return Err(AIError::NoValidMoves);
        }
        let n = valid_moves.len();
        proof {
            lemma_valid_positions_upto_len(game_state.board@, game_state.current_player, 64);
        }
        let move_count = game_state.get_move_count();
        let index = ((move_count % n) * 7 + game_state.current_player.ordinal() * 3) % n;
        proof {
            let mc = move_count as int;
            let ni = n as int;
            let b = game_state.current_player.spec_ordinal() * 3;
            lemma_mod_bound(mc, ni);
            lemma_mul_mod_noop_left(mc, 7, ni);
            lemma_add_mod_noop((mc % ni) * 7, b, ni);
            lemma_add_mod_noop(mc * 7, b, ni);
            assert(((mc % ni) * 7 + b) % ni == (mc * 7 + b) % ni);
            lemma_mod_bound((mc % ni) * 7 + b, ni);
        }
        Ok(valid_moves[index])
    }

    /// The tier this strategy serves.
    pub fn get_difficulty(&self) -> (r: Difficulty)
        ensures
            r == Difficulty::Beginner,
    {
        Difficulty::Beginner
    }

    /// The name of this strategy.
    pub fn get_name(&self) -> (r: &'static str)
        ensures
            r@ == "RandomAI"@,
    {
        "RandomAI"
    }
}

impl Default for RandomAI {
    /// Builds the lowest-tier strategy.
    fn default() -> (r: Self) {
        Self::new()
    }
}

/// The middle-tier placeholder: a depth-limited search that is not shipped.
#[derive(Debug, Clone)]
pub struct MinimaxAI {
    /// The search depth the strategy would explore.
    pub depth: u8,
}

impl MinimaxAI {
    /// Builds the placeholder with the given search depth.
    pub fn new(depth: u8) -> (r: Self)
        ensures
            r.depth == depth,
    {
        MinimaxAI { depth }
    }

    /// Always reports that the search is not shipped.
    pub fn calculate_move(&self, game_state: &GameState) -> (r: Result<Position, AIError>)
        ensures
            is_strategy_error(r, "MinimaxAI not yet implemented"@),
    {
        let _ = game_state;
        Err(AIError::StrategyError {
            message: String::from_str("MinimaxAI not yet implemented"),
        })
    }

    /// The tier this strategy serves.
    pub fn get_difficulty(&self) -> (r: Difficulty)
        ensures
            r == Difficulty::Intermediate,
    {
        Difficulty::Intermediate
    }

    /// The name of this strategy.
    pub fn get_name(&self) -> (r: &'static str)
        ensures
            r@ == "MinimaxAI"@,
    {
        "MinimaxAI"
    }
}

/// The highest-tier placeholder: a pruned search that is not shipped.
#[derive(Debug, Clone)]
pub struct AlphaBetaAI {
    /// The search depth the strategy would explore.
    pub depth: u8,
}

impl AlphaBetaAI {
    /// Builds the placeholder with the given search depth.
    pub fn new(depth: u8) -> (r: Self)
        ensures
            r.depth == depth,
    {
        AlphaBetaAI { depth }
    }

    /// Always reports that the search is not shipped.
    pub fn calculate_move(&self, game_state: &GameState) -> (r: Result<Position, AIError>)
        ensures
            is_strategy_error(r, "AlphaBetaAI not yet implemented"@),
    {
        let _ = game_state;
        Err(AIError::StrategyError {
            message: String::from_str("AlphaBetaAI not yet implemented"),
        })
    }

    /// The tier this strategy serves.
    pub fn get_difficulty(&self) -> (r: Difficulty)
        ensures
            r == Difficulty::Advanced,
    {
        Difficulty::Advanced
    }

    /// The name of this strategy.
    pub fn get_name(&self) -> (r: &'static str)
        ensures
            r@ == "AlphaBetaAI"@,
    {
        "AlphaBetaAI"
    }
}

/// One strategy of the closed set, picked by the factory.
#[derive(Debug, Clone)]
pub enum StrategyChoice {
    Random(RandomAI),
    Minimax(MinimaxAI),
    AlphaBeta(AlphaBetaAI),
}

impl StrategyChoice {
    /// Computes the strategy's move for the given state.
    pub fn calculate_move(&self, game_state: &GameState) -> (r: Result<Position, AIError>)
        requires
            game_state.wf(),
        ensures
            self is Random ==> {
                &&& game_state.is_finished() ==> is_strategy_error(
                    r,
                    "Cannot calculate move for finished game"@,
                )
                &&& !game_state.is_finished() && valid_moves_seq(
                    game_state.board@,
                    game_state.current_player,
                ).len() == 0 ==> (r matches Err(AIError::NoValidMoves))
                &&& !game_state.is_finished() && valid_moves_seq(
                    game_state.board@,
                    game_state.current_player,
                ).len() > 0 ==> r == Ok::<Position, AIError>(
                    valid_moves_seq(game_state.board@, game_state.current_player)[random_index(
                        game_state.move_history@.len() as int,
                        game_state.current_player,
                        valid_moves_seq(game_state.board@, game_state.current_player).len() as int,
                    )],
                )
            },
            self is Minimax ==> is_strategy_error(r, "MinimaxAI not yet implemented"@),
            self is AlphaBeta ==> is_strategy_error(r, "AlphaBetaAI not yet implemented"@),
    {
        match self {
            StrategyChoice::Random(s) => s.calculate_move(game_state),
            StrategyChoice::Minimax(s) => s.calculate_move(game_state),
            StrategyChoice::AlphaBeta(s) => s.calculate_move(game_state),
        }
    }

    /// The tier the chosen strategy serves.
    pub fn get_difficulty(&self) -> (r: Difficulty)
        ensures
            r == match self {
                StrategyChoice::Random(_) => Difficulty::Beginner,
                StrategyChoice::Minimax(_) => Difficulty::Intermediate,
                StrategyChoice::AlphaBeta(_) => Difficulty::Advanced,
            },
    {
        match self {
            StrategyChoice::Random(s) => s.get_difficulty(),
            StrategyChoice::Minimax(s) => s.get_difficulty(),
            StrategyChoice::AlphaBeta(s) => s.get_difficulty(),
        }
    }

    /// The name of the chosen strategy.
    pub fn get_name(&self) -> (r: &'static str)
        ensures
            r@ == match self {
                StrategyChoice::Random(_) => "RandomAI"@,
                StrategyChoice::Minimax(_) => "MinimaxAI"@,
                StrategyChoice::AlphaBeta(_) => "AlphaBetaAI"@,
            },
    {
        match self {
            StrategyChoice::Random(s) => s.get_name(),
            StrategyChoice::Minimax(s) => s.get_name(),
            StrategyChoice::AlphaBeta(s) => s.get_name(),
        }
    }
}

/// Picks the strategy serving a difficulty tier: the reproducible selector
/// for beginners, the placeholder searches at depth three and five above.
pub fn create_ai_strategy(difficulty: Difficulty) -> (r: StrategyChoice)
    ensures
        difficulty == Difficulty::Beginner ==> r == StrategyChoice::Random(RandomAI),
        difficulty == Difficulty::Intermediate ==> r == StrategyChoice::Minimax(
            MinimaxAI { depth: 3 },
        ),
        difficulty == Difficulty::Advanced ==> r == StrategyChoice::AlphaBeta(
            AlphaBetaAI { depth: 5 },
        ),
{
    match difficulty {
        Difficulty::Beginner => StrategyChoice::Random(RandomAI::new()),
        Difficulty::Intermediate => StrategyChoice::Minimax(MinimaxAI::new(3)),
        Difficulty::Advanced => StrategyChoice::AlphaBeta(AlphaBetaAI::new(5)),
    }
}

} // verus!
