//! The local opponent service: runs the strategies in process, with a
//! difficulty-scaled simulated thinking time.

use vstd::prelude::*;
use vstd::string::StringExecFns;

use crate::ai::service::AIMoveResult;
use crate::ai::strategies::{create_ai_strategy, random_index, Difficulty};
use crate::battle::dto::AiDifficulty;
use crate::error::AIError;
use crate::game::rules::valid_moves_seq;
use crate::game::state::GameState;

verus! {

/// The opponent service backed by the in-process strategies.
#[derive(Debug, Clone)]
pub struct LocalAIService {
    pub simulate_thinking_time: bool,
    pub min_thinking_time_ms: u64,
    pub max_thinking_time_ms: u64,
}

/// The simulated thinking time the service reports for a difficulty; zero
/// in the fast mode.
pub open spec fn spec_thinking_time(svc: LocalAIService, difficulty: AiDifficulty) -> u64 {
    if !svc.simulate_thinking_time {
        0u64
    } else {
        match difficulty {
            AiDifficulty::Easy => 500u64,
            AiDifficulty::Medium => 1500u64,
            AiDifficulty::Hard => 3000u64,
        }
    }
}

/// Whether the local service computes a move for this state and
/// difficulty: the game runs, a legal move exists, and the difficulty is
/// the one tier with a shipped strategy.
pub open spec fn local_succeeds(gs: GameState, difficulty: AiDifficulty) -> bool {
    &&& !gs.spec_is_finished()
    &&& valid_moves_seq(gs.board@, gs.current_player).len() > 0
    &&& difficulty == AiDifficulty::Easy
}

/// The move result the local service computes when it succeeds.
pub open spec fn local_move(svc: LocalAIService, gs: GameState, difficulty: AiDifficulty)
    -> AIMoveResult {
    AIMoveResult {
        position: valid_moves_seq(gs.board@, gs.current_player)[random_index(
            gs.move_history@.len() as int,
            gs.current_player,
            valid_moves_seq(gs.board@, gs.current_player).len() as int,
        )],
        thinking_time_ms: spec_thinking_time(svc, difficulty),
        depth_reached: None,
        nodes_evaluated: None,
    }
}

/// Whether `e` is the error the local service reports for this state and
/// difficulty.
pub open spec fn local_err_matches(gs: GameState, difficulty: AiDifficulty, e: AIError) -> bool {
    if gs.spec_is_finished() {
        e matches AIError::StrategyError { message } && message@
            == "Cannot calculate move for finished game"@
    } else if valid_moves_seq(gs.board@, gs.current_player).len() == 0 {
        e is NoValidMoves
    } else if difficulty == AiDifficulty::Medium {
        e matches AIError::StrategyError { message } && message@
            == "MinimaxAI not yet implemented"@
    } else {
        e matches AIError::StrategyError { message } && message@
            == "AlphaBetaAI not yet implemented"@
    }
}

/// The text of the error the local service reports.
pub open spec fn local_error_text(gs: GameState, difficulty: AiDifficulty) -> Seq<char> {
    if gs.spec_is_finished() {
        "AI strategy error: "@ + "Cannot calculate move for finished game"@
    } else if valid_moves_seq(gs.board@, gs.current_player).len() == 0 {
        "No valid moves available"@
    } else if difficulty == AiDifficulty::Medium {
        "AI strategy error: "@ + "MinimaxAI not yet implemented"@
    } else {
        "AI strategy error: "@ + "AlphaBetaAI not yet implemented"@
    }
}

impl LocalAIService {
    /// Builds the service with its simulated thinking time switched on.
    pub fn new() -> (r: Self)
        ensures
            r == (LocalAIService {
                simulate_thinking_time: true,
                min_thinking_time_ms: 300u64,
                max_thinking_time_ms: 3000u64,
            }),
    {
        Self { simulate_thinking_time: true, min_thinking_time_ms: 300, max_thinking_time_ms: 3000 }
    }

    /// Builds the fast service: no simulated thinking time.
    pub fn new_fast() -> (r: Self)
        ensures
            r == (LocalAIService {
                simulate_thinking_time: false,
                min_thinking_time_ms: 0u64,
                max_thinking_time_ms: 0u64,
            }),
    {
        Self { simulate_thinking_time: false, min_thinking_time_ms: 0, max_thinking_time_ms: 0 }
    }

    /// The simulated thinking time for a difficulty; zero in fast mode.
    pub fn get_thinking_time(&self, difficulty: AiDifficulty) -> (r: u64)
        ensures
            r == spec_thinking_time(*self, difficulty),
    {
        if !self.simulate_thinking_time {
            return 0;
        }
        match difficulty {
            AiDifficulty::Easy => 500,
            AiDifficulty::Medium => 1500,
            AiDifficulty::Hard => 3000,
        }
    }

    /// Maps a caller-facing difficulty to its strategy tier.
    pub fn convert_difficulty(difficulty: AiDifficulty) -> (r: Difficulty)
        ensures
            difficulty == AiDifficulty::Easy ==> r == Difficulty::Beginner,
            difficulty == AiDifficulty::Medium ==> r == Difficulty::Intermediate,
            difficulty == AiDifficulty::Hard ==> r == Difficulty::Advanced,
    {
        match difficulty {
            AiDifficulty::Easy => Difficulty::Beginner,
            AiDifficulty::Medium => Difficulty::Intermediate,
            AiDifficulty::Hard => Difficulty::Advanced,
        }
    }

    /// Computes the opponent's move with the strategy of the requested
    /// tier; reports its simulated thinking time along with the move.
    pub fn calculate_move(&self, game_state: &GameState, difficulty: AiDifficulty) -> (r: Result<
        AIMoveResult,
        AIError,
    >)
        requires
            game_state.wf(),
        ensures
            r is Ok <==> local_succeeds(*game_state, difficulty),
            r matches Ok(m) ==> m == local_move(*self, *game_state, difficulty),
            r matches Err(e) ==> local_err_matches(*game_state, difficulty, e),
    {
        if game_state.is_finished() {
            return Err(AIError::StrategyError {
message: String::from_str("Cannot calculate move for finished game"),
            });
        }
        let valid_moves = crate::game::rules::ReversiRules::get_valid_moves(
            &game_state.board,
            game_state.current_player,
        );
        if valid_moves.len() == 0 {
            return Err(AIError::NoValidMoves);
        }
        let thinking_time_ms = self.get_thinking_time(difficulty);
        let legacy_difficulty = Self::convert_difficulty(difficulty);
        let ai_strategy = create_ai_strategy(legacy_difficulty);
        match ai_strategy.calculate_move(game_state) {
            Ok(position) => Ok(
                AIMoveResult {
                    position,
                    thinking_time_ms,
                    depth_reached: None,
                    nodes_evaluated: None,
                },
            ),
            Err(e) => Err(e),
        }
    }
}

impl Default for LocalAIService {
    /// Builds the service with its simulated thinking time switched on.
    fn default() -> (r: Self)
        ensures
            r.simulate_thinking_time == true,
    {
        Self::new()
    }
}

} // verus!
