//! The mock opponent service: a fully configurable stand-in used to
//! exercise availability, failure and fixed-reply behaviour.

use vstd::prelude::*;
use vstd::string::StringExecFns;

use crate::ai::service::AIMoveResult;
use crate::battle::dto::AiDifficulty;
use crate::error::AIError;
use crate::game::rules::{valid_moves_seq, ReversiRules};
use crate::game::state::GameState;
use crate::game::types::Position;

verus! {

/// The behaviour of the mock service: availability, response time, forced
/// failure, an optional fixed reply, and the difficulties it accepts.
#[derive(Debug, Clone)]
pub struct MockAIConfig {
    pub available: bool,
    pub response_time_ms: u64,
    pub should_error: bool,
    pub error_message: String,
    pub fixed_move: Option<Position>,
    pub supported_difficulties: Vec<AiDifficulty>,
}

impl Default for MockAIConfig {
    /// An available mock that answers every difficulty after a tenth of a
    /// second.
    fn default() -> (r: Self)
        ensures
            r.available == true,
            r.response_time_ms == 100,
            r.should_error == false,
            r.error_message@ == "Mock AI error"@,
            r.fixed_move is None,
            r.supported_difficulties@ == seq![
                AiDifficulty::Easy,
                AiDifficulty::Medium,
                AiDifficulty::Hard,
            ],
    {
        MockAIConfig {
            available: true,
            response_time_ms: 100,
            should_error: false,
            error_message: String::from_str("Mock AI error"),
            fixed_move: None,
            supported_difficulties: AiDifficulty::all(),
        }
    }
}

/// The configurable mock opponent service.
#[derive(Debug, Clone)]
pub struct MockAIService {
    config: MockAIConfig,
}

/// Whether the mock computes a move: it is available, not forced to fail,
/// accepts the difficulty, the game runs and a legal move exists.
pub open spec fn mock_succeeds(svc: MockAIService, gs: GameState, difficulty: AiDifficulty)
    -> bool {
    &&& svc.spec_config().available
    &&& !svc.spec_config().should_error
    &&& svc.spec_config().supported_difficulties@.contains(difficulty)
    &&& !gs.spec_is_finished()
    &&& valid_moves_seq(gs.board@, gs.current_player).len() > 0
}

/// The position the mock replies with: its fixed move where one is set and
/// legal, the first legal move otherwise.
pub open spec fn mock_position(svc: MockAIService, gs: GameState) -> Position {
    let valid = valid_moves_seq(gs.board@, gs.current_player);
    match svc.spec_config().fixed_move {
        Some(f) => if valid.contains(f) {
            f
        } else {
            valid[0]
        },
        None => valid[0],
    }
}

/// The depth the mock reports for a difficulty.
pub open spec fn mock_depth(difficulty: AiDifficulty) -> u32 {
    match difficulty {
        AiDifficulty::Easy => 1u32,
        AiDifficulty::Medium => 3u32,
        AiDifficulty::Hard => 6u32,
    }
}

/// The node count the mock reports for a difficulty.
pub open spec fn mock_nodes(difficulty: AiDifficulty) -> u64 {
    match difficulty {
        AiDifficulty::Easy => 10u64,
        AiDifficulty::Medium => 100u64,
        AiDifficulty::Hard => 1000u64,
    }
}

/// The move result the mock computes when it succeeds.
pub open spec fn mock_move(svc: MockAIService, gs: GameState, difficulty: AiDifficulty)
    -> AIMoveResult {
    AIMoveResult {
        position: mock_position(svc, gs),
        thinking_time_ms: svc.spec_config().response_time_ms,
        depth_reached: Some(mock_depth(difficulty)),
        nodes_evaluated: Some(mock_nodes(difficulty)),
    }
}

/// Whether `e` is the error the mock reports for this state and
/// difficulty.
pub open spec fn mock_err_matches(
    svc: MockAIService,
    gs: GameState,
    difficulty: AiDifficulty,
    e: AIError,
) -> bool {
    if !svc.spec_config().available {
        e matches AIError::ServiceUnavailable { service_name, reason } && service_name@
            == "MockAIService"@ && reason@ == "Mock AI service is configured as unavailable"@
    } else if svc.spec_config().should_error {
        e matches AIError::StrategyError { message } && message@
            == svc.spec_config().error_message@
    } else if !svc.spec_config().supported_difficulties@.contains(difficulty) {
        e matches AIError::StrategyError { message } && message@ == "Difficulty "@
            + difficulty.name_str() + " is not supported by mock AI"@
    } else if gs.spec_is_finished() {
        e matches AIError::StrategyError { message } && message@
            == "Cannot calculate move for finished game"@
    } else {
        e is NoValidMoves
    }
}

/// The text of the error the mock reports.
pub open spec fn mock_error_text(svc: MockAIService, gs: GameState, difficulty: AiDifficulty)
    -> Seq<char> {
    if !svc.spec_config().available {
        "AI service unavailable: "@ + "MockAIService"@ + " - "@
            + "Mock AI service is configured as unavailable"@
    } else if svc.spec_config().should_error {
        "AI strategy error: "@ + svc.spec_config().error_message@
    } else if !svc.spec_config().supported_difficulties@.contains(difficulty) {
        "AI strategy error: "@ + ("Difficulty "@ + difficulty.name_str()
            + " is not supported by mock AI"@)
    } else if gs.spec_is_finished() {
        "AI strategy error: "@ + "Cannot calculate move for finished game"@
    } else {
        "No valid moves available"@
    }
}

impl MockAIService {
    /// The behaviour this mock was built with.
    pub closed spec fn spec_config(&self) -> MockAIConfig {
        self.config
    }

    /// Builds a mock with the given behaviour.
    pub fn new(config: MockAIConfig) -> (r: Self)
        ensures
            r.spec_config() == config,
    {
        Self { config }
    }

    /// Builds a mock with the default behaviour.
    pub fn new_default() -> (r: Self)
        ensures
            r.spec_config().available == true,
            r.spec_config().should_error == false,
            r.spec_config().fixed_move is None,
            r.spec_config().response_time_ms == 100,
            r.spec_config().supported_difficulties@ == seq![
                AiDifficulty::Easy,
                AiDifficulty::Medium,
                AiDifficulty::Hard,
            ],
    {
        Self::new(MockAIConfig::default())
    }

    /// Builds a mock that reports itself unavailable.
    pub fn new_unavailable() -> (r: Self)
        ensures
            r.spec_config().available == false,
            r.spec_config().should_error == false,
            r.spec_config().fixed_move is None,
    {
        let mut config = MockAIConfig::default();
        config.available = false;
        Self::new(config)
    }

    /// Builds a mock that fails every computation with the given message.
    pub fn new_error(error_message: &str) -> (r: Self)
        ensures
            r.spec_config().available == true,
            r.spec_config().should_error == true,
            r.spec_config().error_message@ == error_message@,
            r.spec_config().supported_difficulties@ == seq![
                AiDifficulty::Easy,
                AiDifficulty::Medium,
                AiDifficulty::Hard,
            ],
    {
        let mut config = MockAIConfig::default();
        config.should_error = true;
        config.error_message = String::from_str(error_message);
        Self::new(config)
    }

    /// Builds a mock that replies with the given move whenever it is
    /// legal, without delay.
    pub fn new_with_fixed_move(position: Position) -> (r: Self)
        ensures
            r.spec_config().available == true,
            r.spec_config().should_error == false,
            r.spec_config().fixed_move == Some(position),
            r.spec_config().response_time_ms == 0,
            r.spec_config().supported_difficulties@ == seq![
                AiDifficulty::Easy,
                AiDifficulty::Medium,
                AiDifficulty::Hard,
            ],
    {
        let mut config = MockAIConfig::default();
        config.fixed_move = Some(position);
        config.response_time_ms = 0;
        Self::new(config)
    }

    /// Builds a mock with the default behaviour and no delay.
    pub fn new_fast() -> (r: Self)
        ensures
            r.spec_config().available == true,
            r.spec_config().should_error == false,
            r.spec_config().fixed_move is None,
            r.spec_config().response_time_ms == 0,
            r.spec_config().supported_difficulties@ == seq![
                AiDifficulty::Easy,
                AiDifficulty::Medium,
                AiDifficulty::Hard,
            ],
    {
        let mut config = MockAIConfig::default();
        config.response_time_ms = 0;
        Self::new(config)
    }

    /// Replaces the mock's behaviour.
    pub fn update_config(&mut self, config: MockAIConfig)
        ensures
            final(self).spec_config() == config,
    {
        self.config = config;
    }

    /// The mock's current behaviour.
    pub fn get_config(&self) -> (r: &MockAIConfig)
        ensures
            *r == self.spec_config(),
    {
        &self.config
    }

    /// Whether the list holds the difficulty.
    fn supports(list: &Vec<AiDifficulty>, difficulty: AiDifficulty) -> (r: bool)
        ensures
            r == list@.contains(difficulty),
    {
        let mut i: usize = 0;
        while i < list.len()
            invariant
                i <= list@.len(),
                forall|j: int| 0 <= j < i ==> list@[j] != difficulty,
            decreases list@.len() - i,
        {
            if list[i] == difficulty {
                return true;
            }
            i += 1;
        }
        false
    }

    /// Computes the mock's reply as configured: checks availability, the
    /// forced failure, the difficulty and the game's progress, then
    /// replies with its fixed move where legal or the first legal move.
    pub fn calculate_move(&self, game_state: &GameState, difficulty: AiDifficulty) -> (r: Result<
        AIMoveResult,
        AIError,
    >)
        requires
            game_state.wf(),
        ensures
            r is Ok <==> mock_succeeds(*self, *game_state, difficulty),
            r matches Ok(m) ==> m == mock_move(*self, *game_state, difficulty),
            r matches Err(e) ==> mock_err_matches(*self, *game_state, difficulty, e),
    {
        if !self.config.available {
            return Err(AIError::ServiceUnavailable {
                service_name: String::from_str("MockAIService"),
                reason: String::from_str("Mock AI service is configured as unavailable"),
            });
        }
        if self.config.should_error {
            return Err(AIError::StrategyError {
                message: self.config.error_message.clone(),
            });
        }
        if !Self::supports(&self.config.supported_difficulties, difficulty) {
            let mut message = String::from_str("Difficulty ");
            message.append(difficulty.name());
            message.append(" is not supported by mock AI");
            return Err(AIError::StrategyError { message });
        }
        if game_state.is_finished() {
            return Err(AIError::StrategyError {
                message: String::from_str("Cannot calculate move for finished game"),
            });
        }
        let valid_moves = ReversiRules::get_valid_moves(
            &game_state.board,
            game_state.current_player,
        );
        let position = match self.config.fixed_move {
            Some(fixed_move) => {
                if Self::position_listed(&valid_moves, fixed_move) {
                    fixed_move
                } else {
                    if valid_moves.len() == 0 {
                        return Err(AIError::NoValidMoves);
                    }
                    valid_moves[0]
                }
            },
            None => {
                if valid_moves.len() == 0 {
                    return Err(AIError::NoValidMoves);
                }
                valid_moves[0]
            },
        };
        let depth_reached: u32 = match difficulty {
            AiDifficulty::Easy => 1,
            AiDifficulty::Medium => 3,
            AiDifficulty::Hard => 6,
        };
        let nodes_evaluated: u64 = match difficulty {
            AiDifficulty::Easy => 10,
            AiDifficulty::Medium => 100,
            AiDifficulty::Hard => 1000,
        };
        Ok(
            AIMoveResult {
                position,
                thinking_time_ms: self.config.response_time_ms,
                depth_reached: Some(depth_reached),
                nodes_evaluated: Some(nodes_evaluated),
            },
        )
    }

    /// Whether the list holds the position.
    fn position_listed(list: &Vec<Position>, position: Position) -> (r: bool)
        ensures
            r == list@.contains(position),
    {
        let mut i: usize = 0;
        while i < list.len()
            invariant
                i <= list@.len(),
                forall|j: int| 0 <= j < i ==> list@[j] != position,
            decreases list@.len() - i,
        {
            if list[i] == position {
                return true;
            }
            i += 1;
        }
        false
    }
}

} // verus!
