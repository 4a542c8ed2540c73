use reversi::ai::local_service::LocalAIService;
use reversi::ai::service::{AIService, AIServiceConfig, AIServiceFactory, AIServiceType};
use reversi::ai::strategies::{
    create_ai_strategy, AlphaBetaAI, Difficulty, MinimaxAI, RandomAI, StrategyChoice,
};
use reversi::battle::dto::AiDifficulty;
use reversi::error::AIError;
use reversi::game::rules::ReversiRules;
use reversi::game::state::GameState;
use reversi::game::types::{Cell, Player, Position};

#[test]
fn test_random_ai_creation() {
    let ai = RandomAI::new();
    assert_eq!(ai.get_name(), "RandomAI");
    assert!(matches!(ai.get_difficulty(), Difficulty::Beginner));
}

#[test]
fn test_random_ai_calculate_move() {
    let game_state = GameState::new();
    let ai = RandomAI::new();

    let result = ai.calculate_move(&game_state);
    assert!(result.is_ok());

    let position = result.unwrap();
    assert!(position.is_valid());

    assert!(ReversiRules::is_valid_move(&game_state.board, position, game_state.current_player));
}

#[test]
fn test_random_ai_finished_game() {
    let mut game_state = GameState::new();
    game_state.finish(Some(Player::Black));

    let ai = RandomAI::new();
    let result = ai.calculate_move(&game_state);

    assert!(result.is_err());
    if let Err(AIError::StrategyError { message }) = result {
        assert!(message.contains("finished game"));
    } else {
        panic!("Expected StrategyError for finished game");
    }
}

#[test]
fn test_minimax_ai_creation() {
    let ai = MinimaxAI::new(5);
    assert_eq!(ai.depth, 5);
    assert_eq!(ai.get_name(), "MinimaxAI");
    assert!(matches!(ai.get_difficulty(), Difficulty::Intermediate));
}

#[test]
fn test_minimax_ai_not_implemented() {
    let game_state = GameState::new();
    let ai = MinimaxAI::new(3);

    let result = ai.calculate_move(&game_state);
    assert!(result.is_err());

    if let Err(AIError::StrategyError { message }) = result {
        assert!(message.contains("not yet implemented"));
    } else {
        panic!("Expected StrategyError for unimplemented MinimaxAI");
    }
}

#[test]
fn test_alphabeta_ai_creation() {
    let ai = AlphaBetaAI::new(7);
    assert_eq!(ai.depth, 7);
    assert_eq!(ai.get_name(), "AlphaBetaAI");
    assert!(matches!(ai.get_difficulty(), Difficulty::Advanced));
}

#[test]
fn test_create_ai_strategy_factory() {
    let beginner = create_ai_strategy(Difficulty::Beginner);
    assert_eq!(beginner.get_name(), "RandomAI");

    let intermediate = create_ai_strategy(Difficulty::Intermediate);
    assert_eq!(intermediate.get_name(), "MinimaxAI");

    let advanced = create_ai_strategy(Difficulty::Advanced);
    assert_eq!(advanced.get_name(), "AlphaBetaAI");
}

#[test]
fn strategy_choice_dispatches_to_the_chosen_strategy() {
    let game_state = GameState::new();
    let choice = StrategyChoice::Random(RandomAI::new());
    assert!(choice.calculate_move(&game_state).is_ok());
    assert!(matches!(choice.get_difficulty(), Difficulty::Beginner));
}

#[test]
fn random_ai_follows_the_reproducible_formula() {
    let game_state = GameState::new();
    let ai = RandomAI::new();
    let valid_moves = ReversiRules::get_valid_moves(&game_state.board, Player::Black);
    // No moves applied yet and black moves first, so the formula picks
    // index (0 * 7 + 0 * 3) % 4 = 0.
    assert_eq!(ai.calculate_move(&game_state).unwrap(), valid_moves[0]);
}

#[test]
fn test_difficulty_conversion() {
    assert_eq!(LocalAIService::convert_difficulty(AiDifficulty::Easy), Difficulty::Beginner);
    assert_eq!(LocalAIService::convert_difficulty(AiDifficulty::Medium), Difficulty::Intermediate);
    assert_eq!(LocalAIService::convert_difficulty(AiDifficulty::Hard), Difficulty::Advanced);
}

#[test]
fn test_thinking_time() {
    let service = LocalAIService::new();

    assert_eq!(service.get_thinking_time(AiDifficulty::Easy), 500);
    assert_eq!(service.get_thinking_time(AiDifficulty::Medium), 1500);
    assert_eq!(service.get_thinking_time(AiDifficulty::Hard), 3000);

    let fast_service = LocalAIService::new_fast();
    assert_eq!(fast_service.get_thinking_time(AiDifficulty::Easy), 0);
    assert_eq!(fast_service.get_thinking_time(AiDifficulty::Medium), 0);
    assert_eq!(fast_service.get_thinking_time(AiDifficulty::Hard), 0);
}

#[test]
fn test_ai_service_config_default() {
    let config = AIServiceConfig::default();
    assert_eq!(config.service_type, AIServiceType::Local);
    assert_eq!(config.timeout_ms, 5000);
    assert_eq!(config.max_retries, 3);
    assert_eq!(config.default_difficulty, AiDifficulty::Easy);
    assert!(!config.enable_caching);
}

#[test]
fn local_service_computes_a_legal_easy_move() {
    let service = LocalAIService::new_fast();
    let game_state = GameState::new();

    let result = service.calculate_move(&game_state, AiDifficulty::Easy).unwrap();
    let valid_moves = ReversiRules::get_valid_moves(&game_state.board, game_state.current_player);
    assert!(valid_moves.contains(&result.position));
    assert_eq!(result.thinking_time_ms, 0);
}

#[test]
fn local_service_rejects_higher_tiers() {
    let service = LocalAIService::new_fast();
    let game_state = GameState::new();

    let result = service.calculate_move(&game_state, AiDifficulty::Medium);
    assert!(matches!(result, Err(AIError::StrategyError { .. })));
}

#[test]
fn factory_reports_the_remote_service_unavailable() {
    let mut config = AIServiceConfig::default();
    config.service_type = AIServiceType::Http;
    let result = AIServiceFactory::create_service(&config);
    assert!(matches!(result, Err(AIError::ServiceUnavailable { .. })));
}

#[test]
fn service_health_check_reports_the_local_service() {
    let service = match AIServiceFactory::create_default_local() {
        Ok(service) => service,
        Err(_) => panic!("local service must build"),
    };
    let status = service.health_check().unwrap();
    assert_eq!(status.name, "LocalAIService");
    assert!(status.available);
    assert!(status.average_response_time_ms.is_some());
    assert!(matches!(service, AIService::Local(_)));
}

#[test]
fn a_full_board_leaves_no_valid_moves() {
    let mut game_state = GameState::new();
    for row in 0..8 {
        for col in 0..8 {
            game_state.board.set_cell(Position { row, col }, Cell::Black);
        }
    }
    let ai = RandomAI::new();
    let result = ai.calculate_move(&game_state);
    assert!(matches!(result, Err(AIError::NoValidMoves)));
}
