use reversi::ai::mock_service::{MockAIConfig, MockAIService};
use reversi::battle::dto::AiDifficulty;
use reversi::error::AIError;
use reversi::game::rules::ReversiRules;
use reversi::game::state::GameState;
use reversi::game::types::Position;

#[test]
fn mock_service_default_answers_every_difficulty() {
    let service = MockAIService::new_default();
    let config = service.get_config();
    assert!(config.available);
    assert!(!config.should_error);
    assert_eq!(config.response_time_ms, 100);
    assert_eq!(
        config.supported_difficulties,
        vec![AiDifficulty::Easy, AiDifficulty::Medium, AiDifficulty::Hard]
    );
}

#[test]
fn mock_service_unavailable_refuses_to_compute() {
    let service = MockAIService::new_unavailable();
    let game_state = GameState::new();
    let result = service.calculate_move(&game_state, AiDifficulty::Easy);
    assert!(matches!(result, Err(AIError::ServiceUnavailable { .. })));
}

#[test]
fn mock_service_error_reports_its_configured_message() {
    let service = MockAIService::new_error("Test error");
    let game_state = GameState::new();
    let result = service.calculate_move(&game_state, AiDifficulty::Easy);
    if let Err(AIError::StrategyError { message }) = result {
        assert_eq!(message, "Test error");
    } else {
        panic!("Expected StrategyError");
    }
}

#[test]
fn mock_service_replies_with_its_legal_fixed_move() {
    let fixed_position = Position::new(2, 3).unwrap();
    let service = MockAIService::new_with_fixed_move(fixed_position);
    let game_state = GameState::new();

    let result = service.calculate_move(&game_state, AiDifficulty::Easy).unwrap();
    let valid_moves = ReversiRules::get_valid_moves(&game_state.board, game_state.current_player);
    assert!(valid_moves.contains(&fixed_position));
    assert_eq!(result.position, fixed_position);
}

#[test]
fn mock_service_falls_back_to_the_first_legal_move() {
    // The corner is never legal on the opening board.
    let service = MockAIService::new_with_fixed_move(Position::new(0, 0).unwrap());
    let game_state = GameState::new();

    let result = service.calculate_move(&game_state, AiDifficulty::Easy).unwrap();
    let valid_moves = ReversiRules::get_valid_moves(&game_state.board, game_state.current_player);
    assert_eq!(result.position, valid_moves[0]);
}

#[test]
fn mock_service_reports_depth_and_nodes_by_difficulty() {
    let service = MockAIService::new_fast();
    let game_state = GameState::new();

    for difficulty in [AiDifficulty::Easy, AiDifficulty::Medium, AiDifficulty::Hard] {
        let result = service.calculate_move(&game_state, difficulty).unwrap();
        assert!(result.depth_reached.is_some());
        assert!(result.nodes_evaluated.is_some());
        assert_eq!(result.thinking_time_ms, 0);
    }
}

#[test]
fn mock_service_rejects_unsupported_difficulties() {
    let mut config = MockAIConfig::default();
    config.supported_difficulties = vec![AiDifficulty::Easy];
    let service = MockAIService::new(config);
    let game_state = GameState::new();

    let result = service.calculate_move(&game_state, AiDifficulty::Hard);
    if let Err(AIError::StrategyError { message }) = result {
        assert!(message.contains("not supported"));
    } else {
        panic!("Expected StrategyError");
    }
}

#[test]
fn mock_service_config_update_switches_availability() {
    let mut service = MockAIService::new_default();
    assert!(service.get_config().available);

    let mut config = MockAIConfig::default();
    config.available = false;
    service.update_config(config);

    assert!(!service.get_config().available);
}
