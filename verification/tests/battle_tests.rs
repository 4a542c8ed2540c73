use reversi::ai::mock_service::MockAIService;
use reversi::ai::service::{AIService, AIServiceFactory};
use reversi::battle::config_service::ConfigurableAiBattleService;
use reversi::battle::dto::{AiBattleError, AiDifficulty};
use reversi::battle::service::AiBattleService;
use reversi::config::{Config, FallbackConfig};
use reversi::game::state::GameState;
use reversi::game::types::{Player, Position};
use reversi::session::ai_battle_manager::AiBattleSessionManager;

fn fast_service(max_sessions: usize) -> AiBattleService {
    let manager = AiBattleSessionManager::new(max_sessions);
    let ai_service = AIServiceFactory::create_fast_local().unwrap();
    AiBattleService::new_with_ai_service(manager, ai_service)
}

#[test]
fn create_ai_battle_returns_the_opening_view() {
    let mut service = fast_service(10);

    let response = service.create_ai_battle(AiDifficulty::Easy).unwrap();
    assert_eq!(response.ai_difficulty, AiDifficulty::Easy);
    assert_eq!(response.current_player, Player::Black);
    assert!(!response.ai_thinking);
    assert_eq!(response.black_count, 2);
    assert_eq!(response.white_count, 2);
    assert_eq!(response.valid_moves.len(), 4);
}

#[test]
fn get_game_state_finds_a_created_session() {
    let mut service = fast_service(10);
    let created = service.create_ai_battle(AiDifficulty::Medium).unwrap();

    let response = service.get_game_state(created.game_id).unwrap();
    assert_eq!(response.game_id, created.game_id);
    assert_eq!(response.ai_difficulty, AiDifficulty::Medium);
}

#[test]
fn get_game_state_reports_a_missing_session() {
    let service = fast_service(10);
    let nonexistent_id = uuid::Uuid::new_v4().as_u128();

    let result = service.get_game_state(nonexistent_id);
    assert!(matches!(result, Err(AiBattleError::GameNotFound { .. })));
}

#[test]
fn a_valid_move_draws_an_opponent_reply() {
    let mut service = fast_service(10);
    let created = service.create_ai_battle(AiDifficulty::Easy).unwrap();

    let first_valid_move = created.valid_moves[0];
    let response = service.make_player_move(created.game_id, first_valid_move).unwrap();

    assert!(response.success);
    assert_eq!(response.player_move, first_valid_move);
    assert!(response.ai_move.is_some());
    // Two moves were applied: the human's and the opponent's reply.
    assert_eq!(response.game_state.move_count, 2);
    assert_eq!(response.game_state.current_player, Player::Black);
}

#[test]
fn an_illegal_move_is_rejected() {
    let mut service = fast_service(10);
    let created = service.create_ai_battle(AiDifficulty::Easy).unwrap();

    let invalid_position = Position::new(0, 0).unwrap();
    let result = service.make_player_move(created.game_id, invalid_position);

    assert!(matches!(result, Err(AiBattleError::InvalidMove { .. })));
    // The session is untouched.
    let state = service.get_game_state(created.game_id).unwrap();
    assert_eq!(state.move_count, 0);
}

#[test]
fn a_move_against_a_missing_session_is_rejected() {
    let mut service = fast_service(10);
    let nonexistent_id = uuid::Uuid::new_v4().as_u128();
    let position = Position::new(2, 3).unwrap();

    let result = service.make_player_move(nonexistent_id, position);
    assert!(matches!(result, Err(AiBattleError::GameNotFound { .. })));
}

#[test]
fn a_busy_session_rejects_further_moves() {
    // Mark the opponent as thinking, the way an in-flight reply would.
    let mut registry = AiBattleSessionManager::new(1);
    let id = registry.create_session(AiDifficulty::Easy).unwrap();
    registry.set_ai_thinking(id, true).unwrap();
    let mut busy_service = AiBattleService::new_with_ai_service(
        registry,
        AIServiceFactory::create_fast_local().unwrap(),
    );
    let result = busy_service.make_player_move(id, Position::new(2, 3).unwrap());
    if let Err(AiBattleError::AiThinkingError { details }) = result {
        assert_eq!(details, "AI is currently thinking");
    } else {
        panic!("Expected AiThinkingError");
    }
}

#[test]
fn move_history_records_both_sides() {
    let mut service = fast_service(10);
    let created = service.create_ai_battle(AiDifficulty::Easy).unwrap();

    let history = service.get_move_history(created.game_id).unwrap();
    assert_eq!(history.len(), 0);

    let first_valid_move = created.valid_moves[0];
    service.make_player_move(created.game_id, first_valid_move).unwrap();

    let history = service.get_move_history(created.game_id).unwrap();
    assert_eq!(history.len(), 2);
    assert_eq!(history[0].player, Player::Black);
    assert_eq!(history[0].position, first_valid_move);
    assert_eq!(history[1].player, Player::White);
}

#[test]
fn service_lists_and_deletes_sessions() {
    let mut service = fast_service(10);
    assert_eq!(service.list_sessions().len(), 0);

    let first = service.create_ai_battle(AiDifficulty::Easy).unwrap();
    let _second = service.create_ai_battle(AiDifficulty::Hard).unwrap();
    assert_eq!(service.list_sessions().len(), 2);

    service.delete_session(first.game_id).unwrap();
    assert!(matches!(
        service.get_game_state(first.game_id),
        Err(AiBattleError::GameNotFound { .. })
    ));
}

#[test]
fn difficulty_changes_when_nobody_is_thinking() {
    let mut service = fast_service(10);
    let created = service.create_ai_battle(AiDifficulty::Easy).unwrap();

    let response = service.change_difficulty(created.game_id, AiDifficulty::Hard).unwrap();
    assert_eq!(response.ai_difficulty, AiDifficulty::Hard);

    assert!(!service.is_ai_thinking(created.game_id).unwrap());
}

#[test]
fn test_get_service_stats() {
    let service = fast_service(10);
    let stats = service.get_service_stats();
    assert_eq!(stats.total_sessions, 0);
    assert_eq!(stats.max_sessions, 10);
    assert_eq!(stats.ai_thinking_count, 0);
}

#[test]
fn admission_control_bounds_live_sessions() {
    let mut service = fast_service(2);

    let first = service.create_ai_battle(AiDifficulty::Easy).unwrap();
    let _second = service.create_ai_battle(AiDifficulty::Medium).unwrap();

    let third = service.create_ai_battle(AiDifficulty::Hard);
    assert!(matches!(third, Err(AiBattleError::MaxSessionsReached { max: 2 })));

    service.delete_session(first.game_id).unwrap();
    assert!(service.create_ai_battle(AiDifficulty::Hard).is_ok());
}

#[test]
fn one_legal_attempt_among_many_succeeds_exactly_once() {
    let mut service = fast_service(10);
    let created = service.create_ai_battle(AiDifficulty::Easy).unwrap();
    let legal = created.valid_moves[0];

    let attempts = vec![
        Position::new(0, 0).unwrap(),
        Position::new(7, 7).unwrap(),
        Position::new(0, 7).unwrap(),
        legal,
    ];
    let mut successes = 0;
    let mut failures = 0;
    for position in attempts {
        match service.make_player_move(created.game_id, position) {
            Ok(response) => {
                assert!(response.success);
                successes += 1;
            },
            Err(AiBattleError::InvalidMove { .. }) => {
                failures += 1;
            },
            Err(other) => panic!("unexpected failure kind: {}", other.error_code()),
        }
    }
    assert_eq!(successes, 1);
    assert_eq!(failures, 3);

    // The board stays coherent: 64 squares, tallies consistent.
    let state = service.get_game_state(created.game_id).unwrap();
    assert_eq!(state.board.len(), 8);
    let pieces: usize = state
        .board
        .iter()
        .map(|row| row.iter().filter(|cell| cell.is_some()).count())
        .sum();
    assert_eq!(pieces as u16, state.black_count as u16 + state.white_count as u16);
    assert_eq!(state.move_count, 2);
}

#[test]
fn fallback_answers_with_the_secondary_move() {
    let manager = AiBattleSessionManager::new(10);
    let primary = AIService::Mock(MockAIService::new_error("primary down"));
    let orchestrator = AiBattleService::new_with_ai_service(manager, primary);
    let fixed = Position::new(2, 3).unwrap();
    let secondary = AIService::Mock(MockAIService::new_with_fixed_move(fixed));
    let mut policy = FallbackConfig::default();
    policy.max_retry_attempts = 3;
    let service = ConfigurableAiBattleService::with_services(orchestrator, Some(secondary), policy);

    let game_state = GameState::new();
    let result = service.calculate_move_with_fallback(&game_state, AiDifficulty::Easy).unwrap();
    assert_eq!(result.position, fixed);
}

#[test]
fn retry_exhaustion_reports_the_attempt_count() {
    let manager = AiBattleSessionManager::new(10);
    let primary = AIService::Mock(MockAIService::new_error("primary down"));
    let orchestrator = AiBattleService::new_with_ai_service(manager, primary);
    let secondary = AIService::Mock(MockAIService::new_error("secondary down"));
    let mut policy = FallbackConfig::default();
    policy.max_retry_attempts = 3;
    let service = ConfigurableAiBattleService::with_services(orchestrator, Some(secondary), policy);

    let game_state = GameState::new();
    let result = service.calculate_move_with_fallback(&game_state, AiDifficulty::Easy);
    if let Err(AiBattleError::AiThinkingError { details }) = result {
        assert_eq!(details, "AI service failed after 3 attempts: AI strategy error: primary down");
    } else {
        panic!("Expected AiThinkingError");
    }
}

#[test]
fn a_failed_reply_never_rolls_back_the_human_move() {
    let manager = AiBattleSessionManager::new(10);
    let failing = AIService::Mock(MockAIService::new_error("no reply"));
    let mut service = AiBattleService::new_with_ai_service(manager, failing);
    let created = service.create_ai_battle(AiDifficulty::Easy).unwrap();

    let result = service.make_player_move(created.game_id, created.valid_moves[0]);
    assert!(matches!(result, Err(AiBattleError::AiThinkingError { .. })));

    let history = service.get_move_history(created.game_id).unwrap();
    assert_eq!(history.len(), 1);
    assert_eq!(history[0].player, Player::Black);
    assert!(!service.is_ai_thinking(created.game_id).unwrap());
}

#[test]
fn configurable_service_builds_from_the_default_config() {
    let config = Config::default();
    let service = ConfigurableAiBattleService::new(&config).unwrap();

    assert!(service.check_primary_service_health());
    let status = service.get_service_status();
    assert_eq!(status.primary_service_name, "LocalAIService");
    assert!(status.primary_service_available);
    assert_eq!(status.total_sessions, 0);
}

#[test]
fn reload_config_switches_the_policy() {
    let config = Config::default();
    let mut service = ConfigurableAiBattleService::new(&config).unwrap();

    let mut new_config = Config::default();
    new_config.fallback.max_retry_attempts = 7;
    service.reload_config(&new_config).unwrap();

    let status = service.get_service_status();
    assert!(status.primary_service_available);
}

#[test]
fn a_move_out_of_turn_is_rejected() {
    let mut registry = AiBattleSessionManager::new(1);
    let id = registry.create_session(AiDifficulty::Easy).unwrap();
    let mut session = registry.get_session(id).unwrap();
    // Hand the turn to the opponent, as it stands while a reply is due.
    session.game_state.switch_player();
    session.current_player = Player::White;
    registry.update_session(session).unwrap();
    let mut service = AiBattleService::new_with_ai_service(
        registry,
        AIServiceFactory::create_fast_local().unwrap(),
    );

    let result = service.make_player_move(id, Position::new(2, 3).unwrap());
    assert!(matches!(result, Err(AiBattleError::NotPlayerTurn)));
}

#[test]
fn test_cleanup_inactive_sessions() {
    let mut service = fast_service(10);
    let _created = service.create_ai_battle(AiDifficulty::Easy).unwrap();

    // The default timeout is thirty minutes; a fresh session survives.
    let removed_count = service.cleanup_inactive_sessions();
    assert_eq!(removed_count, 0);
    assert_eq!(service.session_count(), 1);
}
