use reversi::ai::strategies::Difficulty as LegacyDifficulty;
use reversi::battle::dto::{
    validate_position, AiBattleError, AiBattleResponse, AiBattleResult, AiBattleSession,
    AiDifficulty, DifficultiesResponse, DifficultyInfo, ErrorResponse, GameStatus, MoveRecord,
    SessionSummary,
};
use reversi::error::{AIError, GameError};
use reversi::game::types::{Player, Position};

#[test]
fn test_ai_difficulty_all() {
    let all_difficulties = AiDifficulty::all();
    assert_eq!(all_difficulties.len(), 3);
    assert!(all_difficulties.contains(&AiDifficulty::Easy));
    assert!(all_difficulties.contains(&AiDifficulty::Medium));
    assert!(all_difficulties.contains(&AiDifficulty::Hard));
}

#[test]
fn test_ai_difficulty_description() {
    assert!(AiDifficulty::Easy.description().contains("初級"));
    assert!(AiDifficulty::Medium.description().contains("中級"));
    assert!(AiDifficulty::Hard.description().contains("上級"));
}

#[test]
fn test_ai_difficulty_name() {
    assert_eq!(AiDifficulty::Easy.name(), "Easy");
    assert_eq!(AiDifficulty::Medium.name(), "Medium");
    assert_eq!(AiDifficulty::Hard.name(), "Hard");
}

#[test]
fn test_ai_difficulty_from_str() {
    assert_eq!("easy".parse::<AiDifficulty>().unwrap(), AiDifficulty::Easy);
    assert_eq!("MEDIUM".parse::<AiDifficulty>().unwrap(), AiDifficulty::Medium);
    assert_eq!("Hard".parse::<AiDifficulty>().unwrap(), AiDifficulty::Hard);
    assert!("invalid".parse::<AiDifficulty>().is_err());
}

#[test]
fn test_ai_difficulty_conversion_to_legacy() {
    assert_eq!(LegacyDifficulty::from(AiDifficulty::Easy), LegacyDifficulty::Beginner);
    assert_eq!(LegacyDifficulty::from(AiDifficulty::Medium), LegacyDifficulty::Intermediate);
    assert_eq!(LegacyDifficulty::from(AiDifficulty::Hard), LegacyDifficulty::Advanced);
}

#[test]
fn test_ai_difficulty_conversion_from_legacy() {
    assert_eq!(AiDifficulty::from(LegacyDifficulty::Beginner), AiDifficulty::Easy);
    assert_eq!(AiDifficulty::from(LegacyDifficulty::Intermediate), AiDifficulty::Medium);
    assert_eq!(AiDifficulty::from(LegacyDifficulty::Advanced), AiDifficulty::Hard);
}

#[test]
fn test_validate_position_valid() {
    assert!(validate_position(0, 0).is_ok());
    assert!(validate_position(7, 7).is_ok());
    assert!(validate_position(3, 4).is_ok());
}

#[test]
fn test_validate_position_invalid() {
    assert!(validate_position(8, 0).is_err());
    assert!(validate_position(0, 8).is_err());
    assert!(validate_position(10, 10).is_err());
}

#[test]
fn rejected_coordinates_are_named_in_the_message() {
    let message = validate_position(10, 10).unwrap_err();
    assert!(message.contains("(10, 10)"));
    assert!(message.contains("0-7"));
}

#[test]
fn test_move_record_creation() {
    let position = Position::new(3, 4).unwrap();
    let move_record = MoveRecord::new(Player::Black, position, Some(1500));

    assert_eq!(move_record.player, Player::Black);
    assert_eq!(move_record.position, position);
    assert_eq!(move_record.thinking_time_ms, Some(1500));
}

#[test]
fn test_ai_battle_session_creation() {
    let session = AiBattleSession::new(AiDifficulty::Easy);

    assert_eq!(session.ai_difficulty, AiDifficulty::Easy);
    assert_eq!(session.current_player, Player::Black);
    assert!(!session.ai_thinking);
    assert!(!session.is_finished());
    assert!(session.is_player_turn());
    assert!(!session.is_ai_turn());
    assert_eq!(session.move_history.len(), 0);
}

#[test]
fn test_game_status() {
    let in_progress = GameStatus::InProgress;
    let finished_black = GameStatus::Finished { winner: Some(Player::Black) };
    let finished_tie = GameStatus::Finished { winner: None };

    assert_ne!(in_progress, finished_black);
    assert_ne!(finished_black, finished_tie);
}

#[test]
fn test_ai_battle_response_from_session() {
    let session = AiBattleSession::new(AiDifficulty::Medium);
    let response = AiBattleResponse::from_session(&session);

    assert_eq!(response.game_id, session.id);
    assert_eq!(response.ai_difficulty, AiDifficulty::Medium);
    assert_eq!(response.current_player, Player::Black);
    assert!(!response.ai_thinking);
    assert_eq!(response.board.len(), 8);
    assert_eq!(response.board[0].len(), 8);
    assert!(response.valid_moves.len() > 0);
}

#[test]
fn test_session_summary_from_session() {
    let session = AiBattleSession::new(AiDifficulty::Hard);
    let summary = SessionSummary::from_session(&session);

    assert_eq!(summary.game_id, session.id);
    assert_eq!(summary.ai_difficulty, AiDifficulty::Hard);
    assert_eq!(summary.move_count, 0);
    assert_eq!(summary.status, GameStatus::InProgress);
}

#[test]
fn test_difficulties_response() {
    let response = DifficultiesResponse::new();

    assert_eq!(response.difficulties.len(), 3);
    assert!(response.difficulties.iter().any(|d| matches!(d.id, AiDifficulty::Easy)));
    assert!(response.difficulties.iter().any(|d| matches!(d.id, AiDifficulty::Medium)));
    assert!(response.difficulties.iter().any(|d| matches!(d.id, AiDifficulty::Hard)));
}

#[test]
fn test_difficulty_info_conversion() {
    let info = DifficultyInfo::from(AiDifficulty::Easy);

    assert_eq!(info.id, AiDifficulty::Easy);
    assert_eq!(info.name, "Easy");
    assert!(info.description.contains("初級"));
}

#[test]
fn test_error_response_creation() {
    let error = ErrorResponse::new("TestError", "Test message");

    assert_eq!(error.error, "TestError");
    assert_eq!(error.message, "Test message");
    assert!(error.error_code.is_none());
}

#[test]
fn test_error_response_with_code() {
    let error = ErrorResponse::with_code("TestError", "Test message", "TEST_CODE");

    assert_eq!(error.error, "TestError");
    assert_eq!(error.message, "Test message");
    assert_eq!(error.error_code, Some("TEST_CODE".to_string()));
}

#[test]
fn test_ai_battle_error_codes() {
    let game_id = uuid::Uuid::new_v4().as_u128();
    let error = AiBattleError::GameNotFound { game_id };
    assert_eq!(error.error_code(), "GAME_NOT_FOUND");

    let error = AiBattleError::InvalidMove { reason: "test".to_string() };
    assert_eq!(error.error_code(), "INVALID_MOVE");

    let error = AiBattleError::NotPlayerTurn;
    assert_eq!(error.error_code(), "NOT_PLAYER_TURN");

    let error = AiBattleError::MaxSessionsReached { max: 10 };
    assert_eq!(error.error_code(), "MAX_SESSIONS_REACHED");
}

#[test]
fn test_ai_battle_error_status_codes() {
    let game_id = uuid::Uuid::new_v4().as_u128();
    let error = AiBattleError::GameNotFound { game_id };
    assert_eq!(error.status_code(), 404);

    let error = AiBattleError::InvalidMove { reason: "test".to_string() };
    assert_eq!(error.status_code(), 400);

    let error = AiBattleError::NotPlayerTurn;
    assert_eq!(error.status_code(), 403);

    let error = AiBattleError::MaxSessionsReached { max: 10 };
    assert_eq!(error.status_code(), 429);

    let error = AiBattleError::AiThinkingError { details: "test".to_string() };
    assert_eq!(error.status_code(), 500);
}

#[test]
fn test_ai_battle_result_type() {
    let success_result: AiBattleResult<i32> = Ok(42);
    assert!(success_result.is_ok());
    assert_eq!(success_result.unwrap(), 42);

    let error_result: AiBattleResult<i32> = Err(AiBattleError::NotPlayerTurn);
    assert!(error_result.is_err());
}

#[test]
fn wrapped_errors_keep_their_own_codes() {
    let error = AiBattleError::GameError(GameError::GameFinished);
    assert_eq!(error.error_code(), "GAME_ERROR");
    assert_eq!(error.status_code(), 400);

    let error = AiBattleError::AIError(AIError::NoValidMoves);
    assert_eq!(error.error_code(), "AI_ERROR");
    assert_eq!(error.status_code(), 500);
}

#[test]
fn opponent_error_messages_are_exact() {
    let error = AIError::StrategyError { message: "boom".to_string() };
    assert_eq!(error.message(), "AI strategy error: boom");
    assert_eq!(AIError::NoValidMoves.message(), "No valid moves available");
    assert_eq!(AIError::Timeout.message(), "AI calculation timeout");
}
