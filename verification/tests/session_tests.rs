use reversi::battle::dto::{AiBattleError, AiDifficulty};
use reversi::session::ai_battle_manager::AiBattleSessionManager;

#[test]
fn test_create_session() {
    let mut manager = AiBattleSessionManager::new(10);
    let session_id = manager.create_session(AiDifficulty::Easy).unwrap();

    assert!(manager.session_exists(session_id));
    assert_eq!(manager.session_count(), 1);
}

#[test]
fn test_max_sessions_limit() {
    let mut manager = AiBattleSessionManager::new(2);

    let _session1 = manager.create_session(AiDifficulty::Easy).unwrap();
    let _session2 = manager.create_session(AiDifficulty::Medium).unwrap();

    let result = manager.create_session(AiDifficulty::Hard);
    assert!(matches!(result, Err(AiBattleError::MaxSessionsReached { max: 2 })));
}

#[test]
fn admission_reopens_after_a_removal() {
    let mut manager = AiBattleSessionManager::new(2);
    let first = manager.create_session(AiDifficulty::Easy).unwrap();
    let _second = manager.create_session(AiDifficulty::Easy).unwrap();

    assert!(matches!(
        manager.create_session(AiDifficulty::Easy),
        Err(AiBattleError::MaxSessionsReached { max: 2 })
    ));

    manager.remove_session(first).unwrap();
    assert!(manager.create_session(AiDifficulty::Easy).is_ok());
    assert_eq!(manager.session_count(), 2);
}

#[test]
fn test_get_session() {
    let mut manager = AiBattleSessionManager::new(10);
    let session_id = manager.create_session(AiDifficulty::Medium).unwrap();

    let session = manager.get_session(session_id).unwrap();
    assert_eq!(session.id, session_id);
    assert_eq!(session.ai_difficulty, AiDifficulty::Medium);
}

#[test]
fn test_get_nonexistent_session() {
    let manager = AiBattleSessionManager::new(10);
    let nonexistent_id = uuid::Uuid::new_v4().as_u128();

    let result = manager.get_session(nonexistent_id);
    assert!(matches!(result, Err(AiBattleError::GameNotFound { .. })));
}

#[test]
fn test_update_session() {
    let mut manager = AiBattleSessionManager::new(10);
    let session_id = manager.create_session(AiDifficulty::Easy).unwrap();

    let mut session = manager.get_session(session_id).unwrap();
    session.ai_thinking = true;

    manager.update_session(session).unwrap();

    let updated_session = manager.get_session(session_id).unwrap();
    assert!(updated_session.ai_thinking);
}

#[test]
fn test_remove_session() {
    let mut manager = AiBattleSessionManager::new(10);
    let session_id = manager.create_session(AiDifficulty::Hard).unwrap();

    assert!(manager.session_exists(session_id));

    let removed_session = manager.remove_session(session_id).unwrap();
    assert_eq!(removed_session.id, session_id);
    assert!(!manager.session_exists(session_id));
}

#[test]
fn test_list_sessions() {
    let mut manager = AiBattleSessionManager::new(10);

    let _session1 = manager.create_session(AiDifficulty::Easy).unwrap();
    let _session2 = manager.create_session(AiDifficulty::Medium).unwrap();

    let sessions = manager.list_sessions();
    assert_eq!(sessions.len(), 2);
}

#[test]
fn test_ai_thinking_flag() {
    let mut manager = AiBattleSessionManager::new(10);
    let session_id = manager.create_session(AiDifficulty::Easy).unwrap();

    assert!(!manager.is_ai_thinking(session_id).unwrap());

    manager.set_ai_thinking(session_id, true).unwrap();
    assert!(manager.is_ai_thinking(session_id).unwrap());

    manager.set_ai_thinking(session_id, false).unwrap();
    assert!(!manager.is_ai_thinking(session_id).unwrap());
}

#[test]
fn idle_sweep_removes_only_stale_sessions() {
    let mut manager = AiBattleSessionManager::with_timeout(10, 0);

    let session_id = manager.create_session(AiDifficulty::Easy).unwrap();
    assert_eq!(manager.session_count(), 1);

    let session = manager.get_session(session_id).unwrap();
    let future_cutoff = session.last_move_at + 1;
    let past_cutoff = session.last_move_at;

    assert_eq!(manager.cleanup_sessions_older_than(past_cutoff), 0);
    assert_eq!(manager.session_count(), 1);

    let removed_count = manager.cleanup_sessions_older_than(future_cutoff);
    assert_eq!(removed_count, 1);
    assert_eq!(manager.session_count(), 0);
}

#[test]
fn test_session_stats() {
    let manager = AiBattleSessionManager::new(10);
    let stats = manager.get_stats();

    assert_eq!(stats.total_sessions, 0);
    assert_eq!(stats.max_sessions, 10);
    assert_eq!(stats.ai_thinking_count, 0);
}

#[test]
fn stats_track_difficulties_and_thinking() {
    let mut manager = AiBattleSessionManager::new(10);
    let easy_id = manager.create_session(AiDifficulty::Easy).unwrap();
    let _ = manager.create_session(AiDifficulty::Easy).unwrap();
    let _ = manager.create_session(AiDifficulty::Hard).unwrap();
    manager.set_ai_thinking(easy_id, true).unwrap();

    let stats = manager.get_stats();
    assert_eq!(stats.total_sessions, 3);
    assert_eq!(stats.ai_thinking_count, 1);
    assert_eq!(stats.difficulty_counts.easy, 2);
    assert_eq!(stats.difficulty_counts.medium, 0);
    assert_eq!(stats.difficulty_counts.hard, 1);
}
