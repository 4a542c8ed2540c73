use reversi::config::{Config, ConfigError};
use std::time::Instant;

#[test]
fn test_config_validation() {
    let mut config = Config::default();

    // 有効な設定
    assert!(config.validate().is_ok());

    // 無効なポート
    config.server.port = 0;
    assert!(config.validate().is_err());

    // 無効なセッション数
    config.server.port = 3000;
    config.ai_battle.max_sessions = 0;
    assert!(config.validate().is_err());

    // 無効なタイムアウト
    config.ai_battle.max_sessions = 10;
    config.ai_service.timeout_ms = 0;
    assert!(config.validate().is_err());
}

#[test]
fn test_backward_compatibility() {
    let config = Config::default();

    // 旧インターフェースが引き続き動作することを確認
    assert_eq!(config.server_port(), config.server.port);
    assert_eq!(config.database_url(), &config.database.url);
}

#[test]
fn test_config_loading_performance() {
    let start = Instant::now();

    // 設定読み込みを100回実行
    for _ in 0..100 {
        let _config = Config::default();
    }

    let elapsed = start.elapsed();

    // 設定読み込みが十分高速であることを確認（1秒以内）
    assert!(elapsed.as_secs() < 1, "Config loading is too slow: {:?}", elapsed);

    println!("Config loading performance: {:?} for 100 iterations", elapsed);
}

#[test]
fn validation_names_the_offending_field_and_value() {
    let mut config = Config::default();
    config.server.port = 0;
    if let Err(ConfigError::InvalidValue { field, value }) = config.validate() {
        assert_eq!(field, "server.port");
        assert_eq!(value, "0");
    } else {
        panic!("Expected InvalidValue");
    }
}
