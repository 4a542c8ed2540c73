//! The configuration of the service: limits, server and database
//! settings, battle-session settings, and the opponent fallback policy.

use vstd::prelude::*;
use vstd::string::StringExecFns;

use crate::ai::service::{AIServiceConfig, AIServiceType};
use crate::battle::dto::AiDifficulty;
use crate::numerals::{dec_str, u64_to_string, usize_to_string};

verus! {

/// The resource ceilings of the system.
#[derive(Debug, Clone)]
pub struct SystemLimits {
    pub max_concurrent_games: usize,
    pub max_ai_calculation_time_ms: u64,
    pub session_timeout_secs: u64,
    pub max_move_history: usize,
}

impl Default for SystemLimits {
    /// Balanced default ceilings.
    fn default() -> (r: Self)
        ensures
            r.max_concurrent_games == 100,
            r.max_ai_calculation_time_ms == 30000,
            r.session_timeout_secs == 3600,
            r.max_move_history == 1000,
    {
        SystemLimits {
            max_concurrent_games: 100,
            max_ai_calculation_time_ms: 30000,
            session_timeout_secs: 3600,
            max_move_history: 1000,
        }
    }
}

/// The server's listening settings.
#[derive(Debug, Clone)]
pub struct ServerConfig {
    pub port: u16,
    pub host: String,
    pub enable_cors: bool,
    pub enable_logging: bool,
}

impl Default for ServerConfig {
    /// Listens on every interface at port 3000.
    fn default() -> (r: Self)
        ensures
            r.port == 3000,
            r.host@ == "0.0.0.0"@,
            r.enable_cors == true,
            r.enable_logging == true,
    {
        ServerConfig {
            port: 3000,
            host: String::from_str("0.0.0.0"),
            enable_cors: true,
            enable_logging: true,
        }
    }
}

/// The database connection settings.
#[derive(Debug, Clone)]
pub struct DatabaseConfig {
    pub url: String,
    pub max_connections: u32,
    pub connection_timeout_secs: u64,
}

impl Default for DatabaseConfig {
    /// A local file database with a small pool.
    fn default() -> (r: Self)
        ensures
            r.url@ == "sqlite:reversi.db"@,
            r.max_connections == 5,
            r.connection_timeout_secs == 30,
    {
        DatabaseConfig {
            url: String::from_str("sqlite:reversi.db"),
            max_connections: 5,
            connection_timeout_secs: 30,
        }
    }
}

/// The battle-session settings: admission ceiling, idle timeout and the
/// cleanup sweep.
#[derive(Debug, Clone)]
pub struct AiBattleConfig {
    pub max_sessions: usize,
    pub session_timeout_minutes: i64,
    pub default_difficulty: AiDifficulty,
    pub enable_session_cleanup: bool,
    pub cleanup_interval_minutes: u64,
}

impl Default for AiBattleConfig {
    /// One hundred sessions, swept after thirty idle minutes.
    fn default() -> (r: Self)
        ensures
            r.max_sessions == 100,
            r.session_timeout_minutes == 30,
            r.default_difficulty == AiDifficulty::Easy,
            r.enable_session_cleanup == true,
            r.cleanup_interval_minutes == 5,
    {
        AiBattleConfig {
            max_sessions: 100,
            session_timeout_minutes: 30,
            default_difficulty: AiDifficulty::Easy,
            enable_session_cleanup: true,
            cleanup_interval_minutes: 5,
        }
    }
}

/// The opponent fallback policy: whether to fall back, onto which service,
/// and how often and how patiently to retry.
#[derive(Debug, Clone, Copy)]
pub struct FallbackConfig {
    pub enable_fallback: bool,
    pub fallback_ai_service: AIServiceType,
    pub max_retry_attempts: u32,
    pub retry_delay_ms: u64,
}

impl Default for FallbackConfig {
    /// Falls back onto the local service, with three attempts a second
    /// apart.
    fn default() -> (r: Self)
        ensures
            r.enable_fallback == true,
            r.fallback_ai_service == AIServiceType::Local,
            r.max_retry_attempts == 3,
            r.retry_delay_ms == 1000,
    {
        FallbackConfig {
            enable_fallback: true,
            fallback_ai_service: AIServiceType::Local,
            max_retry_attempts: 3,
            retry_delay_ms: 1000,
        }
    }
}

/// Errors of configuration loading and validation.
#[derive(Debug)]
pub enum ConfigError {
    FileReadError { message: String },
    ParseError { message: String },
    EnvVarError { name: String, value: String },
    InvalidValue { field: String, value: String },
}

/// The whole configuration.
#[derive(Debug, Clone)]
pub struct Config {
    pub system_limits: SystemLimits,
    pub server: ServerConfig,
    pub database: DatabaseConfig,
    pub ai_battle: AiBattleConfig,
    pub ai_service: AIServiceConfig,
    pub fallback: FallbackConfig,
}

impl Default for Config {
    /// The default of every section.
    fn default() -> (r: Self)
        ensures
            r.server.port == 3000,
            r.ai_battle.max_sessions == 100,
            r.ai_battle.session_timeout_minutes == 30,
            r.ai_service.service_type == AIServiceType::Local,
            r.ai_service.timeout_ms == 5000,
            r.ai_service.max_retries == 3,
            r.fallback.enable_fallback == true,
            r.fallback.max_retry_attempts == 3,
            r.fallback.retry_delay_ms == 1000,
            r.database.url@ == "sqlite:reversi.db"@,
            r.system_limits.max_concurrent_games == 100,
    {
        Config {
            system_limits: SystemLimits::default(),
            server: ServerConfig::default(),
            database: DatabaseConfig::default(),
            ai_battle: AiBattleConfig::default(),
            ai_service: AIServiceConfig::default(),
            fallback: FallbackConfig::default(),
        }
    }
}

impl Config {
    /// Checks the settings: the port, the admission ceiling and the
    /// opponent timeout must not be zero; the first offending field is
    /// reported with its value.
    pub fn validate(&self) -> (r: Result<(), ConfigError>)
        ensures
            self.server.port == 0 ==> (r matches Err(ConfigError::InvalidValue { field, value })
                && field@ == "server.port"@ && value@ == dec_str(self.server.port as int)),
            self.server.port != 0 && self.ai_battle.max_sessions == 0 ==> (r matches Err(
                ConfigError::InvalidValue { field, value },
            ) && field@ == "ai_battle.max_sessions"@ && value@ == dec_str(
                self.ai_battle.max_sessions as int,
            )),
            self.server.port != 0 && self.ai_battle.max_sessions != 0
                && self.ai_service.timeout_ms == 0 ==> (r matches Err(
                ConfigError::InvalidValue { field, value },
            ) && field@ == "ai_service.timeout_ms"@ && value@ == dec_str(
                self.ai_service.timeout_ms as int,
            )),
            self.server.port != 0 && self.ai_battle.max_sessions != 0
                && self.ai_service.timeout_ms != 0 ==> r is Ok,
    {
        if self.server.port == 0 {
            return Err(
                ConfigError::InvalidValue {
                    field: String::from_str("server.port"),
                    value: u64_to_string(self.server.port as u64),
                },
            );
        }
        if self.ai_battle.max_sessions == 0 {
            return Err(
                ConfigError::InvalidValue {
                    field: String::from_str("ai_battle.max_sessions"),
                    value: usize_to_string(self.ai_battle.max_sessions),
                },
            );
        }
        if self.ai_service.timeout_ms == 0 {
            return Err(
                ConfigError::InvalidValue {
                    field: String::from_str("ai_service.timeout_ms"),
                    value: u64_to_string(self.ai_service.timeout_ms),
                },
            );
        }
        Ok(())
    }

    /// The server port.
    pub fn server_port(&self) -> (r: u16)
        ensures
            r == self.server.port,
    {
        self.server.port
    }

    /// The database connection string.
    pub fn database_url(&self) -> (r: &str)
        ensures
            r@ == self.database.url@,
    {
        self.database.url.as_str()
    }
}

} // verus!
