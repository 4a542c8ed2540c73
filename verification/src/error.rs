//! The error taxonomy of the engine: game-rule errors, opponent-service
//! errors and persistence errors.

use vstd::prelude::*;
use vstd::string::StringExecFns;

verus! {

/// Errors of the opponent service.
#[derive(Debug)]
pub enum AIError {
    Timeout,
    NoValidMoves,
    StrategyError { message: String },
    ServiceUnavailable { service_name: String, reason: String },
    ConfigurationError { message: String },
}

/// The one-line description of an opponent-service error.
pub open spec fn ai_error_text(e: AIError) -> Seq<char> {
    match e {
        AIError::Timeout => "AI calculation timeout"@,
        AIError::NoValidMoves => "No valid moves available"@,
        AIError::StrategyError { message } => "AI strategy error: "@ + message@,
        AIError::ServiceUnavailable { service_name, reason } => "AI service unavailable: "@
            + service_name@ + " - "@ + reason@,
        AIError::ConfigurationError { message } => "AI service configuration error: "@
            + message@,
    }
}

impl AIError {
    /// Renders the error as a one-line description.
    pub fn message(&self) -> (r: String)
        ensures
            r@ == ai_error_text(*self),
    {
        match self {
            AIError::Timeout => String::from_str("AI calculation timeout"),
            AIError::NoValidMoves => String::from_str("No valid moves available"),
            AIError::StrategyError { message } => String::from_str("AI strategy error: ")
                .concat(message.as_str()),
            AIError::ServiceUnavailable { service_name, reason } => String::from_str(
                "AI service unavailable: ",
            ).concat(service_name.as_str()).concat(" - ").concat(reason.as_str()),
            AIError::ConfigurationError { message } => String::from_str(
                "AI service configuration error: ",
            ).concat(message.as_str()),
        }
    }
}

/// Errors of data persistence.
#[derive(Debug)]
pub enum PersistenceError {
    DatabaseError { message: String },
    IoError { message: String },
    SerializationError { message: String },
}

/// Errors of the game rules and of game management.
#[derive(Debug)]
pub enum GameError {
    InvalidMove { reason: String },
    GameNotFound { game_id: u128 },
    GameFinished,
    AIError { source: AIError },
    PersistenceError { source: PersistenceError },
    SessionLimitExceeded,
}

/// A result whose error is a game error.
pub type GameResult<T> = Result<T, GameError>;

} // verus!
