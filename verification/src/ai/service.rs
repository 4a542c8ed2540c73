//! The opponent service abstraction: the closed set of services, their
//! uniform result shape, status reporting and the service factory.

use vstd::prelude::*;
use vstd::string::StringExecFns;

use crate::ai::local_service::{
    local_err_matches, local_error_text, local_move, local_succeeds, LocalAIService,
};
use crate::ai::mock_service::{
    mock_err_matches, mock_error_text, mock_move, mock_succeeds, MockAIConfig, MockAIService,
};
use crate::battle::dto::AiDifficulty;
use crate::error::{ai_error_text, AIError};
use crate::game::state::GameState;
use crate::game::types::Position;
use crate::platform::now_millis;

verus! {

/// The uniform result of an opponent computation: the chosen move and the
/// computation's statistics.
#[derive(Debug, Clone, Copy, PartialEq, Eq)]
pub struct AIMoveResult {
    pub position: Position,
    pub thinking_time_ms: u64,
    pub depth_reached: Option<u32>,
    pub nodes_evaluated: Option<u64>,
}

/// The kinds of opponent service.
#[derive(Debug, Clone, Copy, PartialEq, Eq, Structural)]
pub enum AIServiceType {
    Local,
    Http,
    Mock,
}

/// A service's reported health: its kind, name, availability, accepted
/// difficulties, the check time and the probe latency where measured.
#[derive(Debug, Clone)]
pub struct AIServiceStatus {
    pub service_type: AIServiceType,
    pub name: String,
    pub available: bool,
    pub supported_difficulties: Vec<AiDifficulty>,
    pub last_check: i64,
    pub average_response_time_ms: Option<u64>,
}

/// One opponent service of the closed set.
#[derive(Debug, Clone)]
pub enum AIService {
    Local(LocalAIService),
    Mock(MockAIService),
}

/// Whether the service computes a move for this state and difficulty.
pub open spec fn svc_succeeds(s: AIService, gs: GameState, difficulty: AiDifficulty) -> bool {
    match s {
        AIService::Local(_) => local_succeeds(gs, difficulty),
        AIService::Mock(m) => mock_succeeds(m, gs, difficulty),
    }
}

/// The move result the service computes when it succeeds.
pub open spec fn svc_move(s: AIService, gs: GameState, difficulty: AiDifficulty) -> AIMoveResult {
    match s {
        AIService::Local(l) => local_move(l, gs, difficulty),
        AIService::Mock(m) => mock_move(m, gs, difficulty),
    }
}

/// Whether `e` is the error the service reports when it fails.
pub open spec fn svc_err_matches(
    s: AIService,
    gs: GameState,
    difficulty: AiDifficulty,
    e: AIError,
) -> bool {
    match s {
        AIService::Local(_) => local_err_matches(gs, difficulty, e),
        AIService::Mock(m) => mock_err_matches(m, gs, difficulty, e),
    }
}

/// The text of the error the service reports when it fails.
pub open spec fn svc_error_text(s: AIService, gs: GameState, difficulty: AiDifficulty) -> Seq<
    char,
> {
    match s {
        AIService::Local(_) => local_error_text(gs, difficulty),
        AIService::Mock(m) => mock_error_text(m, gs, difficulty),
    }
}

/// A failing service's error carries exactly the service's error text.
pub proof fn lemma_svc_error_text(
    s: AIService,
    gs: GameState,
    difficulty: AiDifficulty,
    e: AIError,
)
    requires
        svc_err_matches(s, gs, difficulty, e),
    ensures
        ai_error_text(e) == svc_error_text(s, gs, difficulty),
{
}

/// The local service exactly as its default constructor builds it.
pub open spec fn is_default_local(s: AIService) -> bool {
    s == AIService::Local(
        LocalAIService {
            simulate_thinking_time: true,
            min_thinking_time_ms: 300u64,
            max_thinking_time_ms: 3000u64,
        },
    )
}

/// A mock service exactly as the default configuration builds it.
pub open spec fn is_default_mock(s: AIService) -> bool {
    &&& s matches AIService::Mock(m)
    &&& s matches AIService::Mock(m) ==> {
        &&& m.spec_config().available == true
        &&& m.spec_config().response_time_ms == 100
        &&& m.spec_config().should_error == false
        &&& m.spec_config().error_message@ == "Mock AI error"@
        &&& m.spec_config().fixed_move is None
        &&& m.spec_config().supported_difficulties@ == seq![
            AiDifficulty::Easy,
            AiDifficulty::Medium,
            AiDifficulty::Hard,
        ]
    }
}

/// Whether the service reports itself available.
pub open spec fn svc_available(s: AIService) -> bool {
    match s {
        AIService::Local(_) => true,
        AIService::Mock(m) => m.spec_config().available,
    }
}

impl AIService {
    /// Computes the opponent's move with the chosen service.
    pub fn calculate_move(&self, game_state: &GameState, difficulty: AiDifficulty) -> (r: Result<
        AIMoveResult,
        AIError,
    >)
        requires
            game_state.wf(),
        ensures
            r is Ok <==> svc_succeeds(*self, *game_state, difficulty),
            r matches Ok(m) ==> m == svc_move(*self, *game_state, difficulty),
            r matches Err(e) ==> svc_err_matches(*self, *game_state, difficulty, e),
    {
        match self {
            AIService::Local(l) => l.calculate_move(game_state, difficulty),
            AIService::Mock(m) => m.calculate_move(game_state, difficulty),
        }
    }

    /// Whether the service is available.
    pub fn is_available(&self) -> (r: bool)
        ensures
            r == svc_available(*self),
    {
        match self {
            AIService::Local(_) => true,
            AIService::Mock(m) => m.get_config().available,
        }
    }

    /// The difficulties the service accepts.
    pub fn get_supported_difficulties(&self) -> (r: Vec<AiDifficulty>)
        ensures
            r@ == match self {
                AIService::Local(_) => seq![AiDifficulty::Easy],
                AIService::Mock(m) => m.spec_config().supported_difficulties@,
            },
    {
        match self {
            AIService::Local(_) => {
                let mut r: Vec<AiDifficulty> = Vec::new();
                r.push(AiDifficulty::Easy);
                proof {
                    assert(r@ =~= seq![AiDifficulty::Easy]);
                }
                r
            },
            AIService::Mock(m) => {
                let list = &m.get_config().supported_difficulties;
                let mut r: Vec<AiDifficulty> = Vec::new();
                let mut i: usize = 0;
                while i < list.len()
                    invariant
                        i <= list@.len(),
                        r@ == list@.take(i as int),
                    decreases list@.len() - i,
                {
                    r.push(list[i]);
                    proof {
                        assert(r@ =~= list@.take(i + 1));
                    }
                    i += 1;
                }
                proof {
                    assert(list@.take(list@.len() as int) =~= list@);
                }
                r
            },
        }
    }

    /// The service's name.
    pub fn get_name(&self) -> (r: &'static str)
        ensures
            r@ == match self {
                AIService::Local(_) => "LocalAIService"@,
                AIService::Mock(_) => "MockAIService"@,
            },
    {
        match self {
            AIService::Local(_) => "LocalAIService",
            AIService::Mock(_) => "MockAIService",
        }
    }

    /// The service's kind.
    pub fn get_service_type(&self) -> (r: AIServiceType)
        ensures
            r == match self {
                AIService::Local(_) => AIServiceType::Local,
                AIService::Mock(_) => AIServiceType::Mock,
            },
    {
        match self {
            AIService::Local(_) => AIServiceType::Local,
            AIService::Mock(_) => AIServiceType::Mock,
        }
    }

    /// Reports the service's basic status, without a latency measurement.
    pub fn get_status(&self) -> (r: AIServiceStatus)
        ensures
            r.service_type == match self {
                AIService::Local(_) => AIServiceType::Local,
                AIService::Mock(_) => AIServiceType::Mock,
            },
            r.name@ == match self {
                AIService::Local(_) => "LocalAIService"@,
                AIService::Mock(_) => "MockAIService"@,
            },
            r.available == svc_available(*self),
            r.supported_difficulties@ == match self {
                AIService::Local(_) => seq![AiDifficulty::Easy],
                AIService::Mock(m) => m.spec_config().supported_difficulties@,
            },
            r.average_response_time_ms is None,
    {
        AIServiceStatus {
            service_type: self.get_service_type(),
            name: String::from_str(self.get_name()),
            available: self.is_available(),
            supported_difficulties: self.get_supported_difficulties(),
            last_check: now_millis(),
            average_response_time_ms: None,
        }
    }

    /// Probes the service and reports its status with the measured probe
    /// latency; an unavailable service yields an error naming it.
    pub fn health_check(&self) -> (r: Result<AIServiceStatus, AIError>)
        ensures
            svc_available(*self) ==> (r matches Ok(status) && status.available == true
                && status.name@ == match self {
                    AIService::Local(_) => "LocalAIService"@,
                    AIService::Mock(_) => "MockAIService"@,
                } && status.supported_difficulties@ == match self {
                    AIService::Local(_) => seq![AiDifficulty::Easy],
                    AIService::Mock(m) => m.spec_config().supported_difficulties@,
                } && status.average_response_time_ms is Some),
            !svc_available(*self) ==> (r matches Err(
                AIError::ServiceUnavailable { service_name, reason },
            ) && service_name@ == "MockAIService"@ && reason@
                == "Service health check failed"@),
    {
        let start = now_millis();
        let available = self.is_available();
        let finish = now_millis();
        let response_time: u64 = if start >= 0 && finish >= start {
            (finish - start) as u64
        } else {
            0
        };
        if available {
            Ok(
                AIServiceStatus {
                    service_type: self.get_service_type(),
                    name: String::from_str(self.get_name()),
                    available: true,
                    supported_difficulties: self.get_supported_difficulties(),
                    last_check: now_millis(),
                    average_response_time_ms: Some(response_time),
                },
            )
        } else {
            Err(
                AIError::ServiceUnavailable {
                    service_name: String::from_str(self.get_name()),
                    reason: String::from_str("Service health check failed"),
                },
            )
        }
    }
}

/// The settings an opponent service is built from.
#[derive(Debug, Clone)]
pub struct AIServiceConfig {
    pub service_type: AIServiceType,
    pub endpoint_url: Option<String>,
    pub timeout_ms: u64,
    pub max_retries: u32,
    pub default_difficulty: AiDifficulty,
    pub enable_caching: bool,
}

impl Default for AIServiceConfig {
    /// A local service with a five-second timeout and three retries.
    fn default() -> (r: Self)
        ensures
            r.service_type == AIServiceType::Local,
            r.endpoint_url is None,
            r.timeout_ms == 5000,
            r.max_retries == 3,
            r.default_difficulty == AiDifficulty::Easy,
            r.enable_caching == false,
    {
        AIServiceConfig {
            service_type: AIServiceType::Local,
            endpoint_url: None,
            timeout_ms: 5000,
            max_retries: 3,
            default_difficulty: AiDifficulty::Easy,
            enable_caching: false,
        }
    }
}

/// Builds opponent services from their settings.
pub struct AIServiceFactory;

impl AIServiceFactory {
    /// Builds the service a configuration asks for; the remote kind is not
    /// shipped and is reported unavailable.
    pub fn create_service(config: &AIServiceConfig) -> (r: Result<AIService, AIError>)
        ensures
            config.service_type == AIServiceType::Local ==> (r matches Ok(s)
                && is_default_local(s)),
            config.service_type == AIServiceType::Mock ==> (r matches Ok(s)
                && is_default_mock(s)),
            config.service_type == AIServiceType::Http ==> (r matches Err(
                AIError::ServiceUnavailable { service_name, reason },
            ) && service_name@ == "HttpAIService"@ && reason@
                == "HTTP AI service not yet implemented"@),
    {
        match config.service_type {
            AIServiceType::Local => Ok(AIService::Local(LocalAIService::new())),
            AIServiceType::Mock => Ok(AIService::Mock(MockAIService::new(MockAIConfig::default()))),
            AIServiceType::Http => Err(
                AIError::ServiceUnavailable {
                    service_name: String::from_str("HttpAIService"),
                    reason: String::from_str("HTTP AI service not yet implemented"),
                },
            ),
        }
    }

    /// Builds the default local service.
    pub fn create_default_local() -> (r: Result<AIService, AIError>)
        ensures
            r matches Ok(s) && s == AIService::Local(
                LocalAIService {
                    simulate_thinking_time: true,
                    min_thinking_time_ms: 300u64,
                    max_thinking_time_ms: 3000u64,
                },
            ),
    {
        Ok(AIService::Local(LocalAIService::new()))
    }

    /// Builds the local service without its simulated thinking time.
    pub fn create_fast_local() -> (r: Result<AIService, AIError>)
        ensures
            r matches Ok(s) && s == AIService::Local(
                LocalAIService {
                    simulate_thinking_time: false,
                    min_thinking_time_ms: 0u64,
                    max_thinking_time_ms: 0u64,
                },
            ),
    {
        Ok(AIService::Local(LocalAIService::new_fast()))
    }

    /// Builds a mock service, with the given behaviour or the default.
    pub fn create_mock(config: Option<MockAIConfig>) -> (r: Result<AIService, AIError>)
        ensures
            r matches Ok(s) && s is Mock,
            config matches Some(c) ==> (r matches Ok(s) && s matches AIService::Mock(m)
                && m.spec_config() == c),
            config is None ==> (r matches Ok(s) && is_default_mock(s)),
    {
        match config {
            Some(c) => Ok(AIService::Mock(MockAIService::new(c))),
            None => Ok(AIService::Mock(MockAIService::new(MockAIConfig::default()))),
        }
    }
}

} // verus!
