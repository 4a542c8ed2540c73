//! The configurable battle service: builds the orchestrator from the
//! configuration, watches service health, switches services, and drives
//! the opponent fallback and retry policy.

use vstd::prelude::*;
use vstd::string::StringExecFns;

use crate::ai::service::{
    is_default_local, is_default_mock, svc_available, svc_error_text, svc_move, svc_succeeds,
    AIMoveResult, AIService, AIServiceConfig, AIServiceFactory, AIServiceType,
};
use crate::battle::dto::{AiBattleError, AiBattleResult, AiDifficulty};
use crate::battle::service::AiBattleService;
use crate::config::{Config, FallbackConfig};
use crate::game::state::GameState;
use crate::numerals::{dec_str, u64_to_string};
use crate::session::ai_battle_manager::AiBattleSessionManager;

verus! {

/// The details text of an exhausted retry policy: how many attempts were
/// spent, and the last failure.
pub open spec fn retry_exhausted_text(attempts: int, failure: Seq<char>) -> Seq<char> {
    "AI service failed after "@ + dec_str(attempts) + " attempts: "@ + failure
}

/// How many attempts the policy spends when the primary keeps failing:
/// the configured maximum where fallback and retry are enabled, one
/// attempt otherwise.
pub open spec fn attempts_spent(config: FallbackConfig) -> int {
    if config.enable_fallback && config.max_retry_attempts > 1 {
        config.max_retry_attempts as int
    } else {
        1
    }
}

/// The health picture of the configured services.
#[derive(Debug)]
pub struct ServiceStatus {
    pub primary_service_name: String,
    pub primary_service_available: bool,
    pub fallback_enabled: bool,
    pub fallback_service_name: Option<String>,
    pub fallback_service_available: bool,
    pub total_sessions: usize,
}

/// The orchestrator together with its fallback service and policy.
pub struct ConfigurableAiBattleService {
    current_service: AiBattleService,
    fallback_ai_service: Option<AIService>,
    fallback_config: FallbackConfig,
}

impl ConfigurableAiBattleService {
    /// The orchestrator in use.
    pub closed spec fn spec_service(&self) -> AiBattleService {
        self.current_service
    }

    /// The primary opponent service.
    pub open spec fn primary(&self) -> AIService {
        self.spec_service().service()
    }

    /// The fallback opponent service, where one is configured.
    pub closed spec fn spec_fallback(&self) -> Option<AIService> {
        self.fallback_ai_service
    }

    /// The fallback policy in force.
    pub closed spec fn spec_fallback_config(&self) -> FallbackConfig {
        self.fallback_config
    }

    /// The service is well formed when its orchestrator is.
    pub open spec fn wf(&self) -> bool {
        self.spec_service().wf()
    }

    /// Builds the whole battle stack from the configuration: the session
    /// registry with its ceiling and timeout, the primary opponent
    /// service, and, where enabled, the fallback service.
    pub fn new(config: &Config) -> (r: AiBattleResult<ConfigurableAiBattleService>)
        ensures
            config.ai_service.service_type != AIServiceType::Http ==> (r matches Ok(svc) && {
                &&& svc.wf()
                &&& svc.spec_service().sessions() == Map::<u128, crate::battle::dto::AiBattleSession>::empty()
                &&& svc.spec_service().manager().spec_max_sessions()
                    == config.ai_battle.max_sessions
                &&& svc.spec_service().manager().spec_timeout_minutes()
                    == config.ai_battle.session_timeout_minutes
                &&& svc.spec_fallback_config() == config.fallback
                &&& (config.ai_service.service_type == AIServiceType::Local
                    ==> is_default_local(svc.primary()))
                &&& (config.ai_service.service_type == AIServiceType::Mock
                    ==> is_default_mock(svc.primary()))
                &&& (config.fallback.enable_fallback
                    && config.fallback.fallback_ai_service == AIServiceType::Local ==> (
                svc.spec_fallback() matches Some(fb) && is_default_local(fb)))
                &&& (config.fallback.enable_fallback
                    && config.fallback.fallback_ai_service == AIServiceType::Mock ==> (
                svc.spec_fallback() matches Some(fb) && is_default_mock(fb)))
                &&& (config.fallback.enable_fallback
                    && config.fallback.fallback_ai_service == AIServiceType::Http
                    ==> svc.spec_fallback() is None)
                &&& (!config.fallback.enable_fallback ==> svc.spec_fallback() is None)
            }),
            config.ai_service.service_type == AIServiceType::Http ==> r is Err,
    {
        let session_manager = AiBattleSessionManager::with_timeout(
            config.ai_battle.max_sessions,
            config.ai_battle.session_timeout_minutes,
        );
        let primary_ai_service = match Self::create_ai_service(&config.ai_service) {
            Ok(service) => service,
            Err(e) => {
                return Err(e);
            },
        };
        let fallback_ai_service = if config.fallback.enable_fallback {
            let mut fallback_service_config = AIServiceConfig::default();
            fallback_service_config.service_type = config.fallback.fallback_ai_service;
            fallback_service_config.timeout_ms = config.fallback.retry_delay_ms;
            fallback_service_config.max_retries = config.fallback.max_retry_attempts;
            match Self::create_ai_service(&fallback_service_config) {
                Ok(service) => Some(service),
                Err(_) => None,
            }
        } else {
            None
        };
        let current_service = AiBattleService::new_with_ai_service(
            session_manager,
            primary_ai_service,
        );
        Ok(
            ConfigurableAiBattleService {
                current_service,
                fallback_ai_service,
                fallback_config: config.fallback,
            },
        )
    }

    /// Assembles the service from already-built parts: an orchestrator, an
    /// optional fallback opponent service, and the policy that drives them.
    pub fn with_services(
        current_service: AiBattleService,
        fallback_ai_service: Option<AIService>,
        fallback_config: FallbackConfig,
    ) -> (r: ConfigurableAiBattleService)
        ensures
            r.spec_service() == current_service,
            r.spec_fallback() == fallback_ai_service,
            r.spec_fallback_config() == fallback_config,
    {
        ConfigurableAiBattleService { current_service, fallback_ai_service, fallback_config }
    }

    /// Builds one opponent service from its settings, mapping a failure to
    /// an opponent error.
    fn create_ai_service(config: &AIServiceConfig) -> (r: AiBattleResult<AIService>)
        ensures
            config.service_type == AIServiceType::Local ==> (r matches Ok(s)
                && is_default_local(s)),
            config.service_type == AIServiceType::Mock ==> (r matches Ok(s)
                && is_default_mock(s)),
            config.service_type == AIServiceType::Http ==> r is Err,
    {
        match AIServiceFactory::create_service(config) {
            Ok(service) => Ok(service),
            Err(e) => {
                let mut details = String::from_str("Failed to create AI service: ");
                details.append(e.message().as_str());
                Err(AiBattleError::AiThinkingError { details })
            },
        }
    }

    /// Takes the service apart: the orchestrator, the fallback service
    /// and the policy, for callers that drive them separately.
    pub fn into_parts(self) -> (r: (AiBattleService, Option<AIService>, FallbackConfig))
        ensures
            r.0 == self.spec_service(),
            r.1 == self.spec_fallback(),
            r.2 == self.spec_fallback_config(),
    {
        let ConfigurableAiBattleService { current_service, fallback_ai_service, fallback_config } =
            self;
        (current_service, fallback_ai_service, fallback_config)
    }

    /// The orchestrator in use.
    pub fn get_service(&self) -> (r: &AiBattleService)
        ensures
            *r == self.spec_service(),
    {
        &self.current_service
    }

    /// Whether the primary service reports itself available.
    pub fn check_primary_service_health(&self) -> (r: bool)
        ensures
            r == svc_available(self.primary()),
    {
        self.current_service.get_ai_service().is_available()
    }

    /// Whether a fallback service is configured and reports itself
    /// available.
    pub fn check_fallback_service_health(&self) -> (r: bool)
        ensures
            r == match self.spec_fallback() {
                Some(fb) => svc_available(fb),
                None => false,
            },
    {
        match &self.fallback_ai_service {
            Some(fallback) => fallback.is_available(),
            None => false,
        }
    }

    /// Switches the primary service to one built from new settings;
    /// refused when the new service cannot be built or reports itself
    /// unavailable, leaving everything as it was.
    pub fn switch_ai_service(&mut self, new_config: &AIServiceConfig) -> (r: AiBattleResult<()>)
        ensures
            final(self).spec_fallback() == old(self).spec_fallback(),
            final(self).spec_fallback_config() == old(self).spec_fallback_config(),
            final(self).spec_service().manager() == old(self).spec_service().manager(),
            r is Ok ==> (new_config.service_type == AIServiceType::Local ==> is_default_local(
                final(self).primary(),
            )) && (new_config.service_type == AIServiceType::Mock ==> is_default_mock(
                final(self).primary(),
            )) && svc_available(final(self).primary()),
            r is Err ==> final(self).primary() == old(self).primary(),
            new_config.service_type == AIServiceType::Http ==> r is Err,
    {
        let new_ai_service = match Self::create_ai_service(new_config) {
            Ok(service) => service,
            Err(e) => {
                return Err(e);
            },
        };
        if !new_ai_service.is_available() {
            return Err(
                AiBattleError::AiThinkingError {
                    details: String::from_str("New AI service is not available"),
                },
            );
        }
        self.current_service.set_ai_service(new_ai_service);
        Ok(())
    }

    /// Computes the opponent's move under the fallback and retry policy:
    /// the primary service answers when it can; otherwise, with fallback
    /// enabled and attempts remaining, the fallback service is tried and
    /// the primary retried, until the attempts are exhausted and the last
    /// failure is surfaced with the attempt count.
    pub fn calculate_move_with_fallback(
        &self,
        game_state: &GameState,
        difficulty: AiDifficulty,
    ) -> (r: AiBattleResult<AIMoveResult>)
        requires
            game_state.wf(),
        ensures
            svc_succeeds(self.primary(), *game_state, difficulty) ==> r == Ok::<
                AIMoveResult,
                AiBattleError,
            >(svc_move(self.primary(), *game_state, difficulty)),
            !svc_succeeds(self.primary(), *game_state, difficulty)
                && self.spec_fallback_config().enable_fallback
                && self.spec_fallback_config().max_retry_attempts > 1 && (self.spec_fallback()
                matches Some(fb) && svc_succeeds(fb, *game_state, difficulty)) ==> (self.spec_fallback()
                matches Some(fb) && r == Ok::<AIMoveResult, AiBattleError>(
                svc_move(fb, *game_state, difficulty),
            )),
            !svc_succeeds(self.primary(), *game_state, difficulty) && !(
            self.spec_fallback_config().enable_fallback
                && self.spec_fallback_config().max_retry_attempts > 1 && (self.spec_fallback()
                matches Some(fb) && svc_succeeds(fb, *game_state, difficulty))) ==> (r matches Err(
                AiBattleError::AiThinkingError { details },
            ) && details@ == retry_exhausted_text(
                attempts_spent(self.spec_fallback_config()),
                svc_error_text(self.primary(), *game_state, difficulty),
            )),
    {
        let max_attempts = self.fallback_config.max_retry_attempts;
        let mut attempts: u32 = 1;
        loop
            invariant
                game_state.wf(),
                max_attempts == self.spec_fallback_config().max_retry_attempts,
                1 <= attempts,
                self.spec_fallback_config().enable_fallback && max_attempts > 1 ==> attempts
                    <= max_attempts,
                !(self.spec_fallback_config().enable_fallback && max_attempts > 1) ==> attempts
                    == 1,
                attempts > 1 ==> !svc_succeeds(self.primary(), *game_state, difficulty) && !(
                self.spec_fallback() matches Some(fb) && svc_succeeds(
                    fb,
                    *game_state,
                    difficulty,
                )),
            decreases max_attempts - attempts,
        {
            match self.current_service.get_ai_service().calculate_move(game_state, difficulty) {
                Ok(result) => {
                    return Ok(result);
                },
                Err(e) => {
                    if self.fallback_config.enable_fallback && attempts < max_attempts {
                        match &self.fallback_ai_service {
                            Some(fallback) => {
                                match fallback.calculate_move(game_state, difficulty) {
                                    Ok(result) => {
                                        return Ok(result);
                                    },
                                    Err(_) => {},
                                }
                            },
                            None => {},
                        }
                    } else {
                        proof {
                            crate::ai::service::lemma_svc_error_text(
                                self.primary(),
                                *game_state,
                                difficulty,
                                e,
                            );
                        }
                        let mut details = String::from_str("AI service failed after ");
                        details.append(u64_to_string(attempts as u64).as_str());
                        details.append(" attempts: ");
                        details.append(e.message().as_str());
                        return Err(AiBattleError::AiThinkingError { details });
                    }
                    attempts += 1;
                },
            }
        }
    }

    /// The health picture of the configured services and the live session
    /// count.
    pub fn get_service_status(&self) -> (r: ServiceStatus)
        ensures
            r.primary_service_name@ == match self.primary() {
                AIService::Local(_) => "LocalAIService"@,
                AIService::Mock(_) => "MockAIService"@,
            },
            r.primary_service_available == svc_available(self.primary()),
            r.fallback_enabled == self.spec_fallback_config().enable_fallback,
            r.fallback_service_available == match self.spec_fallback() {
                Some(fb) => svc_available(fb),
                None => false,
            },
            r.total_sessions == self.spec_service().sessions().dom().len(),
    {
        let primary_available = self.check_primary_service_health();
        let fallback_available = self.check_fallback_service_health();
        let fallback_service_name = match &self.fallback_ai_service {
            Some(fallback) => Some(String::from_str(fallback.get_name())),
            None => None,
        };
        ServiceStatus {
            primary_service_name: String::from_str(self.current_service.get_ai_service().get_name()),
            primary_service_available: primary_available,
            fallback_enabled: self.fallback_config.enable_fallback,
            fallback_service_name,
            fallback_service_available: fallback_available,
            total_sessions: self.current_service.session_count(),
        }
    }

    /// Replaces the fallback policy and switches the primary service to
    /// one built from the new settings.
    pub fn reload_config(&mut self, new_config: &Config) -> (r: AiBattleResult<()>)
        ensures
            final(self).spec_fallback_config() == new_config.fallback,
            final(self).spec_service().manager() == old(self).spec_service().manager(),
            r is Ok ==> svc_available(final(self).primary()),
            r is Ok ==> (new_config.ai_service.service_type == AIServiceType::Local
                ==> is_default_local(final(self).primary())) && (
            new_config.ai_service.service_type == AIServiceType::Mock ==> is_default_mock(
                final(self).primary(),
            )),
            new_config.ai_service.service_type == AIServiceType::Http ==> r is Err,
    {
        self.fallback_config = new_config.fallback;
        self.switch_ai_service(&new_config.ai_service)
    }
}

} // verus!
