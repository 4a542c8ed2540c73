//! The battle orchestrator: applies human moves, drives the opponent's
//! reply, and persists every step through the session registry.

use vstd::prelude::*;
use vstd::string::StringExecFns;

use crate::ai::service::{
    svc_error_text, svc_move, svc_succeeds, AIService, AIServiceFactory,
};
use crate::battle::dto::{
    response_matches, AiBattleError, AiBattleResponse, AiBattleResult, AiBattleSession,
    AiDifficulty, GameStatus, MoveRecord, MoveResponse,
};
use crate::game::board::count_cells;
use crate::game::rules::{
    applied_cells, flip_seq, has_move, is_legal, lemma_valid_moves_members, valid_moves_seq,
    winner_of, ReversiRules,
};
use crate::game::state::GameState;
use crate::game::types::{Cell, Player, Position};
use crate::numerals::{dec_str, usize_to_string};
use crate::platform::now_millis;
use crate::session::ai_battle_manager::{
    sessions_at, thinking_sessions, AiBattleSessionManager, DifficultyCounts,
};

verus! {

/// What an idle sweep at `cutoff` did: the sessions active since `cutoff`
/// survive untouched, the rest are gone, and `removed` counts them.
pub open spec fn swept(
    pre: Map<u128, AiBattleSession>,
    post: Map<u128, AiBattleSession>,
    cutoff: i64,
    removed: int,
) -> bool {
    &&& forall|k: u128| post.contains_key(k) <==> (pre.contains_key(k) && (
    #[trigger] pre[k]).last_move_at >= cutoff)
    &&& forall|k: u128| post.contains_key(k) ==> (#[trigger] post[k]) == pre[k]
    &&& removed == pre.dom().len() - post.dom().len()
}

/// The details text reported while an opponent reply is in flight.
pub open spec fn busy_text() -> Seq<char> {
    "AI is currently thinking"@
}

/// The reason text of a rejected placement.
pub open spec fn rejected_move_text(position: Position) -> Seq<char> {
    "Invalid move at position Position { row: "@ + dec_str(position.row as int) + ", col: "@
        + dec_str(position.col as int) + " }"@
}

/// The details text of an opponent-service failure.
pub open spec fn service_failure_text(text: Seq<char>) -> Seq<char> {
    "AI service error: "@ + text
}

/// How `post` relates to `pre` after one applied and advanced move by
/// `mover` at `position` on a running game: the board takes the placement
/// and its flips, one record joins the engine log, and the turn advances
/// by the pass and termination rules.
pub open spec fn game_advanced(
    pre: GameState,
    post: GameState,
    mover: Player,
    position: Position,
) -> bool {
    let b1 = applied_cells(pre.board@, mover, position);
    &&& post.board@ == b1
    &&& post.id == pre.id
    &&& post.created_at == pre.created_at
    &&& post.move_history@.len() == pre.move_history@.len() + 1
    &&& post.move_history@.take(pre.move_history@.len() as int) == pre.move_history@
    &&& post.move_history@.last().player == mover
    &&& post.move_history@.last().position == position
    &&& post.move_history@.last().flipped@ == flip_seq(pre.board@, mover, position)
    &&& if has_move(b1, mover.spec_opposite()) {
        &&& post.current_player == mover.spec_opposite()
        &&& post.game_status == pre.game_status
    } else if has_move(b1, mover) {
        &&& post.current_player == mover
        &&& post.game_status == pre.game_status
    } else {
        &&& post.current_player == mover
        &&& post.game_status == (crate::game::state::GameStatus::Finished {
            winner: winner_of(b1),
            score: (count_cells(b1, Cell::Black) as u8, count_cells(b1, Cell::White) as u8),
        })
    }
}

/// How a session mirrors its game after an advance: identity and
/// difficulty are kept, the mover mirror follows the game, and the status
/// becomes finished with the computed winner exactly when the game did.
pub open spec fn session_tracks(pre: AiBattleSession, post: AiBattleSession) -> bool {
    &&& post.id == pre.id
    &&& post.ai_difficulty == pre.ai_difficulty
    &&& post.created_at == pre.created_at
    &&& post.current_player == post.game_state.current_player
    &&& post.status == if post.game_state.spec_is_finished() {
        GameStatus::Finished { winner: winner_of(post.game_state.board@) }
    } else {
        pre.status
    }
}

/// What the human's accepted placement did to the session: the game took
/// the move and advanced, the session log is untouched, and the session
/// mirrors the game.
pub open spec fn human_applied(s: AiBattleSession, position: Position, mid: AiBattleSession)
    -> bool {
    &&& game_advanced(s.game_state, mid.game_state, Player::Black, position)
    &&& mid.move_history@ == s.move_history@
    &&& session_tracks(s, mid)
}

/// What the opponent's reply did to the session: the game took the
/// service's move and advanced, one record with the reply and its
/// thinking time joined the session log, and the session mirrors the
/// game.
pub open spec fn opponent_applied(pre: AiBattleSession, ai: AIService, post: AiBattleSession)
    -> bool {
    let res = svc_move(ai, pre.game_state, pre.ai_difficulty);
    &&& game_advanced(pre.game_state, post.game_state, Player::White, res.position)
    &&& post.move_history@.len() == pre.move_history@.len() + 1
    &&& post.move_history@.take(pre.move_history@.len() as int) == pre.move_history@
    &&& post.move_history@.last().player == Player::White
    &&& post.move_history@.last().position == res.position
    &&& post.move_history@.last().thinking_time_ms == Some(res.thinking_time_ms)
    &&& session_tracks(pre, post)
}

/// A snapshot of the orchestrator's load.
#[derive(Debug)]
pub struct ServiceStats {
    pub total_sessions: usize,
    pub max_sessions: usize,
    pub ai_thinking_count: usize,
    pub difficulty_distribution: DifficultyCounts,
}

/// The orchestrator: one session registry and the opponent service that
/// answers for the computer player.
pub struct AiBattleService {
    session_manager: AiBattleSessionManager,
    ai_service: AIService,
}

impl AiBattleService {
    /// The registry the orchestrator owns.
    pub closed spec fn manager(&self) -> AiBattleSessionManager {
        self.session_manager
    }

    /// The opponent service the orchestrator drives.
    pub closed spec fn service(&self) -> AIService {
        self.ai_service
    }

    /// The live sessions, keyed by identifier.
    pub open spec fn sessions(&self) -> Map<u128, AiBattleSession> {
        self.manager()@
    }

    /// The orchestrator is well formed when its registry is.
    pub open spec fn wf(&self) -> bool {
        self.manager().wf()
    }

    /// Builds an orchestrator over the registry, answering with the
    /// default local opponent service.
    pub fn new(session_manager: AiBattleSessionManager) -> (r: AiBattleService)
        ensures
            r.manager() == session_manager,
            r.service() == AIService::Local(
                crate::ai::local_service::LocalAIService {
                    simulate_thinking_time: true,
                    min_thinking_time_ms: 300u64,
                    max_thinking_time_ms: 3000u64,
                },
            ),
    {
        let ai_service = match AIServiceFactory::create_default_local() {
            Ok(s) => s,
            Err(_) => AIService::Local(crate::ai::local_service::LocalAIService::new()),
        };
        AiBattleService { session_manager, ai_service }
    }

    /// Builds an orchestrator over the registry with the given opponent
    /// service.
    pub fn new_with_ai_service(session_manager: AiBattleSessionManager, ai_service: AIService)
        -> (r: AiBattleService)
        ensures
            r.manager() == session_manager,
            r.service() == ai_service,
    {
        AiBattleService { session_manager, ai_service }
    }

    /// The opponent service in use.
    pub fn get_ai_service(&self) -> (r: &AIService)
        ensures
            *r == self.service(),
    {
        &self.ai_service
    }

    /// Replaces the opponent service.
    pub fn set_ai_service(&mut self, ai_service: AIService)
        ensures
            final(self).service() == ai_service,
            final(self).manager() == old(self).manager(),
    {
        self.ai_service = ai_service;
    }

    /// Opens a battle at the given difficulty and returns its view;
    /// refused once the registry is at its admission ceiling.
    pub fn create_ai_battle(&mut self, difficulty: AiDifficulty) -> (r: AiBattleResult<
        AiBattleResponse,
    >)
        requires
            old(self).wf(),
        ensures
            final(self).wf(),
            final(self).service() == old(self).service(),
            old(self).sessions().dom().len() >= old(self).manager().spec_max_sessions() ==> (r
                matches Err(AiBattleError::MaxSessionsReached { max }) && max == old(self).manager().spec_max_sessions()) && final(self).sessions() == old(self).sessions(),
            r matches Ok(response) ==> old(self).sessions().dom().len() < old(
                self,
            ).manager().spec_max_sessions() && final(self).sessions().dom().len() == old(
                self,
            ).sessions().dom().len() + 1 && exists|s: AiBattleSession|
                {
                    &&& (#[trigger] s.is_initial(difficulty))
                    &&& s.wf()
                    &&& !old(self).sessions().contains_key(s.id)
                    &&& final(self).sessions() == old(self).sessions().insert(s.id, s)
                    &&& response_matches(response, s)
                },
            old(self).sessions().dom().len() < old(self).manager().spec_max_sessions() ==> (r
                is Ok || (r matches Err(AiBattleError::InternalError { details }) && details@
                == "session identifier collision"@ && final(self).sessions() == old(
                self,
            ).sessions())),
    {
        let session_id = match self.session_manager.create_session(difficulty) {
            Ok(id) => id,
            Err(e) => {
                return Err(e);
            },
        };
        match self.session_manager.get_session(session_id) {
            Ok(session) => {
                let response = AiBattleResponse::from_session(&session);
                Ok(response)
            },
            Err(e) => Err(e),
        }
    }

    /// The current view of a session.
    pub fn get_game_state(&self, session_id: u128) -> (r: AiBattleResult<AiBattleResponse>)
        requires
            self.wf(),
        ensures
            self.sessions().contains_key(session_id) ==> (r matches Ok(response)
                && response_matches(response, self.sessions()[session_id])),
            !self.sessions().contains_key(session_id) ==> (r matches Err(
                AiBattleError::GameNotFound { game_id },
            ) && game_id == session_id),
    {
        match self.session_manager.get_session(session_id) {
            Ok(session) => Ok(AiBattleResponse::from_session(&session)),
            Err(e) => Err(e),
        }
    }

    /// The ordered move log of a session, rebuilt from the engine's log.
    pub fn get_move_history(&self, session_id: u128) -> (r: AiBattleResult<Vec<MoveRecord>>)
        requires
            self.wf(),
        ensures
            self.sessions().contains_key(session_id) ==> (r matches Ok(records) && {
                let log = self.sessions()[session_id].game_state.move_history@;
                &&& records@.len() == log.len()
                &&& forall|i: int| 0 <= i < log.len() ==> {
                    let rec = #[trigger] records@[i];
                    &&& rec.player == log[i].player
                    &&& rec.position == log[i].position
                    &&& rec.timestamp == log[i].timestamp
                    &&& rec.thinking_time_ms is None
                }
            }),
            !self.sessions().contains_key(session_id) ==> (r matches Err(
                AiBattleError::GameNotFound { game_id },
            ) && game_id == session_id),
    {
        let session = match self.session_manager.get_session(session_id) {
            Ok(session) => session,
            Err(e) => {
                return Err(e);
            },
        };
        let mut records: Vec<MoveRecord> = Vec::new();
        let log = &session.game_state.move_history;
        let mut i: usize = 0;
        while i < log.len()
            invariant
                i <= log@.len(),
                records@.len() == i,
                forall|j: int| 0 <= j < i ==> {
                    let rec = #[trigger] records@[j];
                    &&& rec.player == log@[j].player
                    &&& rec.position == log@[j].position
                    &&& rec.timestamp == log@[j].timestamp
                    &&& rec.thinking_time_ms is None
                },
            decreases log@.len() - i,
        {
            records.push(MoveRecord::from_move(&log[i], None));
            i += 1;
        }
        Ok(records)
    }

    /// Hands out an independent copy of every live session.
    pub fn list_sessions(&self) -> (r: Vec<AiBattleSession>)
        requires
            self.wf(),
        ensures
            r@.len() == self.sessions().dom().len(),
            forall|i: int| 0 <= i < r@.len() ==> self.sessions().contains_key(
                (#[trigger] r@[i]).id,
            ) && self.sessions()[r@[i].id] == r@[i],
            forall|i: int, j: int| 0 <= i < j < r@.len() ==> r@[i].id != r@[j].id,
    {
        self.session_manager.list_sessions()
    }

    /// Removes a session.
    pub fn delete_session(&mut self, session_id: u128) -> (r: AiBattleResult<()>)
        requires
            old(self).wf(),
        ensures
            final(self).wf(),
            final(self).service() == old(self).service(),
            old(self).sessions().contains_key(session_id) ==> r is Ok && final(self).sessions()
                == old(self).sessions().remove(session_id),
            !old(self).sessions().contains_key(session_id) ==> (r matches Err(
                AiBattleError::GameNotFound { game_id },
            ) && game_id == session_id) && final(self).sessions() == old(self).sessions(),
    {
        match self.session_manager.remove_session(session_id) {
            Ok(_) => Ok(()),
            Err(e) => Err(e),
        }
    }

    /// Changes a session's difficulty; refused while an opponent reply is
    /// in flight.
    pub fn change_difficulty(&mut self, session_id: u128, new_difficulty: AiDifficulty) -> (r:
        AiBattleResult<AiBattleResponse>)
        requires
            old(self).wf(),
        ensures
            final(self).wf(),
            final(self).service() == old(self).service(),
            !old(self).sessions().contains_key(session_id) ==> (r matches Err(
                AiBattleError::GameNotFound { game_id },
            ) && game_id == session_id) && final(self).sessions() == old(self).sessions(),
            old(self).sessions().contains_key(session_id) && old(self).sessions()[session_id].ai_thinking ==> (r matches Err(
                AiBattleError::AiThinkingError { details },
            ) && details@ == "Cannot change difficulty while AI is thinking"@) && final(self).sessions() == old(self).sessions(),
            old(self).sessions().contains_key(session_id) && !old(self).sessions()[session_id].ai_thinking ==> (r matches Ok(response) && {
                let updated = AiBattleSession {
                    ai_difficulty: new_difficulty,
                    ..old(self).sessions()[session_id]
                };
                &&& final(self).sessions() == old(self).sessions().insert(session_id, updated)
                &&& response_matches(response, updated)
            }),
    {
        let mut session = match self.session_manager.get_session(session_id) {
            Ok(session) => session,
            Err(e) => {
                return Err(e);
            },
        };
        if session.ai_thinking {
            return Err(
                AiBattleError::AiThinkingError {
                    details: String::from_str("Cannot change difficulty while AI is thinking"),
                },
            );
        }
        session.ai_difficulty = new_difficulty;
        let response = AiBattleResponse::from_session(&session);
        match self.session_manager.update_session(session) {
            Ok(_) => Ok(response),
            Err(e) => Err(e),
        }
    }

    /// Whether an opponent reply is in flight for the session.
    pub fn is_ai_thinking(&self, session_id: u128) -> (r: AiBattleResult<bool>)
        ensures
            self.sessions().contains_key(session_id) ==> r == Ok::<bool, AiBattleError>(
                self.sessions()[session_id].ai_thinking,
            ),
            !self.sessions().contains_key(session_id) ==> (r matches Err(
                AiBattleError::GameNotFound { game_id },
            ) && game_id == session_id),
    {
        self.session_manager.is_ai_thinking(session_id)
    }

    /// Computes and applies the opponent's reply on the session: asks the
    /// service for a move, records it with its thinking time, applies it
    /// and advances the turn. A service failure surfaces as an opponent
    /// error and leaves the session untouched.
    fn process_ai_move(&self, session: &mut AiBattleSession) -> (r: AiBattleResult<Position>)
        requires
            old(session).wf(),
            old(session).game_state.current_player == Player::White,
        ensures
            final(session).wf(),
            svc_succeeds(
                self.service(),
                old(session).game_state,
                old(session).ai_difficulty,
            ) ==> (r matches Ok(p) && p == svc_move(
                self.service(),
                old(session).game_state,
                old(session).ai_difficulty,
            ).position && opponent_applied(*old(session), self.service(), *final(session))
                && final(session).ai_thinking == old(session).ai_thinking),
            !svc_succeeds(
                self.service(),
                old(session).game_state,
                old(session).ai_difficulty,
            ) ==> (r matches Err(AiBattleError::AiThinkingError { details }) && details@
                == service_failure_text(
                svc_error_text(
                    self.service(),
                    old(session).game_state,
                    old(session).ai_difficulty,
                ),
            )) && *final(session) == *old(session),
    {
        let ghost pre = *session;
        let ai_result = match self.ai_service.calculate_move(
            &session.game_state,
            session.ai_difficulty,
        ) {
            Ok(result) => result,
            Err(e) => {
                proof {
                    crate::ai::service::lemma_svc_error_text(
                        self.service(),
                        pre.game_state,
                        pre.ai_difficulty,
                        e,
                    );
                }
                let mut details = String::from_str("AI service error: ");
                details.append(e.message().as_str());
                return Err(AiBattleError::AiThinkingError { details });
            },
        };
        let ai_position = ai_result.position;
        proof {
            lemma_valid_moves_members(pre.game_state.board@, Player::White);
            let svc = self.service();
            if svc is Local {
                crate::ai::strategies::lemma_random_index_in_range(
                    pre.game_state.move_history@.len() as int,
                    pre.game_state.current_player,
                    valid_moves_seq(
                        pre.game_state.board@,
                        pre.game_state.current_player,
                    ).len() as int,
                );
            }
            assert(valid_moves_seq(pre.game_state.board@, pre.game_state.current_player).contains(
                ai_position,
            ));
            lemma_valid_moves_members(pre.game_state.board@, pre.game_state.current_player);
            assert(is_legal(pre.game_state.board@, pre.game_state.current_player, ai_position));
        }
        let move_record = MoveRecord::new(
            Player::White,
            ai_position,
            Some(ai_result.thinking_time_ms),
        );
        session.add_move_record(move_record);
        match ReversiRules::apply_move(&mut session.game_state, ai_position) {
            Ok(_) => {},
            Err(e) => {
                return Err(AiBattleError::GameError(e));
            },
        }
        session.game_state.switch_player();
        let _ = ReversiRules::handle_turn(&mut session.game_state);
        if session.game_state.is_finished() {
            let winner = match &session.game_state.game_status {
                crate::game::state::GameStatus::Finished { winner, .. } => *winner,
                _ => None,
            };
            session.status = GameStatus::Finished { winner };
        }
        session.current_player = session.game_state.current_player;
        proof {
            assert(session.move_history@.take(pre.move_history@.len() as int)
                =~= pre.move_history@);
        }
        Ok(ai_position)
    }

    /// Carries out one human move as a single transaction: checks the
    /// session's progress, turn, thinking flag and the move's legality,
    /// applies and advances the game, and where the turn falls to the
    /// opponent drives its reply under the thinking flag. An accepted
    /// human move is never rolled back, whatever the opponent does.
    pub fn make_player_move(&mut self, session_id: u128, position: Position) -> (r:
        AiBattleResult<MoveResponse>)
        requires
            old(self).wf(),
        ensures
            final(self).wf(),
            final(self).service() == old(self).service(),
            final(self).manager().spec_max_sessions() == old(self).manager().spec_max_sessions(),
            !old(self).sessions().contains_key(session_id) ==> (r matches Err(
                AiBattleError::GameNotFound { game_id },
            ) && game_id == session_id) && final(self).sessions() == old(self).sessions(),
            old(self).sessions().contains_key(session_id)
                && old(self).sessions()[session_id].status is Finished ==> (r matches Err(
                AiBattleError::GameAlreadyFinished,
            )) && final(self).sessions() == old(self).sessions(),
            old(self).sessions().contains_key(session_id)
                && !(old(self).sessions()[session_id].status is Finished)
                && old(self).sessions()[session_id].current_player != Player::Black ==> (r
                matches Err(AiBattleError::NotPlayerTurn)) && final(self).sessions() == old(
                self,
            ).sessions(),
            old(self).sessions().contains_key(session_id)
                && !(old(self).sessions()[session_id].status is Finished)
                && old(self).sessions()[session_id].current_player == Player::Black
                && old(self).sessions()[session_id].ai_thinking ==> (r matches Err(
                AiBattleError::AiThinkingError { details },
            ) && details@ == busy_text()) && final(self).sessions() == old(self).sessions(),
            old(self).sessions().contains_key(session_id)
                && !(old(self).sessions()[session_id].status is Finished)
                && old(self).sessions()[session_id].current_player == Player::Black
                && !old(self).sessions()[session_id].ai_thinking
                && !is_legal(
                old(self).sessions()[session_id].game_state.board@,
                Player::Black,
                position,
            ) ==> (r matches Err(AiBattleError::InvalidMove { reason }) && reason@
                == rejected_move_text(position)) && final(self).sessions() == old(
                self,
            ).sessions(),
            old(self).sessions().contains_key(session_id)
                && !(old(self).sessions()[session_id].status is Finished)
                && old(self).sessions()[session_id].current_player == Player::Black
                && !old(self).sessions()[session_id].ai_thinking
                && is_legal(
                old(self).sessions()[session_id].game_state.board@,
                Player::Black,
                position,
            ) ==> exists|mid: AiBattleSession|
                {
                    let ai = old(self).service();
                    &&& #[trigger] human_applied(
                        old(self).sessions()[session_id],
                        position,
                        mid,
                    )
                    &&& mid.ai_thinking == false
                    &&& mid.wf()
                    &&& if mid.game_state.spec_is_finished() {
                        &&& final(self).sessions() == old(self).sessions().insert(session_id, mid)
                        &&& (r matches Ok(resp) && resp.success == true && resp.player_move
                            == position && resp.ai_move is None && (resp.message matches Some(m)
                            && m@ == "Game finished"@) && response_matches(resp.game_state, mid))
                    } else if mid.current_player == Player::Black {
                        &&& final(self).sessions() == old(self).sessions().insert(session_id, mid)
                        &&& (r matches Ok(resp) && resp.success == true && resp.player_move
                            == position && resp.ai_move is None && (resp.message matches Some(m)
                            && m@ == "Player continues, current_player: Black"@)
                            && response_matches(resp.game_state, mid))
                    } else if svc_succeeds(ai, mid.game_state, mid.ai_difficulty) {
                        exists|fin: AiBattleSession|
                            {
                                &&& #[trigger] opponent_applied(mid, ai, fin)
                                &&& fin.ai_thinking == false
                                &&& fin.wf()
                                &&& final(self).sessions() == old(self).sessions().insert(
                                    session_id,
                                    fin,
                                )
                                &&& (r matches Ok(resp) && resp.success == true
                                    && resp.player_move == position && resp.ai_move == Some(
                                    svc_move(ai, mid.game_state, mid.ai_difficulty).position,
                                ) && resp.message is None && response_matches(
                                    resp.game_state,
                                    fin,
                                ))
                            }
                    } else {
                        &&& final(self).sessions() == old(self).sessions().insert(session_id, mid)
                        &&& (r matches Err(AiBattleError::AiThinkingError { details }) && details@
                            == service_failure_text(
                            svc_error_text(ai, mid.game_state, mid.ai_difficulty),
                        ))
                    }
                },
    {
        let mut session = match self.session_manager.get_session(session_id) {
            Ok(session) => session,
            Err(e) => {
                return Err(e);
            },
        };
        if session.is_finished() {
            return Err(AiBattleError::GameAlreadyFinished);
        }
        if !session.is_player_turn() {
            return Err(AiBattleError::NotPlayerTurn);
        }
        if session.ai_thinking {
            return Err(
                AiBattleError::AiThinkingError {
                    details: String::from_str("AI is currently thinking"),
                },
            );
        }
        if !ReversiRules::is_valid_move(
            &session.game_state.board,
            position,
            session.current_player,
        ) {
            let mut reason = String::from_str("Invalid move at position Position { row: ");
            reason.append(usize_to_string(position.row).as_str());
            reason.append(", col: ");
            reason.append(usize_to_string(position.col).as_str());
            reason.append(" }");
            return Err(AiBattleError::InvalidMove { reason });
        }
        let ghost s_pre = session;
        match ReversiRules::apply_move(&mut session.game_state, position) {
            Ok(_) => {},
            Err(e) => {
                return Err(AiBattleError::GameError(e));
            },
        }
        session.game_state.switch_player();
        let _ = ReversiRules::handle_turn(&mut session.game_state);
        if session.game_state.is_finished() {
            let winner = match &session.game_state.game_status {
                crate::game::state::GameStatus::Finished { winner, .. } => *winner,
                _ => None,
            };
            session.status = GameStatus::Finished { winner };
            session.current_player = session.game_state.current_player;
            let response = MoveResponse {
                success: true,
                game_state: AiBattleResponse::from_session(&session),
                player_move: position,
                ai_move: None,
                message: Some(String::from_str("Game finished")),
            };
            let ghost mid = session;
            match self.session_manager.update_session(session) {
                Ok(_) => {},
                Err(e) => {
                    return Err(e);
                },
            }
            proof {
                assert(human_applied(s_pre, position, mid));
            }
            return Ok(response);
        }
        session.current_player = session.game_state.current_player;
        if session.current_player == Player::Black {
            let response = MoveResponse {
                success: true,
                game_state: AiBattleResponse::from_session(&session),
                player_move: position,
                ai_move: None,
                message: Some(String::from_str("Player continues, current_player: Black")),
            };
            let ghost mid = session;
            match self.session_manager.update_session(session) {
                Ok(_) => {},
                Err(e) => {
                    return Err(e);
                },
            }
            proof {
                assert(human_applied(s_pre, position, mid));
            }
            return Ok(response);
        }
        session.ai_thinking = true;
        match self.session_manager.update_session(session) {
            Ok(_) => {},
            Err(e) => {
                return Err(e);
            },
        }
        let mut session = match self.session_manager.get_session(session_id) {
            Ok(session) => session,
            Err(e) => {
                return Err(e);
            },
        };
        let ghost mid = AiBattleSession { ai_thinking: false, ..session };
        match self.process_ai_move(&mut session) {
            Ok(ai_position) => {
                session.ai_thinking = false;
                let response = MoveResponse {
                    success: true,
                    game_state: AiBattleResponse::from_session(&session),
                    player_move: position,
                    ai_move: Some(ai_position),
                    message: None,
                };
                let ghost fin = session;
                match self.session_manager.update_session(session) {
                    Ok(_) => {},
                    Err(e) => {
                        return Err(e);
                    },
                }
                proof {
                    assert(human_applied(s_pre, position, mid));
                    assert(opponent_applied(mid, self.service(), fin));
                }
                Ok(response)
            },
            Err(ai_error) => {
                session.ai_thinking = false;
                let ghost fin = session;
                match self.session_manager.update_session(session) {
                    Ok(_) => {},
                    Err(e) => {
                        return Err(e);
                    },
                }
                proof {
                    assert(human_applied(s_pre, position, mid));
                    assert(fin == mid);
                }
                Err(ai_error)
            },
        }
    }

    /// How many sessions are live.
    pub fn session_count(&self) -> (r: usize)
        ensures
            r == self.sessions().dom().len(),
    {
        self.session_manager.session_count()
    }

    /// A snapshot of the service's load: the live session count against
    /// the ceiling, how many opponents are computing, and the difficulty
    /// distribution.
    pub fn get_service_stats(&self) -> (r: ServiceStats)
        requires
            self.wf(),
        ensures
            r.total_sessions == self.sessions().dom().len(),
            r.max_sessions == self.manager().spec_max_sessions(),
            r.ai_thinking_count == thinking_sessions(self.sessions()).len(),
            r.difficulty_distribution.easy == sessions_at(
                self.sessions(),
                AiDifficulty::Easy,
            ).len(),
            r.difficulty_distribution.medium == sessions_at(
                self.sessions(),
                AiDifficulty::Medium,
            ).len(),
            r.difficulty_distribution.hard == sessions_at(
                self.sessions(),
                AiDifficulty::Hard,
            ).len(),
    {
        let session_stats = self.session_manager.get_stats();
        ServiceStats {
            total_sessions: session_stats.total_sessions,
            max_sessions: session_stats.max_sessions,
            ai_thinking_count: session_stats.ai_thinking_count,
            difficulty_distribution: session_stats.difficulty_counts,
        }
    }

    /// Sweeps out every session idle longer than the registry's timeout,
    /// measured against the clock now; returns how many were removed.
    pub fn cleanup_inactive_sessions(&mut self) -> (r: usize)
        requires
            old(self).wf(),
        ensures
            final(self).wf(),
            final(self).service() == old(self).service(),
            exists|cutoff: i64| #[trigger] swept(old(self).sessions(), final(self).sessions(), cutoff, r as int),
    {
        let now = now_millis();
        let minutes = self.session_manager.timeout_minutes();
        let timeout_ms: i64 = if minutes > 0 {
            if minutes <= i64::MAX / 60000 {
                minutes * 60000
            } else {
                i64::MAX
            }
        } else {
            0
        };
        let cutoff: i64 = if now >= 0 {
            now - timeout_ms
        } else {
            now
        };
        let removed = self.session_manager.cleanup_sessions_older_than(cutoff);
        proof {
            assert(swept(old(self).sessions(), self.sessions(), cutoff, removed as int));
        }
        removed
    }
}

} // verus!
