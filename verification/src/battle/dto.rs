//! The value shapes of the battle layer: difficulties, session state,
//! request and response bodies, and its error taxonomy.

use vstd::prelude::*;
use vstd::string::StringExecFns;

use crate::ai::strategies::Difficulty;
use crate::error::{AIError, GameError};
use crate::game::board::count_cells;
use crate::game::rules::{valid_moves_seq, ReversiRules};
use crate::game::state::GameState;
use crate::game::types::{Cell, Player, Position};
use crate::numerals::{dec_str, u64_to_string};
use crate::platform::{fresh_id, lower_of, lowercase, now_millis};

verus! {

/// The difficulty of the computer opponent, as chosen by a caller.
#[derive(Debug, Clone, Copy, PartialEq, Eq, Structural, Hash)]
pub enum AiDifficulty {
    Easy,
    Medium,
    Hard,
}

impl AiDifficulty {
    /// Returns every difficulty, lowest first.
    pub fn all() -> (r: Vec<AiDifficulty>)
        ensures
            r@ == seq![AiDifficulty::Easy, AiDifficulty::Medium, AiDifficulty::Hard],
    {
        let mut r: Vec<AiDifficulty> = Vec::new();
        r.push(AiDifficulty::Easy);
        r.push(AiDifficulty::Medium);
        r.push(AiDifficulty::Hard);
        proof {
            assert(r@ =~= seq![AiDifficulty::Easy, AiDifficulty::Medium, AiDifficulty::Hard]);
        }
        r
    }

    /// The one-line description of a difficulty.
    pub open spec fn description_str(self) -> Seq<char> {
        match self {
            AiDifficulty::Easy => "初級 - ランダムな手を選択"@,
            AiDifficulty::Medium => "中級 - 基本的な戦略を使用"@,
            AiDifficulty::Hard => "上級 - 高度な先読みを実行"@,
        }
    }

    /// Describes the difficulty in one line.
    pub fn description(&self) -> (r: &'static str)
        ensures
            r@ == self.description_str(),
    {
        match self {
            AiDifficulty::Easy => "初級 - ランダムな手を選択",
            AiDifficulty::Medium => "中級 - 基本的な戦略を使用",
            AiDifficulty::Hard => "上級 - 高度な先読みを実行",
        }
    }

    /// The printed name of a difficulty.
    pub open spec fn name_str(self) -> Seq<char> {
        match self {
            AiDifficulty::Easy => "Easy"@,
            AiDifficulty::Medium => "Medium"@,
            AiDifficulty::Hard => "Hard"@,
        }
    }

    /// Returns the name of the difficulty.
    pub fn name(&self) -> (r: &'static str)
        ensures
            r@ == self.name_str(),
    {
        match self {
            AiDifficulty::Easy => "Easy",
            AiDifficulty::Medium => "Medium",
            AiDifficulty::Hard => "Hard",
        }
    }

    /// Parses a difficulty name without regard to case; rejects anything
    /// but the three known names, naming the valid options.
    pub fn from_name(s: &str) -> (r: Result<AiDifficulty, String>)
        ensures
            lower_of(s@) == "easy"@ ==> r == Ok::<AiDifficulty, String>(AiDifficulty::Easy),
            lower_of(s@) == "medium"@ ==> r == Ok::<AiDifficulty, String>(AiDifficulty::Medium),
            lower_of(s@) == "hard"@ ==> r == Ok::<AiDifficulty, String>(AiDifficulty::Hard),
            lower_of(s@) != "easy"@ && lower_of(s@) != "medium"@ && lower_of(s@) != "hard"@
                ==> (r matches Err(msg) && msg@ == "Invalid difficulty: "@ + s@
                + ". Valid options: easy, medium, hard"@),
    {
        // The three names are pairwise distinct, so at most one branch
        // can answer for a given input.
        proof {
            reveal_strlit("easy");
            reveal_strlit("medium");
            reveal_strlit("hard");
            assert("easy"@.len() == 4);
            assert("medium"@.len() == 6);
            assert("hard"@.len() == 4);
            assert("easy"@[0] == 'e');
            assert("hard"@[0] == 'h');
            assert("easy"@ != "medium"@);
            assert("easy"@ != "hard"@);
            assert("medium"@ != "hard"@);
        }
        let lowered = lowercase(s);
        if lowered == String::from_str("easy") {
            Ok(AiDifficulty::Easy)
        } else if lowered == String::from_str("medium") {
            Ok(AiDifficulty::Medium)
        } else if lowered == String::from_str("hard") {
            Ok(AiDifficulty::Hard)
        } else {
            Err(
                String::from_str("Invalid difficulty: ").concat(s).concat(
                    ". Valid options: easy, medium, hard",
                ),
            )
        }
    }
}

impl core::str::FromStr for AiDifficulty {
    type Err = String;

    fn from_str(s: &str) -> Result<AiDifficulty, String> {
        AiDifficulty::from_name(s)
    }
}

impl From<AiDifficulty> for Difficulty {
    /// Maps a caller-facing difficulty to its strategy tier.
    fn from(difficulty: AiDifficulty) -> (r: Difficulty) {
        match difficulty {
            AiDifficulty::Easy => Difficulty::Beginner,
            AiDifficulty::Medium => Difficulty::Intermediate,
            AiDifficulty::Hard => Difficulty::Advanced,
        }
    }
}

impl vstd::std_specs::convert::FromSpecImpl<AiDifficulty> for Difficulty {
    open spec fn obeys_from_spec() -> bool {
        true
    }

    open spec fn from_spec(difficulty: AiDifficulty) -> Difficulty {
        match difficulty {
            AiDifficulty::Easy => Difficulty::Beginner,
            AiDifficulty::Medium => Difficulty::Intermediate,
            AiDifficulty::Hard => Difficulty::Advanced,
        }
    }
}

impl From<Difficulty> for AiDifficulty {
    /// Maps a strategy tier to the caller-facing difficulty.
    fn from(difficulty: Difficulty) -> (r: AiDifficulty) {
        match difficulty {
            Difficulty::Beginner => AiDifficulty::Easy,
            Difficulty::Intermediate => AiDifficulty::Medium,
            Difficulty::Advanced => AiDifficulty::Hard,
        }
    }
}

impl vstd::std_specs::convert::FromSpecImpl<Difficulty> for AiDifficulty {
    open spec fn obeys_from_spec() -> bool {
        true
    }

    open spec fn from_spec(difficulty: Difficulty) -> AiDifficulty {
        match difficulty {
            Difficulty::Beginner => AiDifficulty::Easy,
            Difficulty::Intermediate => AiDifficulty::Medium,
            Difficulty::Advanced => AiDifficulty::Hard,
        }
    }
}

/// The rejection text for a coordinate outside the board.
pub open spec fn out_of_range_text(row: int, col: int) -> Seq<char> {
    "座標が範囲外です: ("@ + dec_str(row) + ", "@ + dec_str(col) + "). 有効範囲: 0-7"@
}

/// Validates a caller-supplied coordinate pair, naming the valid range on
/// rejection.
pub fn validate_position(row: u8, col: u8) -> (r: Result<Position, String>)
    ensures
        row < 8 && col < 8 ==> r == Ok::<Position, String>(
            Position { row: row as usize, col: col as usize },
        ),
        !(row < 8 && col < 8) ==> (r matches Err(msg) && msg@ == out_of_range_text(
            row as int,
            col as int,
        )),
{
    if row >= 8 || col >= 8 {
        let mut msg = String::from_str("座標が範囲外です: (");
        msg.append(u64_to_string(row as u64).as_str());
        msg.append(", ");
        msg.append(u64_to_string(col as u64).as_str());
        msg.append("). 有効範囲: 0-7");
        return Err(msg);
    }
    Ok(Position { row: row as usize, col: col as usize })
}

/// A log entry of a battle session: who placed where, when, and how long
/// the opponent thought where the entry records an opponent reply.
#[derive(Debug, Clone)]
pub struct MoveRecord {
    pub player: Player,
    pub position: Position,
    pub timestamp: i64,
    pub thinking_time_ms: Option<u64>,
}

impl MoveRecord {
    /// Builds a record stamped with the current time.
    pub fn new(player: Player, position: Position, thinking_time_ms: Option<u64>) -> (r:
        MoveRecord)
        ensures
            r.player == player,
            r.position == position,
            r.thinking_time_ms == thinking_time_ms,
    {
        MoveRecord { player, position, timestamp: now_millis(), thinking_time_ms }
    }

    /// Builds a record from an applied move of the engine's log.
    pub fn from_move(game_move: &crate::game::state::Move, thinking_time_ms: Option<u64>) -> (r:
        MoveRecord)
        ensures
            r.player == game_move.player,
            r.position == game_move.position,
            r.timestamp == game_move.timestamp,
            r.thinking_time_ms == thinking_time_ms,
    {
        MoveRecord {
            player: game_move.player,
            position: game_move.position,
            timestamp: game_move.timestamp,
            thinking_time_ms,
        }
    }
}

/// The progress of a battle session as shown to callers.
#[derive(Debug, Clone, Copy, PartialEq, Eq)]
pub enum GameStatus {
    InProgress,
    Finished { winner: Option<Player> },
}

/// One battle of a human against the computer opponent. The human plays
/// black, the opponent white.
#[derive(Debug, Clone)]
pub struct AiBattleSession {
    pub id: u128,
    pub game_state: GameState,
    pub ai_difficulty: AiDifficulty,
    pub current_player: Player,
    pub ai_thinking: bool,
    pub created_at: i64,
    pub last_move_at: i64,
    pub move_history: Vec<MoveRecord>,
    pub status: GameStatus,
}

impl AiBattleSession {
    /// A session is well formed when its game state is, its mover mirrors
    /// the game state's mover, and its status is finished exactly when the
    /// game state's is.
    pub open spec fn wf(&self) -> bool {
        &&& self.game_state.wf()
        &&& self.current_player == self.game_state.current_player
        &&& (self.status is Finished <==> self.game_state.spec_is_finished())
    }

    /// A freshly created session: a new game, black to move, nobody
    /// thinking, an empty record log.
    pub open spec fn is_initial(&self, difficulty: AiDifficulty) -> bool {
        &&& self.game_state.is_initial()
        &&& self.ai_difficulty == difficulty
        &&& self.current_player == Player::Black
        &&& self.ai_thinking == false
        &&& self.move_history@ == Seq::<MoveRecord>::empty()
        &&& self.status == GameStatus::InProgress
        &&& self.created_at == self.last_move_at
    }

    /// Opens a session at the given difficulty, under a fresh identifier.
    pub fn new(ai_difficulty: AiDifficulty) -> (r: AiBattleSession)
        ensures
            r.wf(),
            r.is_initial(ai_difficulty),
    {
        let now = now_millis();
        let game_state = GameState::new();
        AiBattleSession {
            id: fresh_id(),
            game_state,
            ai_difficulty,
            current_player: Player::Black,
            ai_thinking: false,
            created_at: now,
            last_move_at: now,
            move_history: Vec::new(),
            status: GameStatus::InProgress,
        }
    }

    /// Whether the opponent may reply now: it is white's turn and no reply
    /// is already being computed.
    pub fn is_ai_turn(&self) -> (r: bool)
        ensures
            r == (self.current_player == Player::White && !self.ai_thinking),
    {
        self.current_player == Player::White && !self.ai_thinking
    }

    /// Whether the human may place now.
    pub fn is_player_turn(&self) -> (r: bool)
        ensures
            r == (self.current_player == Player::Black),
    {
        self.current_player == Player::Black
    }

    /// Stamps the session with the current time.
    pub fn update_last_move(&mut self)
        ensures
            final(self).id == old(self).id,
            final(self).game_state == old(self).game_state,
            final(self).ai_difficulty == old(self).ai_difficulty,
            final(self).current_player == old(self).current_player,
            final(self).ai_thinking == old(self).ai_thinking,
            final(self).created_at == old(self).created_at,
            final(self).move_history@ == old(self).move_history@,
            final(self).status == old(self).status,
    {
        self.last_move_at = now_millis();
    }

    /// Appends a record to the session log and stamps the time.
    pub fn add_move_record(&mut self, move_record: MoveRecord)
        ensures
            final(self).move_history@ == old(self).move_history@.push(move_record),
            final(self).id == old(self).id,
            final(self).game_state == old(self).game_state,
            final(self).ai_difficulty == old(self).ai_difficulty,
            final(self).current_player == old(self).current_player,
            final(self).ai_thinking == old(self).ai_thinking,
            final(self).created_at == old(self).created_at,
            final(self).status == old(self).status,
    {
        self.move_history.push(move_record);
        self.update_last_move();
    }

    /// Whether the session's game has been finished.
    pub fn is_finished(&self) -> (r: bool)
        ensures
            r == (self.status is Finished),
    {
        match self.status {
            GameStatus::Finished { .. } => true,
            _ => false,
        }
    }
}

/// A request to open a battle session.
#[derive(Debug)]
pub struct CreateAiBattleRequest {
    pub difficulty: AiDifficulty,
}

/// A request to place the human's piece.
#[derive(Debug)]
pub struct PlayerMoveRequest {
    pub row: u8,
    pub col: u8,
}

/// A request to change the opponent's difficulty.
#[derive(Debug)]
pub struct ChangeDifficultyRequest {
    pub difficulty: AiDifficulty,
}

/// The caller-facing view of a battle session.
#[derive(Debug)]
pub struct AiBattleResponse {
    pub game_id: u128,
    pub board: Vec<Vec<Option<Player>>>,
    pub current_player: Player,
    pub black_count: u8,
    pub white_count: u8,
    pub ai_difficulty: AiDifficulty,
    pub ai_thinking: bool,
    pub status: GameStatus,
    pub valid_moves: Vec<Position>,
    pub move_count: u32,
}

/// The owner of a cell, `None` for an empty square.
pub open spec fn cell_owner(c: Cell) -> Option<Player> {
    match c {
        Cell::Empty => None,
        Cell::Black => Some(Player::Black),
        Cell::White => Some(Player::White),
    }
}

/// What a faithful view of `session` holds: the board as an 8x8 owner
/// matrix, the tallies, the legal moves of the current player (none once
/// finished) and the session's own fields.
pub open spec fn response_matches(r: AiBattleResponse, session: AiBattleSession) -> bool {
    &&& r.game_id == session.id
    &&& r.board@.len() == 8
    &&& forall|i: int| 0 <= i < 8 ==> (#[trigger] r.board@[i])@.len() == 8
    &&& forall|i: int, j: int| 0 <= i < 8 && 0 <= j < 8 ==> (#[trigger] r.board@[i]@[j])
        == cell_owner(session.game_state.board@[i * 8 + j])
    &&& r.current_player == session.current_player
    &&& r.black_count == count_cells(session.game_state.board@, Cell::Black)
    &&& r.white_count == count_cells(session.game_state.board@, Cell::White)
    &&& r.ai_difficulty == session.ai_difficulty
    &&& r.ai_thinking == session.ai_thinking
    &&& r.status == session.status
    &&& r.valid_moves@ == if session.status is Finished {
        Seq::<Position>::empty()
    } else {
        valid_moves_seq(session.game_state.board@, session.current_player)
    }
    &&& r.move_count == session.game_state.move_history@.len() as u32
}

impl AiBattleResponse {
    /// Builds the caller-facing view of a session.
    pub fn from_session(session: &AiBattleSession) -> (r: AiBattleResponse)
        requires
            session.wf(),
        ensures
            response_matches(r, *session),
    {
        let mut board: Vec<Vec<Option<Player>>> = Vec::new();
        let mut row: usize = 0;
        while row < 8
            invariant
                session.wf(),
                row <= 8,
                board@.len() == row,
                forall|i: int| 0 <= i < row ==> (#[trigger] board@[i])@.len() == 8,
                forall|i: int, j: int| 0 <= i < row && 0 <= j < 8 ==> (#[trigger] board@[i]@[j])
                    == cell_owner(session.game_state.board@[i * 8 + j]),
            decreases 8 - row,
        {
            let mut line: Vec<Option<Player>> = Vec::new();
            let mut col: usize = 0;
            while col < 8
                invariant
                    session.wf(),
                    row < 8,
                    col <= 8,
                    line@.len() == col,
                    forall|j: int| 0 <= j < col ==> (#[trigger] line@[j]) == cell_owner(
                        session.game_state.board@[row as int * 8 + j],
                    ),
                decreases 8 - col,
            {
                let cell = match session.game_state.board.get_cell(Position { row, col }) {
                    Some(cell) => cell,
                    None => Cell::Empty,
                };
                line.push(
                    match cell {
                        Cell::Empty => None,
                        Cell::Black => Some(Player::Black),
                        Cell::White => Some(Player::White),
                    },
                );
                col += 1;
            }
            board.push(line);
            row += 1;
        }
        let valid_moves = if session.is_finished() {
            Vec::new()
        } else {
            ReversiRules::get_valid_moves(&session.game_state.board, session.current_player)
        };
        let (black_count, white_count) = session.game_state.get_score();
        AiBattleResponse {
            game_id: session.id,
            board,
            current_player: session.current_player,
            black_count,
            white_count,
            ai_difficulty: session.ai_difficulty,
            ai_thinking: session.ai_thinking,
            status: session.status,
            valid_moves,
            move_count: #[verifier::truncate] (session.game_state.get_move_count() as u32),
        }
    }
}

/// The outcome of a human move: the updated view, the placement, and the
/// opponent's reply where one was computed.
#[derive(Debug)]
pub struct MoveResponse {
    pub success: bool,
    pub game_state: AiBattleResponse,
    pub player_move: Position,
    pub ai_move: Option<Position>,
    pub message: Option<String>,
}

/// A snapshot of every live session.
#[derive(Debug)]
pub struct SessionListResponse {
    pub sessions: Vec<SessionSummary>,
    pub total_count: usize,
}

/// The one-line summary of a session.
#[derive(Debug, Clone)]
pub struct SessionSummary {
    pub game_id: u128,
    pub ai_difficulty: AiDifficulty,
    pub status: GameStatus,
    pub created_at: i64,
    pub last_move_at: i64,
    pub move_count: u32,
}

impl SessionSummary {
    /// Summarizes a session in one line.
    pub fn from_session(session: &AiBattleSession) -> (r: SessionSummary)
        ensures
            r.game_id == session.id,
            r.ai_difficulty == session.ai_difficulty,
            r.status == session.status,
            r.created_at == session.created_at,
            r.last_move_at == session.last_move_at,
            r.move_count == session.game_state.move_history@.len() as u32,
    {
        SessionSummary {
            game_id: session.id,
            ai_difficulty: session.ai_difficulty,
            status: session.status,
            created_at: session.created_at,
            last_move_at: session.last_move_at,
            move_count: #[verifier::truncate] (session.game_state.get_move_count() as u32),
        }
    }
}

/// The ordered move log of a session.
#[derive(Debug)]
pub struct MoveHistoryResponse {
    pub game_id: u128,
    pub moves: Vec<MoveRecord>,
    pub total_moves: usize,
}

/// A difficulty with its name and description.
#[derive(Debug)]
pub struct DifficultyInfo {
    pub id: AiDifficulty,
    pub name: &'static str,
    pub description: &'static str,
}

impl From<AiDifficulty> for DifficultyInfo {
    /// Pairs a difficulty with its name and description.
    fn from(difficulty: AiDifficulty) -> (r: DifficultyInfo) {
        DifficultyInfo {
            id: difficulty,
            name: difficulty.name(),
            description: difficulty.description(),
        }
    }
}

impl vstd::std_specs::convert::FromSpecImpl<AiDifficulty> for DifficultyInfo {
    open spec fn obeys_from_spec() -> bool {
        false
    }

    open spec fn from_spec(difficulty: AiDifficulty) -> DifficultyInfo {
        arbitrary()
    }
}

/// The list of every difficulty with its description.
#[derive(Debug)]
pub struct DifficultiesResponse {
    pub difficulties: Vec<DifficultyInfo>,
}

impl DifficultiesResponse {
    /// Lists every difficulty, lowest first, each with its name and
    /// description.
    pub fn new() -> (r: DifficultiesResponse)
        ensures
            r.difficulties@.len() == 3,
            r.difficulties@[0].id == AiDifficulty::Easy,
            r.difficulties@[1].id == AiDifficulty::Medium,
            r.difficulties@[2].id == AiDifficulty::Hard,
            forall|i: int| 0 <= i < 3 ==> (#[trigger] r.difficulties@[i]).name@
                == r.difficulties@[i].id.name_str() && r.difficulties@[i].description@
                == r.difficulties@[i].id.description_str(),
    {
        let mut difficulties: Vec<DifficultyInfo> = Vec::new();
        let easy = AiDifficulty::Easy;
        difficulties.push(DifficultyInfo { id: easy, name: easy.name(), description: easy.description() });
        let medium = AiDifficulty::Medium;
        difficulties.push(DifficultyInfo { id: medium, name: medium.name(), description: medium.description() });
        let hard = AiDifficulty::Hard;
        difficulties.push(DifficultyInfo { id: hard, name: hard.name(), description: hard.description() });
        DifficultiesResponse { difficulties }
    }
}

/// The body of an error reply: a stable code, a message and a timestamp.
#[derive(Debug)]
pub struct ErrorResponse {
    pub error: String,
    pub message: String,
    pub timestamp: i64,
    pub error_code: Option<String>,
}

impl ErrorResponse {
    /// Builds an error body without a code, stamped with the current time.
    pub fn new(error: &str, message: &str) -> (r: ErrorResponse)
        ensures
            r.error@ == error@,
            r.message@ == message@,
            r.error_code is None,
    {
        ErrorResponse {
            error: String::from_str(error),
            message: String::from_str(message),
            timestamp: now_millis(),
            error_code: None,
        }
    }

    /// Builds an error body carrying a stable code.
    pub fn with_code(error: &str, message: &str, code: &str) -> (r: ErrorResponse)
        ensures
            r.error@ == error@,
            r.message@ == message@,
            r.error_code matches Some(c) && c@ == code@,
    {
        ErrorResponse {
            error: String::from_str(error),
            message: String::from_str(message),
            timestamp: now_millis(),
            error_code: Some(String::from_str(code)),
        }
    }
}

/// The errors of the battle layer.
#[derive(Debug)]
pub enum AiBattleError {
    GameNotFound { game_id: u128 },
    InvalidMove { reason: String },
    NotPlayerTurn,
    InvalidDifficulty { difficulty: String },
    MaxSessionsReached { max: usize },
    AiThinkingError { details: String },
    GameAlreadyFinished,
    BadRequest { details: String },
    InternalError { details: String },
    GameError(GameError),
    AIError(AIError),
}

impl AiBattleError {
    /// The stable code of each error.
    pub fn error_code(&self) -> (r: &'static str)
        ensures
            r@ == match self {
                AiBattleError::GameNotFound { .. } => "GAME_NOT_FOUND"@,
                AiBattleError::InvalidMove { .. } => "INVALID_MOVE"@,
                AiBattleError::NotPlayerTurn => "NOT_PLAYER_TURN"@,
                AiBattleError::InvalidDifficulty { .. } => "INVALID_DIFFICULTY"@,
                AiBattleError::MaxSessionsReached { .. } => "MAX_SESSIONS_REACHED"@,
                AiBattleError::AiThinkingError { .. } => "AI_THINKING_ERROR"@,
                AiBattleError::GameAlreadyFinished => "GAME_ALREADY_FINISHED"@,
                AiBattleError::BadRequest { .. } => "BAD_REQUEST"@,
                AiBattleError::InternalError { .. } => "INTERNAL_ERROR"@,
                AiBattleError::GameError(_) => "GAME_ERROR"@,
                AiBattleError::AIError(_) => "AI_ERROR"@,
            },
    {
        match self {
            AiBattleError::GameNotFound { .. } => "GAME_NOT_FOUND",
            AiBattleError::InvalidMove { .. } => "INVALID_MOVE",
            AiBattleError::NotPlayerTurn => "NOT_PLAYER_TURN",
            AiBattleError::InvalidDifficulty { .. } => "INVALID_DIFFICULTY",
            AiBattleError::MaxSessionsReached { .. } => "MAX_SESSIONS_REACHED",
            AiBattleError::AiThinkingError { .. } => "AI_THINKING_ERROR",
            AiBattleError::GameAlreadyFinished => "GAME_ALREADY_FINISHED",
            AiBattleError::BadRequest { .. } => "BAD_REQUEST",
            AiBattleError::InternalError { .. } => "INTERNAL_ERROR",
            AiBattleError::GameError(_) => "GAME_ERROR",
            AiBattleError::AIError(_) => "AI_ERROR",
        }
    }

    /// The HTTP status each error maps to.
    pub fn status_code(&self) -> (r: u16)
        ensures
            r == match self {
                AiBattleError::GameNotFound { .. } => 404u16,
                AiBattleError::InvalidMove { .. } => 400u16,
                AiBattleError::NotPlayerTurn => 403u16,
                AiBattleError::InvalidDifficulty { .. } => 400u16,
                AiBattleError::MaxSessionsReached { .. } => 429u16,
                AiBattleError::AiThinkingError { .. } => 500u16,
                AiBattleError::GameAlreadyFinished => 400u16,
                AiBattleError::BadRequest { .. } => 400u16,
                AiBattleError::InternalError { .. } => 500u16,
                AiBattleError::GameError(_) => 400u16,
                AiBattleError::AIError(_) => 500u16,
            },
    {
        match self {
            AiBattleError::GameNotFound { .. } => 404,
            AiBattleError::InvalidMove { .. } => 400,
            AiBattleError::NotPlayerTurn => 403,
            AiBattleError::InvalidDifficulty { .. } => 400,
            AiBattleError::MaxSessionsReached { .. } => 429,
            AiBattleError::AiThinkingError { .. } => 500,
            AiBattleError::GameAlreadyFinished => 400,
            AiBattleError::BadRequest { .. } => 400,
            AiBattleError::InternalError { .. } => 500,
            AiBattleError::GameError(_) => 400,
            AiBattleError::AIError(_) => 500,
        }
    }
}

/// A result whose error is a battle-layer error.
pub type AiBattleResult<T> = Result<T, AiBattleError>;

} // verus!
