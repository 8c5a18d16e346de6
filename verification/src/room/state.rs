//! The state of a room.

use std::collections::VecDeque;

use vstd::hash_map::StringHashMap;
use vstd::prelude::*;

use crate::collections::{opt_view, views, SeatMap, StrMap};
use crate::db::models::{NewMatchEventRecord, NewMatchEventRecordModel};
use crate::proto::client::{
    ActionKind, ClaimAction, ClaimActionModel, DeclareWinAction, FinalStanding, FinalStandingModel,
    GamePhase, PlayerStatus, PromptOption, PromptOptionModel, RoomConfig, RoomConfigModel, Seat,
    ServerFrame, ServerFrameModel, Tile,
};
use crate::room::hand::{PlayerRoundState, PlayerRoundStateModel};
use crate::room::load_test::{LoadTestRoomResult, LoadTestRoomResultModel};

verus! {

/// How long a player who lost the connection may take to come back.
pub const RECONNECT_GRACE_MS: u64 = 30_000;

/// The score that every player starts with.
pub const INITIAL_SCORE: i64 = 25_000;

/// How many tiles are set apart for replacement draws.
pub const DEAD_WALL_TILE_COUNT: usize = 14;

/// How many hands a match has.
pub const MATCH_TOTAL_HANDS: u32 = 4;

/// How many tiles each player is dealt.
pub const STARTING_HAND_LEN: usize = 13;

/// How long a settled hand stays on show before the next one starts.
pub const POST_ROUND_DELAY_MS: u64 = 300;

/// How a room runs.
#[derive(Clone, Copy, Debug, PartialEq, Eq, Structural)]
pub enum RoomRuntimeMode {
    /// With rule checks, broadcasts and stored events.
    Production,
    /// The bare state machine, for load tests inside one process.
    LoadTest,
}

impl RoomRuntimeMode {
    pub fn emits_network_frames(self) -> (r: bool)
        ensures
            r == (self is Production),
    {
        match self {
            RoomRuntimeMode::Production => true,
            RoomRuntimeMode::LoadTest => false,
        }
    }

    pub fn persists_events(self) -> (r: bool)
        ensures
            r == (self is Production),
    {
        match self {
            RoomRuntimeMode::Production => true,
            RoomRuntimeMode::LoadTest => false,
        }
    }
}

/// Where the wall of a hand comes from.
pub enum WallFactory {
    /// Shuffled anew for every hand.
    Shuffled,
    /// Shuffled from a number, so that the same room deals the same walls again.
    Seeded(u64),
    /// The same tiles in the same order for every hand.
    Fixed(Vec<Tile>),
}

/// The contents of a [`WallFactory`].
#[verifier::ext_equal]
pub enum WallFactoryModel {
    Shuffled,
    Seeded(u64),
    Fixed(Seq<Tile>),
}

impl View for WallFactory {
    type V = WallFactoryModel;

    open spec fn view(&self) -> WallFactoryModel {
        match self {
            WallFactory::Shuffled => WallFactoryModel::Shuffled,
            WallFactory::Seeded(seed) => WallFactoryModel::Seeded(*seed),
            WallFactory::Fixed(tiles) => WallFactoryModel::Fixed(tiles@),
        }
    }
}

/// The answers that one seat may give to a claim window.
#[derive(Debug, PartialEq, Eq)]
pub struct PromptOptions {
    pub items: Vec<PromptOption>,
}

impl View for PromptOptions {
    type V = Seq<PromptOptionModel>;

    open spec fn view(&self) -> Seq<PromptOptionModel> {
        views(self.items@)
    }
}

/// What a seat answered to a claim window.
#[derive(Debug, PartialEq, Eq)]
pub enum ClaimResponse {
    Pass,
    Claim(ClaimAction),
    DeclareWin(DeclareWinAction),
}

/// The contents of a [`ClaimResponse`].
#[verifier::ext_equal]
pub enum ClaimResponseModel {
    Pass,
    Claim(ClaimActionModel),
    DeclareWin(DeclareWinAction),
}

impl View for ClaimResponse {
    type V = ClaimResponseModel;

    open spec fn view(&self) -> ClaimResponseModel {
        match self {
            ClaimResponse::Pass => ClaimResponseModel::Pass,
            ClaimResponse::Claim(claim) => ClaimResponseModel::Claim(claim@),
            ClaimResponse::DeclareWin(win) => ClaimResponseModel::DeclareWin(*win),
        }
    }
}

impl Clone for ClaimResponse {
    fn clone(&self) -> (r: Self)
        ensures
            r@ == self@,
    {
        match self {
            ClaimResponse::Pass => ClaimResponse::Pass,
            ClaimResponse::Claim(claim) => ClaimResponse::Claim(claim.clone()),
            ClaimResponse::DeclareWin(win) => ClaimResponse::DeclareWin(*win),
        }
    }
}

/// Which wall a tile is drawn from.
#[derive(Clone, Copy, Debug, PartialEq, Eq, Structural)]
pub enum DrawSource {
    LiveWall,
    DeadWall,
}

/// Something that a room wants done outside of it.
#[derive(Debug, PartialEq, Eq)]
pub enum RoomOutput {
    /// Send a frame to a connection.
    Send(String, ServerFrame),
    /// Store an event of the match.
    Persist(NewMatchEventRecord),
    /// Hand in the timeout of a claim window after so many milliseconds.
    ScheduleClaimTimeout(u64, u64),
    /// Hand in the end of a settled hand after so many milliseconds.
    SchedulePostRound(u32, u64),
    /// Report how a load test went.
    FinishLoadTest(LoadTestRoomResult),
}

/// The contents of a [`RoomOutput`].
#[verifier::ext_equal]
pub enum RoomOutputModel {
    Send(Seq<char>, ServerFrameModel),
    Persist(NewMatchEventRecordModel),
    ScheduleClaimTimeout(u64, u64),
    SchedulePostRound(u32, u64),
    FinishLoadTest(LoadTestRoomResultModel),
}

impl View for RoomOutput {
    type V = RoomOutputModel;

    open spec fn view(&self) -> RoomOutputModel {
        match self {
            RoomOutput::Send(connection_id, frame) => RoomOutputModel::Send(
                connection_id@,
                frame@,
            ),
            RoomOutput::Persist(event) => RoomOutputModel::Persist(event@),
            RoomOutput::ScheduleClaimTimeout(window, delay) => {
                RoomOutputModel::ScheduleClaimTimeout(*window, *delay)
            },
            RoomOutput::SchedulePostRound(hand, delay) => RoomOutputModel::SchedulePostRound(
                *hand,
                *delay,
            ),
            RoomOutput::FinishLoadTest(result) => RoomOutputModel::FinishLoadTest(result@),
        }
    }
}

/// Who may take which seat, as the gateway has confirmed it.
#[derive(Debug, PartialEq, Eq)]
pub struct AuthorizedJoin {
    pub user_id: String,
    pub display_name: String,
    pub seat: Seat,
}

/// The contents of a [`AuthorizedJoin`].
#[verifier::ext_equal]
pub struct AuthorizedJoinModel {
    pub user_id: Seq<char>,
    pub display_name: Seq<char>,
    pub seat: Seat,
}

impl View for AuthorizedJoin {
    type V = AuthorizedJoinModel;

    open spec fn view(&self) -> AuthorizedJoinModel {
        AuthorizedJoinModel {
            user_id: self.user_id@,
            display_name: self.display_name@,
            seat: self.seat,
        }
    }
}

impl Clone for AuthorizedJoin {
    fn clone(&self) -> (r: Self)
        ensures
            r@ == self@,
    {
        AuthorizedJoin {
            user_id: self.user_id.clone(),
            display_name: self.display_name.clone(),
            seat: self.seat,
        }
    }
}

/// A seated player. Frames go to the connection that the slot names.
#[derive(Debug, PartialEq, Eq)]
pub struct PlayerSlot {
    pub user_id: String,
    pub display_name: String,
    pub seat: Seat,
    pub status: PlayerStatus,
    pub score: i64,
    pub connected: bool,
    pub auto_play_enabled: bool,
    pub connection_id: Option<String>,
    pub resume_token: String,
}

/// The contents of a [`PlayerSlot`].
#[verifier::ext_equal]
pub struct PlayerSlotModel {
    pub user_id: Seq<char>,
    pub display_name: Seq<char>,
    pub seat: Seat,
    pub status: PlayerStatus,
    pub score: i64,
    pub connected: bool,
    pub auto_play_enabled: bool,
    pub connection_id: Option<Seq<char>>,
    pub resume_token: Seq<char>,
}

impl View for PlayerSlot {
    type V = PlayerSlotModel;

    open spec fn view(&self) -> PlayerSlotModel {
        PlayerSlotModel {
            user_id: self.user_id@,
            display_name: self.display_name@,
            seat: self.seat,
            status: self.status,
            score: self.score,
            connected: self.connected,
            auto_play_enabled: self.auto_play_enabled,
            connection_id: opt_view(self.connection_id),
            resume_token: self.resume_token@,
        }
    }
}

impl Clone for PlayerSlot {
    fn clone(&self) -> (r: Self)
        ensures
            r@ == self@,
    {
        PlayerSlot {
            user_id: self.user_id.clone(),
            display_name: self.display_name.clone(),
            seat: self.seat,
            status: self.status,
            score: self.score,
            connected: self.connected,
            auto_play_enabled: self.auto_play_enabled,
            connection_id: self.connection_id.clone(),
            resume_token: self.resume_token.clone(),
        }
    }
}

/// An action that took effect.
#[derive(Clone, Copy, Debug, PartialEq, Eq, Structural)]
pub struct ResolvedActionRecord {
    pub event_seq: u64,
    pub actor_seat: Seat,
    pub action_kind: ActionKind,
    pub tile: Option<Tile>,
    pub replacement_draw: bool,
    pub rob_kong_candidate: bool,
}

/// An open claim window. It is bound to the public action that opened it.
pub struct ActiveClaimWindowState {
    pub action_window_id: u64,
    pub source_event_seq: u64,
    pub source_seat: Seat,
    pub target_tile: Tile,
    pub trigger_action_kind: ActionKind,
    pub eligible_seats: Vec<Seat>,
    pub options_by_seat: SeatMap<PromptOptions>,
    pub responded_seats: SeatMap<ClaimResponse>,
    pub deadline_unix_ms: u64,
}

/// The contents of a [`ActiveClaimWindowState`].
#[verifier::ext_equal]
pub struct ActiveClaimWindowStateModel {
    pub action_window_id: u64,
    pub source_event_seq: u64,
    pub source_seat: Seat,
    pub target_tile: Tile,
    pub trigger_action_kind: ActionKind,
    pub eligible_seats: Seq<Seat>,
    pub options_by_seat: SeatMap<Seq<PromptOptionModel>>,
    pub responded_seats: SeatMap<ClaimResponseModel>,
    pub deadline_unix_ms: u64,
}

impl View for ActiveClaimWindowState {
    type V = ActiveClaimWindowStateModel;

    open spec fn view(&self) -> ActiveClaimWindowStateModel {
        ActiveClaimWindowStateModel {
            action_window_id: self.action_window_id,
            source_event_seq: self.source_event_seq,
            source_seat: self.source_seat,
            target_tile: self.target_tile,
            trigger_action_kind: self.trigger_action_kind,
            eligible_seats: self.eligible_seats@,
            options_by_seat: self.options_by_seat@,
            responded_seats: self.responded_seats@,
            deadline_unix_ms: self.deadline_unix_ms,
        }
    }
}


/// The running hand: its walls, its window and its last action.
pub struct RoundRuntimeState {
    pub live_wall: VecDeque<Tile>,
    pub dead_wall: VecDeque<Tile>,
    pub active_claim_window: Option<ActiveClaimWindowState>,
    pub last_resolved_action: Option<ResolvedActionRecord>,
    pub turn_index: u32,
    pub replacement_draw_pending: bool,
}

/// The contents of a [`RoundRuntimeState`].
#[verifier::ext_equal]
pub struct RoundRuntimeStateModel {
    pub live_wall: Seq<Tile>,
    pub dead_wall: Seq<Tile>,
    pub active_claim_window: Option<ActiveClaimWindowStateModel>,
    pub last_resolved_action: Option<ResolvedActionRecord>,
    pub turn_index: u32,
    pub replacement_draw_pending: bool,
}

impl View for RoundRuntimeState {
    type V = RoundRuntimeStateModel;

    open spec fn view(&self) -> RoundRuntimeStateModel {
        RoundRuntimeStateModel {
            live_wall: self.live_wall@,
            dead_wall: self.dead_wall@,
            active_claim_window: opt_view(self.active_claim_window),
            last_resolved_action: self.last_resolved_action,
            turn_index: self.turn_index,
            replacement_draw_pending: self.replacement_draw_pending,
        }
    }
}


/// One player's tally over a match.
#[derive(Clone, Copy, Debug, PartialEq, Eq, Structural)]
pub struct MatchPlayerStats {
    pub rounds_won: u32,
    pub self_draw_wins: u32,
}

/// The outcome of a finished match, kept for players who come back.
#[derive(Debug, PartialEq, Eq)]
pub struct MatchSettlementSummary {
    pub event_seq: u64,
    pub standings: Vec<FinalStanding>,
    pub finished_at_unix_ms: u64,
}

/// The contents of a [`MatchSettlementSummary`].
#[verifier::ext_equal]
pub struct MatchSettlementSummaryModel {
    pub event_seq: u64,
    pub standings: Seq<FinalStandingModel>,
    pub finished_at_unix_ms: u64,
}

impl View for MatchSettlementSummary {
    type V = MatchSettlementSummaryModel;

    open spec fn view(&self) -> MatchSettlementSummaryModel {
        MatchSettlementSummaryModel {
            event_seq: self.event_seq,
            standings: views(self.standings@),
            finished_at_unix_ms: self.finished_at_unix_ms,
        }
    }
}

impl Clone for MatchSettlementSummary {
    fn clone(&self) -> (r: Self)
        ensures
            r@ == self@,
    {
        MatchSettlementSummary {
            event_seq: self.event_seq,
            standings: self.standings.clone(),
            finished_at_unix_ms: self.finished_at_unix_ms,
        }
    }
}

/// The running match.
pub struct MatchRuntimeState {
    pub total_hands: u32,
    pub completed_hands: u32,
    pub player_stats: SeatMap<MatchPlayerStats>,
    pub last_round_winner: Option<Seat>,
    pub last_round_self_draw: bool,
    pub last_match_settlement: Option<MatchSettlementSummary>,
}

/// The contents of a [`MatchRuntimeState`].
#[verifier::ext_equal]
pub struct MatchRuntimeStateModel {
    pub total_hands: u32,
    pub completed_hands: u32,
    pub player_stats: SeatMap<MatchPlayerStats>,
    pub last_round_winner: Option<Seat>,
    pub last_round_self_draw: bool,
    pub last_match_settlement: Option<MatchSettlementSummaryModel>,
}

impl View for MatchRuntimeState {
    type V = MatchRuntimeStateModel;

    open spec fn view(&self) -> MatchRuntimeStateModel {
        MatchRuntimeStateModel {
            total_hands: self.total_hands,
            completed_hands: self.completed_hands,
            player_stats: self.player_stats,
            last_round_winner: self.last_round_winner,
            last_round_self_draw: self.last_round_self_draw,
            last_match_settlement: opt_view(self.last_match_settlement),
        }
    }
}


/// A room. One owner handles one command at a time; what is to be sent, stored or scheduled is put into the outbox.
pub struct RoomState {
    pub room_id: String,
    pub match_id: String,
    pub room_config: RoomConfig,
    pub wall_factory: WallFactory,
    pub runtime_mode: RoomRuntimeMode,
    pub should_shutdown: bool,
    pub phase: GamePhase,
    pub prevailing_wind: Seat,
    pub dealer_seat: Seat,
    pub current_turn_seat: Seat,
    pub hand_number: u32,
    pub dealer_streak: u32,
    pub wall_tiles_remaining: u32,
    pub dead_wall_tiles_remaining: u32,
    pub next_event_seq: u64,
    pub next_action_window_id: u64,
    pub players_by_seat: SeatMap<PlayerSlot>,
    pub player_round_state: SeatMap<PlayerRoundState>,
    pub round_runtime: Option<RoundRuntimeState>,
    pub match_runtime: MatchRuntimeState,
    pub user_to_seat: StringHashMap<Seat>,
    pub connection_to_user: StrMap<String>,
    pub outbox: Vec<RoomOutput>,
}

/// The contents of a [`RoomState`].
#[verifier::ext_equal]
pub struct RoomStateModel {
    pub room_id: Seq<char>,
    pub match_id: Seq<char>,
    pub room_config: RoomConfigModel,
    pub wall_factory: WallFactoryModel,
    pub runtime_mode: RoomRuntimeMode,
    pub should_shutdown: bool,
    pub phase: GamePhase,
    pub prevailing_wind: Seat,
    pub dealer_seat: Seat,
    pub current_turn_seat: Seat,
    pub hand_number: u32,
    pub dealer_streak: u32,
    pub wall_tiles_remaining: u32,
    pub dead_wall_tiles_remaining: u32,
    pub next_event_seq: u64,
    pub next_action_window_id: u64,
    pub players_by_seat: SeatMap<PlayerSlotModel>,
    pub player_round_state: SeatMap<PlayerRoundStateModel>,
    pub round_runtime: Option<RoundRuntimeStateModel>,
    pub match_runtime: MatchRuntimeStateModel,
    pub user_to_seat: Map<Seq<char>, Seat>,
    pub connection_to_user: Map<Seq<char>, Seq<char>>,
    pub outbox: Seq<RoomOutputModel>,
}

impl View for RoomState {
    type V = RoomStateModel;

    open spec fn view(&self) -> RoomStateModel {
        RoomStateModel {
            room_id: self.room_id@,
            match_id: self.match_id@,
            room_config: self.room_config@,
            wall_factory: self.wall_factory@,
            runtime_mode: self.runtime_mode,
            should_shutdown: self.should_shutdown,
            phase: self.phase,
            prevailing_wind: self.prevailing_wind,
            dealer_seat: self.dealer_seat,
            current_turn_seat: self.current_turn_seat,
            hand_number: self.hand_number,
            dealer_streak: self.dealer_streak,
            wall_tiles_remaining: self.wall_tiles_remaining,
            dead_wall_tiles_remaining: self.dead_wall_tiles_remaining,
            next_event_seq: self.next_event_seq,
            next_action_window_id: self.next_action_window_id,
            players_by_seat: self.players_by_seat@,
            player_round_state: self.player_round_state@,
            round_runtime: opt_view(self.round_runtime),
            match_runtime: self.match_runtime@,
            user_to_seat: self.user_to_seat@,
            connection_to_user: self.connection_to_user@,
            outbox: views(self.outbox@),
        }
    }
}


} // verus!
