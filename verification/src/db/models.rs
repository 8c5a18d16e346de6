//! Record types, close to the tables they are stored in.

use vstd::prelude::*;

use crate::collections::{opt_view, views};
use crate::json::{Json, JsonModel};
use crate::text::same_text;

verus! {

/// The status of a lobby room.
#[derive(Clone, Copy, Debug, PartialEq, Eq, Structural)]
pub enum RoomStatusRecord {
    Waiting,
    Active,
    Closed,
}

impl RoomStatusRecord {
    /// The word that stands for the status in the database.
    pub open spec fn word(self) -> Seq<char> {
        match self {
            RoomStatusRecord::Waiting => "waiting"@,
            RoomStatusRecord::Active => "active"@,
            RoomStatusRecord::Closed => "closed"@,
        }
    }

    pub fn as_db_str(self) -> (r: &'static str)
        ensures
            r@ == self.word(),
    {
        match self {
            RoomStatusRecord::Waiting => "waiting",
            RoomStatusRecord::Active => "active",
            RoomStatusRecord::Closed => "closed",
        }
    }

    /// The status that a word stands for: the one with that word, and none for any other.
    pub fn from_db_str(value: &str) -> (r: Option<RoomStatusRecord>)
        ensures
            r matches Some(status) ==> status.word() == value@,
            r is None ==> forall|status: RoomStatusRecord| #[trigger] status.word() != value@,
            forall|status: RoomStatusRecord| #[trigger] status.word() == value@ ==> r == Some(status),
    {
        proof {
            reveal_strlit("waiting");
            reveal_strlit("active");
            reveal_strlit("closed");
            assert("waiting"@[0] == 'w' && "waiting"@[1] == 'a');
            assert("active"@[0] == 'a' && "active"@[1] == 'c');
            assert("closed"@[0] == 'c' && "closed"@[1] == 'l');
        }
        if same_text(value, "waiting") {
            return Some(RoomStatusRecord::Waiting);
        }
        if same_text(value, "active") {
            return Some(RoomStatusRecord::Active);
        }
        if same_text(value, "closed") {
            return Some(RoomStatusRecord::Closed);
        }
        None
    }
}

/// The status of a match.
#[derive(Clone, Copy, Debug, PartialEq, Eq, Structural)]
pub enum MatchStatusRecord {
    Waiting,
    Active,
    Finished,
    Aborted,
}

impl MatchStatusRecord {
    /// The word that stands for the status in the database.
    pub open spec fn word(self) -> Seq<char> {
        match self {
            MatchStatusRecord::Waiting => "waiting"@,
            MatchStatusRecord::Active => "active"@,
            MatchStatusRecord::Finished => "finished"@,
            MatchStatusRecord::Aborted => "aborted"@,
        }
    }

    pub fn as_db_str(self) -> (r: &'static str)
        ensures
            r@ == self.word(),
    {
        match self {
            MatchStatusRecord::Waiting => "waiting",
            MatchStatusRecord::Active => "active",
            MatchStatusRecord::Finished => "finished",
            MatchStatusRecord::Aborted => "aborted",
        }
    }

    /// The status that a word stands for: the one with that word, and none for any other.
    pub fn from_db_str(value: &str) -> (r: Option<MatchStatusRecord>)
        ensures
            r matches Some(status) ==> status.word() == value@,
            r is None ==> forall|status: MatchStatusRecord| #[trigger] status.word() != value@,
            forall|status: MatchStatusRecord| #[trigger] status.word() == value@ ==> r == Some(status),
    {
        proof {
            reveal_strlit("waiting");
            reveal_strlit("active");
            reveal_strlit("finished");
            reveal_strlit("aborted");
            assert("waiting"@[0] == 'w' && "waiting"@[1] == 'a');
            assert("active"@[0] == 'a' && "active"@[1] == 'c');
            assert("finished"@[0] == 'f' && "finished"@[1] == 'i');
            assert("aborted"@[0] == 'a' && "aborted"@[1] == 'b');
        }
        if same_text(value, "waiting") {
            return Some(MatchStatusRecord::Waiting);
        }
        if same_text(value, "active") {
            return Some(MatchStatusRecord::Active);
        }
        if same_text(value, "finished") {
            return Some(MatchStatusRecord::Finished);
        }
        if same_text(value, "aborted") {
            return Some(MatchStatusRecord::Aborted);
        }
        None
    }
}

/// What a stored event is, as far as a replay is concerned.
#[derive(Clone, Copy, Debug, PartialEq, Eq, Structural)]
pub enum ReplayEventKind {
    RoundStarted,
    ActionBroadcast,
    ClaimWindowOpened,
    ClaimWindowResolved,
    RoundSettlement,
    MatchSettlement,
    Unknown,
}

/// The main record of an account.
#[derive(Debug, PartialEq, Eq)]
pub struct UserRecord {
    pub user_id: String,
    pub display_name: String,
    pub auth_provider: String,
    pub auth_subject: Option<String>,
    pub created_at_unix_ms: u64,
    pub updated_at_unix_ms: u64,
    pub last_seen_at_unix_ms: Option<u64>,
}

/// The contents of a [`UserRecord`].
#[verifier::ext_equal]
pub struct UserRecordModel {
    pub user_id: Seq<char>,
    pub display_name: Seq<char>,
    pub auth_provider: Seq<char>,
    pub auth_subject: Option<Seq<char>>,
    pub created_at_unix_ms: u64,
    pub updated_at_unix_ms: u64,
    pub last_seen_at_unix_ms: Option<u64>,
}

impl View for UserRecord {
    type V = UserRecordModel;

    open spec fn view(&self) -> UserRecordModel {
        UserRecordModel {
            user_id: self.user_id@,
            display_name: self.display_name@,
            auth_provider: self.auth_provider@,
            auth_subject: opt_view(self.auth_subject),
            created_at_unix_ms: self.created_at_unix_ms,
            updated_at_unix_ms: self.updated_at_unix_ms,
            last_seen_at_unix_ms: self.last_seen_at_unix_ms,
        }
    }
}

impl Clone for UserRecord {
    fn clone(&self) -> (r: Self)
        ensures
            r@ == self@,
    {
        UserRecord {
            user_id: self.user_id.clone(),
            display_name: self.display_name.clone(),
            auth_provider: self.auth_provider.clone(),
            auth_subject: self.auth_subject.clone(),
            created_at_unix_ms: self.created_at_unix_ms,
            updated_at_unix_ms: self.updated_at_unix_ms,
            last_seen_at_unix_ms: self.last_seen_at_unix_ms,
        }
    }
}

/// A session. It holds the hash of its token, never the token.
#[derive(Debug, PartialEq, Eq)]
pub struct UserSessionRecord {
    pub session_id: String,
    pub user_id: String,
    pub session_token_hash: String,
    pub issued_at_unix_ms: u64,
    pub expires_at_unix_ms: u64,
    pub revoked_at_unix_ms: Option<u64>,
    pub last_seen_at_unix_ms: Option<u64>,
}

/// The contents of a [`UserSessionRecord`].
#[verifier::ext_equal]
pub struct UserSessionRecordModel {
    pub session_id: Seq<char>,
    pub user_id: Seq<char>,
    pub session_token_hash: Seq<char>,
    pub issued_at_unix_ms: u64,
    pub expires_at_unix_ms: u64,
    pub revoked_at_unix_ms: Option<u64>,
    pub last_seen_at_unix_ms: Option<u64>,
}

impl View for UserSessionRecord {
    type V = UserSessionRecordModel;

    open spec fn view(&self) -> UserSessionRecordModel {
        UserSessionRecordModel {
            session_id: self.session_id@,
            user_id: self.user_id@,
            session_token_hash: self.session_token_hash@,
            issued_at_unix_ms: self.issued_at_unix_ms,
            expires_at_unix_ms: self.expires_at_unix_ms,
            revoked_at_unix_ms: self.revoked_at_unix_ms,
            last_seen_at_unix_ms: self.last_seen_at_unix_ms,
        }
    }
}

impl Clone for UserSessionRecord {
    fn clone(&self) -> (r: Self)
        ensures
            r@ == self@,
    {
        UserSessionRecord {
            session_id: self.session_id.clone(),
            user_id: self.user_id.clone(),
            session_token_hash: self.session_token_hash.clone(),
            issued_at_unix_ms: self.issued_at_unix_ms,
            expires_at_unix_ms: self.expires_at_unix_ms,
            revoked_at_unix_ms: self.revoked_at_unix_ms,
            last_seen_at_unix_ms: self.last_seen_at_unix_ms,
        }
    }
}

/// The stored settings of a room.
#[derive(Debug, PartialEq, Eq)]
pub struct RoomConfigRecord {
    pub ruleset_id: String,
    pub seat_count: u32,
    pub enable_flower_tiles: bool,
    pub enable_robbing_kong: bool,
    pub enable_kong_draw: bool,
    pub reconnect_grace_seconds: u32,
    pub action_timeout_ms: u32,
}

/// The contents of a [`RoomConfigRecord`].
#[verifier::ext_equal]
pub struct RoomConfigRecordModel {
    pub ruleset_id: Seq<char>,
    pub seat_count: u32,
    pub enable_flower_tiles: bool,
    pub enable_robbing_kong: bool,
    pub enable_kong_draw: bool,
    pub reconnect_grace_seconds: u32,
    pub action_timeout_ms: u32,
}

impl View for RoomConfigRecord {
    type V = RoomConfigRecordModel;

    open spec fn view(&self) -> RoomConfigRecordModel {
        RoomConfigRecordModel {
            ruleset_id: self.ruleset_id@,
            seat_count: self.seat_count,
            enable_flower_tiles: self.enable_flower_tiles,
            enable_robbing_kong: self.enable_robbing_kong,
            enable_kong_draw: self.enable_kong_draw,
            reconnect_grace_seconds: self.reconnect_grace_seconds,
            action_timeout_ms: self.action_timeout_ms,
        }
    }
}

impl Clone for RoomConfigRecord {
    fn clone(&self) -> (r: Self)
        ensures
            r@ == self@,
    {
        RoomConfigRecord {
            ruleset_id: self.ruleset_id.clone(),
            seat_count: self.seat_count,
            enable_flower_tiles: self.enable_flower_tiles,
            enable_robbing_kong: self.enable_robbing_kong,
            enable_kong_draw: self.enable_kong_draw,
            reconnect_grace_seconds: self.reconnect_grace_seconds,
            action_timeout_ms: self.action_timeout_ms,
        }
    }
}

/// The stored record of a lobby room.
#[derive(Debug, PartialEq, Eq)]
pub struct RoomRecord {
    pub room_id: String,
    pub room_code: String,
    pub owner_user_id: String,
    pub status: RoomStatusRecord,
    pub config_snapshot: RoomConfigRecord,
    pub current_match_id: Option<String>,
    pub created_at_unix_ms: u64,
    pub updated_at_unix_ms: u64,
}

/// The contents of a [`RoomRecord`].
#[verifier::ext_equal]
pub struct RoomRecordModel {
    pub room_id: Seq<char>,
    pub room_code: Seq<char>,
    pub owner_user_id: Seq<char>,
    pub status: RoomStatusRecord,
    pub config_snapshot: RoomConfigRecordModel,
    pub current_match_id: Option<Seq<char>>,
    pub created_at_unix_ms: u64,
    pub updated_at_unix_ms: u64,
}

impl View for RoomRecord {
    type V = RoomRecordModel;

    open spec fn view(&self) -> RoomRecordModel {
        RoomRecordModel {
            room_id: self.room_id@,
            room_code: self.room_code@,
            owner_user_id: self.owner_user_id@,
            status: self.status,
            config_snapshot: self.config_snapshot@,
            current_match_id: opt_view(self.current_match_id),
            created_at_unix_ms: self.created_at_unix_ms,
            updated_at_unix_ms: self.updated_at_unix_ms,
        }
    }
}

impl Clone for RoomRecord {
    fn clone(&self) -> (r: Self)
        ensures
            r@ == self@,
    {
        RoomRecord {
            room_id: self.room_id.clone(),
            room_code: self.room_code.clone(),
            owner_user_id: self.owner_user_id.clone(),
            status: self.status,
            config_snapshot: self.config_snapshot.clone(),
            current_match_id: self.current_match_id.clone(),
            created_at_unix_ms: self.created_at_unix_ms,
            updated_at_unix_ms: self.updated_at_unix_ms,
        }
    }
}

/// The stored record of a room member.
#[derive(Debug, PartialEq, Eq)]
pub struct RoomMemberRecord {
    pub room_id: String,
    pub user_id: String,
    pub display_name: String,
    pub seat: String,
    pub joined_at_unix_ms: u64,
    pub ready: bool,
    pub kicked_at_unix_ms: Option<u64>,
    pub left_at_unix_ms: Option<u64>,
}

/// The contents of a [`RoomMemberRecord`].
#[verifier::ext_equal]
pub struct RoomMemberRecordModel {
    pub room_id: Seq<char>,
    pub user_id: Seq<char>,
    pub display_name: Seq<char>,
    pub seat: Seq<char>,
    pub joined_at_unix_ms: u64,
    pub ready: bool,
    pub kicked_at_unix_ms: Option<u64>,
    pub left_at_unix_ms: Option<u64>,
}

impl View for RoomMemberRecord {
    type V = RoomMemberRecordModel;

    open spec fn view(&self) -> RoomMemberRecordModel {
        RoomMemberRecordModel {
            room_id: self.room_id@,
            user_id: self.user_id@,
            display_name: self.display_name@,
            seat: self.seat@,
            joined_at_unix_ms: self.joined_at_unix_ms,
            ready: self.ready,
            kicked_at_unix_ms: self.kicked_at_unix_ms,
            left_at_unix_ms: self.left_at_unix_ms,
        }
    }
}

impl Clone for RoomMemberRecord {
    fn clone(&self) -> (r: Self)
        ensures
            r@ == self@,
    {
        RoomMemberRecord {
            room_id: self.room_id.clone(),
            user_id: self.user_id.clone(),
            display_name: self.display_name.clone(),
            seat: self.seat.clone(),
            joined_at_unix_ms: self.joined_at_unix_ms,
            ready: self.ready,
            kicked_at_unix_ms: self.kicked_at_unix_ms,
            left_at_unix_ms: self.left_at_unix_ms,
        }
    }
}

/// A room together with its members.
#[derive(Debug, PartialEq, Eq)]
pub struct RoomSnapshotRecord {
    pub room: RoomRecord,
    pub members: Vec<RoomMemberRecord>,
}

/// The contents of a [`RoomSnapshotRecord`].
#[verifier::ext_equal]
pub struct RoomSnapshotRecordModel {
    pub room: RoomRecordModel,
    pub members: Seq<RoomMemberRecordModel>,
}

impl View for RoomSnapshotRecord {
    type V = RoomSnapshotRecordModel;

    open spec fn view(&self) -> RoomSnapshotRecordModel {
        RoomSnapshotRecordModel {
            room: self.room@,
            members: views(self.members@),
        }
    }
}

impl Clone for RoomSnapshotRecord {
    fn clone(&self) -> (r: Self)
        ensures
            r@ == self@,
    {
        RoomSnapshotRecord {
            room: self.room.clone(),
            members: self.members.clone(),
        }
    }
}

/// The summary of a match; its course is in the events.
#[derive(Debug, PartialEq, Eq)]
pub struct MatchRecord {
    pub match_id: String,
    pub room_id: String,
    pub status: MatchStatusRecord,
    pub ruleset_id: String,
    pub config_snapshot: Json,
    pub seating_snapshot: Json,
    pub current_round_id: Option<String>,
    pub prevailing_wind: Option<String>,
    pub dealer_seat: Option<String>,
    pub started_at_unix_ms: Option<u64>,
    pub ended_at_unix_ms: Option<u64>,
    pub created_by_user_id: Option<String>,
    pub winner_user_id: Option<String>,
    pub last_event_seq: i64,
    pub final_result: Option<Json>,
    pub created_at_unix_ms: u64,
    pub updated_at_unix_ms: u64,
}

/// The contents of a [`MatchRecord`].
#[verifier::ext_equal]
pub struct MatchRecordModel {
    pub match_id: Seq<char>,
    pub room_id: Seq<char>,
    pub status: MatchStatusRecord,
    pub ruleset_id: Seq<char>,
    pub config_snapshot: JsonModel,
    pub seating_snapshot: JsonModel,
    pub current_round_id: Option<Seq<char>>,
    pub prevailing_wind: Option<Seq<char>>,
    pub dealer_seat: Option<Seq<char>>,
    pub started_at_unix_ms: Option<u64>,
    pub ended_at_unix_ms: Option<u64>,
    pub created_by_user_id: Option<Seq<char>>,
    pub winner_user_id: Option<Seq<char>>,
    pub last_event_seq: i64,
    pub final_result: Option<JsonModel>,
    pub created_at_unix_ms: u64,
    pub updated_at_unix_ms: u64,
}

impl View for MatchRecord {
    type V = MatchRecordModel;

    open spec fn view(&self) -> MatchRecordModel {
        MatchRecordModel {
            match_id: self.match_id@,
            room_id: self.room_id@,
            status: self.status,
            ruleset_id: self.ruleset_id@,
            config_snapshot: self.config_snapshot@,
            seating_snapshot: self.seating_snapshot@,
            current_round_id: opt_view(self.current_round_id),
            prevailing_wind: opt_view(self.prevailing_wind),
            dealer_seat: opt_view(self.dealer_seat),
            started_at_unix_ms: self.started_at_unix_ms,
            ended_at_unix_ms: self.ended_at_unix_ms,
            created_by_user_id: opt_view(self.created_by_user_id),
            winner_user_id: opt_view(self.winner_user_id),
            last_event_seq: self.last_event_seq,
            final_result: opt_view(self.final_result),
            created_at_unix_ms: self.created_at_unix_ms,
            updated_at_unix_ms: self.updated_at_unix_ms,
        }
    }
}

impl Clone for MatchRecord {
    fn clone(&self) -> (r: Self)
        ensures
            r@ == self@,
    {
        MatchRecord {
            match_id: self.match_id.clone(),
            room_id: self.room_id.clone(),
            status: self.status,
            ruleset_id: self.ruleset_id.clone(),
            config_snapshot: self.config_snapshot.clone(),
            seating_snapshot: self.seating_snapshot.clone(),
            current_round_id: self.current_round_id.clone(),
            prevailing_wind: self.prevailing_wind.clone(),
            dealer_seat: self.dealer_seat.clone(),
            started_at_unix_ms: self.started_at_unix_ms,
            ended_at_unix_ms: self.ended_at_unix_ms,
            created_by_user_id: self.created_by_user_id.clone(),
            winner_user_id: self.winner_user_id.clone(),
            last_event_seq: self.last_event_seq,
            final_result: self.final_result.clone(),
            created_at_unix_ms: self.created_at_unix_ms,
            updated_at_unix_ms: self.updated_at_unix_ms,
        }
    }
}

/// A stored event of a match.
#[derive(Debug, PartialEq, Eq)]
pub struct MatchEventRecord {
    pub event_id: i64,
    pub match_id: String,
    pub round_id: Option<String>,
    pub event_seq: i64,
    pub event_type: String,
    pub actor_user_id: Option<String>,
    pub actor_seat: Option<String>,
    pub request_id: Option<String>,
    pub correlation_id: Option<String>,
    pub causation_event_seq: Option<i64>,
    pub event_payload: Json,
    pub created_at_unix_ms: u64,
}

/// The contents of a [`MatchEventRecord`].
#[verifier::ext_equal]
pub struct MatchEventRecordModel {
    pub event_id: i64,
    pub match_id: Seq<char>,
    pub round_id: Option<Seq<char>>,
    pub event_seq: i64,
    pub event_type: Seq<char>,
    pub actor_user_id: Option<Seq<char>>,
    pub actor_seat: Option<Seq<char>>,
    pub request_id: Option<Seq<char>>,
    pub correlation_id: Option<Seq<char>>,
    pub causation_event_seq: Option<i64>,
    pub event_payload: JsonModel,
    pub created_at_unix_ms: u64,
}

impl View for MatchEventRecord {
    type V = MatchEventRecordModel;

    open spec fn view(&self) -> MatchEventRecordModel {
        MatchEventRecordModel {
            event_id: self.event_id,
            match_id: self.match_id@,
            round_id: opt_view(self.round_id),
            event_seq: self.event_seq,
            event_type: self.event_type@,
            actor_user_id: opt_view(self.actor_user_id),
            actor_seat: opt_view(self.actor_seat),
            request_id: opt_view(self.request_id),
            correlation_id: opt_view(self.correlation_id),
            causation_event_seq: self.causation_event_seq,
            event_payload: self.event_payload@,
            created_at_unix_ms: self.created_at_unix_ms,
        }
    }
}

impl Clone for MatchEventRecord {
    fn clone(&self) -> (r: Self)
        ensures
            r@ == self@,
    {
        MatchEventRecord {
            event_id: self.event_id,
            match_id: self.match_id.clone(),
            round_id: self.round_id.clone(),
            event_seq: self.event_seq,
            event_type: self.event_type.clone(),
            actor_user_id: self.actor_user_id.clone(),
            actor_seat: self.actor_seat.clone(),
            request_id: self.request_id.clone(),
            correlation_id: self.correlation_id.clone(),
            causation_event_seq: self.causation_event_seq,
            event_payload: self.event_payload.clone(),
            created_at_unix_ms: self.created_at_unix_ms,
        }
    }
}

/// An event that is about to be stored.
#[derive(Debug, PartialEq, Eq)]
pub struct NewMatchEventRecord {
    pub match_id: String,
    pub round_id: Option<String>,
    pub event_seq: i64,
    pub event_type: String,
    pub actor_user_id: Option<String>,
    pub actor_seat: Option<String>,
    pub request_id: Option<String>,
    pub correlation_id: Option<String>,
    pub causation_event_seq: Option<i64>,
    pub event_payload: Json,
}

/// The contents of a [`NewMatchEventRecord`].
#[verifier::ext_equal]
pub struct NewMatchEventRecordModel {
    pub match_id: Seq<char>,
    pub round_id: Option<Seq<char>>,
    pub event_seq: i64,
    pub event_type: Seq<char>,
    pub actor_user_id: Option<Seq<char>>,
    pub actor_seat: Option<Seq<char>>,
    pub request_id: Option<Seq<char>>,
    pub correlation_id: Option<Seq<char>>,
    pub causation_event_seq: Option<i64>,
    pub event_payload: JsonModel,
}

impl View for NewMatchEventRecord {
    type V = NewMatchEventRecordModel;

    open spec fn view(&self) -> NewMatchEventRecordModel {
        NewMatchEventRecordModel {
            match_id: self.match_id@,
            round_id: opt_view(self.round_id),
            event_seq: self.event_seq,
            event_type: self.event_type@,
            actor_user_id: opt_view(self.actor_user_id),
            actor_seat: opt_view(self.actor_seat),
            request_id: opt_view(self.request_id),
            correlation_id: opt_view(self.correlation_id),
            causation_event_seq: self.causation_event_seq,
            event_payload: self.event_payload@,
        }
    }
}

impl Clone for NewMatchEventRecord {
    fn clone(&self) -> (r: Self)
        ensures
            r@ == self@,
    {
        NewMatchEventRecord {
            match_id: self.match_id.clone(),
            round_id: self.round_id.clone(),
            event_seq: self.event_seq,
            event_type: self.event_type.clone(),
            actor_user_id: self.actor_user_id.clone(),
            actor_seat: self.actor_seat.clone(),
            request_id: self.request_id.clone(),
            correlation_id: self.correlation_id.clone(),
            causation_event_seq: self.causation_event_seq,
            event_payload: self.event_payload.clone(),
        }
    }
}

/// One entry of a replay's timeline: the raw payload and a digest of it.
#[derive(Debug, PartialEq, Eq)]
pub struct ReplayEntryRecord {
    pub event_seq: i64,
    pub round_id: Option<String>,
    pub event_type: String,
    pub event_kind: ReplayEventKind,
    pub actor_user_id: Option<String>,
    pub actor_seat: Option<String>,
    pub created_at_unix_ms: u64,
    pub invalid_payload: bool,
    pub summary: Json,
    pub raw_event_payload: Json,
}

/// The contents of a [`ReplayEntryRecord`].
#[verifier::ext_equal]
pub struct ReplayEntryRecordModel {
    pub event_seq: i64,
    pub round_id: Option<Seq<char>>,
    pub event_type: Seq<char>,
    pub event_kind: ReplayEventKind,
    pub actor_user_id: Option<Seq<char>>,
    pub actor_seat: Option<Seq<char>>,
    pub created_at_unix_ms: u64,
    pub invalid_payload: bool,
    pub summary: JsonModel,
    pub raw_event_payload: JsonModel,
}

impl View for ReplayEntryRecord {
    type V = ReplayEntryRecordModel;

    open spec fn view(&self) -> ReplayEntryRecordModel {
        ReplayEntryRecordModel {
            event_seq: self.event_seq,
            round_id: opt_view(self.round_id),
            event_type: self.event_type@,
            event_kind: self.event_kind,
            actor_user_id: opt_view(self.actor_user_id),
            actor_seat: opt_view(self.actor_seat),
            created_at_unix_ms: self.created_at_unix_ms,
            invalid_payload: self.invalid_payload,
            summary: self.summary@,
            raw_event_payload: self.raw_event_payload@,
        }
    }
}

impl Clone for ReplayEntryRecord {
    fn clone(&self) -> (r: Self)
        ensures
            r@ == self@,
    {
        ReplayEntryRecord {
            event_seq: self.event_seq,
            round_id: self.round_id.clone(),
            event_type: self.event_type.clone(),
            event_kind: self.event_kind,
            actor_user_id: self.actor_user_id.clone(),
            actor_seat: self.actor_seat.clone(),
            created_at_unix_ms: self.created_at_unix_ms,
            invalid_payload: self.invalid_payload,
            summary: self.summary.clone(),
            raw_event_payload: self.raw_event_payload.clone(),
        }
    }
}

/// The events of one hand.
#[derive(Debug, PartialEq, Eq)]
pub struct ReplayRoundRecord {
    pub round_id: String,
    pub hand_number: Option<u32>,
    pub prevailing_wind: Option<String>,
    pub dealer_seat: Option<String>,
    pub start_event_seq: Option<i64>,
    pub settlement_event_seq: Option<i64>,
    pub entries: Vec<ReplayEntryRecord>,
}

/// The contents of a [`ReplayRoundRecord`].
#[verifier::ext_equal]
pub struct ReplayRoundRecordModel {
    pub round_id: Seq<char>,
    pub hand_number: Option<u32>,
    pub prevailing_wind: Option<Seq<char>>,
    pub dealer_seat: Option<Seq<char>>,
    pub start_event_seq: Option<i64>,
    pub settlement_event_seq: Option<i64>,
    pub entries: Seq<ReplayEntryRecordModel>,
}

impl View for ReplayRoundRecord {
    type V = ReplayRoundRecordModel;

    open spec fn view(&self) -> ReplayRoundRecordModel {
        ReplayRoundRecordModel {
            round_id: self.round_id@,
            hand_number: self.hand_number,
            prevailing_wind: opt_view(self.prevailing_wind),
            dealer_seat: opt_view(self.dealer_seat),
            start_event_seq: self.start_event_seq,
            settlement_event_seq: self.settlement_event_seq,
            entries: views(self.entries@),
        }
    }
}

impl Clone for ReplayRoundRecord {
    fn clone(&self) -> (r: Self)
        ensures
            r@ == self@,
    {
        ReplayRoundRecord {
            round_id: self.round_id.clone(),
            hand_number: self.hand_number,
            prevailing_wind: self.prevailing_wind.clone(),
            dealer_seat: self.dealer_seat.clone(),
            start_event_seq: self.start_event_seq,
            settlement_event_seq: self.settlement_event_seq,
            entries: self.entries.clone(),
        }
    }
}

/// What was wrong with an event that a replay shows nevertheless.
#[derive(Debug, PartialEq, Eq)]
pub struct ReplayWarningRecord {
    pub event_seq: Option<i64>,
    pub event_type: String,
    pub message: String,
}

/// The contents of a [`ReplayWarningRecord`].
#[verifier::ext_equal]
pub struct ReplayWarningRecordModel {
    pub event_seq: Option<i64>,
    pub event_type: Seq<char>,
    pub message: Seq<char>,
}

impl View for ReplayWarningRecord {
    type V = ReplayWarningRecordModel;

    open spec fn view(&self) -> ReplayWarningRecordModel {
        ReplayWarningRecordModel {
            event_seq: self.event_seq,
            event_type: self.event_type@,
            message: self.message@,
        }
    }
}

impl Clone for ReplayWarningRecord {
    fn clone(&self) -> (r: Self)
        ensures
            r@ == self@,
    {
        ReplayWarningRecord {
            event_seq: self.event_seq,
            event_type: self.event_type.clone(),
            message: self.message.clone(),
        }
    }
}

/// The replay of a match, hand by hand.
#[derive(Debug, PartialEq, Eq)]
pub struct MatchReplayRecord {
    pub match_record: MatchRecord,
    pub rounds: Vec<ReplayRoundRecord>,
    pub terminal_entry: Option<ReplayEntryRecord>,
    pub warnings: Vec<ReplayWarningRecord>,
}

/// The contents of a [`MatchReplayRecord`].
#[verifier::ext_equal]
pub struct MatchReplayRecordModel {
    pub match_record: MatchRecordModel,
    pub rounds: Seq<ReplayRoundRecordModel>,
    pub terminal_entry: Option<ReplayEntryRecordModel>,
    pub warnings: Seq<ReplayWarningRecordModel>,
}

impl View for MatchReplayRecord {
    type V = MatchReplayRecordModel;

    open spec fn view(&self) -> MatchReplayRecordModel {
        MatchReplayRecordModel {
            match_record: self.match_record@,
            rounds: views(self.rounds@),
            terminal_entry: opt_view(self.terminal_entry),
            warnings: views(self.warnings@),
        }
    }
}

impl Clone for MatchReplayRecord {
    fn clone(&self) -> (r: Self)
        ensures
            r@ == self@,
    {
        MatchReplayRecord {
            match_record: self.match_record.clone(),
            rounds: self.rounds.clone(),
            terminal_entry: self.terminal_entry.clone(),
            warnings: self.warnings.clone(),
        }
    }
}

} // verus!
