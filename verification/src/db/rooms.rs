//! Rooms as they are stored: what a stored room allows, and what an event changes in it.

use vstd::prelude::*;

use crate::collections::{opt_view, views};
use crate::db::models::{
    MatchStatusRecord, NewMatchEventRecord, NewMatchEventRecordModel, RoomConfigRecord,
    RoomConfigRecordModel, RoomMemberRecord, RoomMemberRecordModel, RoomSnapshotRecord,
    RoomSnapshotRecordModel, RoomStatusRecord,
};
use crate::json::{
    json_int, json_members, json_text, lemma_object_model, no_members, Json, JsonMember, JsonModel,
    JsonObject,
};
use crate::lobby::types::{
    LobbyError, LobbyErrorModel, LobbyMember, LobbyMemberModel, LobbyRoom, LobbyRoomConfig,
    LobbyRoomConfigModel, LobbyRoomModel, LobbyRoomStatus,
};
use crate::lobby::service::next_free_seat;
use crate::lobby::{free_seat, lobby_plain, lobby_result};
use crate::proto::client::Seat;
use crate::text::{concat, number_value, parse_number, same_text};

verus! {

/// How to reach the database.
#[derive(Debug, PartialEq, Eq)]
pub struct DatabaseConfig {
    pub database_url: String,
    pub max_connections: u32,
    pub connect_timeout_secs: u64,
}

/// The contents of a [`DatabaseConfig`].
#[verifier::ext_equal]
pub struct DatabaseConfigModel {
    pub database_url: Seq<char>,
    pub max_connections: u32,
    pub connect_timeout_secs: u64,
}

impl View for DatabaseConfig {
    type V = DatabaseConfigModel;

    open spec fn view(&self) -> DatabaseConfigModel {
        DatabaseConfigModel {
            database_url: self.database_url@,
            max_connections: self.max_connections,
            connect_timeout_secs: self.connect_timeout_secs,
        }
    }
}

/// A setting that may be left out: its value, or the default; none where it cannot be read.
pub open spec fn setting(text: Option<Seq<char>>, default: nat, limit: nat) -> Option<nat> {
    match text {
        None => Some(default),
        Some(text) => match number_value(text) {
            Some(value) => if value <= limit {
                Some(value)
            } else {
                None
            },
            None => None,
        },
    }
}

/// The view of a text that may be missing.
pub open spec fn opt_text(text: Option<&str>) -> Option<Seq<char>> {
    match text {
        Some(text) => Some(text@),
        None => None,
    }
}

fn read_setting(text: Option<&str>, default: u64, limit: u64) -> (r: Option<u64>)
    requires
        default <= limit,
    ensures
        r == match setting(opt_text(text), default as nat, limit as nat) {
            Some(value) => Some(value as u64),
            None => None,
        },
        r matches Some(value) ==> value <= limit,
{
    match text {
        None => Some(default),
        Some(text) => parse_number(text, limit),
    }
}

impl DatabaseConfig {
    /// Makes a configuration out of three settings: the address, which must be there, and the
    /// limits of connections and of patience, which have defaults.
    pub fn from_settings(
        database_url: Option<String>,
        max_connections: Option<&str>,
        connect_timeout_secs: Option<&str>,
    ) -> (r: Result<DatabaseConfig, String>)
        ensures
            match (
                opt_view(database_url),
                setting(opt_text(max_connections), 10, u32::MAX as nat),
                setting(opt_text(connect_timeout_secs), 5, u64::MAX as nat),
            ) {
                (None, _, _) => r matches Err(message) && message@ == "read DATABASE_URL"@,
                (Some(_), None, _) => r matches Err(message) && message@
                    == "parse GB_MAHJONG_DB_MAX_CONNECTIONS"@,
                (Some(_), Some(_), None) => r matches Err(message) && message@
                    == "parse GB_MAHJONG_DB_CONNECT_TIMEOUT_SECS"@,
                (Some(url), Some(connections), Some(timeout)) => r matches Ok(config) && config@
                    == (DatabaseConfigModel {
                    database_url: url,
                    max_connections: connections as u32,
                    connect_timeout_secs: timeout as u64,
                }),
            },
    {
        let database_url = match database_url {
            None => {
                return Err(String::from_str("read DATABASE_URL"));
            },
            Some(url) => url,
        };
        let connections: u64 = match read_setting(max_connections, 10, u32::MAX as u64) {
            None => {
                return Err(String::from_str("parse GB_MAHJONG_DB_MAX_CONNECTIONS"));
            },
            Some(value) => value,
        };
        let connect_timeout_secs: u64 = match read_setting(connect_timeout_secs, 5, u64::MAX) {
            None => {
                return Err(String::from_str("parse GB_MAHJONG_DB_CONNECT_TIMEOUT_SECS"));
            },
            Some(value) => value,
        };
        Ok(
            DatabaseConfig {
                database_url,
                max_connections: connections as u32,
                connect_timeout_secs,
            },
        )
    }
}

// ---------------------------------------------------------------------------
// Reading stored rooms
// ---------------------------------------------------------------------------

/// The seat with a stored name.
pub open spec fn stored_seat(value: Seq<char>) -> Result<Seat, LobbyErrorModel> {
    if value == "SEAT_EAST"@ {
        Ok(Seat::East)
    } else if value == "SEAT_SOUTH"@ {
        Ok(Seat::South)
    } else if value == "SEAT_WEST"@ {
        Ok(Seat::West)
    } else if value == "SEAT_NORTH"@ {
        Ok(Seat::North)
    } else {
        Err(LobbyErrorModel::Storage("invalid seat value "@ + value))
    }
}

pub fn parse_seat(value: &str) -> (r: Result<Seat, LobbyError>)
    ensures
        lobby_plain(r) == stored_seat(value@),
{
    if same_text(value, "SEAT_EAST") {
        Ok(Seat::East)
    } else if same_text(value, "SEAT_SOUTH") {
        Ok(Seat::South)
    } else if same_text(value, "SEAT_WEST") {
        Ok(Seat::West)
    } else if same_text(value, "SEAT_NORTH") {
        Ok(Seat::North)
    } else {
        Err(LobbyError::Storage(concat("invalid seat value ", value)))
    }
}

/// The status of a stored room.
pub open spec fn lobby_status(status: RoomStatusRecord) -> LobbyRoomStatus {
    match status {
        RoomStatusRecord::Waiting => LobbyRoomStatus::Waiting,
        RoomStatusRecord::Active => LobbyRoomStatus::Active,
        RoomStatusRecord::Closed => LobbyRoomStatus::Closed,
    }
}

fn to_lobby_status(status: RoomStatusRecord) -> (r: LobbyRoomStatus)
    ensures
        r == lobby_status(status),
{
    match status {
        RoomStatusRecord::Waiting => LobbyRoomStatus::Waiting,
        RoomStatusRecord::Active => LobbyRoomStatus::Active,
        RoomStatusRecord::Closed => LobbyRoomStatus::Closed,
    }
}

pub fn parse_room_status(value: &str) -> (r: Result<LobbyRoomStatus, LobbyError>)
    ensures
        match r {
            Ok(status) => status.word() == value@,
            Err(error) => error@ == LobbyErrorModel::Storage("invalid room status in database"@)
                && forall|status: LobbyRoomStatus| #[trigger] status.word() != value@,
        },
{
    if same_text(value, "waiting") {
        Ok(LobbyRoomStatus::Waiting)
    } else if same_text(value, "active") {
        Ok(LobbyRoomStatus::Active)
    } else if same_text(value, "closed") {
        Ok(LobbyRoomStatus::Closed)
    } else {
        Err(LobbyError::Storage(String::from_str("invalid room status in database")))
    }
}

/// The settings of a room, as stored.
pub open spec fn config_record(config: LobbyRoomConfigModel) -> RoomConfigRecordModel {
    RoomConfigRecordModel {
        ruleset_id: config.ruleset_id,
        seat_count: config.seat_count,
        enable_flower_tiles: config.enable_flower_tiles,
        enable_robbing_kong: config.enable_robbing_kong,
        enable_kong_draw: config.enable_kong_draw,
        reconnect_grace_seconds: config.reconnect_grace_seconds,
        action_timeout_ms: config.action_timeout_ms,
    }
}

/// The settings of a stored room.
pub open spec fn config_of(config: RoomConfigRecordModel) -> LobbyRoomConfigModel {
    LobbyRoomConfigModel {
        ruleset_id: config.ruleset_id,
        seat_count: config.seat_count,
        enable_flower_tiles: config.enable_flower_tiles,
        enable_robbing_kong: config.enable_robbing_kong,
        enable_kong_draw: config.enable_kong_draw,
        reconnect_grace_seconds: config.reconnect_grace_seconds,
        action_timeout_ms: config.action_timeout_ms,
    }
}

/// Settings that were stored are read back unchanged.
pub proof fn law_config_survives_storage(config: LobbyRoomConfigModel)
    ensures
        config_of(config_record(config)) == config,
{
}

pub fn room_config_to_record(config: &LobbyRoomConfig) -> (r: RoomConfigRecord)
    ensures
        r@ == config_record(config@),
{
    RoomConfigRecord {
        ruleset_id: config.ruleset_id.clone(),
        seat_count: config.seat_count,
        enable_flower_tiles: config.enable_flower_tiles,
        enable_robbing_kong: config.enable_robbing_kong,
        enable_kong_draw: config.enable_kong_draw,
        reconnect_grace_seconds: config.reconnect_grace_seconds,
        action_timeout_ms: config.action_timeout_ms,
    }
}

pub fn json_room_config_to_domain(config: RoomConfigRecord) -> (r: LobbyRoomConfig)
    ensures
        r@ == config_of(config@),
{
    LobbyRoomConfig {
        ruleset_id: config.ruleset_id,
        seat_count: config.seat_count,
        enable_flower_tiles: config.enable_flower_tiles,
        enable_robbing_kong: config.enable_robbing_kong,
        enable_kong_draw: config.enable_kong_draw,
        reconnect_grace_seconds: config.reconnect_grace_seconds,
        action_timeout_ms: config.action_timeout_ms,
    }
}

/// A stored member at a seat.
pub open spec fn member_of_record(member: RoomMemberRecordModel, seat: Seat) -> LobbyMemberModel {
    LobbyMemberModel {
        user_id: member.user_id,
        display_name: member.display_name,
        seat,
        joined_at_unix_ms: member.joined_at_unix_ms,
        ready: member.ready,
        kicked_at_unix_ms: member.kicked_at_unix_ms,
        left_at_unix_ms: member.left_at_unix_ms,
    }
}

/// The members of a stored room, or what is wrong with the first seat that cannot be read.
pub open spec fn members_of(members: Seq<RoomMemberRecordModel>) -> Result<
    Seq<LobbyMemberModel>,
    LobbyErrorModel,
>
    decreases members.len(),
{
    if members.len() == 0 {
        Ok(Seq::empty())
    } else {
        match members_of(members.drop_last()) {
            Err(error) => Err(error),
            Ok(front) => match stored_seat(members.last().seat) {
                Err(error) => Err(error),
                Ok(seat) => Ok(front.push(member_of_record(members.last(), seat))),
            },
        }
    }
}

/// A stored room.
pub open spec fn room_of(snapshot: RoomSnapshotRecordModel) -> Result<LobbyRoomModel, LobbyErrorModel> {
    match members_of(snapshot.members) {
        Err(error) => Err(error),
        Ok(members) => Ok(
            LobbyRoomModel {
                room_id: snapshot.room.room_id,
                room_code: snapshot.room.room_code,
                owner_user_id: snapshot.room.owner_user_id,
                status: lobby_status(snapshot.room.status),
                config: config_of(snapshot.room.config_snapshot),
                current_match_id: snapshot.room.current_match_id,
                members,
                created_at_unix_ms: snapshot.room.created_at_unix_ms,
            },
        ),
    }
}

/// What is wrong with a member stays wrong with the members.
proof fn lemma_members_error(members: Seq<RoomMemberRecordModel>, upto: int)
    requires
        0 <= upto <= members.len(),
        members_of(members.take(upto)) is Err,
    ensures
        members_of(members) == members_of(members.take(upto)),
    decreases members.len() - upto,
{
    if upto < members.len() {
        assert(members.take(upto + 1).drop_last() =~= members.take(upto));
        lemma_members_error(members, upto + 1);
    } else {
        assert(members.take(upto) =~= members);
    }
}

fn read_members(members: Vec<RoomMemberRecord>) -> (r: Result<Vec<LobbyMember>, LobbyError>)
    ensures
        match r {
            Ok(list) => members_of(views(members@)) == Ok::<Seq<LobbyMemberModel>, LobbyErrorModel>(
                views(list@),
            ),
            Err(error) => members_of(views(members@)) == Err::<
                Seq<LobbyMemberModel>,
                LobbyErrorModel,
            >(error@),
        },
{
    let ghost all = views(members@);
    let mut list: Vec<LobbyMember> = Vec::new();
    assert(views(list@) =~= Seq::<LobbyMemberModel>::empty());
    assert(all.take(0) =~= Seq::<RoomMemberRecordModel>::empty());
    let mut i: usize = 0;
    while i < members.len()
        invariant
            i <= members.len(),
            all == views(members@),
            members_of(all.take(i as int)) == Ok::<Seq<LobbyMemberModel>, LobbyErrorModel>(
                views(list@),
            ),
        decreases members.len() - i,
    {
        let member = &members[i];
        assert(all.take(i + 1).drop_last() =~= all.take(i as int));
        assert(all.take(i + 1).last() == member@);
        match parse_seat(member.seat.as_str()) {
            Err(error) => {
                proof {
                    lemma_members_error(all, i + 1);
                }
                return Err(error);
            },
            Ok(seat) => {
                let ghost before = list@;
                list.push(
                    LobbyMember {
                        user_id: member.user_id.clone(),
                        display_name: member.display_name.clone(),
                        seat,
                        joined_at_unix_ms: member.joined_at_unix_ms,
                        ready: member.ready,
                        kicked_at_unix_ms: member.kicked_at_unix_ms,
                        left_at_unix_ms: member.left_at_unix_ms,
                    },
                );
                assert(views(list@) =~= views(before).push(member_of_record(member@, seat)));
            },
        }
        i = i + 1;
    }
    assert(all.take(i as int) =~= all);
    Ok(list)
}

pub fn snapshot_to_domain(snapshot: RoomSnapshotRecord) -> (r: Result<LobbyRoom, LobbyError>)
    ensures
        lobby_result(r) == room_of(snapshot@),
{
    let members = match read_members(snapshot.members) {
        Err(error) => {
            return Err(error);
        },
        Ok(members) => members,
    };
    let room = snapshot.room;
    Ok(
        LobbyRoom {
            room_id: room.room_id,
            room_code: room.room_code,
            owner_user_id: room.owner_user_id,
            status: to_lobby_status(room.status),
            config: json_room_config_to_domain(room.config_snapshot),
            current_match_id: room.current_match_id,
            members,
            created_at_unix_ms: room.created_at_unix_ms,
        },
    )
}

/// A room in which members without a name have a given one.
pub open spec fn with_names(room: LobbyRoomModel, fallback: Seq<char>) -> LobbyRoomModel {
    LobbyRoomModel {
        members: Seq::new(
            room.members.len(),
            |i: int|
                if room.members[i].display_name.len() == 0 {
                    LobbyMemberModel { display_name: fallback, ..room.members[i] }
                } else {
                    room.members[i]
                },
        ),
        ..room
    }
}

/// Gives members without a name one.
pub fn fill_display_names(room: LobbyRoom, fallback: &str) -> (r: LobbyRoom)
    ensures
        r@ == with_names(room@, fallback@),
{
    let ghost wanted = with_names(room@, fallback@).members;
    let mut members: Vec<LobbyMember> = Vec::new();
    let mut i: usize = 0;
    assert(views(members@) =~= wanted.take(0));
    while i < room.members.len()
        invariant
            i <= room.members.len(),
            wanted == with_names(room@, fallback@).members,
            wanted.len() == room.members@.len(),
            views(members@) == wanted.take(i as int),
        decreases room.members.len() - i,
    {
        let mut member = room.members[i].clone();
        if member.display_name.as_str().is_empty() {
            member.display_name = String::from_str(fallback);
        }
        let ghost before = members@;
        members.push(member);
        assert(room@.members[i as int] == room.members@[i as int]@);
        assert(views(members@) =~= views(before).push(wanted[i as int]));
        assert(wanted.take(i + 1) =~= wanted.take(i as int).push(wanted[i as int]));
        i = i + 1;
    }
    assert(wanted.take(i as int) =~= wanted);
    LobbyRoom {
        room_id: room.room_id,
        room_code: room.room_code,
        owner_user_id: room.owner_user_id,
        status: room.status,
        config: room.config,
        current_match_id: room.current_match_id,
        members,
        created_at_unix_ms: room.created_at_unix_ms,
    }
}

// ---------------------------------------------------------------------------
// What a stored room allows
// ---------------------------------------------------------------------------

/// Whether a user is among the stored members.
pub open spec fn is_stored_member(members: Seq<RoomMemberRecordModel>, user_id: Seq<char>) -> bool {
    exists|i: int| 0 <= i < members.len() && (#[trigger] members[i]).user_id == user_id
}

pub fn contains_member(members: &Vec<RoomMemberRecord>, user_id: &str) -> (r: bool)
    ensures
        r == is_stored_member(views(members@), user_id@),
{
    let mut i: usize = 0;
    while i < members.len()
        invariant
            i <= members.len(),
            forall|j: int| 0 <= j < i ==> (#[trigger] views(members@)[j]).user_id != user_id@,
        decreases members.len() - i,
    {
        assert(views(members@)[i as int] == members@[i as int]@);
        if same_text(members[i].user_id.as_str(), user_id) {
            return true;
        }
        i = i + 1;
    }
    false
}

/// Whether a stored room lets a member go.
pub open spec fn leaving_allowed(snapshot: RoomSnapshotRecordModel, user_id: Seq<char>) -> Result<
    (),
    LobbyErrorModel,
> {
    if snapshot.room.status != RoomStatusRecord::Waiting {
        Err(LobbyErrorModel::RoomAlreadyActive)
    } else if !is_stored_member(snapshot.members, user_id) {
        Err(LobbyErrorModel::NotRoomMember)
    } else {
        Ok(())
    }
}

pub fn check_leaving(snapshot: &RoomSnapshotRecord, user_id: &str) -> (r: Result<(), LobbyError>)
    ensures
        lobby_plain(r) == leaving_allowed(snapshot@, user_id@),
{
    if snapshot.room.status != RoomStatusRecord::Waiting {
        Err(LobbyError::RoomAlreadyActive)
    } else if !contains_member(&snapshot.members, user_id) {
        Err(LobbyError::NotRoomMember)
    } else {
        Ok(())
    }
}

/// Whether the owner of a stored room may close it.
pub open spec fn disbanding_allowed(snapshot: RoomSnapshotRecordModel, owner_user_id: Seq<char>) -> Result<
    (),
    LobbyErrorModel,
> {
    if snapshot.room.status != RoomStatusRecord::Waiting {
        Err(LobbyErrorModel::RoomAlreadyActive)
    } else if snapshot.room.owner_user_id != owner_user_id {
        Err(LobbyErrorModel::NotRoomOwner)
    } else {
        Ok(())
    }
}

pub fn check_disbanding(snapshot: &RoomSnapshotRecord, owner_user_id: &str) -> (r: Result<
    (),
    LobbyError,
>)
    ensures
        lobby_plain(r) == disbanding_allowed(snapshot@, owner_user_id@),
{
    if snapshot.room.status != RoomStatusRecord::Waiting {
        Err(LobbyError::RoomAlreadyActive)
    } else if !same_text(snapshot.room.owner_user_id.as_str(), owner_user_id) {
        Err(LobbyError::NotRoomOwner)
    } else {
        Ok(())
    }
}

/// Whether the owner of a stored room may make a member go. Owners cannot make themselves go.
pub open spec fn kicking_allowed(
    snapshot: RoomSnapshotRecordModel,
    owner_user_id: Seq<char>,
    target: Seq<char>,
) -> Result<(), LobbyErrorModel> {
    if owner_user_id == target {
        Err(LobbyErrorModel::CannotKickSelf)
    } else {
        match disbanding_allowed(snapshot, owner_user_id) {
            Err(error) => Err(error),
            Ok(_) => if is_stored_member(snapshot.members, target) {
                Ok(())
            } else {
                Err(LobbyErrorModel::NotRoomMember)
            },
        }
    }
}

pub fn check_kicking(snapshot: &RoomSnapshotRecord, owner_user_id: &str, target_user_id: &str) -> (r:
    Result<(), LobbyError>)
    ensures
        lobby_plain(r) == kicking_allowed(snapshot@, owner_user_id@, target_user_id@),
{
    if same_text(owner_user_id, target_user_id) {
        return Err(LobbyError::CannotKickSelf);
    }
    match check_disbanding(snapshot, owner_user_id) {
        Err(error) => Err(error),
        Ok(_) => if contains_member(&snapshot.members, target_user_id) {
            Ok(())
        } else {
            Err(LobbyError::NotRoomMember)
        },
    }
}

/// Whether a ready mark counts in a stored room: not once the room is taken.
pub open spec fn marking_allowed(snapshot: RoomSnapshotRecordModel, user_id: Seq<char>) -> Result<
    bool,
    LobbyErrorModel,
> {
    if snapshot.room.status != RoomStatusRecord::Waiting {
        Ok(false)
    } else if !is_stored_member(snapshot.members, user_id) {
        Err(LobbyErrorModel::NotRoomMember)
    } else {
        Ok(true)
    }
}

pub fn check_marking(snapshot: &RoomSnapshotRecord, user_id: &str) -> (r: Result<bool, LobbyError>)
    ensures
        lobby_plain(r) == marking_allowed(snapshot@, user_id@),
{
    if snapshot.room.status != RoomStatusRecord::Waiting {
        Ok(false)
    } else if !contains_member(&snapshot.members, user_id) {
        Err(LobbyError::NotRoomMember)
    } else {
        Ok(true)
    }
}

/// Whether as many members as there are seats are there, and all of them ready.
pub open spec fn stored_all_ready(members: Seq<RoomMemberRecordModel>, seat_count: u32) -> bool {
    members.len() == seat_count && forall|i: int|
        0 <= i < members.len() ==> (#[trigger] members[i]).ready
}

pub fn all_members_ready(members: &Vec<RoomMemberRecord>, seat_count: u32) -> (r: bool)
    ensures
        r == stored_all_ready(views(members@), seat_count),
{
    if members.len() != seat_count as usize {
        return false;
    }
    let mut i: usize = 0;
    while i < members.len()
        invariant
            i <= members.len(),
            forall|j: int| 0 <= j < i ==> (#[trigger] views(members@)[j]).ready,
        decreases members.len() - i,
    {
        assert(views(members@)[i as int] == members@[i as int]@);
        if !members[i].ready {
            return false;
        }
        i = i + 1;
    }
    true
}

/// The seat that a stored room gives to one more member.
pub open spec fn stored_free_seat(
    status: LobbyRoomStatus,
    seat_count: u32,
    members: Seq<RoomMemberRecordModel>,
) -> Result<Seat, LobbyErrorModel> {
    if status != LobbyRoomStatus::Waiting {
        Err(LobbyErrorModel::RoomAlreadyActive)
    } else if members.len() >= seat_count {
        Err(LobbyErrorModel::RoomFull)
    } else {
        match members_of(members) {
            Err(error) => Err(error),
            Ok(seated) => match free_seat(seated) {
                Some(seat) => Ok(seat),
                None => Err(LobbyErrorModel::RoomFull),
            },
        }
    }
}

pub fn seat_for_joining(status: LobbyRoomStatus, seat_count: u32, members: Vec<RoomMemberRecord>) -> (r:
    Result<Seat, LobbyError>)
    ensures
        lobby_plain(r) == stored_free_seat(status, seat_count, views(members@)),
{
    if status != LobbyRoomStatus::Waiting {
        return Err(LobbyError::RoomAlreadyActive);
    }
    if members.len() >= seat_count as usize {
        return Err(LobbyError::RoomFull);
    }
    match read_members(members) {
        Err(error) => Err(error),
        Ok(seated) => match next_free_seat(&seated) {
            Some(seat) => Ok(seat),
            None => Err(LobbyError::RoomFull),
        },
    }
}

/// The place of the first of those who came first.
pub open spec fn is_first_arrival(members: Seq<RoomMemberRecordModel>, place: int) -> bool {
    &&& 0 <= place < members.len()
    &&& forall|i: int|
        0 <= i < members.len() ==> members[place].joined_at_unix_ms <= (
        #[trigger] members[i]).joined_at_unix_ms
    &&& forall|i: int|
        0 <= i < place ==> members[place].joined_at_unix_ms < (#[trigger] members[i]).joined_at_unix_ms
}

/// Who owns a room after its owner has left: whoever came first of those who stayed.
pub fn next_owner(members: &Vec<RoomMemberRecord>) -> (r: Option<String>)
    ensures
        match r {
            None => members@.len() == 0,
            Some(user_id) => exists|place: int|
                #[trigger] is_first_arrival(views(members@), place) && user_id@ == views(
                    members@,
                )[place].user_id,
        },
{
    if members.len() == 0 {
        return None;
    }
    let ghost all = views(members@);
    let mut place: usize = 0;
    let mut i: usize = 1;
    while i < members.len()
        invariant
            place < i <= members.len(),
            all == views(members@),
            forall|j: int|
                0 <= j < i ==> all[place as int].joined_at_unix_ms <= (
                #[trigger] all[j]).joined_at_unix_ms,
            forall|j: int|
                0 <= j < place ==> all[place as int].joined_at_unix_ms < (
                #[trigger] all[j]).joined_at_unix_ms,
        decreases members.len() - i,
    {
        assert(all[i as int] == members@[i as int]@ && all[place as int] == members@[place as int]@);
        if members[i].joined_at_unix_ms < members[place].joined_at_unix_ms {
            place = i;
        }
        i = i + 1;
    }
    assert(is_first_arrival(all, place as int));
    Some(members[place].user_id.clone())
}

// ---------------------------------------------------------------------------
// What is stored of a match
// ---------------------------------------------------------------------------

/// An object with a value under a key, in the place of the value that was there.
pub open spec fn with_member(
    members: Seq<(Seq<char>, JsonModel)>,
    key: Seq<char>,
    value: JsonModel,
) -> Seq<(Seq<char>, JsonModel)>
    decreases members.len(),
{
    if members.len() == 0 {
        members.push((key, value))
    } else if members.last().0 == key {
        members.drop_last().push((key, value))
    } else {
        with_member(members.drop_last(), key, value).push(members.last())
    }
}

/// Who sits at a seat, as stored with a match.
pub open spec fn seating_payload(member: RoomMemberRecordModel) -> JsonModel {
    JsonModel::Object(
        no_members()
            .push(("user_id"@, json_text(member.user_id)))
            .push(("display_name"@, json_text(member.display_name)))
            .push(("initial_score"@, json_int(25_000))),
    )
}

/// Who sits where, seat by seat.
pub open spec fn seating_members(members: Seq<RoomMemberRecordModel>) -> Seq<(Seq<char>, JsonModel)>
    decreases members.len(),
{
    if members.len() == 0 {
        no_members()
    } else {
        with_member(
            seating_members(members.drop_last()),
            members.last().seat,
            seating_payload(members.last()),
        )
    }
}

fn put_member(members: &mut Vec<JsonMember>, key: String, value: Json)
    ensures
        json_members(final(members)@) == with_member(json_members(old(members)@), key@, value@),
    decreases old(members)@.len(),
{
    let ghost before = json_members(members@);
    match members.pop() {
        None => {
            members.push(JsonMember { key, value });
            assert(json_members(members@) =~= before.push((key@, value@)));
        },
        Some(last) => {
            assert(json_members(members@) =~= before.drop_last());
            assert(before.last() == (last.key@, last.value@));
            if same_text(last.key.as_str(), key.as_str()) {
                members.push(JsonMember { key, value });
                assert(json_members(members@) =~= before.drop_last().push((key@, value@)));
            } else {
                put_member(members, key, value);
                let ghost middle = json_members(members@);
                members.push(last);
                assert(json_members(members@) =~= middle.push((last.key@, last.value@)));
            }
        },
    }
}

/// What is stored with a match of who sits where.
pub fn build_seating_snapshot(members: &Vec<RoomMemberRecord>) -> (r: Json)
    ensures
        r@ == JsonModel::Object(seating_members(views(members@))),
{
    let ghost all = views(members@);
    let mut seating: Vec<JsonMember> = Vec::new();
    assert(json_members(seating@) =~= no_members());
    let mut i: usize = 0;
    while i < members.len()
        invariant
            i <= members.len(),
            all == views(members@),
            json_members(seating@) == seating_members(all.take(i as int)),
        decreases members.len() - i,
    {
        assert(all.take(i + 1).drop_last() =~= all.take(i as int));
        assert(all.take(i + 1).last() == members@[i as int]@);
        let member = &members[i];
        let value = JsonObject::new()
            .with("user_id", Json::text(member.user_id.as_str()))
            .with("display_name", Json::text(member.display_name.as_str()))
            .with("initial_score", Json::unsigned(25_000))
            .build();
        put_member(&mut seating, member.seat.clone(), value);
        i = i + 1;
    }
    assert(all.take(i as int) =~= all);
    proof {
        lemma_object_model(seating);
    }
    Json::Object(seating)
}

/// What an event makes of the status of its match, and the result that it brings.
pub open spec fn aggregate_of(event: NewMatchEventRecordModel) -> (MatchStatusRecord, Option<JsonModel>) {
    if event.event_type == "round_settlement"@ {
        (MatchStatusRecord::Finished, Some(event.event_payload))
    } else {
        (MatchStatusRecord::Active, None)
    }
}

pub fn match_aggregate(event: &NewMatchEventRecord) -> (r: (MatchStatusRecord, Option<Json>))
    ensures
        (r.0, opt_view(r.1)) == aggregate_of(event@),
{
    if same_text(event.event_type.as_str(), "round_settlement") {
        (MatchStatusRecord::Finished, Some(event.event_payload.clone()))
    } else {
        (MatchStatusRecord::Active, None)
    }
}

} // verus!
