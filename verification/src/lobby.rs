//! The lobby: rooms before their match starts, and who waits in them.

use vstd::prelude::*;
use vstd::string::*;

use crate::collections::{opt_view, StrMap};
use crate::db::models::RoomMemberRecordModel;
use crate::proto::client::Seat;
use crate::text::upper_text;

pub mod laws;
pub mod rules;
pub mod service;
pub mod types;

pub use crate::lobby::types::{
    LobbyError, LobbyErrorModel, LobbyJoinAccess, LobbyJoinAccessModel, LobbyMember, LobbyMemberModel,
    LobbyMemberView, LobbyMemberViewModel, LobbyRoom, LobbyRoomConfig, LobbyRoomConfigModel,
    LobbyRoomModel, LobbyRoomStatus, LobbyRoomView, LobbyRoomViewModel,
};

verus! {

/// How many characters a room code has.
pub const ROOM_CODE_LEN: usize = 6;

/// The settings that every room starts with.
pub open spec fn default_config() -> LobbyRoomConfigModel {
    LobbyRoomConfigModel {
        ruleset_id: "gb_mahjong_cn_v1"@,
        seat_count: 4,
        enable_flower_tiles: true,
        enable_robbing_kong: true,
        enable_kong_draw: true,
        reconnect_grace_seconds: 30,
        action_timeout_ms: 15_000,
    }
}

pub fn default_lobby_room_config() -> (r: LobbyRoomConfig)
    ensures
        r@ == default_config(),
{
    LobbyRoomConfig {
        ruleset_id: String::from_str("gb_mahjong_cn_v1"),
        seat_count: 4,
        enable_flower_tiles: true,
        enable_robbing_kong: true,
        enable_kong_draw: true,
        reconnect_grace_seconds: 30,
        action_timeout_ms: 15_000,
    }
}

impl LobbyRoomStatus {
    /// The word for a status.
    pub open spec fn word(self) -> Seq<char> {
        match self {
            LobbyRoomStatus::Waiting => "waiting"@,
            LobbyRoomStatus::Active => "active"@,
            LobbyRoomStatus::Closed => "closed"@,
        }
    }

    pub fn as_str(self) -> (r: &'static str)
        ensures
            r@ == self.word(),
    {
        match self {
            LobbyRoomStatus::Waiting => "waiting",
            LobbyRoomStatus::Active => "active",
            LobbyRoomStatus::Closed => "closed",
        }
    }
}

/// What is told of a member.
pub open spec fn member_view(member: LobbyMemberModel, owner_user_id: Seq<char>) -> LobbyMemberViewModel {
    LobbyMemberViewModel {
        user_id: member.user_id,
        display_name: member.display_name,
        seat: member.seat.name(),
        ready: member.ready,
        is_owner: member.user_id == owner_user_id,
    }
}

/// What is told of a room: who waits in it, and who owns it.
pub open spec fn room_view(room: LobbyRoomModel) -> LobbyRoomViewModel {
    LobbyRoomViewModel {
        room_id: room.room_id,
        room_code: room.room_code,
        owner_user_id: room.owner_user_id,
        status: room.status.word(),
        current_match_id: room.current_match_id,
        config: room.config,
        members: Seq::new(
            room.members.len(),
            |i: int| member_view(room.members[i], room.owner_user_id),
        ),
    }
}

/// A member, as stored.
pub open spec fn member_record(member: LobbyMemberModel, room_id: Seq<char>) -> RoomMemberRecordModel {
    RoomMemberRecordModel {
        room_id,
        user_id: member.user_id,
        display_name: member.display_name,
        seat: member.seat.name(),
        joined_at_unix_ms: member.joined_at_unix_ms,
        ready: member.ready,
        kicked_at_unix_ms: member.kicked_at_unix_ms,
        left_at_unix_ms: member.left_at_unix_ms,
    }
}

/// The place of a user among the members of a room.
pub open spec fn member_place(members: Seq<LobbyMemberModel>, user_id: Seq<char>) -> Option<int>
    decreases members.len(),
{
    if members.len() == 0 {
        None
    } else if members[0].user_id == user_id {
        Some(0)
    } else {
        match member_place(members.drop_first(), user_id) {
            Some(place) => Some(place + 1),
            None => None,
        }
    }
}

/// Whether a seat is taken.
pub open spec fn seat_taken(members: Seq<LobbyMemberModel>, seat: Seat) -> bool {
    exists|i: int| 0 <= i < members.len() && #[trigger] members[i].seat == seat
}

/// The first seat in the order of play that nobody has.
pub open spec fn free_seat(members: Seq<LobbyMemberModel>) -> Option<Seat> {
    if !seat_taken(members, Seat::East) {
        Some(Seat::East)
    } else if !seat_taken(members, Seat::South) {
        Some(Seat::South)
    } else if !seat_taken(members, Seat::West) {
        Some(Seat::West)
    } else if !seat_taken(members, Seat::North) {
        Some(Seat::North)
    } else {
        None
    }
}

/// A member who has just come in.
pub open spec fn new_member(user_id: Seq<char>, display_name: Seq<char>, seat: Seat, now: u64) -> LobbyMemberModel {
    LobbyMemberModel {
        user_id,
        display_name,
        seat,
        joined_at_unix_ms: now,
        ready: false,
        kicked_at_unix_ms: None,
        left_at_unix_ms: None,
    }
}

/// The members with one more, who comes behind everybody who was there before.
pub open spec fn placed_member(members: Seq<LobbyMemberModel>, member: LobbyMemberModel) -> Seq<
    LobbyMemberModel,
>
    decreases members.len(),
{
    if members.len() == 0 || members.last().joined_at_unix_ms <= member.joined_at_unix_ms {
        members.push(member)
    } else {
        placed_member(members.drop_last(), member).push(members.last())
    }
}

/// The members by the time at which they came in; those who came at the same time stay in order.
pub open spec fn by_arrival(members: Seq<LobbyMemberModel>) -> Seq<LobbyMemberModel>
    decreases members.len(),
{
    if members.len() == 0 {
        members
    } else {
        placed_member(by_arrival(members.drop_last()), members.last())
    }
}

/// The contents of a [`LobbyService`].
#[verifier::ext_equal]
pub struct LobbyModel {
    pub rooms: Map<Seq<char>, LobbyRoomModel>,
    pub codes: Map<Seq<char>, Seq<char>>,
    pub users: Map<Seq<char>, Seq<char>>,
}

/// The rooms that users are in, without the members of a room.
pub open spec fn without_members(
    users: Map<Seq<char>, Seq<char>>,
    members: Seq<LobbyMemberModel>,
) -> Map<Seq<char>, Seq<char>>
    decreases members.len(),
{
    if members.len() == 0 {
        users
    } else {
        without_members(users, members.drop_last()).remove(members.last().user_id)
    }
}

/// A new room, with its owner as its only member.
pub open spec fn fresh_room(
    user_id: Seq<char>,
    display_name: Seq<char>,
    room_id: Seq<char>,
    room_code: Seq<char>,
    now: u64,
) -> LobbyRoomModel {
    LobbyRoomModel {
        room_id,
        room_code,
        owner_user_id: user_id,
        status: LobbyRoomStatus::Waiting,
        config: default_config(),
        current_match_id: None,
        members: seq![new_member(user_id, display_name, Seat::East, now)],
        created_at_unix_ms: now,
    }
}

/// Whether as many members as the room wants are there, and all of them ready.
pub open spec fn everybody_ready(room: LobbyRoomModel) -> bool {
    room.members.len() == room.config.seat_count && forall|i: int|
        0 <= i < room.members.len() ==> #[trigger] room.members[i].ready
}

impl LobbyModel {
    /// Opens a room.
    pub open spec fn created(
        self,
        user_id: Seq<char>,
        display_name: Seq<char>,
        room_id: Seq<char>,
        room_code: Seq<char>,
        now: u64,
    ) -> (LobbyModel, Result<LobbyRoomViewModel, LobbyErrorModel>) {
        if self.users.contains_key(user_id) {
            (self, Err(LobbyErrorModel::AlreadyInRoom))
        } else {
            let room = fresh_room(user_id, display_name, room_id, room_code, now);
            (
                LobbyModel {
                    rooms: self.rooms.insert(room_id, room),
                    codes: self.codes.insert(room_code, room_id),
                    users: self.users.insert(user_id, room_id),
                },
                Ok(room_view(room)),
            )
        }
    }

    /// Lets a user into the room with a code.
    pub open spec fn joined(
        self,
        user_id: Seq<char>,
        display_name: Seq<char>,
        room_code: Seq<char>,
        now: u64,
    ) -> (LobbyModel, Result<LobbyRoomViewModel, LobbyErrorModel>) {
        let code = upper_text(room_code);
        if self.users.contains_key(user_id) {
            (self, Err(LobbyErrorModel::AlreadyInRoom))
        } else if !self.codes.contains_key(code) {
            (self, Err(LobbyErrorModel::InvalidRoomCode))
        } else if !self.rooms.contains_key(self.codes[code]) {
            (self, Err(LobbyErrorModel::RoomNotFound))
        } else {
            let room_id = self.codes[code];
            let room = self.rooms[room_id];
            if room.status != LobbyRoomStatus::Waiting {
                (self, Err(LobbyErrorModel::RoomAlreadyActive))
            } else if room.members.len() >= room.config.seat_count {
                (self, Err(LobbyErrorModel::RoomFull))
            } else {
                match free_seat(room.members) {
                    None => (self, Err(LobbyErrorModel::RoomFull)),
                    Some(seat) => {
                        let after = LobbyRoomModel {
                            members: room.members.push(
                                new_member(user_id, display_name, seat, now),
                            ),
                            ..room
                        };
                        (
                            LobbyModel {
                                rooms: self.rooms.insert(room_id, after),
                                users: self.users.insert(user_id, room_id),
                                ..self
                            },
                            Ok(room_view(after)),
                        )
                    },
                }
            }
        }
    }

    /// What a user is told of a room.
    pub open spec fn told(self, user_id: Seq<char>, room_id: Seq<char>) -> Result<
        LobbyRoomViewModel,
        LobbyErrorModel,
    > {
        if !self.rooms.contains_key(room_id) {
            Err(LobbyErrorModel::RoomNotFound)
        } else if member_place(self.rooms[room_id].members, user_id) is None {
            Err(LobbyErrorModel::NotRoomMember)
        } else {
            Ok(room_view(self.rooms[room_id]))
        }
    }

    /// Lets a member go. An owner who goes is followed by whoever came first, and a room that
    /// nobody is left in is gone.
    pub open spec fn left(self, user_id: Seq<char>, room_id: Seq<char>) -> (
        LobbyModel,
        Result<Option<LobbyRoomViewModel>, LobbyErrorModel>,
    ) {
        if !self.rooms.contains_key(room_id) {
            (self, Err(LobbyErrorModel::RoomNotFound))
        } else {
            let room = self.rooms[room_id];
            if room.status != LobbyRoomStatus::Waiting {
                (self, Err(LobbyErrorModel::RoomAlreadyActive))
            } else {
                match member_place(room.members, user_id) {
                    None => (self, Err(LobbyErrorModel::NotRoomMember)),
                    Some(place) => {
                        let rest = room.members.remove(place);
                        let users = self.users.remove(user_id);
                        if rest.len() == 0 {
                            (
                                LobbyModel {
                                    rooms: self.rooms.remove(room_id),
                                    codes: self.codes.remove(room.room_code),
                                    users,
                                },
                                Ok(None),
                            )
                        } else {
                            let after = if room.owner_user_id == user_id {
                                let members = by_arrival(rest);
                                LobbyRoomModel {
                                    members,
                                    owner_user_id: members[0].user_id,
                                    ..room
                                }
                            } else {
                                LobbyRoomModel { members: rest, ..room }
                            };
                            (
                                LobbyModel {
                                    rooms: self.rooms.insert(room_id, after),
                                    users,
                                    ..self
                                },
                                Ok(Some(room_view(after))),
                            )
                        }
                    },
                }
            }
        }
    }

    /// Makes a member go.
    pub open spec fn kicked(self, owner_user_id: Seq<char>, room_id: Seq<char>, target: Seq<char>) -> (
        LobbyModel,
        Result<LobbyRoomViewModel, LobbyErrorModel>,
    ) {
        if owner_user_id == target {
            (self, Err(LobbyErrorModel::CannotKickSelf))
        } else if !self.rooms.contains_key(room_id) {
            (self, Err(LobbyErrorModel::RoomNotFound))
        } else {
            let room = self.rooms[room_id];
            if room.status != LobbyRoomStatus::Waiting {
                (self, Err(LobbyErrorModel::RoomAlreadyActive))
            } else if room.owner_user_id != owner_user_id {
                (self, Err(LobbyErrorModel::NotRoomOwner))
            } else {
                match member_place(room.members, target) {
                    None => (self, Err(LobbyErrorModel::NotRoomMember)),
                    Some(place) => {
                        let after = LobbyRoomModel { members: room.members.remove(place), ..room };
                        (
                            LobbyModel {
                                rooms: self.rooms.insert(room_id, after),
                                users: self.users.remove(target),
                                ..self
                            },
                            Ok(room_view(after)),
                        )
                    },
                }
            }
        }
    }

    /// Closes a room.
    pub open spec fn disbanded(self, owner_user_id: Seq<char>, room_id: Seq<char>) -> (
        LobbyModel,
        Result<(), LobbyErrorModel>,
    ) {
        if !self.rooms.contains_key(room_id) {
            (self, Err(LobbyErrorModel::RoomNotFound))
        } else {
            let room = self.rooms[room_id];
            if room.status != LobbyRoomStatus::Waiting {
                (self, Err(LobbyErrorModel::RoomAlreadyActive))
            } else if room.owner_user_id != owner_user_id {
                (self, Err(LobbyErrorModel::NotRoomOwner))
            } else {
                (
                    LobbyModel {
                        rooms: self.rooms.remove(room_id),
                        codes: self.codes.remove(room.room_code),
                        users: without_members(self.users, room.members),
                    },
                    Ok(()),
                )
            }
        }
    }

    /// The seat at which a user may enter a room.
    pub open spec fn access(self, room_id: Seq<char>, user_id: Seq<char>) -> Result<
        LobbyJoinAccessModel,
        LobbyErrorModel,
    > {
        if !self.rooms.contains_key(room_id) {
            Err(LobbyErrorModel::RoomNotFound)
        } else {
            match member_place(self.rooms[room_id].members, user_id) {
                None => Err(LobbyErrorModel::NotRoomMember),
                Some(place) => Ok(
                    LobbyJoinAccessModel {
                        user_id,
                        seat: self.rooms[room_id].members[place].seat,
                    },
                ),
            }
        }
    }

    /// Sets the ready mark of a member. When everybody is ready the room is taken.
    pub open spec fn marked_ready(self, room_id: Seq<char>, user_id: Seq<char>, ready: bool) -> (
        LobbyModel,
        Result<bool, LobbyErrorModel>,
    ) {
        if !self.rooms.contains_key(room_id) {
            (self, Err(LobbyErrorModel::RoomNotFound))
        } else {
            let room = self.rooms[room_id];
            if room.status != LobbyRoomStatus::Waiting {
                (self, Ok(false))
            } else {
                match member_place(room.members, user_id) {
                    None => (self, Err(LobbyErrorModel::NotRoomMember)),
                    Some(place) => {
                        let marked = LobbyRoomModel {
                            members: room.members.update(
                                place,
                                LobbyMemberModel { ready, ..room.members[place] },
                            ),
                            ..room
                        };
                        let after = if everybody_ready(marked) {
                            LobbyRoomModel {
                                status: LobbyRoomStatus::Active,
                                current_match_id: Some("match-"@ + room.room_id),
                                ..marked
                            }
                        } else {
                            marked
                        };
                        (
                            LobbyModel { rooms: self.rooms.insert(room_id, after), ..self },
                            Ok(everybody_ready(marked)),
                        )
                    },
                }
            }
        }
    }

    /// The members of a room, as stored.
    pub open spec fn member_records(self, room_id: Seq<char>) -> Seq<RoomMemberRecordModel> {
        if !self.rooms.contains_key(room_id) {
            Seq::empty()
        } else {
            let room = self.rooms[room_id];
            Seq::new(room.members.len(), |i: int| member_record(room.members[i], room.room_id))
        }
    }
}

/// Every room, and who is in which.
pub struct LobbyService {
    pub rooms_by_id: StrMap<LobbyRoom>,
    pub room_id_by_code: StrMap<String>,
    pub room_id_by_user: StrMap<String>,
}

impl View for LobbyService {
    type V = LobbyModel;

    open spec fn view(&self) -> LobbyModel {
        LobbyModel {
            rooms: self.rooms_by_id@,
            codes: self.room_id_by_code@,
            users: self.room_id_by_user@,
        }
    }
}

/// The view of an answer.
pub open spec fn lobby_result<T: View>(result: Result<T, LobbyError>) -> Result<T::V, LobbyErrorModel> {
    match result {
        Ok(value) => Ok(value@),
        Err(error) => Err(error@),
    }
}

/// The view of an answer that may be nothing.
pub open spec fn lobby_optional<T: View>(result: Result<Option<T>, LobbyError>) -> Result<
    Option<T::V>,
    LobbyErrorModel,
> {
    match result {
        Ok(value) => Ok(opt_view(value)),
        Err(error) => Err(error@),
    }
}

/// The view of an answer without text in it.
pub open spec fn lobby_plain<T>(result: Result<T, LobbyError>) -> Result<T, LobbyErrorModel> {
    match result {
        Ok(value) => Ok(value),
        Err(error) => Err(error@),
    }
}

} // verus!
