//! The types of the lobby.

use vstd::prelude::*;

use crate::collections::{opt_view, views};
use crate::proto::client::Seat;

verus! {

/// How far a room is.
#[derive(Clone, Copy, Debug, PartialEq, Eq, Structural)]
pub enum LobbyRoomStatus {
    /// Members come and go.
    Waiting,
    /// The match runs; nobody can join or be kicked.
    Active,
    Closed,
}

/// Why a request to the lobby was refused.
#[derive(Debug, PartialEq, Eq)]
pub enum LobbyError {
    AlreadyInRoom,
    RoomNotFound,
    RoomFull,
    RoomAlreadyActive,
    NotRoomOwner,
    CannotKickSelf,
    NotRoomMember,
    InvalidRoomCode,
    Storage(String),
}

/// The contents of a [`LobbyError`].
#[verifier::ext_equal]
pub enum LobbyErrorModel {
    AlreadyInRoom,
    RoomNotFound,
    RoomFull,
    RoomAlreadyActive,
    NotRoomOwner,
    CannotKickSelf,
    NotRoomMember,
    InvalidRoomCode,
    Storage(Seq<char>),
}

impl View for LobbyError {
    type V = LobbyErrorModel;

    open spec fn view(&self) -> LobbyErrorModel {
        match self {
            LobbyError::AlreadyInRoom => LobbyErrorModel::AlreadyInRoom,
            LobbyError::RoomNotFound => LobbyErrorModel::RoomNotFound,
            LobbyError::RoomFull => LobbyErrorModel::RoomFull,
            LobbyError::RoomAlreadyActive => LobbyErrorModel::RoomAlreadyActive,
            LobbyError::NotRoomOwner => LobbyErrorModel::NotRoomOwner,
            LobbyError::CannotKickSelf => LobbyErrorModel::CannotKickSelf,
            LobbyError::NotRoomMember => LobbyErrorModel::NotRoomMember,
            LobbyError::InvalidRoomCode => LobbyErrorModel::InvalidRoomCode,
            LobbyError::Storage(reason) => LobbyErrorModel::Storage(reason@),
        }
    }
}

/// The settings of a room.
#[derive(Debug, PartialEq, Eq)]
pub struct LobbyRoomConfig {
    pub ruleset_id: String,
    pub seat_count: u32,
    pub enable_flower_tiles: bool,
    pub enable_robbing_kong: bool,
    pub enable_kong_draw: bool,
    pub reconnect_grace_seconds: u32,
    pub action_timeout_ms: u32,
}

/// The contents of a [`LobbyRoomConfig`].
#[verifier::ext_equal]
pub struct LobbyRoomConfigModel {
    pub ruleset_id: Seq<char>,
    pub seat_count: u32,
    pub enable_flower_tiles: bool,
    pub enable_robbing_kong: bool,
    pub enable_kong_draw: bool,
    pub reconnect_grace_seconds: u32,
    pub action_timeout_ms: u32,
}

impl View for LobbyRoomConfig {
    type V = LobbyRoomConfigModel;

    open spec fn view(&self) -> LobbyRoomConfigModel {
        LobbyRoomConfigModel {
            ruleset_id: self.ruleset_id@,
            seat_count: self.seat_count,
            enable_flower_tiles: self.enable_flower_tiles,
            enable_robbing_kong: self.enable_robbing_kong,
            enable_kong_draw: self.enable_kong_draw,
            reconnect_grace_seconds: self.reconnect_grace_seconds,
            action_timeout_ms: self.action_timeout_ms,
        }
    }
}

impl Clone for LobbyRoomConfig {
    fn clone(&self) -> (r: Self)
        ensures
            r@ == self@,
    {
        LobbyRoomConfig {
            ruleset_id: self.ruleset_id.clone(),
            seat_count: self.seat_count,
            enable_flower_tiles: self.enable_flower_tiles,
            enable_robbing_kong: self.enable_robbing_kong,
            enable_kong_draw: self.enable_kong_draw,
            reconnect_grace_seconds: self.reconnect_grace_seconds,
            action_timeout_ms: self.action_timeout_ms,
        }
    }
}

/// Somebody who waits in a room.
#[derive(Debug, PartialEq, Eq)]
pub struct LobbyMember {
    pub user_id: String,
    pub display_name: String,
    pub seat: Seat,
    pub joined_at_unix_ms: u64,
    pub ready: bool,
    pub kicked_at_unix_ms: Option<u64>,
    pub left_at_unix_ms: Option<u64>,
}

/// The contents of a [`LobbyMember`].
#[verifier::ext_equal]
pub struct LobbyMemberModel {
    pub user_id: Seq<char>,
    pub display_name: Seq<char>,
    pub seat: Seat,
    pub joined_at_unix_ms: u64,
    pub ready: bool,
    pub kicked_at_unix_ms: Option<u64>,
    pub left_at_unix_ms: Option<u64>,
}

impl View for LobbyMember {
    type V = LobbyMemberModel;

    open spec fn view(&self) -> LobbyMemberModel {
        LobbyMemberModel {
            user_id: self.user_id@,
            display_name: self.display_name@,
            seat: self.seat,
            joined_at_unix_ms: self.joined_at_unix_ms,
            ready: self.ready,
            kicked_at_unix_ms: self.kicked_at_unix_ms,
            left_at_unix_ms: self.left_at_unix_ms,
        }
    }
}

impl Clone for LobbyMember {
    fn clone(&self) -> (r: Self)
        ensures
            r@ == self@,
    {
        LobbyMember {
            user_id: self.user_id.clone(),
            display_name: self.display_name.clone(),
            seat: self.seat,
            joined_at_unix_ms: self.joined_at_unix_ms,
            ready: self.ready,
            kicked_at_unix_ms: self.kicked_at_unix_ms,
            left_at_unix_ms: self.left_at_unix_ms,
        }
    }
}

/// A room before its match starts.
#[derive(Debug, PartialEq, Eq)]
pub struct LobbyRoom {
    pub room_id: String,
    pub room_code: String,
    pub owner_user_id: String,
    pub status: LobbyRoomStatus,
    pub config: LobbyRoomConfig,
    pub current_match_id: Option<String>,
    pub members: Vec<LobbyMember>,
    pub created_at_unix_ms: u64,
}

/// The contents of a [`LobbyRoom`].
#[verifier::ext_equal]
pub struct LobbyRoomModel {
    pub room_id: Seq<char>,
    pub room_code: Seq<char>,
    pub owner_user_id: Seq<char>,
    pub status: LobbyRoomStatus,
    pub config: LobbyRoomConfigModel,
    pub current_match_id: Option<Seq<char>>,
    pub members: Seq<LobbyMemberModel>,
    pub created_at_unix_ms: u64,
}

impl View for LobbyRoom {
    type V = LobbyRoomModel;

    open spec fn view(&self) -> LobbyRoomModel {
        LobbyRoomModel {
            room_id: self.room_id@,
            room_code: self.room_code@,
            owner_user_id: self.owner_user_id@,
            status: self.status,
            config: self.config@,
            current_match_id: opt_view(self.current_match_id),
            members: views(self.members@),
            created_at_unix_ms: self.created_at_unix_ms,
        }
    }
}

impl Clone for LobbyRoom {
    fn clone(&self) -> (r: Self)
        ensures
            r@ == self@,
    {
        LobbyRoom {
            room_id: self.room_id.clone(),
            room_code: self.room_code.clone(),
            owner_user_id: self.owner_user_id.clone(),
            status: self.status,
            config: self.config.clone(),
            current_match_id: self.current_match_id.clone(),
            members: self.members.clone(),
            created_at_unix_ms: self.created_at_unix_ms,
        }
    }
}

/// What is told of a member.
#[derive(Debug, PartialEq, Eq)]
pub struct LobbyMemberView {
    pub user_id: String,
    pub display_name: String,
    pub seat: String,
    pub ready: bool,
    pub is_owner: bool,
}

/// The contents of a [`LobbyMemberView`].
#[verifier::ext_equal]
pub struct LobbyMemberViewModel {
    pub user_id: Seq<char>,
    pub display_name: Seq<char>,
    pub seat: Seq<char>,
    pub ready: bool,
    pub is_owner: bool,
}

impl View for LobbyMemberView {
    type V = LobbyMemberViewModel;

    open spec fn view(&self) -> LobbyMemberViewModel {
        LobbyMemberViewModel {
            user_id: self.user_id@,
            display_name: self.display_name@,
            seat: self.seat@,
            ready: self.ready,
            is_owner: self.is_owner,
        }
    }
}

impl Clone for LobbyMemberView {
    fn clone(&self) -> (r: Self)
        ensures
            r@ == self@,
    {
        LobbyMemberView {
            user_id: self.user_id.clone(),
            display_name: self.display_name.clone(),
            seat: self.seat.clone(),
            ready: self.ready,
            is_owner: self.is_owner,
        }
    }
}

/// What is told of a room.
#[derive(Debug, PartialEq, Eq)]
pub struct LobbyRoomView {
    pub room_id: String,
    pub room_code: String,
    pub owner_user_id: String,
    pub status: String,
    pub current_match_id: Option<String>,
    pub config: LobbyRoomConfig,
    pub members: Vec<LobbyMemberView>,
}

/// The contents of a [`LobbyRoomView`].
#[verifier::ext_equal]
pub struct LobbyRoomViewModel {
    pub room_id: Seq<char>,
    pub room_code: Seq<char>,
    pub owner_user_id: Seq<char>,
    pub status: Seq<char>,
    pub current_match_id: Option<Seq<char>>,
    pub config: LobbyRoomConfigModel,
    pub members: Seq<LobbyMemberViewModel>,
}

impl View for LobbyRoomView {
    type V = LobbyRoomViewModel;

    open spec fn view(&self) -> LobbyRoomViewModel {
        LobbyRoomViewModel {
            room_id: self.room_id@,
            room_code: self.room_code@,
            owner_user_id: self.owner_user_id@,
            status: self.status@,
            current_match_id: opt_view(self.current_match_id),
            config: self.config@,
            members: views(self.members@),
        }
    }
}

impl Clone for LobbyRoomView {
    fn clone(&self) -> (r: Self)
        ensures
            r@ == self@,
    {
        LobbyRoomView {
            room_id: self.room_id.clone(),
            room_code: self.room_code.clone(),
            owner_user_id: self.owner_user_id.clone(),
            status: self.status.clone(),
            current_match_id: self.current_match_id.clone(),
            config: self.config.clone(),
            members: self.members.clone(),
        }
    }
}

/// Who may enter a room, and at which seat.
#[derive(Debug, PartialEq, Eq)]
pub struct LobbyJoinAccess {
    pub user_id: String,
    pub seat: Seat,
}

/// The contents of a [`LobbyJoinAccess`].
#[verifier::ext_equal]
pub struct LobbyJoinAccessModel {
    pub user_id: Seq<char>,
    pub seat: Seat,
}

impl View for LobbyJoinAccess {
    type V = LobbyJoinAccessModel;

    open spec fn view(&self) -> LobbyJoinAccessModel {
        LobbyJoinAccessModel {
            user_id: self.user_id@,
            seat: self.seat,
        }
    }
}

impl Clone for LobbyJoinAccess {
    fn clone(&self) -> (r: Self)
        ensures
            r@ == self@,
    {
        LobbyJoinAccess {
            user_id: self.user_id.clone(),
            seat: self.seat,
        }
    }
}

} // verus!
