//! The gateway of the players' connections: what becomes of a frame from a client.

use vstd::prelude::*;

use crate::auth::{
    auth_result, AuthError, AuthErrorModel, AuthRepository, AuthService, AuthenticatedUser,
    AuthenticatedUserModel,
};
use crate::collections::opt_view;
use crate::lobby::types::{LobbyError, LobbyErrorModel, LobbyJoinAccess, LobbyJoinAccessModel};
use crate::lobby::{lobby_plain, lobby_result, LobbyModel, LobbyService};
use crate::proto::client::{
    ActionRejected, ActionRejectedModel, ClientFrame, ClientFrameModel, ClientPayload,
    ClientPayloadModel, Heartbeat, JoinRoomRequest, JoinRoomRequestModel, PlayerActionRequest,
    PlayerActionRequestModel, Pong, PongModel, ReadyRequest, RejectCode, ResumeSessionRequest,
    ResumeSessionRequestModel, ServerFrame, ServerFrameModel, ServerPayload, ServerPayloadModel,
};
use crate::room::commands::{RoomCommand, RoomCommandModel};
use crate::room::frames::{build_action_rejected, rejected_frame};
use crate::room::state::{AuthorizedJoin, AuthorizedJoinModel};
use crate::text::{concat, concat4, decimal, u64_to_text};
use crate::tokens::token_hash;

pub mod rules;

verus! {

// ---------------------------------------------------------------------------
// Frames of the gateway's own
// ---------------------------------------------------------------------------

/// Numbers that the gateway gives out.
#[derive(Clone, Copy, Debug, PartialEq, Eq, Structural)]
pub struct GatewayCounters {
    pub next_connection_id: u64,
    pub next_event_seq: u64,
}

/// A number and the one after it, which starts over where no larger one is left.
pub open spec fn following(number: u64) -> u64 {
    if number == u64::MAX {
        0
    } else {
        (number + 1) as u64
    }
}

impl GatewayCounters {
    pub fn new() -> (r: GatewayCounters)
        ensures
            r == (GatewayCounters { next_connection_id: 1, next_event_seq: 1 }),
    {
        GatewayCounters { next_connection_id: 1, next_event_seq: 1 }
    }

    /// A name for a new connection.
    pub fn allocate_connection_id(&mut self) -> (r: String)
        ensures
            r@ == "conn-"@ + decimal(old(self).next_connection_id as nat),
            *final(self) == (GatewayCounters {
                next_connection_id: following(old(self).next_connection_id),
                ..*old(self)
            }),
    {
        let id: u64 = self.next_connection_id;
        self.next_connection_id = id.wrapping_add(1);
        concat("conn-", u64_to_text(id).as_str())
    }

    /// The number of the gateway's next frame.
    pub fn next_event_seq(&mut self) -> (r: u64)
        ensures
            r == old(self).next_event_seq,
            *final(self) == (GatewayCounters {
                next_event_seq: following(old(self).next_event_seq),
                ..*old(self)
            }),
    {
        let event_seq: u64 = self.next_event_seq;
        self.next_event_seq = event_seq.wrapping_add(1);
        event_seq
    }
}

/// The answer to a heartbeat.
pub open spec fn pong_frame(event_seq: u64, request_id: Seq<char>, client_time_ms: u64, now_ms: u64) -> ServerFrameModel {
    ServerFrameModel {
        event_seq,
        payload: Some(
            ServerPayloadModel::Pong(
                PongModel {
                    request_id,
                    server_time_ms: now_ms,
                    echoed_client_time_ms: client_time_ms,
                    latest_event_seq: event_seq,
                },
            ),
        ),
    }
}

pub fn build_pong(event_seq: u64, request_id: String, heartbeat: Heartbeat, now_ms: u64) -> (r:
    ServerFrame)
    ensures
        r@ == pong_frame(event_seq, request_id@, heartbeat.client_time_ms, now_ms),
{
    ServerFrame {
        event_seq,
        payload: Some(
            ServerPayload::Pong(
                Pong {
                    request_id,
                    server_time_ms: now_ms,
                    echoed_client_time_ms: heartbeat.client_time_ms,
                    latest_event_seq: event_seq,
                },
            ),
        ),
    }
}

/// The news that the gateway turned a request down.
pub open spec fn refused_frame(event_seq: u64, request_id: Seq<char>, code: RejectCode, message: Seq<char>) -> ServerFrameModel {
    ServerFrameModel {
        event_seq,
        payload: Some(
            ServerPayloadModel::ActionRejected(
                ActionRejectedModel {
                    request_id,
                    reject_code: code.code(),
                    message,
                    expected_event_seq: 0,
                    actual_event_seq: 0,
                    action_window_id: 0,
                },
            ),
        ),
    }
}

pub fn build_gateway_rejected(event_seq: u64, request_id: String, reject_code: RejectCode, message: &str) -> (r:
    ServerFrame)
    ensures
        r@ == refused_frame(event_seq, request_id@, reject_code, message@),
{
    ServerFrame {
        event_seq,
        payload: Some(
            ServerPayload::ActionRejected(
                ActionRejected {
                    request_id,
                    reject_code: reject_code.as_i32(),
                    message: String::from_str(message),
                    expected_event_seq: 0,
                    actual_event_seq: 0,
                    action_window_id: 0,
                },
            ),
        ),
    }
}

// ---------------------------------------------------------------------------
// Connections and steps
// ---------------------------------------------------------------------------

/// A connection: who speaks on it, once that is known, and to which room.
#[derive(Debug, PartialEq, Eq)]
pub struct ConnectionSession {
    pub connection_id: String,
    pub current_user_id: Option<String>,
    pub current_room_id: Option<String>,
}

/// The contents of a [`ConnectionSession`].
#[verifier::ext_equal]
pub struct ConnectionSessionModel {
    pub connection_id: Seq<char>,
    pub current_user_id: Option<Seq<char>>,
    pub current_room_id: Option<Seq<char>>,
}

impl View for ConnectionSession {
    type V = ConnectionSessionModel;

    open spec fn view(&self) -> ConnectionSessionModel {
        ConnectionSessionModel {
            connection_id: self.connection_id@,
            current_user_id: opt_view(self.current_user_id),
            current_room_id: opt_view(self.current_room_id),
        }
    }
}

impl ConnectionSession {
    pub fn new(connection_id: String) -> (r: ConnectionSession)
        ensures
            r@ == (ConnectionSessionModel {
                connection_id: connection_id@,
                current_user_id: None,
                current_room_id: None,
            }),
    {
        ConnectionSession { connection_id, current_user_id: None, current_room_id: None }
    }
}

/// A command on its way to a room.
pub struct RoomDispatch {
    pub room_id: String,
    pub command: RoomCommand,
}

/// The contents of a [`RoomDispatch`].
#[verifier::ext_equal]
pub struct RoomDispatchModel {
    pub room_id: Seq<char>,
    pub command: RoomCommandModel,
}

impl View for RoomDispatch {
    type V = RoomDispatchModel;

    open spec fn view(&self) -> RoomDispatchModel {
        RoomDispatchModel { room_id: self.room_id@, command: self.command@ }
    }
}

/// What the gateway does next with a frame.
#[allow(inconsistent_fields)]
pub enum GatewayStep {
    /// Answer a heartbeat.
    Pong { request_id: String, heartbeat: Heartbeat },
    /// Turn the request down.
    Refuse { request_id: String, reject_code: RejectCode, message: String },
    /// Find out who wants to join.
    Authenticate { request_id: String, request: JoinRoomRequest },
    /// Find out whether the user may join.
    AuthorizeJoin { request_id: String, request: JoinRoomRequest, user: AuthenticatedUser },
    /// Set the ready mark in the lobby.
    MarkReady { request_id: String, room_id: String, user_id: String, request: ReadyRequest },
    /// Find out whether the user may come back.
    AuthorizeResume { request_id: String, request: ResumeSessionRequest },
    /// Find out whether the user may act.
    AuthorizeAction { request_id: String, user_id: String, request: PlayerActionRequest },
    /// Hand the request to the room.
    Dispatch(RoomDispatch),
}

/// The contents of a [`GatewayStep`].
#[allow(inconsistent_fields)]
#[verifier::ext_equal]
pub enum GatewayStepModel {
    Pong { request_id: Seq<char>, heartbeat: Heartbeat },
    Refuse { request_id: Seq<char>, reject_code: RejectCode, message: Seq<char> },
    Authenticate { request_id: Seq<char>, request: JoinRoomRequestModel },
    AuthorizeJoin {
        request_id: Seq<char>,
        request: JoinRoomRequestModel,
        user: AuthenticatedUserModel,
    },
    MarkReady {
        request_id: Seq<char>,
        room_id: Seq<char>,
        user_id: Seq<char>,
        request: ReadyRequest,
    },
    AuthorizeResume { request_id: Seq<char>, request: ResumeSessionRequestModel },
    AuthorizeAction {
        request_id: Seq<char>,
        user_id: Seq<char>,
        request: PlayerActionRequestModel,
    },
    Dispatch(RoomDispatchModel),
}

impl View for GatewayStep {
    type V = GatewayStepModel;

    open spec fn view(&self) -> GatewayStepModel {
        match self {
            GatewayStep::Pong { request_id, heartbeat } => GatewayStepModel::Pong {
                request_id: request_id@,
                heartbeat: *heartbeat,
            },
            GatewayStep::Refuse { request_id, reject_code, message } => GatewayStepModel::Refuse {
                request_id: request_id@,
                reject_code: *reject_code,
                message: message@,
            },
            GatewayStep::Authenticate { request_id, request } => GatewayStepModel::Authenticate {
                request_id: request_id@,
                request: request@,
            },
            GatewayStep::AuthorizeJoin { request_id, request, user } => {
                GatewayStepModel::AuthorizeJoin {
                    request_id: request_id@,
                    request: request@,
                    user: user@,
                }
            },
            GatewayStep::MarkReady { request_id, room_id, user_id, request } => {
                GatewayStepModel::MarkReady {
                    request_id: request_id@,
                    room_id: room_id@,
                    user_id: user_id@,
                    request: *request,
                }
            },
            GatewayStep::AuthorizeResume { request_id, request } => {
                GatewayStepModel::AuthorizeResume { request_id: request_id@, request: request@ }
            },
            GatewayStep::AuthorizeAction { request_id, user_id, request } => {
                GatewayStepModel::AuthorizeAction {
                    request_id: request_id@,
                    user_id: user_id@,
                    request: request@,
                }
            },
            GatewayStep::Dispatch(dispatch) => GatewayStepModel::Dispatch(dispatch@),
        }
    }
}

/// A request that is turned down.
pub open spec fn refusal(request_id: Seq<char>, reject_code: RejectCode, message: Seq<char>) -> GatewayStepModel {
    GatewayStepModel::Refuse { request_id, reject_code, message }
}

fn refuse(request_id: String, reject_code: RejectCode, message: &str) -> (r: GatewayStep)
    ensures
        r@ == refusal(request_id@, reject_code, message@),
{
    GatewayStep::Refuse { request_id, reject_code, message: String::from_str(message) }
}

impl ConnectionSessionModel {
    /// The first step with a frame.
    pub open spec fn frame_taken(self, frame: ClientFrameModel) -> GatewayStepModel {
        let request_id = frame.request_id;
        match frame.payload {
            Some(ClientPayloadModel::Heartbeat(heartbeat)) => GatewayStepModel::Pong {
                request_id,
                heartbeat,
            },
            Some(ClientPayloadModel::JoinRoom(request)) => GatewayStepModel::Authenticate {
                request_id,
                request,
            },
            Some(ClientPayloadModel::Ready(request)) => match self.current_room_id {
                None => refusal(
                    request_id,
                    RejectCode::NotInRoom,
                    "connection must join a room before ReadyRequest"@,
                ),
                Some(room_id) => match self.current_user_id {
                    None => refusal(
                        request_id,
                        RejectCode::AuthFailed,
                        "connection is not authenticated for room actions"@,
                    ),
                    Some(user_id) => GatewayStepModel::MarkReady {
                        request_id,
                        room_id,
                        user_id,
                        request,
                    },
                },
            },
            Some(ClientPayloadModel::ResumeSession(request)) => GatewayStepModel::AuthorizeResume {
                request_id,
                request,
            },
            Some(ClientPayloadModel::PlayerAction(request)) => match self.current_user_id {
                None => refusal(
                    request_id,
                    RejectCode::AuthFailed,
                    "connection is not authenticated for room actions"@,
                ),
                Some(user_id) => GatewayStepModel::AuthorizeAction { request_id, user_id, request },
            },
            None => refusal(
                request_id,
                RejectCode::InvalidRequest,
                "ClientFrame.payload must be set"@,
            ),
        }
    }

    /// What follows once it is known who wants to join. What the request says of that does not
    /// count.
    pub open spec fn joiner_known(
        self,
        request_id: Seq<char>,
        request: JoinRoomRequestModel,
        reply: Result<AuthenticatedUserModel, AuthErrorModel>,
    ) -> GatewayStepModel {
        match reply {
            Err(_) => refusal(
                request_id,
                RejectCode::AuthFailed,
                "session token is invalid or expired"@,
            ),
            Ok(user) => GatewayStepModel::AuthorizeJoin { request_id, request, user },
        }
    }

    /// What follows once the lobby has said whether the user may join.
    pub open spec fn join_decided(
        self,
        request_id: Seq<char>,
        request: JoinRoomRequestModel,
        user: AuthenticatedUserModel,
        reply: Result<LobbyJoinAccessModel, LobbyErrorModel>,
    ) -> (ConnectionSessionModel, GatewayStepModel) {
        match reply {
            Err(_) => (
                self,
                refusal(
                    request_id,
                    RejectCode::RoomNotFound,
                    "user is not an eligible member of the requested room"@,
                ),
            ),
            Ok(access) => (
                ConnectionSessionModel {
                    current_room_id: Some(request.room_id),
                    current_user_id: Some(user.user_id),
                    ..self
                },
                GatewayStepModel::Dispatch(
                    RoomDispatchModel {
                        room_id: request.room_id,
                        command: RoomCommandModel::Join {
                            request_id,
                            connection_id: self.connection_id,
                            request,
                            authorized_join: AuthorizedJoinModel {
                                user_id: access.user_id,
                                display_name: user.display_name,
                                seat: access.seat,
                            },
                        },
                    },
                ),
            ),
        }
    }

    /// What follows once the lobby has taken a ready mark or not.
    pub open spec fn ready_decided(
        self,
        request_id: Seq<char>,
        room_id: Seq<char>,
        request: ReadyRequest,
        reply: Result<bool, LobbyErrorModel>,
    ) -> GatewayStepModel {
        match reply {
            Err(_) => refusal(
                request_id,
                RejectCode::NotInRoom,
                "user is no longer an active lobby member of this room"@,
            ),
            Ok(_) => GatewayStepModel::Dispatch(
                RoomDispatchModel {
                    room_id,
                    command: RoomCommandModel::Ready {
                        request_id,
                        connection_id: self.connection_id,
                        request,
                    },
                },
            ),
        }
    }

    /// What follows once the lobby has said whether the user may come back.
    pub open spec fn resume_decided(
        self,
        request_id: Seq<char>,
        request: ResumeSessionRequestModel,
        reply: Result<LobbyJoinAccessModel, LobbyErrorModel>,
    ) -> (ConnectionSessionModel, GatewayStepModel) {
        match reply {
            Err(_) => (
                self,
                refusal(
                    request_id,
                    RejectCode::NotInRoom,
                    "user is not allowed to resume this room"@,
                ),
            ),
            Ok(_) => (
                ConnectionSessionModel {
                    current_room_id: Some(request.room_id),
                    current_user_id: Some(request.user_id),
                    ..self
                },
                GatewayStepModel::Dispatch(
                    RoomDispatchModel {
                        room_id: request.room_id,
                        command: RoomCommandModel::ResumeSession {
                            request_id,
                            connection_id: self.connection_id,
                            request,
                        },
                    },
                ),
            ),
        }
    }

    /// What follows once the lobby has said whether the user may act.
    pub open spec fn action_decided(
        self,
        request_id: Seq<char>,
        request: PlayerActionRequestModel,
        reply: Result<LobbyJoinAccessModel, LobbyErrorModel>,
    ) -> (ConnectionSessionModel, GatewayStepModel) {
        match reply {
            Err(_) => (
                self,
                refusal(
                    request_id,
                    RejectCode::NotInRoom,
                    "user is no longer an active member of this room"@,
                ),
            ),
            Ok(_) => (
                ConnectionSessionModel { current_room_id: Some(request.room_id), ..self },
                GatewayStepModel::Dispatch(
                    RoomDispatchModel {
                        room_id: request.room_id,
                        command: RoomCommandModel::PlayerAction {
                            request_id,
                            connection_id: self.connection_id,
                            request,
                        },
                    },
                ),
            ),
        }
    }
}

impl ConnectionSession {
    /// Takes a frame from the client.
    pub fn take_frame(&self, frame: ClientFrame) -> (r: GatewayStep)
        ensures
            r@ == self@.frame_taken(frame@),
    {
        let request_id = frame.request_id;
        match frame.payload {
            Some(ClientPayload::Heartbeat(heartbeat)) => GatewayStep::Pong { request_id, heartbeat },
            Some(ClientPayload::JoinRoom(request)) => GatewayStep::Authenticate {
                request_id,
                request,
            },
            Some(ClientPayload::Ready(request)) => match self.current_room_id.as_ref() {
                None => refuse(
                    request_id,
                    RejectCode::NotInRoom,
                    "connection must join a room before ReadyRequest",
                ),
                Some(room_id) => match self.current_user_id.as_ref() {
                    None => refuse(
                        request_id,
                        RejectCode::AuthFailed,
                        "connection is not authenticated for room actions",
                    ),
                    Some(user_id) => GatewayStep::MarkReady {
                        request_id,
                        room_id: room_id.clone(),
                        user_id: user_id.clone(),
                        request,
                    },
                },
            },
            Some(ClientPayload::ResumeSession(request)) => GatewayStep::AuthorizeResume {
                request_id,
                request,
            },
            Some(ClientPayload::PlayerAction(request)) => match self.current_user_id.as_ref() {
                None => refuse(
                    request_id,
                    RejectCode::AuthFailed,
                    "connection is not authenticated for room actions",
                ),
                Some(user_id) => GatewayStep::AuthorizeAction {
                    request_id,
                    user_id: user_id.clone(),
                    request,
                },
            },
            None => refuse(
                request_id,
                RejectCode::InvalidRequest,
                "ClientFrame.payload must be set",
            ),
        }
    }

    /// Goes on once it is known who wants to join.
    pub fn know_joiner(
        &self,
        request_id: String,
        request: JoinRoomRequest,
        reply: Result<AuthenticatedUser, AuthError>,
    ) -> (r: GatewayStep)
        ensures
            r@ == self@.joiner_known(request_id@, request@, auth_result(reply)),
    {
        match reply {
            Err(_) => refuse(
                request_id,
                RejectCode::AuthFailed,
                "session token is invalid or expired",
            ),
            Ok(user) => GatewayStep::AuthorizeJoin { request_id, request, user },
        }
    }

    /// Goes on once the lobby has said whether the user may join.
    pub fn decide_join(
        &mut self,
        request_id: String,
        request: JoinRoomRequest,
        user: AuthenticatedUser,
        reply: Result<LobbyJoinAccess, LobbyError>,
    ) -> (r: GatewayStep)
        ensures
            (final(self)@, r@) == old(self)@.join_decided(
                request_id@,
                request@,
                user@,
                lobby_result(reply),
            ),
    {
        match reply {
            Err(_) => refuse(
                request_id,
                RejectCode::RoomNotFound,
                "user is not an eligible member of the requested room",
            ),
            Ok(access) => {
                self.current_room_id = Some(request.room_id.clone());
                self.current_user_id = Some(user.user_id.clone());
                GatewayStep::Dispatch(
                    RoomDispatch {
                        room_id: request.room_id.clone(),
                        command: RoomCommand::Join {
                            request_id,
                            connection_id: self.connection_id.clone(),
                            request,
                            authorized_join: AuthorizedJoin {
                                user_id: access.user_id,
                                display_name: user.display_name,
                                seat: access.seat,
                            },
                        },
                    },
                )
            },
        }
    }

    /// Goes on once the lobby has taken a ready mark or not.
    pub fn decide_ready(
        &self,
        request_id: String,
        room_id: String,
        request: ReadyRequest,
        reply: Result<bool, LobbyError>,
    ) -> (r: GatewayStep)
        ensures
            r@ == self@.ready_decided(request_id@, room_id@, request, lobby_plain(reply)),
    {
        match reply {
            Err(_) => refuse(
                request_id,
                RejectCode::NotInRoom,
                "user is no longer an active lobby member of this room",
            ),
            Ok(_) => GatewayStep::Dispatch(
                RoomDispatch {
                    room_id,
                    command: RoomCommand::Ready {
                        request_id,
                        connection_id: self.connection_id.clone(),
                        request,
                    },
                },
            ),
        }
    }

    /// Goes on once the lobby has said whether the user may come back.
    pub fn decide_resume(
        &mut self,
        request_id: String,
        request: ResumeSessionRequest,
        reply: Result<LobbyJoinAccess, LobbyError>,
    ) -> (r: GatewayStep)
        ensures
            (final(self)@, r@) == old(self)@.resume_decided(
                request_id@,
                request@,
                lobby_result(reply),
            ),
    {
        match reply {
            Err(_) => refuse(
                request_id,
                RejectCode::NotInRoom,
                "user is not allowed to resume this room",
            ),
            Ok(_) => {
                self.current_room_id = Some(request.room_id.clone());
                self.current_user_id = Some(request.user_id.clone());
                GatewayStep::Dispatch(
                    RoomDispatch {
                        room_id: request.room_id.clone(),
                        command: RoomCommand::ResumeSession {
                            request_id,
                            connection_id: self.connection_id.clone(),
                            request,
                        },
                    },
                )
            },
        }
    }

    /// Goes on once the lobby has said whether the user may act.
    pub fn decide_action(
        &mut self,
        request_id: String,
        request: PlayerActionRequest,
        reply: Result<LobbyJoinAccess, LobbyError>,
    ) -> (r: GatewayStep)
        ensures
            (final(self)@, r@) == old(self)@.action_decided(
                request_id@,
                request@,
                lobby_result(reply),
            ),
    {
        match reply {
            Err(_) => refuse(
                request_id,
                RejectCode::NotInRoom,
                "user is no longer an active member of this room",
            ),
            Ok(_) => {
                self.current_room_id = Some(request.room_id.clone());
                GatewayStep::Dispatch(
                    RoomDispatch {
                        room_id: request.room_id.clone(),
                        command: RoomCommand::PlayerAction {
                            request_id,
                            connection_id: self.connection_id.clone(),
                            request,
                        },
                    },
                )
            },
        }
    }
}

// ---------------------------------------------------------------------------
// Commands to rooms that cannot take them
// ---------------------------------------------------------------------------

/// Whether a command opens its room where there is none.
pub open spec fn opens_room(command: RoomCommandModel) -> bool {
    command is Join
}

pub fn creates_room(command: &RoomCommand) -> (r: bool)
    ensures
        r == opens_room(command@),
{
    match command {
        RoomCommand::Join { .. } => true,
        _ => false,
    }
}

/// The news that the room of a request does not exist, where somebody waits for an answer.
pub open spec fn missing_room_frame(command: RoomCommandModel) -> Option<ServerFrameModel> {
    match command {
        RoomCommandModel::Ready { request_id, connection_id, request } => Some(
            rejected_frame(
                0,
                request_id,
                RejectCode::RoomNotFound,
                "room task not found for ReadyRequest"@,
                0,
                0,
            ),
        ),
        RoomCommandModel::ResumeSession { request_id, connection_id, request } => Some(
            rejected_frame(
                0,
                request_id,
                RejectCode::RoomNotFound,
                "room task not found for ResumeSessionRequest"@,
                0,
                0,
            ),
        ),
        RoomCommandModel::PlayerAction { request_id, connection_id, request } => Some(
            rejected_frame(
                0,
                request_id,
                RejectCode::RoomNotFound,
                "room task not found for PlayerActionRequest"@,
                request.expected_event_seq,
                request.action_window_id,
            ),
        ),
        _ => None,
    }
}

/// What is answered to a command whose room does not exist.
pub fn reject_missing_room(command: &RoomCommand) -> (r: Option<ServerFrame>)
    ensures
        opt_view(r) == missing_room_frame(command@),
{
    match command {
        RoomCommand::Ready { request_id, .. } => Some(
            build_action_rejected(
                0,
                request_id.as_str(),
                RejectCode::RoomNotFound,
                "room task not found for ReadyRequest",
                0,
                0,
            ),
        ),
        RoomCommand::ResumeSession { request_id, .. } => Some(
            build_action_rejected(
                0,
                request_id.as_str(),
                RejectCode::RoomNotFound,
                "room task not found for ResumeSessionRequest",
                0,
                0,
            ),
        ),
        RoomCommand::PlayerAction { request_id, request, .. } => Some(
            build_action_rejected(
                0,
                request_id.as_str(),
                RejectCode::RoomNotFound,
                "room task not found for PlayerActionRequest",
                request.expected_event_seq,
                request.action_window_id,
            ),
        ),
        _ => None,
    }
}

/// What is answered when a command did not reach its room.
pub fn reject_undelivered(room_id: &str, reason: &str) -> (r: ServerFrame)
    ensures
        r@ == rejected_frame(
            0,
            ""@,
            RejectCode::InternalError,
            "failed to enqueue command for room "@ + room_id@ + ": "@ + reason@,
            0,
            0,
        ),
{
    let message = concat4("failed to enqueue command for room ", room_id, ": ", reason);
    build_action_rejected(0, "", RejectCode::InternalError, message.as_str(), 0, 0)
}

// ---------------------------------------------------------------------------
// The gateway as a whole
// ---------------------------------------------------------------------------

/// What becomes of a frame in the end.
pub enum GatewayOutcome {
    /// The client gets an answer right away.
    Reply(ServerFrame),
    /// A room gets a command.
    Dispatch(RoomDispatch),
}

/// The contents of a [`GatewayOutcome`].
#[verifier::ext_equal]
pub enum GatewayOutcomeModel {
    Reply(ServerFrameModel),
    Dispatch(RoomDispatchModel),
}

impl View for GatewayOutcome {
    type V = GatewayOutcomeModel;

    open spec fn view(&self) -> GatewayOutcomeModel {
        match self {
            GatewayOutcome::Reply(frame) => GatewayOutcomeModel::Reply(frame@),
            GatewayOutcome::Dispatch(dispatch) => GatewayOutcomeModel::Dispatch(dispatch@),
        }
    }
}

/// Whether nothing has to be found out before a step.
pub open spec fn is_last_step(step: GatewayStepModel) -> bool {
    step is Pong || step is Refuse || step is Dispatch
}

/// What a last step comes to. An answer takes a number.
pub open spec fn concluded(counters: GatewayCounters, step: GatewayStepModel, now_ms: u64) -> (
    GatewayCounters,
    GatewayOutcomeModel,
) {
    let counted = GatewayCounters { next_event_seq: following(counters.next_event_seq), ..counters };
    match step {
        GatewayStepModel::Pong { request_id, heartbeat } => (
            counted,
            GatewayOutcomeModel::Reply(
                pong_frame(counters.next_event_seq, request_id, heartbeat.client_time_ms, now_ms),
            ),
        ),
        GatewayStepModel::Refuse { request_id, reject_code, message } => (
            counted,
            GatewayOutcomeModel::Reply(
                refused_frame(counters.next_event_seq, request_id, reject_code, message),
            ),
        ),
        GatewayStepModel::Dispatch(dispatch) => (counters, GatewayOutcomeModel::Dispatch(dispatch)),
        _ => arbitrary(),
    }
}

/// The last step with a frame, with what becomes of the connection and the lobby. `confirmed` says
/// who the token of a join request belongs to.
pub open spec fn handled(
    connection: ConnectionSessionModel,
    lobby: LobbyModel,
    frame: ClientFrameModel,
    confirmed: Result<AuthenticatedUserModel, AuthErrorModel>,
) -> (ConnectionSessionModel, LobbyModel, GatewayStepModel) {
    match connection.frame_taken(frame) {
        GatewayStepModel::Authenticate { request_id, request } => match confirmed {
            Err(_) => (
                connection,
                lobby,
                connection.joiner_known(request_id, request, confirmed),
            ),
            Ok(user) => {
                let (after, step) = connection.join_decided(
                    request_id,
                    request,
                    user,
                    lobby.access(request.room_id, user.user_id),
                );
                (after, lobby, step)
            },
        },
        GatewayStepModel::MarkReady { request_id, room_id, user_id, request } => {
            let (marked, reply) = lobby.marked_ready(room_id, user_id, request.ready);
            (connection, marked, connection.ready_decided(request_id, room_id, request, reply))
        },
        GatewayStepModel::AuthorizeResume { request_id, request } => {
            let (after, step) = connection.resume_decided(
                request_id,
                request,
                lobby.access(request.room_id, request.user_id),
            );
            (after, lobby, step)
        },
        GatewayStepModel::AuthorizeAction { request_id, user_id, request } => {
            let (after, step) = connection.action_decided(
                request_id,
                request,
                lobby.access(request.room_id, user_id),
            );
            (after, lobby, step)
        },
        step => (connection, lobby, step),
    }
}

/// The gateway of a server that keeps its lobby in memory.
pub struct Gateway<R> {
    pub counters: GatewayCounters,
    pub auth_service: AuthService<R>,
    pub lobby_service: LobbyService,
}

fn conclude(counters: &mut GatewayCounters, step: GatewayStep, now_ms: u64) -> (r: GatewayOutcome)
    requires
        is_last_step(step@),
    ensures
        (*final(counters), r@) == concluded(*old(counters), step@, now_ms),
{
    match step {
        GatewayStep::Pong { request_id, heartbeat } => {
            let event_seq: u64 = counters.next_event_seq();
            GatewayOutcome::Reply(build_pong(event_seq, request_id, heartbeat, now_ms))
        },
        GatewayStep::Refuse { request_id, reject_code, message } => {
            let event_seq: u64 = counters.next_event_seq();
            GatewayOutcome::Reply(
                build_gateway_rejected(event_seq, request_id, reject_code, message.as_str()),
            )
        },
        GatewayStep::Dispatch(dispatch) => GatewayOutcome::Dispatch(dispatch),
        _ => {
            assert(false);
            GatewayOutcome::Reply(
                build_gateway_rejected(0, String::new(), RejectCode::InternalError, ""),
            )
        },
    }
}

impl<R: AuthRepository> Gateway<R> {
    pub fn new(auth_service: AuthService<R>, lobby_service: LobbyService) -> (r: Gateway<R>)
        ensures
            r.counters == (GatewayCounters { next_connection_id: 1, next_event_seq: 1 }),
            r.auth_service == auth_service,
            r.lobby_service == lobby_service,
    {
        Gateway { counters: GatewayCounters::new(), auth_service, lobby_service }
    }

    /// Takes a frame from a client. A join request is judged by its token, never by the name that
    /// it gives.
    pub fn handle_client_frame(
        &mut self,
        connection: &mut ConnectionSession,
        frame: ClientFrame,
        now_ms: u64,
    ) -> (r: GatewayOutcome)
        ensures
            exists|confirmed: Result<AuthenticatedUserModel, AuthErrorModel>|
                {
                    let (after, lobby, step) = #[trigger] handled(
                        old(connection)@,
                        old(self).lobby_service@,
                        frame@,
                        confirmed,
                    );
                    &&& final(connection)@ == after
                    &&& final(self).lobby_service@ == lobby
                    &&& is_last_step(step)
                    &&& (final(self).counters, r@) == concluded(old(self).counters, step, now_ms)
                    &&& match frame@.payload {
                        Some(ClientPayloadModel::JoinRoom(request)) => R::confirms(
                            old(self).auth_service.repo,
                            token_hash(request.session_token),
                            now_ms,
                            confirmed,
                            final(self).auth_service.repo,
                        ),
                        _ => final(self).auth_service == old(self).auth_service,
                    }
                },
    {
        let ghost before = connection@;
        let ghost lobby = self.lobby_service@;
        let ghost mut confirmed: Result<AuthenticatedUserModel, AuthErrorModel> = Err(
            AuthErrorModel::InvalidSession,
        );
        let step = match connection.take_frame(frame) {
            GatewayStep::Authenticate { request_id, request } => {
                let reply = self.auth_service.authenticate_session(
                    request.session_token.as_str(),
                    now_ms,
                );
                proof {
                    confirmed = auth_result(reply);
                }
                match reply {
                    Err(error) => connection.know_joiner(request_id, request, Err(error)),
                    Ok(user) => {
                        let access = self.lobby_service.authorize_room_entry(
                            request.room_id.as_str(),
                            user.user_id.as_str(),
                        );
                        connection.decide_join(request_id, request, user, access)
                    },
                }
            },
            GatewayStep::MarkReady { request_id, room_id, user_id, request } => {
                let reply = self.lobby_service.set_member_ready(
                    room_id.as_str(),
                    user_id.as_str(),
                    request.ready,
                );
                connection.decide_ready(request_id, room_id, request, reply)
            },
            GatewayStep::AuthorizeResume { request_id, request } => {
                let access = self.lobby_service.authorize_room_entry(
                    request.room_id.as_str(),
                    request.user_id.as_str(),
                );
                connection.decide_resume(request_id, request, access)
            },
            GatewayStep::AuthorizeAction { request_id, user_id, request } => {
                let access = self.lobby_service.authorize_room_entry(
                    request.room_id.as_str(),
                    user_id.as_str(),
                );
                connection.decide_action(request_id, request, access)
            },
            step => step,
        };
        assert((connection@, self.lobby_service@, step@) == handled(
            before,
            lobby,
            frame@,
            confirmed,
        ));
        conclude(&mut self.counters, step, now_ms)
    }
}

/// A client cannot join under a name of its own choice: whatever the request says of the user, only
/// the owner of the token gets in.
pub proof fn law_join_ignores_claimed_identity(
    connection: ConnectionSessionModel,
    lobby: LobbyModel,
    request_id: Seq<char>,
    first: JoinRoomRequestModel,
    second: JoinRoomRequestModel,
    confirmed: Result<AuthenticatedUserModel, AuthErrorModel>,
)
    requires
        first.room_id == second.room_id,
    ensures
        ({
            let one = handled(
                connection,
                lobby,
                ClientFrameModel { request_id, payload: Some(ClientPayloadModel::JoinRoom(first)) },
                confirmed,
            );
            let other = handled(
                connection,
                lobby,
                ClientFrameModel { request_id, payload: Some(ClientPayloadModel::JoinRoom(second)) },
                confirmed,
            );
            &&& one.0 == other.0
            &&& one.1 == other.1
            &&& match (one.2, other.2) {
                (GatewayStepModel::Dispatch(left), GatewayStepModel::Dispatch(right)) => match (
                    left.command,
                    right.command,
                ) {
                    (
                        RoomCommandModel::Join {
                            request_id: _,
                            connection_id: _,
                            request: _,
                            authorized_join: a,
                        },
                        RoomCommandModel::Join {
                            request_id: _,
                            connection_id: _,
                            request: _,
                            authorized_join: b,
                        },
                    ) => a == b,
                    _ => false,
                },
                _ => one.2 == other.2,
            }
        }),
{
}

} // verus!
