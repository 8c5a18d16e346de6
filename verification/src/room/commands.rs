//! Everything that can happen to a room, one command at a time.

use vstd::prelude::*;

use crate::collections::{group_seat_map, opt_view};
use crate::proto::client::{
    JoinRoomRequest, JoinRoomRequestModel, PlayerActionRequest, PlayerActionRequestModel,
    ReadyRequest, ResumeSessionRequest, ResumeSessionRequestModel,
};
use crate::room::load_test::{LoadTestRoomSpec, LoadTestRoomSpecModel};
use crate::room::state::{AuthorizedJoin, AuthorizedJoinModel, RoomState, RoomStateModel};
use crate::room::steps::{PendingCall, PendingCallModel};

verus! {

broadcast use group_seat_map;

/// A command to a room. A room takes its commands one after the other.
#[allow(inconsistent_fields)]
pub enum RoomCommand {
    Join {
        request_id: String,
        connection_id: String,
        request: JoinRoomRequest,
        authorized_join: AuthorizedJoin,
    },
    Ready { request_id: String, connection_id: String, request: ReadyRequest },
    ResumeSession { request_id: String, connection_id: String, request: ResumeSessionRequest },
    PlayerAction { request_id: String, connection_id: String, request: PlayerActionRequest },
    ClaimWindowTimeout { action_window_id: u64 },
    Disconnect { connection_id: String },
    AdvanceAfterRoundSettlement { settled_hand_number: u32 },
    RemovePlayer { user_id: String },
    RunLoadTestRoom { spec: LoadTestRoomSpec },
}

/// The contents of a [`RoomCommand`].
#[allow(inconsistent_fields)]
#[verifier::ext_equal]
pub enum RoomCommandModel {
    Join {
        request_id: Seq<char>,
        connection_id: Seq<char>,
        request: JoinRoomRequestModel,
        authorized_join: AuthorizedJoinModel,
    },
    Ready { request_id: Seq<char>, connection_id: Seq<char>, request: ReadyRequest },
    ResumeSession {
        request_id: Seq<char>,
        connection_id: Seq<char>,
        request: ResumeSessionRequestModel,
    },
    PlayerAction {
        request_id: Seq<char>,
        connection_id: Seq<char>,
        request: PlayerActionRequestModel,
    },
    ClaimWindowTimeout { action_window_id: u64 },
    Disconnect { connection_id: Seq<char> },
    AdvanceAfterRoundSettlement { settled_hand_number: u32 },
    RemovePlayer { user_id: Seq<char> },
    RunLoadTestRoom { spec: LoadTestRoomSpecModel },
}

impl View for RoomCommand {
    type V = RoomCommandModel;

    open spec fn view(&self) -> RoomCommandModel {
        match self {
            RoomCommand::Join { request_id, connection_id, request, authorized_join } => {
                RoomCommandModel::Join {
                    request_id: request_id@,
                    connection_id: connection_id@,
                    request: request@,
                    authorized_join: authorized_join@,
                }
            },
            RoomCommand::Ready { request_id, connection_id, request } => RoomCommandModel::Ready {
                request_id: request_id@,
                connection_id: connection_id@,
                request: *request,
            },
            RoomCommand::ResumeSession { request_id, connection_id, request } => {
                RoomCommandModel::ResumeSession {
                    request_id: request_id@,
                    connection_id: connection_id@,
                    request: request@,
                }
            },
            RoomCommand::PlayerAction { request_id, connection_id, request } => {
                RoomCommandModel::PlayerAction {
                    request_id: request_id@,
                    connection_id: connection_id@,
                    request: request@,
                }
            },
            RoomCommand::ClaimWindowTimeout { action_window_id } => {
                RoomCommandModel::ClaimWindowTimeout { action_window_id: *action_window_id }
            },
            RoomCommand::Disconnect { connection_id } => RoomCommandModel::Disconnect {
                connection_id: connection_id@,
            },
            RoomCommand::AdvanceAfterRoundSettlement { settled_hand_number } => {
                RoomCommandModel::AdvanceAfterRoundSettlement {
                    settled_hand_number: *settled_hand_number,
                }
            },
            RoomCommand::RemovePlayer { user_id } => RoomCommandModel::RemovePlayer {
                user_id: user_id@,
            },
            RoomCommand::RunLoadTestRoom { spec } => RoomCommandModel::RunLoadTestRoom {
                spec: spec@,
            },
        }
    }
}

impl RoomStateModel {
    /// The room after a command, and what has to be asked of the rule engine next.
    pub open spec fn commanded(self, command: RoomCommandModel, now_ms: u64) -> (
        RoomStateModel,
        Option<PendingCallModel>,
    ) {
        match command {
            RoomCommandModel::Join { request_id, connection_id, request, authorized_join } => (
                self.join_requested(request_id, connection_id, authorized_join, now_ms),
                None,
            ),
            RoomCommandModel::Ready { request_id, connection_id, request } => (
                self.ready_requested(request_id, connection_id, request.ready, now_ms),
                None,
            ),
            RoomCommandModel::ResumeSession { request_id, connection_id, request } => (
                self.resume_requested(request_id, connection_id, request, now_ms),
                None,
            ),
            RoomCommandModel::PlayerAction { request_id, connection_id, request } => {
                self.action_requested(request_id, connection_id, request, now_ms)
            },
            RoomCommandModel::ClaimWindowTimeout { action_window_id } => self.window_timed_out(
                action_window_id,
                now_ms,
            ),
            RoomCommandModel::Disconnect { connection_id } => (
                self.disconnected(connection_id, now_ms),
                None,
            ),
            RoomCommandModel::AdvanceAfterRoundSettlement { settled_hand_number } => (
                self.advanced(settled_hand_number, now_ms),
                None,
            ),
            RoomCommandModel::RemovePlayer { user_id } => (
                self.removal_requested(user_id, now_ms),
                None,
            ),
            RoomCommandModel::RunLoadTestRoom { spec } => (self.load_tested(spec, now_ms), None),
        }
    }

    /// Whether the room can take a command: its counters have room, and so has the load test that
    /// the command may start.
    pub open spec fn can_take(self, command: RoomCommandModel, now_ms: u64) -> bool {
        &&& self.ready(now_ms)
        &&& command matches RoomCommandModel::RunLoadTestRoom { spec } ==> self.runtime_mode
            is LoadTest ==> self.can_simulate(spec)
    }
}

impl RoomState {
    /// Carries out a command. Where the rule engine has to be asked, the question is returned, and
    /// the room goes on when it gets the reply.
    pub fn handle_command(&mut self, command: RoomCommand, now_ms: u64) -> (r: Option<PendingCall>)
        requires
            old(self)@.can_take(command@, now_ms),
        ensures
            (final(self)@, opt_view(r)) == old(self)@.commanded(command@, now_ms),
    {
        match command {
            RoomCommand::Join { request_id, connection_id, request: _, authorized_join } => {
                self.handle_join(
                    request_id.as_str(),
                    connection_id.as_str(),
                    &authorized_join,
                    now_ms,
                );
                None
            },
            RoomCommand::Ready { request_id, connection_id, request } => {
                self.handle_ready(request_id.as_str(), connection_id.as_str(), &request, now_ms);
                None
            },
            RoomCommand::ResumeSession { request_id, connection_id, request } => {
                self.handle_resume(request_id.as_str(), connection_id.as_str(), &request, now_ms);
                None
            },
            RoomCommand::PlayerAction { request_id, connection_id, request } => {
                self.handle_player_action(
                    request_id.as_str(),
                    connection_id.as_str(),
                    &request,
                    now_ms,
                )
            },
            RoomCommand::ClaimWindowTimeout { action_window_id } => {
                self.handle_claim_window_timeout(action_window_id, now_ms)
            },
            RoomCommand::Disconnect { connection_id } => {
                self.handle_disconnect(connection_id.as_str(), now_ms);
                None
            },
            RoomCommand::AdvanceAfterRoundSettlement { settled_hand_number } => {
                self.advance_after_round_settlement(settled_hand_number, now_ms);
                None
            },
            RoomCommand::RemovePlayer { user_id } => {
                self.handle_remove_player(user_id.as_str(), now_ms);
                None
            },
            RoomCommand::RunLoadTestRoom { spec } => {
                self.handle_load_test_room(spec, now_ms);
                None
            },
        }
    }
}

} // verus!
