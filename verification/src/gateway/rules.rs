//! What the gateway lets through, and how it answers what it does not.

use vstd::prelude::*;

use crate::auth::{AuthErrorModel, AuthenticatedUserModel};
use crate::gateway::{
    concluded, handled, is_last_step, missing_room_frame, opens_room, ConnectionSessionModel,
    GatewayCounters, GatewayOutcomeModel, GatewayStepModel,
};
use crate::lobby::rules::{is_among, law_getting_ready, law_members_have_access};
use crate::lobby::LobbyModel;
use crate::proto::client::{
    law_reject_code_codes, ClientFrameModel, ClientPayloadModel, Heartbeat, JoinRoomRequestModel,
    PlayerActionRequestModel, ReadyRequest, RejectCode, ResumeSessionRequestModel, Seat,
    ServerPayloadModel,
};
use crate::room::commands::RoomCommandModel;

verus! {

/// The frame of a request.
pub open spec fn frame_of(request_id: Seq<char>, payload: ClientPayloadModel) -> ClientFrameModel {
    ClientFrameModel { request_id, payload: Some(payload) }
}

/// Whether a user is a member of a room of the lobby.
pub open spec fn is_member(lobby: LobbyModel, room_id: Seq<char>, user_id: Seq<char>) -> bool {
    lobby.rooms.contains_key(room_id) && is_among(lobby.rooms[room_id].members, user_id)
}

/// Whether a user is a member of a room of the lobby at a seat.
pub open spec fn sits_at(lobby: LobbyModel, room_id: Seq<char>, user_id: Seq<char>, seat: Seat) -> bool {
    lobby.rooms.contains_key(room_id) && exists|i: int|
        0 <= i < lobby.rooms[room_id].members.len() && (
        #[trigger] lobby.rooms[room_id].members[i]).user_id == user_id
            && lobby.rooms[room_id].members[i].seat == seat
}

/// Whether a request was turned down for a reason, and nothing else came of it.
pub open spec fn is_refused(
    connection: ConnectionSessionModel,
    lobby: LobbyModel,
    handled: (ConnectionSessionModel, LobbyModel, GatewayStepModel),
    request_id: Seq<char>,
    reject_code: RejectCode,
) -> bool {
    &&& handled.0 == connection
    &&& handled.1 == lobby
    &&& match handled.2 {
        GatewayStepModel::Refuse { request_id: told, reject_code: code, message: _ } => told
            == request_id && code == reject_code,
        _ => false,
    }
}

/// Whether a join request was handed to its room for a user at a seat.
pub open spec fn joins_as(
    step: GatewayStepModel,
    connection: ConnectionSessionModel,
    join: JoinRoomRequestModel,
    user: AuthenticatedUserModel,
    lobby: LobbyModel,
) -> bool {
    match step {
        GatewayStepModel::Dispatch(dispatch) => dispatch.room_id == join.room_id && (
        match dispatch.command {
            RoomCommandModel::Join { request_id: _, connection_id, request, authorized_join } => {
                &&& connection_id == connection.connection_id
                &&& request == join
                &&& authorized_join.user_id == user.user_id
                &&& authorized_join.display_name == user.display_name
                &&& sits_at(lobby, join.room_id, user.user_id, authorized_join.seat)
            },
            _ => false,
        }),
        _ => false,
    }
}

/// Whoever shows a valid token and is a member of the room that they want to join is handed to that
/// room, at the seat that the lobby has for them and under the name that belongs to the token; the
/// connection is theirs from then on. Whoever has no valid token, or is not a member, is turned down
/// and nothing changes.
pub proof fn law_joins_need_a_token_and_a_seat(
    connection: ConnectionSessionModel,
    lobby: LobbyModel,
    request_id: Seq<char>,
    request: JoinRoomRequestModel,
    confirmed: Result<AuthenticatedUserModel, AuthErrorModel>,
)
    ensures
        ({
            let done = handled(
                connection,
                lobby,
                frame_of(request_id, ClientPayloadModel::JoinRoom(request)),
                confirmed,
            );
            match confirmed {
                Err(_) => is_refused(connection, lobby, done, request_id, RejectCode::AuthFailed),
                Ok(user) => if is_member(lobby, request.room_id, user.user_id) {
                    &&& joins_as(done.2, connection, request, user, lobby)
                    &&& done.0.current_user_id == Some(user.user_id)
                    &&& done.0.current_room_id == Some(request.room_id)
                    &&& done.0.connection_id == connection.connection_id
                    &&& done.1 == lobby
                } else {
                    is_refused(connection, lobby, done, request_id, RejectCode::RoomNotFound)
                },
            }
        }),
{
    if let Ok(user) = confirmed {
        law_members_have_access(lobby, request.room_id, user.user_id);
    }
}

/// Whether a step hands a room a request as it came, on the connection that it came from.
pub open spec fn hands_on(
    step: GatewayStepModel,
    room_id: Seq<char>,
    command: RoomCommandModel,
) -> bool {
    step matches GatewayStepModel::Dispatch(dispatch) && dispatch.room_id == room_id
        && dispatch.command == command
}

/// Whoever says that they are ready must have joined a room on this connection and still be a member
/// of it; then the lobby sets their mark, and the room hears of it. Everybody else is turned down.
pub proof fn law_ready_marks_need_a_room(
    connection: ConnectionSessionModel,
    lobby: LobbyModel,
    request_id: Seq<char>,
    request: ReadyRequest,
    confirmed: Result<AuthenticatedUserModel, AuthErrorModel>,
)
    ensures
        ({
            let done = handled(
                connection,
                lobby,
                frame_of(request_id, ClientPayloadModel::Ready(request)),
                confirmed,
            );
            match (connection.current_room_id, connection.current_user_id) {
                (None, _) => is_refused(connection, lobby, done, request_id, RejectCode::NotInRoom),
                (Some(_), None) => is_refused(
                    connection,
                    lobby,
                    done,
                    request_id,
                    RejectCode::AuthFailed,
                ),
                (Some(room_id), Some(user_id)) => {
                    let waiting = lobby.rooms.contains_key(room_id) && lobby.rooms[room_id].status
                        is Waiting;
                    let refused = !lobby.rooms.contains_key(room_id) || (waiting && !is_member(
                        lobby,
                        room_id,
                        user_id,
                    ));
                    &&& refused ==> is_refused(
                        connection,
                        lobby,
                        done,
                        request_id,
                        RejectCode::NotInRoom,
                    )
                    &&& !refused ==> done.0 == connection && done.1 == lobby.marked_ready(
                        room_id,
                        user_id,
                        request.ready,
                    ).0 && hands_on(
                        done.2,
                        room_id,
                        RoomCommandModel::Ready {
                            request_id,
                            connection_id: connection.connection_id,
                            request,
                        },
                    )
                },
            }
        }),
{
    if let (Some(room_id), Some(user_id)) = (
        connection.current_room_id,
        connection.current_user_id,
    ) {
        law_getting_ready(lobby, room_id, user_id, request.ready);
    }
}

/// Whoever acts must be known on this connection and be a member of the room that they act in; then
/// the room hears of it, and no other connection or seat matters. Everybody else is turned
/// down.
pub proof fn law_actions_need_a_known_member(
    connection: ConnectionSessionModel,
    lobby: LobbyModel,
    request_id: Seq<char>,
    request: PlayerActionRequestModel,
    confirmed: Result<AuthenticatedUserModel, AuthErrorModel>,
)
    ensures
        ({
            let done = handled(
                connection,
                lobby,
                frame_of(request_id, ClientPayloadModel::PlayerAction(request)),
                confirmed,
            );
            match connection.current_user_id {
                None => is_refused(connection, lobby, done, request_id, RejectCode::AuthFailed),
                Some(user_id) => if is_member(lobby, request.room_id, user_id) {
                    &&& done.0 == (ConnectionSessionModel {
                        current_room_id: Some(request.room_id),
                        ..connection
                    })
                    &&& done.1 == lobby
                    &&& hands_on(
                        done.2,
                        request.room_id,
                        RoomCommandModel::PlayerAction {
                            request_id,
                            connection_id: connection.connection_id,
                            request,
                        },
                    )
                } else {
                    is_refused(connection, lobby, done, request_id, RejectCode::NotInRoom)
                },
            }
        }),
{
    if let Some(user_id) = connection.current_user_id {
        law_members_have_access(lobby, request.room_id, user_id);
    }
}

/// Whoever wants to come back to a room must be a member of it; then the room hears of it, and judges
/// the token. Everybody else is turned down.
pub proof fn law_returning_needs_a_membership(
    connection: ConnectionSessionModel,
    lobby: LobbyModel,
    request_id: Seq<char>,
    request: ResumeSessionRequestModel,
    confirmed: Result<AuthenticatedUserModel, AuthErrorModel>,
)
    ensures
        ({
            let done = handled(
                connection,
                lobby,
                frame_of(request_id, ClientPayloadModel::ResumeSession(request)),
                confirmed,
            );
            if is_member(lobby, request.room_id, request.user_id) {
                &&& done.0.current_user_id == Some(request.user_id)
                &&& done.0.current_room_id == Some(request.room_id)
                &&& done.0.connection_id == connection.connection_id
                &&& done.1 == lobby
                &&& hands_on(
                    done.2,
                    request.room_id,
                    RoomCommandModel::ResumeSession {
                        request_id,
                        connection_id: connection.connection_id,
                        request,
                    },
                )
            } else {
                is_refused(connection, lobby, done, request_id, RejectCode::NotInRoom)
            }
        }),
{
    law_members_have_access(lobby, request.room_id, request.user_id);
}

/// A heartbeat is answered with the time that it carried and the server's, a frame without a request
/// is turned down, and neither changes anything. Whatever the gateway answers itself goes out under
/// its next number and names the request; what it hands on to a room it does not answer.
pub proof fn law_the_gateway_answers(
    connection: ConnectionSessionModel,
    lobby: LobbyModel,
    request_id: Seq<char>,
    heartbeat: Heartbeat,
    confirmed: Result<AuthenticatedUserModel, AuthErrorModel>,
    counters: GatewayCounters,
    step: GatewayStepModel,
    now_ms: u64,
)
    requires
        is_last_step(step),
        counters.next_event_seq < u64::MAX,
    ensures
        ({
            let done = handled(
                connection,
                lobby,
                frame_of(request_id, ClientPayloadModel::Heartbeat(heartbeat)),
                confirmed,
            );
            &&& done.0 == connection && done.1 == lobby
            &&& match concluded(counters, done.2, now_ms).1 {
                GatewayOutcomeModel::Reply(frame) => match frame.payload {
                    Some(ServerPayloadModel::Pong(pong)) => pong.request_id == request_id
                        && pong.echoed_client_time_ms == heartbeat.client_time_ms
                        && pong.server_time_ms == now_ms,
                    _ => false,
                },
                _ => false,
            }
        }),
        is_refused(
            connection,
            lobby,
            handled(
                connection,
                lobby,
                ClientFrameModel { request_id, payload: None },
                confirmed,
            ),
            request_id,
            RejectCode::InvalidRequest,
        ),
        match (step, concluded(counters, step, now_ms)) {
            (GatewayStepModel::Dispatch(dispatch), (after, outcome)) => after == counters && outcome
                == GatewayOutcomeModel::Dispatch(dispatch),
            (
                GatewayStepModel::Refuse { request_id: id, reject_code, message },
                (after, outcome),
            ) => after.next_event_seq == counters.next_event_seq + 1 && (match outcome {
                GatewayOutcomeModel::Reply(frame) => frame.event_seq == counters.next_event_seq && (
                match frame.payload {
                    Some(ServerPayloadModel::ActionRejected(rejected)) => rejected.request_id == id
                        && rejected.reject_code == reject_code.code() && rejected.message == message,
                    _ => false,
                }),
                _ => false,
            }),
            (_, (after, outcome)) => after.next_event_seq == counters.next_event_seq + 1
                && outcome is Reply,
        },
{
}

/// Only a request to join opens a room that is not there. Whoever else asks such a room for something is
/// told that it is not there, in answer to their request; what nobody waits for is not answered.
pub proof fn law_missing_rooms_are_answered(command: RoomCommandModel)
    ensures
        opens_room(command) <==> command is Join,
        missing_room_frame(command) is Some <==> command is Ready || command is ResumeSession
            || command is PlayerAction,
        missing_room_frame(command) matches Some(frame) ==> (frame.payload matches Some(
            ServerPayloadModel::ActionRejected(answer),
        ) && RejectCode::decode(answer.reject_code) == Some(RejectCode::RoomNotFound)
            && answer.request_id == request_in(command)),
        (command matches RoomCommandModel::PlayerAction { request_id, connection_id, request })
            ==> missing_room_frame(command)->0.payload->0->ActionRejected_0.expected_event_seq
            == command->PlayerAction_request.expected_event_seq,
{
    law_reject_code_codes(RejectCode::RoomNotFound, RejectCode::RoomNotFound.code());
}

/// The number of the request that a command comes from, where it comes from one.
pub open spec fn request_in(command: RoomCommandModel) -> Seq<char> {
    match command {
        RoomCommandModel::Join { request_id, connection_id, request, authorized_join } => request_id,
        RoomCommandModel::Ready { request_id, connection_id, request } => request_id,
        RoomCommandModel::ResumeSession { request_id, connection_id, request } => request_id,
        RoomCommandModel::PlayerAction { request_id, connection_id, request } => request_id,
        _ => Seq::empty(),
    }
}

} // verus!
