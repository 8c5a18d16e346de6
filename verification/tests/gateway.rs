use gb_mahjong_server::auth::{AuthService, InMemoryAuthRepository};
use gb_mahjong_server::engine::RuleEngineHandle;
use gb_mahjong_server::gateway::{
    creates_room, reject_missing_room, reject_undelivered, ConnectionSession, Gateway,
    GatewayCounters, GatewayOutcome,
};
use gb_mahjong_server::lobby::LobbyService;
use gb_mahjong_server::proto::client::{
    ClientFrame, ClientPayload, Heartbeat, JoinRoomRequest, PassAction, PlayerAction,
    PlayerActionRequest, ReadyRequest, RejectCode, ResumeSessionRequest, ServerFrame,
    ServerPayload,
};
use gb_mahjong_server::room::commands::RoomCommand;
use gb_mahjong_server::room::state::{RoomOutput, RoomRuntimeMode, RoomState, WallFactory};

const NOW: u64 = 1_700_000_000_000;

fn gateway() -> Gateway<InMemoryAuthRepository> {
    Gateway::new(AuthService::default(), LobbyService::default())
}

fn connection() -> ConnectionSession {
    ConnectionSession::new("conn-test".to_owned())
}

fn frame(request_id: &str, payload: ClientPayload) -> ClientFrame {
    ClientFrame { request_id: request_id.to_owned(), payload: Some(payload) }
}

fn reply(outcome: GatewayOutcome) -> ServerFrame {
    match outcome {
        GatewayOutcome::Reply(frame) => frame,
        GatewayOutcome::Dispatch(dispatch) => panic!("unexpected command for {}", dispatch.room_id),
    }
}

fn rejection(outcome: GatewayOutcome) -> (i32, String) {
    match reply(outcome).payload {
        Some(ServerPayload::ActionRejected(rejected)) => (rejected.reject_code, rejected.message),
        other => panic!("expected ActionRejected, got {other:?}"),
    }
}

fn join_frame(request_id: &str, room_id: &str, session_token: &str) -> ClientFrame {
    frame(
        request_id,
        ClientPayload::JoinRoom(JoinRoomRequest {
            room_id: room_id.to_owned(),
            user_id: "spoofed-user".to_owned(),
            session_token: session_token.to_owned(),
            display_name: "Spoofed Name".to_owned(),
            client_version: "test".to_owned(),
        }),
    )
}

fn action(room_id: &str) -> PlayerActionRequest {
    PlayerActionRequest {
        room_id: room_id.to_owned(),
        match_id: format!("match-{room_id}"),
        round_id: "hand-1".to_owned(),
        expected_event_seq: 5,
        action_window_id: 6,
        action: Some(PlayerAction::Pass(PassAction { source_event_seq: 4 })),
    }
}

#[test]
fn heartbeat_frame_returns_pong() {
    let mut gateway = gateway();
    let mut connection = connection();
    let outcome = gateway.handle_client_frame(
        &mut connection,
        frame(
            "req-heartbeat",
            ClientPayload::Heartbeat(Heartbeat {
                client_time_ms: 12345,
                last_received_event_seq: 9,
            }),
        ),
        NOW,
    );
    match reply(outcome).payload {
        Some(ServerPayload::Pong(pong)) => {
            assert_eq!(pong.request_id, "req-heartbeat");
            assert_eq!(pong.echoed_client_time_ms, 12345);
            assert_eq!(pong.latest_event_seq, 1);
            assert!(pong.server_time_ms > 0);
        }
        other => panic!("expected Pong, got {other:?}"),
    }
    assert_eq!(gateway.counters.next_event_seq, 2);
}

#[test]
fn missing_payload_returns_action_rejected() {
    let mut gateway = gateway();
    let mut connection = connection();
    let outcome = gateway.handle_client_frame(
        &mut connection,
        ClientFrame { request_id: "req-empty".to_owned(), payload: None },
        NOW,
    );
    match reply(outcome).payload {
        Some(ServerPayload::ActionRejected(rejected)) => {
            assert_eq!(rejected.request_id, "req-empty");
            assert_eq!(rejected.reject_code, RejectCode::InvalidRequest.as_i32());
            assert_eq!(rejected.message, "ClientFrame.payload must be set");
        }
        other => panic!("expected ActionRejected, got {other:?}"),
    }
}

#[test]
fn join_room_frame_is_routed_into_room_manager() {
    let mut gateway = gateway();
    let session = gateway
        .auth_service
        .register_guest("WebSocket Tester", NOW)
        .expect("guest registration should succeed");
    let room = gateway
        .lobby_service
        .create_room(&session.user_id, &session.display_name, NOW)
        .expect("room creation should succeed");
    let mut connection = connection();
    let outcome = gateway.handle_client_frame(
        &mut connection,
        join_frame("req-join", &room.room_id, &session.session_token),
        NOW,
    );
    assert_eq!(connection.current_room_id.as_deref(), Some(room.room_id.as_str()));
    assert_eq!(connection.current_user_id.as_deref(), Some(session.user_id.as_str()));
    let dispatch = match outcome {
        GatewayOutcome::Dispatch(dispatch) => dispatch,
        GatewayOutcome::Reply(frame) => panic!("expected a command, got {frame:?}"),
    };
    assert_eq!(dispatch.room_id, room.room_id);
    assert!(creates_room(&dispatch.command));

    let mut state = RoomState::new(
        dispatch.room_id.clone(),
        WallFactory::Shuffled,
        RoomRuntimeMode::Production,
    );
    state.run_command(dispatch.command, &mut RuleEngineHandle::noop(), NOW);
    let frames: Vec<ServerFrame> = state
        .take_outputs()
        .into_iter()
        .filter_map(|output| match output {
            RoomOutput::Send(_, frame) => Some(frame),
            _ => None,
        })
        .collect();
    match &frames[0].payload {
        Some(ServerPayload::JoinRoom(response)) => {
            assert!(response.accepted);
            assert_eq!(response.room_id, room.room_id);
            assert_eq!(response.match_id, format!("match-{}", response.room_id));
        }
        other => panic!("expected JoinRoomResponse, got {other:?}"),
    }
    match &frames[1].payload {
        Some(ServerPayload::SyncState(sync)) => {
            let snapshot = sync.snapshot.as_ref().expect("snapshot should be present");
            assert_eq!(snapshot.players[0].user_id, session.user_id);
            assert_eq!(snapshot.players[0].display_name, session.display_name);
        }
        other => panic!("expected SyncState, got {other:?}"),
    }
}

#[test]
fn join_room_with_invalid_session_is_rejected() {
    let mut gateway = gateway();
    let mut connection = connection();
    let outcome = gateway.handle_client_frame(
        &mut connection,
        join_frame("req-join-invalid", "room-missing", "invalid-token"),
        NOW,
    );
    assert_eq!(rejection(outcome).0, RejectCode::AuthFailed.as_i32());
}

#[test]
fn strangers_are_turned_away() {
    let mut gateway = gateway();
    let session = gateway.auth_service.register_guest("Ann", NOW).unwrap();
    let mut connection = connection();
    let ready = || frame("req", ClientPayload::Ready(ReadyRequest { ready: true }));
    assert_eq!(
        rejection(gateway.handle_client_frame(&mut connection, ready(), NOW)),
        (
            RejectCode::NotInRoom.as_i32(),
            "connection must join a room before ReadyRequest".to_owned()
        )
    );
    assert_eq!(
        rejection(gateway.handle_client_frame(
            &mut connection,
            frame("req", ClientPayload::PlayerAction(action("room-1"))),
            NOW
        )),
        (
            RejectCode::AuthFailed.as_i32(),
            "connection is not authenticated for room actions".to_owned()
        )
    );
    assert_eq!(
        rejection(gateway.handle_client_frame(
            &mut connection,
            join_frame("req", "room-1", &session.session_token),
            NOW
        )),
        (
            RejectCode::RoomNotFound.as_i32(),
            "user is not an eligible member of the requested room".to_owned()
        )
    );
    assert_eq!(
        rejection(gateway.handle_client_frame(
            &mut connection,
            frame(
                "req",
                ClientPayload::ResumeSession(ResumeSessionRequest {
                    room_id: "room-1".to_owned(),
                    user_id: session.user_id.clone(),
                    resume_token: String::new(),
                    last_received_event_seq: 0,
                })
            ),
            NOW
        )),
        (RejectCode::NotInRoom.as_i32(), "user is not allowed to resume this room".to_owned())
    );
    connection.current_room_id = Some("room-1".to_owned());
    assert_eq!(
        rejection(gateway.handle_client_frame(&mut connection, ready(), NOW)).0,
        RejectCode::AuthFailed.as_i32()
    );
    connection.current_user_id = Some(session.user_id.clone());
    assert_eq!(
        rejection(gateway.handle_client_frame(&mut connection, ready(), NOW)).1,
        "user is no longer an active lobby member of this room"
    );
    assert_eq!(
        rejection(gateway.handle_client_frame(
            &mut connection,
            frame("req", ClientPayload::PlayerAction(action("room-1"))),
            NOW
        ))
        .1,
        "user is no longer an active member of this room"
    );
    assert_eq!(gateway.counters.next_event_seq, 8);
}

#[test]
fn members_reach_their_room() {
    let mut gateway = gateway();
    let session = gateway.auth_service.register_guest("Ann", NOW).unwrap();
    let room =
        gateway.lobby_service.create_room(&session.user_id, &session.display_name, NOW).unwrap();
    let mut connection = connection();
    gateway.handle_client_frame(
        &mut connection,
        join_frame("req", &room.room_id, &session.session_token),
        NOW,
    );
    let outcome = gateway.handle_client_frame(
        &mut connection,
        frame("req-ready", ClientPayload::Ready(ReadyRequest { ready: true })),
        NOW,
    );
    let dispatch = match outcome {
        GatewayOutcome::Dispatch(dispatch) => dispatch,
        GatewayOutcome::Reply(frame) => panic!("expected a command, got {frame:?}"),
    };
    match &dispatch.command {
        RoomCommand::Ready { request_id, connection_id, request } => {
            assert_eq!(request_id, "req-ready");
            assert_eq!(connection_id, "conn-test");
            assert!(request.ready);
        }
        _ => panic!("expected a ready command"),
    }
    assert!(!creates_room(&dispatch.command));
    assert!(gateway.lobby_service.get_room_for_user(&session.user_id, &room.room_id).unwrap().members
        [0]
        .ready);
}

#[test]
fn missing_rooms_are_reported() {
    let told = |command: RoomCommand| match reject_missing_room(&command) {
        Some(ServerFrame { payload: Some(ServerPayload::ActionRejected(rejected)), .. }) => {
            Some((rejected.message, rejected.expected_event_seq, rejected.action_window_id))
        }
        Some(other) => panic!("expected ActionRejected, got {other:?}"),
        None => None,
    };
    let id = || "req".to_owned();
    assert_eq!(
        told(RoomCommand::Ready {
            request_id: id(),
            connection_id: id(),
            request: ReadyRequest { ready: true }
        }),
        Some(("room task not found for ReadyRequest".to_owned(), 0, 0))
    );
    assert_eq!(
        told(RoomCommand::PlayerAction {
            request_id: id(),
            connection_id: id(),
            request: action("room-1")
        }),
        Some(("room task not found for PlayerActionRequest".to_owned(), 5, 6))
    );
    assert_eq!(
        told(RoomCommand::ResumeSession {
            request_id: id(),
            connection_id: id(),
            request: ResumeSessionRequest {
                room_id: id(),
                user_id: id(),
                resume_token: id(),
                last_received_event_seq: 0,
            }
        }),
        Some(("room task not found for ResumeSessionRequest".to_owned(), 0, 0))
    );
    assert_eq!(told(RoomCommand::Disconnect { connection_id: id() }), None);
    match reject_undelivered("room-1", "closed").payload {
        Some(ServerPayload::ActionRejected(rejected)) => {
            assert_eq!(rejected.reject_code, RejectCode::InternalError.as_i32());
            assert_eq!(
                rejected.message,
                "failed to enqueue command for room room-1: closed"
            );
        }
        other => panic!("expected ActionRejected, got {other:?}"),
    }
}

#[test]
fn connections_are_numbered() {
    let mut counters = GatewayCounters::new();
    assert_eq!(counters.allocate_connection_id(), "conn-1");
    assert_eq!(counters.allocate_connection_id(), "conn-2");
    counters.next_event_seq = u64::MAX;
    assert_eq!(counters.next_event_seq(), u64::MAX);
    assert_eq!(counters.next_event_seq(), 0);
}
