use gb_mahjong_server::auth::{
    hash_session_token, normalize_display_name, read_bearer_token, AuthError, AuthService,
    DEFAULT_SESSION_TTL_MS,
};
use gb_mahjong_server::db::models::{MatchEventRecord, MatchRecord, MatchStatusRecord, NewMatchEventRecord};
use gb_mahjong_server::db::queries::{MatchEventRepository, MatchQueryService};
use gb_mahjong_server::http::{map_auth_error, map_lobby_error, ApiError, MeResponse};
use gb_mahjong_server::json::{Json, JsonObject};
use gb_mahjong_server::collections::StrMap;
use gb_mahjong_server::lobby::service::{
    draw_room_code, first_free_room_code, next_room_code, room_code_from,
};
use gb_mahjong_server::lobby::{LobbyError, LobbyService};
use gb_mahjong_server::proto::client::Seat;

const NOW: u64 = 1_700_000_000_000;

#[test]
fn guest_register_and_me_routes_work() {
    let mut auth = AuthService::default();
    let session = auth.register_guest("Alice", NOW).expect("guest registration should succeed");
    let header = format!("Bearer {}", session.session_token);
    let user = auth.authenticate_bearer(Some(&header), NOW).expect("session should be valid");
    let me = MeResponse::of(user);
    assert_eq!(me.display_name, "Alice");
    assert_eq!(me.auth_provider, "guest");
}

#[test]
fn create_room_and_join_room_routes_work() {
    let mut auth = AuthService::default();
    let mut lobby = LobbyService::default();
    let owner = auth.register_guest("Owner", NOW).unwrap();
    let created = lobby.create_room(&owner.user_id, &owner.display_name, NOW).unwrap();
    let guest = auth.register_guest("Guest", NOW).unwrap();
    lobby.join_room(&guest.user_id, &guest.display_name, &created.room_code, NOW).unwrap();
    let room = lobby.get_room_for_user(&guest.user_id, &created.room_id).unwrap();
    assert_eq!(room.room_id, created.room_id);
    assert_eq!(room.members.len(), 2);
}

#[test]
fn kick_member_route_removes_guest_from_room() {
    let mut auth = AuthService::default();
    let mut lobby = LobbyService::default();
    let owner = auth.register_guest("Owner", NOW).unwrap();
    let created = lobby.create_room(&owner.user_id, &owner.display_name, NOW).unwrap();
    let guest = auth.register_guest("Guest", NOW).unwrap();
    lobby.join_room(&guest.user_id, &guest.display_name, &created.room_code, NOW).unwrap();
    lobby.kick_member(&owner.user_id, &created.room_id, &guest.user_id).unwrap();
    let room = lobby.get_room_for_user(&owner.user_id, &created.room_id).unwrap();
    assert_eq!(room.owner_user_id, owner.user_id);
    assert_eq!(room.members.len(), 1);
    let refused = lobby.get_room_for_user(&guest.user_id, &created.room_id).unwrap_err();
    assert_eq!(map_lobby_error(refused).into_reply().status, 403);
}

struct StaticMatchQueryRepository {
    record: MatchRecord,
    events: Vec<MatchEventRecord>,
}

impl MatchEventRepository for StaticMatchQueryRepository {
    fn append_event(&mut self, _event: NewMatchEventRecord) -> Result<(), String> {
        Ok(())
    }

    fn list_events(&self, _match_id: &str) -> Result<Vec<MatchEventRecord>, String> {
        Ok(self.events.clone())
    }

    fn get_match(&self, _match_id: &str) -> Result<Option<MatchRecord>, String> {
        Ok(Some(self.record.clone()))
    }
}

fn stored_event(event_id: i64, event_seq: i64, event_type: &str, user_id: &str, payload: Json, at: u64) -> MatchEventRecord {
    MatchEventRecord {
        event_id,
        match_id: "match-replay-1".to_owned(),
        round_id: Some("hand-4".to_owned()),
        event_seq,
        event_type: event_type.to_owned(),
        actor_user_id: Some(user_id.to_owned()),
        actor_seat: Some("EAST".to_owned()),
        request_id: None,
        correlation_id: None,
        causation_event_seq: None,
        event_payload: payload,
        created_at_unix_ms: at,
    }
}

#[test]
fn match_query_routes_return_authorized_match_and_events() {
    let mut auth = AuthService::default();
    let session = auth.register_guest("ReplayUser", NOW).expect("guest registration should succeed");
    let user_id = session.user_id.clone();
    let standings = || {
        Json::list(vec![JsonObject::new()
            .with("user_id", Json::text(&user_id))
            .with("rank", Json::unsigned(1))
            .build()])
    };
    let service = MatchQueryService::new(StaticMatchQueryRepository {
        record: MatchRecord {
            match_id: "match-replay-1".to_owned(),
            room_id: "room-replay-1".to_owned(),
            status: MatchStatusRecord::Finished,
            ruleset_id: "gb_mahjong_cn_v1".to_owned(),
            config_snapshot: JsonObject::new().with("seat_count", Json::unsigned(4)).build(),
            seating_snapshot: JsonObject::new()
                .with(
                    "EAST",
                    JsonObject::new()
                        .with("user_id", Json::text(&user_id))
                        .with("display_name", Json::text("ReplayUser"))
                        .build(),
                )
                .build(),
            current_round_id: Some("hand-4".to_owned()),
            prevailing_wind: Some("EAST".to_owned()),
            dealer_seat: Some("EAST".to_owned()),
            started_at_unix_ms: Some(1_700_000_000_000u64),
            ended_at_unix_ms: Some(1_700_000_100_000u64),
            created_by_user_id: Some(user_id.clone()),
            winner_user_id: Some(user_id.clone()),
            last_event_seq: 42,
            final_result: Some(JsonObject::new().with("standings", standings()).build()),
            created_at_unix_ms: 1_700_000_000_000u64,
            updated_at_unix_ms: 1_700_000_100_000u64,
        },
        events: vec![
            stored_event(
                1,
                41,
                "round_started",
                &user_id,
                JsonObject::new()
                    .with("phase", Json::text("GAME_PHASE_WAITING_DISCARD"))
                    .with("prevailing_wind", Json::text("EAST"))
                    .with("dealer_seat", Json::text("EAST"))
                    .with("current_turn_seat", Json::text("EAST"))
                    .with("hand_number", Json::unsigned(4))
                    .with("dealer_streak", Json::unsigned(0))
                    .with("wall_tiles_remaining", Json::unsigned(70))
                    .with("dead_wall_tiles_remaining", Json::unsigned(14))
                    .with("players", Json::list(Vec::new()))
                    .build(),
                1_700_000_050_000u64,
            ),
            stored_event(
                2,
                42,
                "match_settlement",
                &user_id,
                JsonObject::new()
                    .with(
                        "final_result",
                        JsonObject::new()
                            .with("finished_at_unix_ms", Json::unsigned(1_700_000_100_000u64))
                            .with("standings", standings())
                            .build(),
                    )
                    .build(),
                1_700_000_100_000u64,
            ),
        ],
    });
    let header = format!("Bearer {}", session.session_token);
    let user = auth.authenticate_bearer(Some(&header), NOW).unwrap();

    let found = service.get_match_for_user(&user.user_id, "match-replay-1").unwrap().unwrap();
    assert_eq!(found.match_id, "match-replay-1");
    assert_eq!(found.status, MatchStatusRecord::Finished);
    let events = service.list_events_for_user(&user.user_id, "match-replay-1").unwrap().unwrap();
    assert_eq!(events.len(), 2);
    assert_eq!(events[0].event_type, "round_started");
    assert_eq!(events[1].event_type, "match_settlement");
    let replay = service.build_replay_for_user(&user.user_id, "match-replay-1").unwrap().unwrap();
    assert_eq!(replay.match_record.match_id, "match-replay-1");
    assert_eq!(replay.rounds.len(), 1);
    assert_eq!(replay.terminal_entry.unwrap().event_type, "match_settlement");
    assert_eq!(replay.warnings.len(), 0);
}

#[test]
fn tokens_are_hashed_with_sha256() {
    assert_eq!(
        hash_session_token("abc"),
        "ba7816bf8f01cfea414140de5dae2223b00361a396177a9cb410ff61f20015ad"
    );
    assert_eq!(
        hash_session_token(""),
        "e3b0c44298fc1c149afbf4c8996fb92427ae41e4649b934ca495991b7852b855"
    );
}

#[test]
fn names_are_trimmed_and_limited() {
    assert_eq!(normalize_display_name("  Bob\u{3000}\n"), Ok("Bob".to_owned()));
    assert_eq!(normalize_display_name(" \t "), Err(AuthError::InvalidDisplayName));
    assert_eq!(normalize_display_name(&"x".repeat(32)), Ok("x".repeat(32)));
    assert_eq!(normalize_display_name(&"x".repeat(33)), Err(AuthError::InvalidDisplayName));
    assert_eq!(normalize_display_name(&"牌".repeat(11)), Err(AuthError::InvalidDisplayName));
}

#[test]
fn bearer_headers_are_read() {
    assert_eq!(read_bearer_token(None), Err(AuthError::MissingAuthorization));
    assert_eq!(read_bearer_token(Some("Basic x")), Err(AuthError::InvalidAuthorization));
    assert_eq!(read_bearer_token(Some("Bearer  tok ")), Ok("tok".to_owned()));
}

#[test]
fn sessions_expire_and_are_replaced() {
    let mut auth = AuthService::in_memory(1_000);
    let session = auth
        .register_guest_as(
            "Ann",
            "usr_1".to_owned(),
            "sess_1".to_owned(),
            "tok-1".to_owned(),
            NOW,
        )
        .unwrap();
    assert_eq!(session.expires_at_unix_ms, NOW + 1_000);
    assert_eq!(auth.authenticate_session("tok-1", NOW + 999).unwrap().user_id, "usr_1");
    assert_eq!(auth.authenticate_session("tok-1", NOW + 1_000), Err(AuthError::InvalidSession));
    assert_eq!(auth.authenticate_session("tok-2", NOW), Err(AuthError::InvalidSession));

    let next = auth
        .refresh_session_as("tok-1", "sess_2".to_owned(), "tok-2".to_owned(), NOW + 500)
        .unwrap();
    assert_eq!(next.user_id, "usr_1");
    assert_eq!(next.expires_at_unix_ms, NOW + 1_500);
    assert_eq!(auth.authenticate_session("tok-1", NOW + 600), Err(AuthError::InvalidSession));
    assert_eq!(auth.authenticate_session("tok-2", NOW + 1_400).unwrap().display_name, "Ann");
    assert_eq!(auth.refresh_session("tok-1", NOW + 600).err(), Some(AuthError::InvalidSession));
}

#[test]
fn random_sessions_have_the_promised_shape() {
    let mut auth = AuthService::default();
    let first = auth.register_guest("Ann", NOW).unwrap();
    let second = auth.register_guest("Ann", NOW).unwrap();
    assert_eq!(first.expires_at_unix_ms, NOW + DEFAULT_SESSION_TTL_MS);
    assert_ne!(first.user_id, second.user_id);
    assert_ne!(first.session_token, second.session_token);
    assert!(first.user_id.starts_with("usr_"));
    assert_eq!(first.user_id.len(), 4 + 32);
    assert!(first.session_token.starts_with("gst_"));
    assert_eq!(first.session_token.len(), 4 + 64);
    let id = &first.user_id[4..];
    assert!(id.chars().all(|c| c.is_ascii_digit() || ('a'..='f').contains(&c)));
    assert_eq!(&id[12..13], "4");
    assert_eq!(auth.register_guest("  ", NOW).err(), Some(AuthError::InvalidDisplayName));
    let again = auth.refresh_session(&first.session_token, NOW).unwrap();
    assert_eq!(again.user_id, first.user_id);
    assert_ne!(again.session_token, first.session_token);
    assert_eq!(
        auth.refresh_session(&first.session_token, NOW).err(),
        Some(AuthError::InvalidSession)
    );
    assert_eq!(
        auth.authenticate_session(&first.session_token, NOW).err(),
        Some(AuthError::InvalidSession)
    );
}

#[test]
fn rooms_open_fill_and_start() {
    let mut lobby = LobbyService::default();
    let room = lobby
        .create_room_as("a", "A", "room_1".to_owned(), "AB12CD".to_owned(), 10)
        .unwrap();
    assert_eq!(room.status, "waiting");
    assert!(room.members[0].is_owner);
    assert_eq!(lobby.create_room("a", "A", 11).err(), Some(LobbyError::AlreadyInRoom));
    assert_eq!(lobby.join_room("b", "B", "XXXXXX", 12).err(), Some(LobbyError::InvalidRoomCode));
    lobby.join_room("b", "B", "ab12cd", 12).unwrap();
    lobby.join_room("c", "C", "Ab12cD", 13).unwrap();
    let full = lobby.join_room("d", "D", "AB12CD", 14).unwrap();
    let seats: Vec<&str> = full.members.iter().map(|member| member.seat.as_str()).collect();
    assert_eq!(seats, vec!["SEAT_EAST", "SEAT_SOUTH", "SEAT_WEST", "SEAT_NORTH"]);
    assert_eq!(lobby.join_room("e", "E", "AB12CD", 15).err(), Some(LobbyError::RoomFull));
    assert_eq!(lobby.authorize_room_entry("room_1", "c").unwrap().seat, Seat::West);
    assert_eq!(
        lobby.authorize_room_entry("room_1", "e").err(),
        Some(LobbyError::NotRoomMember)
    );
    assert_eq!(
        lobby.authorize_room_entry("room_2", "a").err(),
        Some(LobbyError::RoomNotFound)
    );
    assert_eq!(lobby.set_member_ready("room_1", "a", true), Ok(false));
    assert_eq!(lobby.set_member_ready("room_1", "b", true), Ok(false));
    assert_eq!(lobby.set_member_ready("room_1", "c", true), Ok(false));
    assert_eq!(lobby.set_member_ready("room_1", "x", true), Err(LobbyError::NotRoomMember));
    assert_eq!(lobby.set_member_ready("room_1", "d", true), Ok(true));
    assert_eq!(lobby.set_member_ready("room_1", "d", false), Ok(false));
    let active = lobby.get_room_for_user("a", "room_1").unwrap();
    assert_eq!(active.status, "active");
    assert_eq!(active.current_match_id.as_deref(), Some("match-room_1"));
    assert_eq!(lobby.leave_room("a", "room_1").err(), Some(LobbyError::RoomAlreadyActive));
    assert_eq!(
        lobby.kick_member("a", "room_1", "b").err(),
        Some(LobbyError::RoomAlreadyActive)
    );
    assert_eq!(lobby.disband_room("a", "room_1"), Err(LobbyError::RoomAlreadyActive));
    assert_eq!(lobby.create_room("b", "B", 20).err(), Some(LobbyError::AlreadyInRoom));
    assert_eq!(lobby.snapshot_room_member_records("room_1").len(), 4);
    assert_eq!(lobby.snapshot_room_member_records("room_2").len(), 0);
}

#[test]
fn owners_are_followed_by_who_came_first() {
    let mut lobby = LobbyService::default();
    lobby.create_room_as("a", "A", "room_1".to_owned(), "CODE00".to_owned(), 10).unwrap();
    lobby.join_room("b", "B", "CODE00", 30).unwrap();
    lobby.join_room("c", "C", "CODE00", 20).unwrap();
    let left = lobby.leave_room("a", "room_1").unwrap().unwrap();
    assert_eq!(left.owner_user_id, "c");
    assert_eq!(left.members[0].user_id, "c");
    assert_eq!(lobby.leave_room("a", "room_1").err(), Some(LobbyError::NotRoomMember));
    assert_eq!(lobby.leave_room("b", "room_9").err(), Some(LobbyError::RoomNotFound));
    assert_eq!(lobby.create_room("b", "B", 40).err(), Some(LobbyError::AlreadyInRoom));
    assert_eq!(lobby.kick_member("c", "room_1", "c").err(), Some(LobbyError::CannotKickSelf));
    assert_eq!(lobby.kick_member("b", "room_1", "c").err(), Some(LobbyError::NotRoomOwner));
    assert_eq!(lobby.kick_member("c", "room_1", "z").err(), Some(LobbyError::NotRoomMember));
    assert_eq!(lobby.disband_room("b", "room_1"), Err(LobbyError::NotRoomOwner));
    assert_eq!(lobby.disband_room("c", "room_1"), Ok(()));
    assert_eq!(lobby.disband_room("c", "room_1"), Err(LobbyError::RoomNotFound));
    let again = lobby.create_room("b", "B", 50).unwrap();
    assert!(again.room_id.starts_with("room_"));
    assert_eq!(again.room_code.len(), 6);
    assert_eq!(again.room_code, again.room_code.to_ascii_uppercase());
    assert!(lobby.leave_room("b", &again.room_id).unwrap().is_none());
    assert_eq!(
        lobby.join_room("c", "C", &again.room_code, 60).err(),
        Some(LobbyError::InvalidRoomCode)
    );
}

#[test]
fn errors_have_statuses() {
    let told = |error: ApiError| {
        let reply = error.into_reply();
        (reply.status, reply.code, reply.message)
    };
    let expect = |status: u16, code: &str, message: &str| {
        (status, code.to_owned(), message.to_owned())
    };
    assert_eq!(
        told(map_auth_error(AuthError::MissingAuthorization)),
        expect(401, "unauthorized", "missing or invalid authorization header")
    );
    assert_eq!(
        told(map_auth_error(AuthError::InvalidAuthorization)),
        expect(401, "unauthorized", "missing or invalid authorization header")
    );
    assert_eq!(
        told(map_auth_error(AuthError::InvalidDisplayName)),
        expect(400, "bad_request", "display_name must be between 1 and 32 characters")
    );
    assert_eq!(
        told(map_auth_error(AuthError::InvalidSession)),
        expect(401, "unauthorized", "session is invalid or expired")
    );
    assert_eq!(
        told(map_auth_error(AuthError::Storage("down".to_owned()))),
        expect(500, "internal_error", "down")
    );
    assert_eq!(
        told(map_lobby_error(LobbyError::AlreadyInRoom)),
        expect(409, "conflict", "user is already in another room")
    );
    assert_eq!(
        told(map_lobby_error(LobbyError::RoomNotFound)),
        expect(404, "not_found", "room was not found")
    );
    assert_eq!(
        told(map_lobby_error(LobbyError::InvalidRoomCode)),
        expect(404, "not_found", "room was not found")
    );
    assert_eq!(
        told(map_lobby_error(LobbyError::RoomFull)),
        expect(409, "conflict", "room is already full")
    );
    assert_eq!(
        told(map_lobby_error(LobbyError::RoomAlreadyActive)),
        expect(409, "conflict", "room has already started and no longer accepts lobby mutations")
    );
    assert_eq!(
        told(map_lobby_error(LobbyError::NotRoomOwner)),
        expect(403, "forbidden", "only the room owner may perform this action")
    );
    assert_eq!(
        told(map_lobby_error(LobbyError::CannotKickSelf)),
        expect(409, "conflict", "room owner cannot kick themselves")
    );
    assert_eq!(
        told(map_lobby_error(LobbyError::NotRoomMember)),
        expect(403, "forbidden", "user is not a member of this room")
    );
    assert_eq!(
        told(map_lobby_error(LobbyError::Storage("down".to_owned()))),
        expect(500, "internal_error", "down")
    );
}

#[test]
fn room_codes_come_from_ids_that_are_not_in_use() {
    let id = "ab12cd00000040008000000000000000";
    let mut codes: StrMap<String> = StrMap::new();
    assert_eq!(room_code_from(&codes, id).as_deref(), Some("AB12CD"));
    codes.insert("AB12CD".to_owned(), "room_1".to_owned());
    assert_eq!(room_code_from(&codes, id), None);
    assert_eq!(draw_room_code(&codes, 0), None);
    let drawn = next_room_code(&codes).unwrap();
    assert_eq!(drawn.len(), 6);
    assert_ne!(drawn, "AB12CD");
    assert!(drawn.chars().all(|c| c.is_ascii_digit() || ('A'..='F').contains(&c)));
}

#[test]
fn free_room_codes_are_found_in_order() {
    let mut codes: StrMap<String> = StrMap::new();
    assert_eq!(first_free_room_code(&codes).as_deref(), Some("000000"));
    for number in 0..0xABC {
        codes.insert(format!("{number:06X}"), "room".to_owned());
    }
    assert_eq!(first_free_room_code(&codes).as_deref(), Some("000ABC"));
}
