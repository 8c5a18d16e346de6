use gb_mahjong_server::db::models::{
    MatchEventRecord, MatchRecord, MatchStatusRecord, NewMatchEventRecord, ReplayEventKind,
    RoomConfigRecord, RoomMemberRecord, RoomRecord, RoomSnapshotRecord, RoomStatusRecord,
};
use gb_mahjong_server::db::queries::{
    match_contains_user, MatchEventRepository, MatchQueryService, NoopMatchEventRepository,
};
use gb_mahjong_server::db::replay::build_match_replay;
use gb_mahjong_server::db::rooms::{
    all_members_ready, build_seating_snapshot, check_disbanding, check_kicking, check_leaving,
    check_marking, fill_display_names, json_room_config_to_domain, match_aggregate, next_owner,
    parse_room_status, parse_seat, room_config_to_record, seat_for_joining, snapshot_to_domain,
    DatabaseConfig,
};
use gb_mahjong_server::json::{Json, JsonObject};
use gb_mahjong_server::lobby::{default_lobby_room_config, LobbyError, LobbyRoomStatus};
use gb_mahjong_server::proto::client::Seat;

struct StaticMatchRepository {
    record: Option<MatchRecord>,
    events: Vec<MatchEventRecord>,
}

impl MatchEventRepository for StaticMatchRepository {
    fn append_event(&mut self, _event: NewMatchEventRecord) -> Result<(), String> {
        Ok(())
    }

    fn list_events(&self, _match_id: &str) -> Result<Vec<MatchEventRecord>, String> {
        Ok(self.events.clone())
    }

    fn get_match(&self, _match_id: &str) -> Result<Option<MatchRecord>, String> {
        Ok(self.record.clone())
    }
}

fn object(members: Vec<(&str, Json)>) -> Json {
    let mut built = JsonObject::new();
    for (key, value) in members {
        built = built.with(key, value);
    }
    built.build()
}

fn number(value: u64) -> Json {
    Json::unsigned(value)
}

fn fixture_match_record(user_id: &str) -> MatchRecord {
    MatchRecord {
        match_id: "match-1".to_owned(),
        room_id: "room-1".to_owned(),
        status: MatchStatusRecord::Finished,
        ruleset_id: "gb_mahjong_cn_v1".to_owned(),
        config_snapshot: object(vec![("seat_count", number(4))]),
        seating_snapshot: object(vec![
            (
                "EAST",
                object(vec![("user_id", Json::text(user_id)), ("display_name", Json::text("Alice"))]),
            ),
            (
                "SOUTH",
                object(vec![("user_id", Json::text("user-b")), ("display_name", Json::text("Bob"))]),
            ),
        ]),
        current_round_id: Some("round-1".to_owned()),
        prevailing_wind: Some("SEAT_EAST".to_owned()),
        dealer_seat: Some("SEAT_EAST".to_owned()),
        started_at_unix_ms: Some(100),
        ended_at_unix_ms: Some(200),
        created_by_user_id: Some(user_id.to_owned()),
        winner_user_id: Some(user_id.to_owned()),
        last_event_seq: 5,
        final_result: None,
        created_at_unix_ms: 100,
        updated_at_unix_ms: 200,
    }
}

fn fixture_event(event_seq: i64, event_type: &str, round_id: Option<&str>, payload: Json) -> MatchEventRecord {
    MatchEventRecord {
        event_id: event_seq,
        match_id: "match-1".to_owned(),
        round_id: round_id.map(ToOwned::to_owned),
        event_seq,
        event_type: event_type.to_owned(),
        actor_user_id: Some("user-a".to_owned()),
        actor_seat: Some("SEAT_EAST".to_owned()),
        request_id: None,
        correlation_id: None,
        causation_event_seq: None,
        event_payload: payload,
        created_at_unix_ms: 1_700_000_000_000 + event_seq as u64,
    }
}

fn round_started() -> Json {
    object(vec![
        ("phase", Json::text("GAME_PHASE_WAITING_DISCARD")),
        ("prevailing_wind", Json::text("SEAT_EAST")),
        ("dealer_seat", Json::text("SEAT_EAST")),
        ("current_turn_seat", Json::text("SEAT_EAST")),
        ("hand_number", number(1)),
        ("dealer_streak", number(0)),
        ("wall_tiles_remaining", number(70)),
        ("dead_wall_tiles_remaining", number(14)),
        ("players", Json::list(Vec::new())),
    ])
}

#[test]
fn build_match_replay_sorts_events_and_separates_match_settlement() {
    let record = fixture_match_record("user-a");
    let replay = build_match_replay(
        record,
        vec![
            fixture_event(
                3,
                "action_broadcast",
                Some("round-1"),
                object(vec![
                    ("action_kind", Json::text("ACTION_KIND_DISCARD")),
                    ("tile", Json::text("TILE_CHARACTER_1")),
                ]),
            ),
            fixture_event(1, "round_started", Some("round-1"), round_started()),
            fixture_event(
                4,
                "round_settlement",
                Some("round-1"),
                object(vec![
                    ("winner_seat", Json::text("SEAT_EAST")),
                    ("discarder_seat", Json::Null),
                    ("win_type", Json::text("WIN_TYPE_SELF_DRAW")),
                    ("winning_tile", Json::text("TILE_CHARACTER_1")),
                    ("player_results", Json::list(Vec::new())),
                    ("fan_details", Json::list(Vec::new())),
                    (
                        "settlement_flags",
                        Json::list(vec![Json::text("SETTLEMENT_FLAG_SELF_DRAW")]),
                    ),
                    ("wall_tiles_remaining", number(40)),
                ]),
            ),
            fixture_event(
                5,
                "match_settlement",
                None,
                object(vec![(
                    "final_result",
                    object(vec![
                        ("finished_at_unix_ms", number(999)),
                        (
                            "standings",
                            Json::list(vec![object(vec![
                                ("user_id", Json::text("user-a")),
                                ("rank", number(1)),
                            ])]),
                        ),
                    ]),
                )]),
            ),
        ],
    );

    assert_eq!(replay.rounds.len(), 1);
    assert_eq!(replay.rounds[0].round_id, "round-1");
    assert_eq!(replay.rounds[0].hand_number, Some(1));
    assert_eq!(replay.rounds[0].start_event_seq, Some(1));
    assert_eq!(replay.rounds[0].settlement_event_seq, Some(4));
    let event_seqs =
        replay.rounds[0].entries.iter().map(|entry| entry.event_seq).collect::<Vec<_>>();
    assert_eq!(event_seqs, vec![1, 3, 4]);
    assert_eq!(replay.terminal_entry.as_ref().map(|entry| entry.event_seq), Some(5));
    let terminal = replay.terminal_entry.as_ref().unwrap();
    assert_eq!(
        terminal.summary.get("finished_at_unix_ms").and_then(|value| value.as_u64()),
        Some(999)
    );
    assert_eq!(
        replay.rounds[0].entries[2].summary.get("draw_game").and_then(|value| value.as_bool()),
        Some(false)
    );
}

#[test]
fn build_match_replay_marks_invalid_payload_without_panicking() {
    let replay = build_match_replay(
        fixture_match_record("user-a"),
        vec![fixture_event(
            2,
            "round_started",
            Some("round-bad"),
            object(vec![
                ("phase", Json::text("GAME_PHASE_WAITING_DISCARD")),
                ("players", Json::list(Vec::new())),
            ]),
        )],
    );

    assert_eq!(replay.rounds.len(), 1);
    assert!(replay.rounds[0].entries[0].invalid_payload);
    assert_eq!(replay.warnings.len(), 1);
    assert_eq!(replay.warnings[0].event_seq, Some(2));
}

#[test]
fn match_query_service_builds_replay_for_authorized_user() {
    let service = MatchQueryService::new(StaticMatchRepository {
        record: Some(fixture_match_record("user-a")),
        events: vec![fixture_event(1, "round_started", Some("round-1"), round_started())],
    });

    let replay = service
        .build_replay_for_user("user-a", "match-1")
        .expect("replay query should succeed")
        .expect("authorized user should see replay");

    assert_eq!(replay.rounds.len(), 1);
    assert_eq!(replay.rounds[0].entries[0].event_kind, ReplayEventKind::RoundStarted);
}

#[test]
fn match_query_service_hides_replay_from_non_member() {
    let service = MatchQueryService::new(StaticMatchRepository {
        record: Some(fixture_match_record("user-a")),
        events: Vec::new(),
    });

    let replay = service
        .build_replay_for_user("outsider", "match-1")
        .expect("replay query should succeed");

    assert!(replay.is_none());
}

#[test]
fn match_query_service_hides_replay_for_active_match() {
    let mut record = fixture_match_record("user-a");
    record.status = MatchStatusRecord::Active;
    let service = MatchQueryService::new(StaticMatchRepository {
        record: Some(record),
        events: vec![fixture_event(1, "round_started", Some("round-1"), round_started())],
    });

    let replay = service
        .build_replay_for_user("user-a", "match-1")
        .expect("replay query should succeed");

    assert!(replay.is_none());
    assert!(service.get_match_for_user("user-a", "match-1").unwrap().is_some());
    assert_eq!(service.list_events_for_user("user-a", "match-1").unwrap().unwrap().len(), 1);
    assert!(service.list_events_for_user("outsider", "match-1").unwrap().is_none());
}

#[test]
fn a_repository_that_keeps_nothing_finds_nothing() {
    let service = MatchQueryService::new(NoopMatchEventRepository);
    assert!(service.get_match_for_user("user-a", "match-1").unwrap().is_none());
    assert!(service.build_replay_for_user("user-a", "match-1").unwrap().is_none());
}

#[test]
fn seated_players_take_part() {
    let record = fixture_match_record("user-a");
    assert!(match_contains_user(&record, "user-a"));
    assert!(match_contains_user(&record, "user-b"));
    assert!(!match_contains_user(&record, "user-c"));
}

#[test]
fn unknown_and_orphaned_events_are_kept_with_warnings() {
    let replay = build_match_replay(
        fixture_match_record("user-a"),
        vec![fixture_event(-7, "strange", None, Json::Null)],
    );
    assert_eq!(replay.rounds[0].round_id, "orphan-round--7");
    assert_eq!(replay.rounds[0].entries[0].event_kind, ReplayEventKind::Unknown);
    assert_eq!(replay.warnings.len(), 2);
    assert_eq!(
        replay.warnings[0].message,
        "unknown event_type was preserved as raw replay entry"
    );
    assert_eq!(
        replay.warnings[1].message,
        "event did not carry round_id and was grouped into orphan-round--7"
    );
    let reason = replay.rounds[0].entries[0].summary.get("reason").unwrap();
    assert_eq!(reason.as_str().unwrap(), "unsupported event_type: strange");
}

#[test]
fn status_words_survive_storage() {
    for status in [RoomStatusRecord::Waiting, RoomStatusRecord::Active, RoomStatusRecord::Closed] {
        assert_eq!(RoomStatusRecord::from_db_str(status.as_db_str()), Some(status));
    }
    for status in [
        MatchStatusRecord::Waiting,
        MatchStatusRecord::Active,
        MatchStatusRecord::Finished,
        MatchStatusRecord::Aborted,
    ] {
        assert_eq!(MatchStatusRecord::from_db_str(status.as_db_str()), Some(status));
    }
    assert_eq!(RoomStatusRecord::from_db_str("open"), None);
    assert_eq!(MatchStatusRecord::from_db_str("closed"), None);
    assert_eq!(parse_room_status("active"), Ok(LobbyRoomStatus::Active));
    assert_eq!(
        parse_room_status("open"),
        Err(LobbyError::Storage("invalid room status in database".to_owned()))
    );
    assert_eq!(parse_seat("SEAT_WEST"), Ok(Seat::West));
    assert_eq!(parse_seat("up"), Err(LobbyError::Storage("invalid seat value up".to_owned())));
}

fn member(user_id: &str, seat: &str, joined: u64, ready: bool) -> RoomMemberRecord {
    RoomMemberRecord {
        room_id: "room-1".to_owned(),
        user_id: user_id.to_owned(),
        display_name: String::new(),
        seat: seat.to_owned(),
        joined_at_unix_ms: joined,
        ready,
        kicked_at_unix_ms: None,
        left_at_unix_ms: None,
    }
}

fn snapshot(status: RoomStatusRecord) -> RoomSnapshotRecord {
    RoomSnapshotRecord {
        room: RoomRecord {
            room_id: "room-1".to_owned(),
            room_code: "ABC123".to_owned(),
            owner_user_id: "a".to_owned(),
            status,
            config_snapshot: RoomConfigRecord {
                ruleset_id: "gb_mahjong_cn_v1".to_owned(),
                seat_count: 4,
                enable_flower_tiles: true,
                enable_robbing_kong: true,
                enable_kong_draw: true,
                reconnect_grace_seconds: 30,
                action_timeout_ms: 15_000,
            },
            current_match_id: None,
            created_at_unix_ms: 1,
            updated_at_unix_ms: 2,
        },
        members: vec![member("a", "SEAT_EAST", 9, true), member("b", "SEAT_WEST", 4, true)],
    }
}

#[test]
fn stored_rooms_decide_as_the_lobby_does() {
    let waiting = snapshot(RoomStatusRecord::Waiting);
    let active = snapshot(RoomStatusRecord::Active);
    assert_eq!(check_leaving(&waiting, "b"), Ok(()));
    assert_eq!(check_leaving(&waiting, "x"), Err(LobbyError::NotRoomMember));
    assert_eq!(check_leaving(&active, "b"), Err(LobbyError::RoomAlreadyActive));
    assert_eq!(check_kicking(&waiting, "a", "b"), Ok(()));
    assert_eq!(check_kicking(&waiting, "b", "a"), Err(LobbyError::NotRoomOwner));
    assert_eq!(check_kicking(&waiting, "a", "a"), Err(LobbyError::CannotKickSelf));
    assert_eq!(check_kicking(&waiting, "x", "x"), Err(LobbyError::CannotKickSelf));
    assert_eq!(check_kicking(&waiting, "a", "x"), Err(LobbyError::NotRoomMember));
    assert_eq!(check_disbanding(&waiting, "a"), Ok(()));
    assert_eq!(check_disbanding(&active, "a"), Err(LobbyError::RoomAlreadyActive));
    assert_eq!(check_marking(&waiting, "b"), Ok(true));
    assert_eq!(check_marking(&active, "x"), Ok(false));
    assert_eq!(check_marking(&waiting, "x"), Err(LobbyError::NotRoomMember));
    assert!(!all_members_ready(&waiting.members, 4));
    assert!(all_members_ready(&waiting.members, 2));
    assert_eq!(next_owner(&waiting.members).as_deref(), Some("b"));
    assert_eq!(next_owner(&Vec::new()), None);
    let members = || snapshot(RoomStatusRecord::Waiting).members;
    assert_eq!(seat_for_joining(LobbyRoomStatus::Waiting, 4, members()), Ok(Seat::South));
    assert_eq!(
        seat_for_joining(LobbyRoomStatus::Waiting, 2, members()),
        Err(LobbyError::RoomFull)
    );
    assert_eq!(
        seat_for_joining(LobbyRoomStatus::Active, 4, members()),
        Err(LobbyError::RoomAlreadyActive)
    );
    let room = fill_display_names(snapshot_to_domain(waiting).unwrap(), "Somebody");
    assert_eq!(room.members[1].seat, Seat::West);
    assert_eq!(room.members[1].display_name, "Somebody");
    assert_eq!(room.status, LobbyRoomStatus::Waiting);
    let mut broken = active;
    broken.members[0].seat = "SEAT_UP".to_owned();
    assert_eq!(
        snapshot_to_domain(broken).err(),
        Some(LobbyError::Storage("invalid seat value SEAT_UP".to_owned()))
    );
}

#[test]
fn settings_survive_storage() {
    let config = default_lobby_room_config();
    let record = room_config_to_record(&config);
    assert_eq!(json_room_config_to_domain(record), config);
}

#[test]
fn seating_is_stored_seat_by_seat() {
    let seating = build_seating_snapshot(&snapshot(RoomStatusRecord::Waiting).members);
    let west = seating.get("SEAT_WEST").unwrap();
    assert_eq!(west.get("user_id").unwrap().as_str().unwrap(), "b");
    assert_eq!(west.get("initial_score").unwrap().as_u64(), Some(25_000));
    let twice = build_seating_snapshot(&vec![
        member("a", "SEAT_EAST", 1, false),
        member("b", "SEAT_EAST", 2, false),
    ]);
    match &twice {
        Json::Object(members) => assert_eq!(members.len(), 1),
        other => panic!("expected an object, got {other:?}"),
    }
    assert_eq!(
        twice.get("SEAT_EAST").unwrap().get("user_id").unwrap().as_str().unwrap(),
        "b"
    );
}

#[test]
fn settled_hands_finish_their_match() {
    let mut event = NewMatchEventRecord {
        match_id: "match-1".to_owned(),
        round_id: None,
        event_seq: 1,
        event_type: "round_settlement".to_owned(),
        actor_user_id: None,
        actor_seat: None,
        request_id: None,
        correlation_id: None,
        causation_event_seq: None,
        event_payload: number(3),
    };
    assert_eq!(match_aggregate(&event), (MatchStatusRecord::Finished, Some(number(3))));
    event.event_type = "action_broadcast".to_owned();
    assert_eq!(match_aggregate(&event), (MatchStatusRecord::Active, None));
}

#[test]
fn database_settings_have_defaults() {
    let url = || Some("postgres://db".to_owned());
    let config = DatabaseConfig::from_settings(url(), None, None).unwrap();
    assert_eq!(config.max_connections, 10);
    assert_eq!(config.connect_timeout_secs, 5);
    let config = DatabaseConfig::from_settings(url(), Some("+32"), Some("0")).unwrap();
    assert_eq!(config.max_connections, 32);
    assert_eq!(config.connect_timeout_secs, 0);
    assert_eq!(
        DatabaseConfig::from_settings(None, Some("x"), None),
        Err("read DATABASE_URL".to_owned())
    );
    assert_eq!(
        DatabaseConfig::from_settings(url(), Some("4294967296"), None),
        Err("parse GB_MAHJONG_DB_MAX_CONNECTIONS".to_owned())
    );
    assert_eq!(
        DatabaseConfig::from_settings(url(), None, Some("-1")),
        Err("parse GB_MAHJONG_DB_CONNECT_TIMEOUT_SECS".to_owned())
    );
}
