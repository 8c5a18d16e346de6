use std::collections::VecDeque;

use gb_mahjong_server::engine::{MockRuleEngine, RuleEngineHandle};
use gb_mahjong_server::json::Json;
use gb_mahjong_server::proto::client::{
    ActionKind, AutoPlayToggle, DiscardAction, GamePhase, PlayerAction, PlayerActionRequest,
    PlayerStatus, RejectCode, ResumeSessionRequest, Seat, ServerFrame, ServerPayload, Tile,
};
use gb_mahjong_server::proto::engine;
use gb_mahjong_server::room::commands::RoomCommand;
use gb_mahjong_server::room::hand::{
    claim_priority_distance, next_seat, PlayerRoundState,
};
use gb_mahjong_server::room::state::{
    AuthorizedJoin, PlayerSlot, RoomOutput, RoomRuntimeMode, RoomState, WallFactory,
    INITIAL_SCORE,
};
use gb_mahjong_server::text::{
    i64_to_text, parse_integer, parse_number, split_words, strip_prefix, trim, u64_to_text,
};
use gb_mahjong_server::tiles::{
    build_shuffled_wall, build_standard_wall, sort_tiles, stable_wall_seed,
};

const NOW: u64 = 1_700_000_000_000;

fn illegal() -> engine::ValidateActionResponse {
    engine::ValidateActionResponse {
        is_legal: false,
        reject_code: engine::ValidationRejectCode::HandNotComplete.as_i32(),
        derived_action_type: engine::ActionKind::Unspecified.as_i32(),
        meld_result: None,
        winning_context: None,
        suggested_follow_ups: Vec::new(),
        explanation: "no win".to_owned(),
    }
}

fn seated(room_id: &str, wall: WallFactory) -> RoomState {
    let mut state = RoomState::new(room_id.to_owned(), wall, RoomRuntimeMode::Production);
    for (seat, name) in
        [(Seat::East, "e"), (Seat::South, "s"), (Seat::West, "w"), (Seat::North, "n")]
    {
        state.players_by_seat.set(
            seat,
            Some(PlayerSlot {
                user_id: name.to_owned(),
                display_name: name.to_owned(),
                seat,
                status: PlayerStatus::Ready,
                score: INITIAL_SCORE,
                connected: true,
                auto_play_enabled: false,
                connection_id: Some(format!("conn-{name}")),
                resume_token: format!("resume-{name}"),
            }),
        );
        state.player_round_state.set(seat, Some(PlayerRoundState::new()));
        state.user_to_seat.insert(name.to_owned(), seat);
        state.connection_to_user.insert(format!("conn-{name}"), name.to_owned());
    }
    state
}

fn request(state: &RoomState, action: PlayerAction) -> PlayerActionRequest {
    PlayerActionRequest {
        room_id: state.room_id.clone(),
        match_id: state.match_id.clone(),
        round_id: state.round_id(),
        expected_event_seq: state.current_event_seq(),
        action_window_id: 0,
        action: Some(action),
    }
}

fn sent(outputs: &[RoomOutput], connection: &str) -> Vec<ServerFrame> {
    outputs
        .iter()
        .filter_map(|output| match output {
            RoomOutput::Send(to, frame) if to == connection => Some(frame.clone()),
            _ => None,
        })
        .collect()
}

fn rejection(outputs: &[RoomOutput], connection: &str) -> (i32, String, u64) {
    match &sent(outputs, connection)[0].payload {
        Some(ServerPayload::ActionRejected(rejected)) => {
            (rejected.reject_code, rejected.message.clone(), rejected.expected_event_seq)
        }
        other => panic!("expected ActionRejected, got {other:?}"),
    }
}

#[test]
fn a_discard_that_nobody_wants_passes_the_turn_on() {
    let mut engine = RuleEngineHandle::new(MockRuleEngine::new(illegal()));
    let mut state = seated("room", WallFactory::Shuffled);
    state.start_round(NOW).unwrap();
    let tile = state.player_round_state.get(Seat::East).unwrap().drawn_tile.unwrap();
    state.player_round_state.get_mut(Seat::South).unwrap().concealed_tiles =
        vec![Tile::FlowerPlum];
    state.player_round_state.get_mut(Seat::West).unwrap().concealed_tiles = vec![Tile::FlowerPlum];
    state.player_round_state.get_mut(Seat::North).unwrap().concealed_tiles =
        vec![Tile::FlowerPlum];
    state.take_outputs();
    let action = request(
        &state,
        PlayerAction::Discard(DiscardAction { tile: tile.as_i32(), tsumogiri: true }),
    );
    let call = state.handle_player_action("req", "conn-e", &action, NOW);
    assert!(state.settle(call, &mut engine, NOW).is_none());

    assert_eq!(engine.inner.validate_requests().len(), 3);
    assert_eq!(state.current_turn_seat, Seat::South);
    assert_eq!(state.phase, GamePhase::WaitingDiscard);
    let discards = &state.player_round_state.get(Seat::East).unwrap().discards;
    assert_eq!(discards.len(), 1);
    assert_eq!(discards[0].tile, tile.as_i32());
    assert!(discards[0].drawn_and_discarded);
    assert!(state.player_round_state.get(Seat::South).unwrap().drawn_tile.is_some());
}

#[test]
fn stale_actions_change_nothing() {
    let mut state = seated("room", WallFactory::Shuffled);
    state.start_round(NOW).unwrap();
    state.take_outputs();
    let current = state.current_event_seq();
    let toggle = PlayerAction::AutoPlayToggle(AutoPlayToggle { enabled: true });

    let mut stale = request(&state, toggle.clone());
    stale.expected_event_seq = current - 1;
    assert!(state.handle_player_action("req", "conn-e", &stale, NOW).is_none());
    let (code, message, expected) = rejection(&state.take_outputs(), "conn-e");
    assert_eq!(code, RejectCode::StaleEventSeq.as_i32());
    assert_eq!(
        message,
        format!(
            "expected_event_seq {} is stale; current server event_seq is {current}",
            current - 1
        )
    );
    assert_eq!(expected, current);

    let mut other_match = request(&state, toggle.clone());
    other_match.match_id = "match-other".to_owned();
    state.handle_player_action("req", "conn-e", &other_match, NOW);
    let (code, message, _) = rejection(&state.take_outputs(), "conn-e");
    assert_eq!(code, RejectCode::InvalidRequest.as_i32());
    assert_eq!(message, "match_id match-other does not match active room match match-room");

    let mut other_hand = request(&state, toggle);
    other_hand.round_id = "hand-9".to_owned();
    state.handle_player_action("req", "conn-e", &other_hand, NOW);
    let (_, message, _) = rejection(&state.take_outputs(), "conn-e");
    assert_eq!(message, "round_id hand-9 does not match active round hand-1");
    assert!(!state.players_by_seat.get(Seat::East).unwrap().auto_play_enabled);
}

#[test]
fn only_the_seat_whose_turn_it_is_discards_its_own_tiles() {
    let mut state = seated("room", WallFactory::Fixed(build_standard_wall(false)));
    state.start_round(NOW).unwrap();
    state.take_outputs();
    let discard = |tile: i32, tsumogiri: bool| {
        PlayerAction::Discard(DiscardAction { tile, tsumogiri })
    };
    let tries = [
        ("conn-s", discard(1, false), "only the current turn seat may discard"),
        (
            "conn-e",
            discard(Tile::FlowerPlum.as_i32(), false),
            "discard tile is not present in the player's private hand",
        ),
        (
            "conn-e",
            discard(Tile::FlowerPlum.as_i32(), true),
            "tsumogiri requires the pending drawn tile to match the discarded tile",
        ),
    ];
    for (connection, action, expected) in tries {
        let asked = request(&state, action);
        assert!(state.handle_player_action("req", connection, &asked, NOW).is_none());
        assert_eq!(rejection(&state.take_outputs(), connection).1, expected);
    }
}

#[test]
fn auto_play_is_switched_and_shown() {
    let mut state = seated("room", WallFactory::Shuffled);
    let asked = request(&state, PlayerAction::AutoPlayToggle(AutoPlayToggle { enabled: true }));
    state.handle_player_action("req", "conn-w", &asked, NOW);
    assert!(state.players_by_seat.get(Seat::West).unwrap().auto_play_enabled);
    assert_eq!(sent(&state.take_outputs(), "conn-n").len(), 1);
}

#[test]
fn flowers_are_replaced_while_dealing() {
    let mut state = seated("room", WallFactory::Shuffled);
    state.start_round(NOW).unwrap();
    let mut tiles = Vec::new();
    for seat in [Seat::East, Seat::South, Seat::West, Seat::North] {
        let hand = state.player_round_state.get(seat).unwrap();
        assert_eq!(hand.concealed_tiles.len(), 13);
        assert!(hand.concealed_tiles.iter().all(|tile| tile.as_i32() < 35));
        assert!(hand.flowers.iter().all(|tile| tile.as_i32() >= 35));
        tiles.extend(hand.concealed_tiles.iter().copied());
        tiles.extend(hand.flowers.iter().copied());
        tiles.extend(hand.drawn_tile);
    }
    let runtime = state.round_runtime.as_ref().unwrap();
    tiles.extend(runtime.live_wall.iter().copied());
    tiles.extend(runtime.dead_wall.iter().copied());
    tiles.sort_by_key(|tile| tile.as_i32());
    assert_eq!(tiles, build_standard_wall(true));
}

#[test]
fn a_short_wall_starts_no_hand() {
    let mut state = seated("room", WallFactory::Fixed(vec![Tile::Dot1; 14]));
    let error = state.start_round(NOW).unwrap_err();
    assert_eq!(error.reject_code, RejectCode::InternalError);
    assert_eq!(error.message, "wall factory returned too few tiles");
    assert_eq!(state.phase, GamePhase::Lobby);
    let mut state = seated("room", WallFactory::Fixed(vec![Tile::Dot1; 60]));
    assert_eq!(
        state.start_round(NOW).unwrap_err().message,
        "live wall exhausted during initial dealing"
    );
    let mut state = seated("room", WallFactory::Fixed(vec![Tile::Dot1; 66]));
    assert_eq!(
        state.start_round(NOW).unwrap_err().message,
        "live wall was unexpectedly exhausted during initial dealer draw"
    );
}

#[test]
fn players_come_go_and_come_back() {
    let mut engine = RuleEngineHandle::noop();
    let mut state =
        RoomState::new("room".to_owned(), WallFactory::Shuffled, RoomRuntimeMode::Production);
    let join = |user: &str, connection: &str, seat: Seat| RoomCommand::Join {
        request_id: "req".to_owned(),
        connection_id: connection.to_owned(),
        request: gb_mahjong_server::proto::client::JoinRoomRequest {
            room_id: "room".to_owned(),
            user_id: user.to_owned(),
            session_token: String::new(),
            display_name: user.to_owned(),
            client_version: String::new(),
        },
        authorized_join: AuthorizedJoin {
            user_id: user.to_owned(),
            display_name: user.to_owned(),
            seat,
        },
    };
    state.run_command(join("a", "c1", Seat::East), &mut engine, NOW);
    state.take_outputs();
    state.run_command(join("a", "c2", Seat::South), &mut engine, NOW);
    match &sent(&state.take_outputs(), "c2")[0].payload {
        Some(ServerPayload::JoinRoom(response)) => {
            assert!(!response.accepted);
            assert_eq!(response.reject_code, RejectCode::AlreadyJoined.as_i32());
            assert_eq!(response.message, "user already joined this room");
        }
        other => panic!("expected JoinRoomResponse, got {other:?}"),
    }
    state.run_command(join("b", "c3", Seat::East), &mut engine, NOW);
    match &sent(&state.take_outputs(), "c3")[0].payload {
        Some(ServerPayload::JoinRoom(response)) => {
            assert_eq!(response.reject_code, RejectCode::SeatUnavailable.as_i32());
        }
        other => panic!("expected JoinRoomResponse, got {other:?}"),
    }
    state.run_command(RoomCommand::Disconnect { connection_id: "c1".to_owned() }, &mut engine, NOW);
    assert!(!state.players_by_seat.get(Seat::East).unwrap().connected);
    assert_eq!(sent(&state.take_outputs(), "c1").len(), 0);
    let resume = |token: &str, user: &str| RoomCommand::ResumeSession {
        request_id: "req".to_owned(),
        connection_id: "c4".to_owned(),
        request: ResumeSessionRequest {
            room_id: "room".to_owned(),
            user_id: user.to_owned(),
            resume_token: token.to_owned(),
            last_received_event_seq: 3,
        },
    };
    state.run_command(resume("wrong", "a"), &mut engine, NOW);
    assert_eq!(
        rejection(&state.take_outputs(), "c4"),
        (
            RejectCode::AuthFailed.as_i32(),
            "resume token does not match room state".to_owned(),
            3
        )
    );
    state.run_command(resume("wrong", "z"), &mut engine, NOW);
    assert_eq!(
        rejection(&state.take_outputs(), "c4").0,
        RejectCode::NotInRoom.as_i32()
    );
    let token = state.players_by_seat.get(Seat::East).unwrap().resume_token.clone();
    state.run_command(resume(&token, "a"), &mut engine, NOW);
    assert!(state.players_by_seat.get(Seat::East).unwrap().connected);
    assert_eq!(sent(&state.take_outputs(), "c4").len(), 2);
    state.run_command(RoomCommand::RemovePlayer { user_id: "a".to_owned() }, &mut engine, NOW);
    assert!(state.players_by_seat.get(Seat::East).is_none());
    assert_eq!(
        rejection(&state.take_outputs(), "c4").1,
        "player was removed from the lobby room"
    );
}

#[test]
fn a_window_that_times_out_is_settled() {
    let mut legal = illegal();
    legal.is_legal = true;
    let mut engine = RuleEngineHandle::new(MockRuleEngine::new(legal));
    let mut state = seated("room", WallFactory::Fixed(build_standard_wall(false)));
    state.start_round(NOW).unwrap();
    let tile = state.player_round_state.get(Seat::East).unwrap().drawn_tile.unwrap();
    let asked = request(
        &state,
        PlayerAction::Discard(DiscardAction { tile: tile.as_i32(), tsumogiri: true }),
    );
    let call = state.handle_player_action("req", "conn-e", &asked, NOW);
    state.settle(call, &mut engine, NOW);
    assert_eq!(state.phase, GamePhase::WaitingClaim);
    let outputs = state.take_outputs();
    let timeout = outputs.iter().find_map(|output| match output {
        RoomOutput::ScheduleClaimTimeout(id, delay) => Some((*id, *delay)),
        _ => None,
    });
    assert_eq!(timeout, Some((1, 15_000)));
    state.run_command(
        RoomCommand::ClaimWindowTimeout { action_window_id: 9 },
        &mut engine,
        NOW,
    );
    assert_eq!(state.phase, GamePhase::WaitingClaim);
    state.run_command(
        RoomCommand::ClaimWindowTimeout { action_window_id: 1 },
        &mut engine,
        NOW,
    );
    assert_eq!(state.phase, GamePhase::WaitingDiscard);
    assert_eq!(state.current_turn_seat, Seat::South);
    let resolved = state.take_outputs().into_iter().find_map(|output| match output {
        RoomOutput::Persist(event) if event.event_type == "claim_window_resolved" => Some(event),
        _ => None,
    });
    assert!(resolved.is_some());
}

#[test]
fn engines_that_do_not_answer_are_reported() {
    let mut state = seated("room", WallFactory::Shuffled);
    state.start_round(NOW).unwrap();
    let tile = state.player_round_state.get(Seat::East).unwrap().drawn_tile.unwrap();
    state.take_outputs();
    let asked = request(
        &state,
        PlayerAction::Discard(DiscardAction { tile: tile.as_i32(), tsumogiri: true }),
    );
    let call = state.handle_player_action("req", "conn-e", &asked, NOW).unwrap();
    assert!(state.can_resume(&call, NOW));
    let pending = match call {
        gb_mahjong_server::room::steps::PendingCall::Validation(pending) => pending,
        _ => panic!("expected a question about a win"),
    };
    let next = state.resume_validation(
        pending.context,
        pending.seat,
        pending.purpose,
        Err("unreachable".to_owned()),
        NOW,
    );
    assert!(next.is_none());
    let outputs = state.take_outputs();
    let told = sent(&outputs, "conn-e")
        .into_iter()
        .find_map(|frame| match frame.payload {
            Some(ServerPayload::ActionRejected(rejected)) => Some(rejected),
            _ => None,
        })
        .unwrap();
    assert_eq!(told.reject_code, RejectCode::InternalError.as_i32());
    assert!(told.message.ends_with("unreachable"));
}

#[test]
fn exhausted_counters_stop_a_room() {
    let mut state = seated("room", WallFactory::Shuffled);
    assert!(state.is_ready(NOW));
    state.next_event_seq = u64::MAX - 3;
    assert!(!state.is_ready(NOW));
    assert!(!state.can_take_command(
        &RoomCommand::Disconnect { connection_id: "conn-e".to_owned() },
        NOW
    ));
}

#[test]
fn seats_follow_each_other() {
    assert_eq!(next_seat(Seat::East), Seat::South);
    assert_eq!(next_seat(Seat::North), Seat::East);
    assert_eq!(claim_priority_distance(Seat::East, Seat::South), 1);
    assert_eq!(claim_priority_distance(Seat::East, Seat::North), 3);
}

#[test]
fn walls_are_complete_and_repeatable() {
    assert_eq!(build_standard_wall(false).len(), 136);
    assert_eq!(build_standard_wall(true).len(), 144);
    let first = build_shuffled_wall(true, "room", 1, 7);
    assert_eq!(first, build_shuffled_wall(true, "room", 1, 7));
    assert_ne!(first, build_shuffled_wall(true, "room", 2, 7));
    assert_ne!(stable_wall_seed("room", 1, 7), stable_wall_seed("moor", 1, 7));
    let mut sorted = first;
    sort_tiles(&mut sorted);
    assert_eq!(sorted, build_standard_wall(true));
    let queue: VecDeque<Tile> = VecDeque::from(sorted);
    assert_eq!(queue.front(), Some(&Tile::Character1));
}

#[test]
fn texts_are_read_and_written() {
    assert_eq!(u64_to_text(0), "0");
    assert_eq!(u64_to_text(u64::MAX), "18446744073709551615");
    assert_eq!(i64_to_text(i64::MIN), "-9223372036854775808");
    assert_eq!(parse_number("007", 10), Some(7));
    assert_eq!(parse_number("+5", 10), Some(5));
    assert_eq!(parse_number("11", 10), None);
    assert_eq!(parse_number("", 10), None);
    assert_eq!(parse_number("+", 10), None);
    assert_eq!(parse_number("99999999999999999999", u64::MAX), None);
    assert_eq!(parse_integer("-9223372036854775808"), Some(i64::MIN));
    assert_eq!(parse_integer("9223372036854775808"), None);
    assert_eq!(parse_integer("-+1"), None);
    assert_eq!(trim("\u{a0} x y \u{2028}"), "x y");
    assert_eq!(strip_prefix("Bearer x", "Bearer "), Some("x".to_owned()));
    assert_eq!(strip_prefix("Bear", "Bearer "), None);
    assert_eq!(split_words("  a  bc\td "), vec!["a", "bc", "d"]);
    assert_eq!(ActionKind::Draw.as_str_name(), "ACTION_KIND_DRAW");
    assert_eq!(Json::unsigned(3).as_u64(), Some(3));
}
