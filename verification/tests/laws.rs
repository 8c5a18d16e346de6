use gb_mahjong_server::db::models::{MatchEventRecord, MatchRecord, MatchStatusRecord};
use gb_mahjong_server::db::replay::build_match_replay;
use gb_mahjong_server::engine::{MockRuleEngine, RuleEngine, RuleEngineHandle};
use gb_mahjong_server::json::Json;
use gb_mahjong_server::lobby::{LobbyError, LobbyService};
use gb_mahjong_server::proto::client::{
    ActionDetail, ActionKind, ClaimAction, ClaimKind, DiscardAction, GamePhase, JoinRoomRequest, MeldKind,
    PassAction, PlayerAction, PlayerActionRequest, PlayerStatus, ReadyRequest, RejectCode,
    ResumeSessionRequest, Seat, ServerPayload, SettlementFlag, SupplementalKongAction, SyncReason,
    Tile, WinType,
};
use gb_mahjong_server::proto::engine;
use gb_mahjong_server::room::commands::RoomCommand;
use gb_mahjong_server::room::hand::{
    private_tile_count, remove_tiles_from_concealed, tile_from_suit_and_rank, tile_suit_and_rank,
};
use gb_mahjong_server::room::load_test::{LoadTestRoomSpec, LoadTestWinnerPolicy};
use gb_mahjong_server::tiles::build_standard_wall;
use gb_mahjong_server::room::state::{
    AuthorizedJoin, RoomOutput, RoomRuntimeMode, RoomState, WallFactory, MATCH_TOTAL_HANDS,
};

const NOW: u64 = 1_700_000_000_000;
const SEATS: [Seat; 4] = [Seat::East, Seat::South, Seat::West, Seat::North];

fn verdict(is_legal: bool) -> engine::ValidateActionResponse {
    engine::ValidateActionResponse {
        is_legal,
        reject_code: engine::ValidationRejectCode::HandNotComplete.as_i32(),
        derived_action_type: engine::ActionKind::Unspecified.as_i32(),
        meld_result: None,
        winning_context: None,
        suggested_follow_ups: Vec::new(),
        explanation: String::new(),
    }
}

fn join(seat: Seat) -> RoomCommand {
    let name = seat.as_str_name();
    RoomCommand::Join {
        request_id: "req".to_owned(),
        connection_id: format!("conn-{name}"),
        request: JoinRoomRequest {
            room_id: "room".to_owned(),
            user_id: name.to_owned(),
            session_token: String::new(),
            display_name: name.to_owned(),
            client_version: String::new(),
        },
        authorized_join: AuthorizedJoin {
            user_id: name.to_owned(),
            display_name: name.to_owned(),
            seat,
        },
    }
}

fn ready(seat: Seat) -> RoomCommand {
    RoomCommand::Ready {
        request_id: "req".to_owned(),
        connection_id: format!("conn-{}", seat.as_str_name()),
        request: ReadyRequest { ready: true },
    }
}

fn act(state: &RoomState, seat: Seat, window: u64, action: PlayerAction) -> RoomCommand {
    RoomCommand::PlayerAction {
        request_id: "req".to_owned(),
        connection_id: format!("conn-{}", seat.as_str_name()),
        request: PlayerActionRequest {
            room_id: state.room_id.clone(),
            match_id: state.match_id.clone(),
            round_id: state.round_id(),
            expected_event_seq: state.current_event_seq(),
            action_window_id: window,
            action: Some(action),
        },
    }
}

/// Every tile on the table, by its number.
fn table(state: &RoomState) -> Vec<i32> {
    let mut codes: Vec<i32> = Vec::new();
    for seat in SEATS {
        let hand = state.player_round_state.get(seat).unwrap();
        codes.extend(hand.concealed_tiles.iter().map(|tile| tile.as_i32()));
        codes.extend(hand.drawn_tile.iter().map(|tile| tile.as_i32()));
        codes.extend(hand.flowers.iter().map(|tile| tile.as_i32()));
        for meld in &hand.melds {
            codes.extend(meld.tiles.iter().copied());
        }
        codes.extend(hand.discards.iter().filter(|tile| !tile.claimed).map(|tile| tile.tile));
    }
    let runtime = state.round_runtime.as_ref().unwrap();
    codes.extend(runtime.live_wall.iter().map(|tile| tile.as_i32()));
    codes.extend(runtime.dead_wall.iter().map(|tile| tile.as_i32()));
    codes.sort_unstable();
    codes
}

#[test]
fn a_whole_match_keeps_its_tiles_its_order_and_its_readiness() {
    let mut engine = RuleEngineHandle::new(MockRuleEngine::new(verdict(false)));
    let mut state =
        RoomState::new("room".to_owned(), WallFactory::Seeded(11), RoomRuntimeMode::Production);
    let mut run = |state: &mut RoomState, command: RoomCommand| {
        let before = state.next_event_seq;
        assert!(state.can_take_command(&command, NOW));
        assert!(state.run_command(command, &mut engine, NOW).is_none());
        assert!(state.is_ready(NOW));
        assert!(before <= state.next_event_seq && state.next_event_seq <= before + 30);
        state.take_outputs()
    };
    for seat in SEATS {
        run(&mut state, join(seat));
    }
    for seat in SEATS {
        run(&mut state, ready(seat));
    }
    let mut steps = 0;
    let mut settlements = 0;
    while state.phase != GamePhase::MatchSettlement {
        steps += 1;
        assert!(steps < 2_000);
        match state.phase {
            GamePhase::WaitingDiscard => {
                assert_eq!(table(&state).len(), 144);
                let seat = state.current_turn_seat;
                let hand = state.player_round_state.get(seat).unwrap();
                assert!(private_tile_count(hand) > 0);
                let (tile, tsumogiri) = match hand.drawn_tile {
                    Some(tile) => (tile, true),
                    None => (hand.concealed_tiles[0], false),
                };
                let command = act(
                    &state,
                    seat,
                    0,
                    PlayerAction::Discard(DiscardAction { tile: tile.as_i32(), tsumogiri }),
                );
                let outputs = run(&mut state, command);
                let asked: Vec<String> = outputs
                    .iter()
                    .filter_map(|output| match output {
                        RoomOutput::Send(connection_id, frame)
                            if matches!(frame.payload, Some(ServerPayload::ActionPrompt(_))) =>
                        {
                            Some(connection_id.clone())
                        }
                        _ => None,
                    })
                    .collect();
                let eligible: Vec<String> = match &state.round_runtime.as_ref().unwrap().active_claim_window
                {
                    Some(window) => window
                        .eligible_seats
                        .iter()
                        .map(|seat| format!("conn-{}", seat.as_str_name()))
                        .collect(),
                    None => Vec::new(),
                };
                assert_eq!(asked, eligible);
            }
            GamePhase::WaitingClaim => {
                let window = state.round_runtime.as_ref().unwrap().active_claim_window.as_ref().unwrap();
                assert!(!window.eligible_seats.contains(&window.source_seat));
                let (id, source) = (window.action_window_id, window.source_event_seq);
                let seat = *window
                    .eligible_seats
                    .iter()
                    .find(|seat| window.responded_seats.get(**seat).is_none())
                    .unwrap();
                let command =
                    act(&state, seat, id, PlayerAction::Pass(PassAction { source_event_seq: source }));
                run(&mut state, command);
            }
            GamePhase::RoundSettlement => {
                settlements += 1;
                let hand = state.hand_number;
                run(
                    &mut state,
                    RoomCommand::AdvanceAfterRoundSettlement { settled_hand_number: hand },
                );
            }
            other => panic!("unexpected phase {other:?}"),
        }
    }
    assert_eq!(settlements, MATCH_TOTAL_HANDS);
    let summary = state.match_runtime.last_match_settlement.as_ref().unwrap();
    assert_eq!(summary.standings.len(), 4);
    for pair in summary.standings.windows(2) {
        assert!(pair[0].final_score >= pair[1].final_score);
        assert_eq!(pair[0].rank + 1, pair[1].rank);
    }
}

/// An engine that lets everybody claim and nobody win.
struct NobodyWins;

impl RuleEngine for NobodyWins {
    fn validate_action(
        &mut self,
        request: &engine::ValidateActionRequest,
    ) -> Result<engine::ValidateActionResponse, String> {
        Ok(verdict(!matches!(
            request.candidate_action,
            Some(engine::CandidateAction::DeclareWin(_))
        )))
    }

    fn calculate_score(
        &mut self,
        _request: &engine::CalculateScoreRequest,
    ) -> Result<engine::CalculateScoreResponse, String> {
        Err("nobody wins".to_owned())
    }
}

#[test]
fn claims_and_kongs_keep_the_tiles_of_a_hand() {
    let mut engine = RuleEngineHandle::new(NobodyWins);
    let mut state =
        RoomState::new("room".to_owned(), WallFactory::Seeded(5), RoomRuntimeMode::Production);
    for seat in SEATS {
        state.run_command(join(seat), &mut engine, NOW);
    }
    for seat in SEATS {
        state.run_command(ready(seat), &mut engine, NOW);
    }
    let wall = table(&state);
    assert_eq!(wall.len(), 144);
    let mut melds_seen = 0;
    let mut steps = 0;
    let mut hands = 0;
    while hands < 4 {
        steps += 1;
        assert!(steps < 5_000);
        match state.phase {
            GamePhase::WaitingDiscard => {
                assert_eq!(table(&state), wall);
                let seat = state.current_turn_seat;
                let hand = state.player_round_state.get(seat).unwrap();
                let kong = hand.melds.iter().find(|meld| {
                    meld.kind == MeldKind::Peng.as_i32()
                        && hand.drawn_tile.map(|tile| tile.as_i32()) == Some(meld.claimed_tile)
                });
                let action = match (kong, hand.drawn_tile) {
                    (Some(meld), _) if state.dead_wall_tiles_remaining > 8 => {
                        PlayerAction::SupplementalKong(SupplementalKongAction {
                            tile: meld.claimed_tile,
                        })
                    }
                    (_, Some(tile)) => PlayerAction::Discard(DiscardAction {
                        tile: tile.as_i32(),
                        tsumogiri: true,
                    }),
                    (_, None) => PlayerAction::Discard(DiscardAction {
                        tile: hand.concealed_tiles[0].as_i32(),
                        tsumogiri: false,
                    }),
                };
                let command = act(&state, seat, 0, action);
                assert!(state.run_command(command, &mut engine, NOW).is_none());
            }
            GamePhase::WaitingClaim => {
                let window =
                    state.round_runtime.as_ref().unwrap().active_claim_window.as_ref().unwrap();
                let seat = *window
                    .eligible_seats
                    .iter()
                    .find(|seat| window.responded_seats.get(**seat).is_none())
                    .unwrap();
                let option = &window.options_by_seat.get(seat).unwrap().items[0];
                let claim = ClaimAction {
                    claim_kind: option.claim_kind,
                    target_tile: window.target_tile.as_i32(),
                    consume_tiles: option.consume_tiles.clone(),
                    source_seat: window.source_seat.as_i32(),
                    source_event_seq: window.source_event_seq,
                };
                let id = window.action_window_id;
                let command = act(&state, seat, id, PlayerAction::Claim(claim));
                assert!(state.run_command(command, &mut engine, NOW).is_none());
                if state.phase == GamePhase::WaitingDiscard {
                    melds_seen += 1;
                }
            }
            GamePhase::RoundSettlement => {
                hands += 1;
                let hand = state.hand_number;
                state.run_command(
                    RoomCommand::AdvanceAfterRoundSettlement { settled_hand_number: hand },
                    &mut engine,
                    NOW,
                );
            }
            other => panic!("unexpected phase {other:?}"),
        }
    }
    assert!(melds_seen > 10);
}

#[test]
fn dropped_players_come_back_to_the_same_table() {
    let mut engine = RuleEngineHandle::noop();
    let mut state =
        RoomState::new("room".to_owned(), WallFactory::Seeded(3), RoomRuntimeMode::Production);
    for seat in SEATS {
        state.run_command(join(seat), &mut engine, NOW);
    }
    for seat in SEATS {
        state.run_command(ready(seat), &mut engine, NOW);
    }
    let user = Seat::South.as_str_name();
    let token = state.players_by_seat.get(Seat::South).unwrap().resume_token.clone();
    let hands = table(&state);
    state.run_command(
        RoomCommand::Disconnect { connection_id: format!("conn-{user}") },
        &mut engine,
        NOW,
    );
    assert!(!state.players_by_seat.get(Seat::South).unwrap().connected);
    state.take_outputs();
    state.run_command(
        RoomCommand::ResumeSession {
            request_id: "req".to_owned(),
            connection_id: "again".to_owned(),
            request: ResumeSessionRequest {
                room_id: "room".to_owned(),
                user_id: user.to_owned(),
                resume_token: token,
                last_received_event_seq: 0,
            },
        },
        &mut engine,
        NOW,
    );
    let player = state.players_by_seat.get(Seat::South).unwrap();
    assert!(player.connected);
    assert_eq!(player.connection_id.as_deref(), Some("again"));
    assert_eq!(table(&state), hands);
    match state.take_outputs().into_iter().next() {
        Some(RoomOutput::Send(connection_id, frame)) => {
            assert_eq!(connection_id, "again");
            match frame.payload {
                Some(ServerPayload::SyncState(sync)) => {
                    assert_eq!(sync.reason, SyncReason::Reconnect.as_i32());
                    assert_eq!(sync.snapshot.unwrap().self_seat, Seat::South.as_i32());
                }
                other => panic!("expected SyncState, got {other:?}"),
            }
        }
        other => panic!("expected a frame, got {other:?}"),
    }
}

#[test]
fn claims_take_tiles_out_of_the_hand_one_by_one() {
    let mut hand = vec![Tile::Dot1, Tile::Dot2, Tile::Dot2, Tile::Dot3];
    assert!(remove_tiles_from_concealed(&mut hand, &vec![Tile::Dot2, Tile::Dot3]).is_ok());
    assert_eq!(hand, vec![Tile::Dot1, Tile::Dot2]);
    assert!(remove_tiles_from_concealed(&mut hand, &vec![Tile::Dot9]).is_err());
    assert_eq!(hand, vec![Tile::Dot1, Tile::Dot2]);
}

#[test]
fn snapshots_show_the_own_hand_only() {
    let mut engine = RuleEngineHandle::noop();
    let mut state =
        RoomState::new("room".to_owned(), WallFactory::Seeded(3), RoomRuntimeMode::Production);
    for seat in SEATS {
        state.run_command(join(seat), &mut engine, NOW);
    }
    for seat in SEATS {
        state.run_command(ready(seat), &mut engine, NOW);
    }
    let frame = state.build_sync_state_for(Seat::West, 9, SyncReason::Reconnect, NOW);
    let snapshot = match frame.payload {
        Some(ServerPayload::SyncState(sync)) => sync.snapshot.unwrap(),
        other => panic!("expected SyncState, got {other:?}"),
    };
    let own = snapshot.self_hand.unwrap();
    let held: Vec<i32> = state
        .player_round_state
        .get(Seat::West)
        .unwrap()
        .concealed_tiles
        .iter()
        .map(|tile| tile.as_i32())
        .collect();
    assert_eq!(own.concealed_tiles, held);
    assert_eq!(own.drawn_tile, Tile::Unspecified.as_i32());
    assert_eq!(snapshot.self_seat, Seat::West.as_i32());
    assert_eq!(snapshot.players.len(), 4);
    assert!(snapshot.players.iter().all(|player| player.concealed_tile_count >= 13));
}

#[test]
fn random_wins_are_zero_sum() {
    let mut state =
        RoomState::new("room".to_owned(), WallFactory::Seeded(3), RoomRuntimeMode::LoadTest);
    state.initialize_load_test_players(20);
    state.start_round(NOW).unwrap();
    let sum = |state: &RoomState| -> i64 {
        SEATS.iter().map(|seat| state.players_by_seat.get(*seat).unwrap().score).sum()
    };
    let before = sum(&state);
    state.settle_load_test_random_winner(Seat::North);
    assert_eq!(sum(&state), before);
    assert_eq!(state.players_by_seat.get(Seat::North).unwrap().score, 28_000);
    assert_eq!(state.players_by_seat.get(Seat::East).unwrap().score, 24_000);
    assert_eq!(state.players_by_seat.get(Seat::West).unwrap().user_id, "load-user-22");
    assert_eq!(state.phase, GamePhase::RoundSettlement);
}

#[test]
fn numbers_of_names_are_read_back() {
    for code in 0..5 {
        assert_eq!(Seat::from_i32(code).map(Seat::as_i32), Some(code));
        assert_eq!(WinType::from_i32(code).map(WinType::as_i32), Some(code));
        assert_eq!(MeldKind::from_i32(code).map(MeldKind::as_i32), Some(code));
    }
    for code in 0..43 {
        assert_eq!(Tile::from_i32(code).map(Tile::as_i32), Some(code));
    }
    for code in 0..8 {
        assert_eq!(GamePhase::from_i32(code).map(GamePhase::as_i32), Some(code));
        assert_eq!(SettlementFlag::from_i32(code).map(SettlementFlag::as_i32), Some(code));
    }
    for code in 0..9 {
        assert_eq!(ActionKind::from_i32(code).map(ActionKind::as_i32), Some(code));
    }
    for code in 0..6 {
        assert_eq!(ClaimKind::from_i32(code).map(ClaimKind::as_i32), Some(code));
    }
    for code in 0..15 {
        assert_eq!(RejectCode::from_i32(code).map(RejectCode::as_i32), Some(code));
    }
    assert_eq!(PlayerStatus::from_i32(4), None);
    assert_eq!(Seat::from_i32(-1), None);
    assert_eq!(Tile::from_i32(43), None);
}

#[test]
fn refused_requests_leave_the_lobby_as_it_was() {
    let mut lobby = LobbyService::default();
    lobby.create_room_as("a", "A", "room_1".to_owned(), "CODE01".to_owned(), 1).unwrap();
    lobby.create_room_as("b", "B", "room_2".to_owned(), "CODE02".to_owned(), 2).unwrap();
    assert_eq!(lobby.leave_room("a", "room_2").err(), Some(LobbyError::NotRoomMember));
    assert_eq!(lobby.kick_member("b", "room_2", "a").err(), Some(LobbyError::NotRoomMember));
    assert_eq!(lobby.join_room("a", "A", "CODE02", 3).err(), Some(LobbyError::AlreadyInRoom));
    assert!(lobby.leave_room("a", "room_1").unwrap().is_none());
    assert!(lobby.join_room("a", "A", "CODE02", 4).is_ok());
}

#[test]
fn replays_do_not_depend_on_the_order_of_events() {
    let record = || MatchRecord {
        match_id: "m".to_owned(),
        room_id: "r".to_owned(),
        status: MatchStatusRecord::Finished,
        ruleset_id: String::new(),
        config_snapshot: Json::Null,
        seating_snapshot: Json::Null,
        current_round_id: None,
        prevailing_wind: None,
        dealer_seat: None,
        started_at_unix_ms: None,
        ended_at_unix_ms: None,
        created_by_user_id: None,
        winner_user_id: None,
        last_event_seq: 0,
        final_result: None,
        created_at_unix_ms: 0,
        updated_at_unix_ms: 0,
    };
    let event = |seq: i64, round: &str| MatchEventRecord {
        event_id: seq,
        match_id: "m".to_owned(),
        round_id: Some(round.to_owned()),
        event_seq: seq,
        event_type: "action_broadcast".to_owned(),
        actor_user_id: None,
        actor_seat: None,
        request_id: None,
        correlation_id: None,
        causation_event_seq: None,
        event_payload: Json::Null,
        created_at_unix_ms: 0,
    };
    let first = build_match_replay(record(), vec![event(1, "x"), event(2, "y"), event(3, "x")]);
    let second = build_match_replay(record(), vec![event(3, "x"), event(1, "x"), event(2, "y")]);
    assert_eq!(first, second);
    assert_eq!(first.rounds.len(), 2);
    let entries: usize = first.rounds.iter().map(|round| round.entries.len()).sum();
    assert_eq!(entries, 3);
    assert!(first.rounds[0].entries[0].invalid_payload);
    assert!(first.terminal_entry.is_none());

    let settlement = |seq: i64| MatchEventRecord {
        event_type: "match_settlement".to_owned(),
        ..event(seq, "x")
    };
    let ended = build_match_replay(record(), vec![settlement(9), event(1, "x"), settlement(4)]);
    assert_eq!(ended.terminal_entry.map(|entry| entry.event_seq), Some(9));
    assert_eq!(ended.rounds.len(), 1);
}

#[test]
fn load_test_rooms_say_nothing() {
    let mut state =
        RoomState::new("room".to_owned(), WallFactory::Seeded(3), RoomRuntimeMode::LoadTest);
    state.run_command(join(Seat::East), &mut RuleEngineHandle::noop(), NOW);
    assert!(state.take_outputs().iter().all(|output| !matches!(output, RoomOutput::Send(_, _))));
}

#[test]
fn draws_are_shown_to_the_seat_that_drew_only() {
    let mut engine = RuleEngineHandle::noop();
    let mut state =
        RoomState::new("room".to_owned(), WallFactory::Seeded(3), RoomRuntimeMode::Production);
    for seat in SEATS {
        state.run_command(join(seat), &mut engine, NOW);
    }
    state.take_outputs();
    state.broadcast_draw_action(Seat::South, 7, Tile::Dot5, true);
    let outputs = state.take_outputs();
    let mut told = 0;
    for output in &outputs {
        match output {
            RoomOutput::Persist(event) => {
                assert_eq!(event.event_payload.get("draw_tile"), Some(&Json::text("TILE_DOT_5")));
            }
            RoomOutput::Send(connection_id, frame) => {
                told += 1;
                let detail = match &frame.payload {
                    Some(ServerPayload::ActionBroadcast(action)) => match &action.action_detail {
                        Some(ActionDetail::Draw(detail)) => detail,
                        other => panic!("expected a draw, got {other:?}"),
                    },
                    other => panic!("expected ActionBroadcast, got {other:?}"),
                };
                let own = *connection_id == format!("conn-{}", Seat::South.as_str_name());
                assert_eq!(detail.visible_to_recipient, own);
                let shown = if own { Tile::Dot5 } else { Tile::Unspecified };
                assert_eq!(detail.tile, shown.as_i32());
                assert!(detail.replacement_draw);
            }
            other => panic!("unexpected output {other:?}"),
        }
    }
    assert_eq!(told, 4);
}

#[test]
fn suits_and_ranks_name_tiles() {
    for code in 0..43 {
        let tile = Tile::from_i32(code).unwrap();
        match tile_suit_and_rank(tile) {
            Some((suit, rank)) => assert_eq!(tile_from_suit_and_rank(suit, rank), tile),
            None => assert!(code == 0 || code > 27),
        }
    }
    assert_eq!(tile_suit_and_rank(Tile::Bamboo7), Some(("bamboo", 7)));
    assert_eq!(tile_from_suit_and_rank("character", 9), Tile::Character9);
    assert_eq!(tile_from_suit_and_rank("dot", 1), Tile::Dot1);
    assert_eq!(tile_from_suit_and_rank("dot", 10), Tile::Unspecified);
    assert_eq!(tile_from_suit_and_rank("dot", 0), Tile::Unspecified);
    assert_eq!(tile_from_suit_and_rank("bamboo", i32::MAX), Tile::Unspecified);
    assert_eq!(tile_from_suit_and_rank("wind", 1), Tile::Unspecified);
}

#[test]
fn full_walls_in_any_order_play_every_hand() {
    let mut flowers_first = build_standard_wall(true);
    flowers_first.reverse();
    let mut flowers_in_the_dead_wall = build_standard_wall(true);
    flowers_in_the_dead_wall.swap(0, 140);
    for wall in [flowers_first, flowers_in_the_dead_wall] {
        let mut state =
            RoomState::new("room".to_owned(), WallFactory::Fixed(wall), RoomRuntimeMode::LoadTest);
        let command = RoomCommand::RunLoadTestRoom {
            spec: LoadTestRoomSpec {
                room_id: "room".to_owned(),
                room_index: 0,
                player_base_index: 0,
                max_actions: 200,
                hands_per_match: 5,
                seed: 17,
                winner_policy: LoadTestWinnerPolicy::Random,
            },
        };
        assert!(state.can_take_command(&command, NOW));
        state.handle_command(command, NOW);
        match state.take_outputs().pop() {
            Some(RoomOutput::FinishLoadTest(report)) => {
                assert!(report.success, "{:?}", report.failure_reason);
                assert_eq!(report.hands_completed, 5);
            }
            other => panic!("expected a report, got {other:?}"),
        }
    }
}

#[test]
fn equal_scores_are_ranked_by_seat() {
    let mut state =
        RoomState::new("room".to_owned(), WallFactory::Seeded(3), RoomRuntimeMode::LoadTest);
    state.initialize_load_test_players(0);
    let summary = state.build_match_settlement_summary(NOW);
    let seats: Vec<i32> = summary.standings.iter().map(|standing| standing.seat).collect();
    assert_eq!(seats, vec![1, 2, 3, 4]);
}

#[test]
fn a_user_in_no_room_always_gets_one() {
    let mut lobby = LobbyService::default();
    for number in 0..50 {
        let user = format!("user-{number}");
        let room = lobby.create_room(&user, "U", number).unwrap();
        assert_eq!(room.room_code, room.room_code.to_ascii_uppercase());
        assert_eq!(room.room_code.len(), 6);
    }
}
