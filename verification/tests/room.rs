use std::collections::VecDeque;

use gb_mahjong_server::collections::SeatMap;
use gb_mahjong_server::db::models::NewMatchEventRecord;
use gb_mahjong_server::engine::{MockRuleEngine, NoopRuleEngine, RuleEngine, RuleEngineHandle};
use gb_mahjong_server::proto::client::{
    ActionKind, ClaimAction, ClaimKind, DeclareWinAction, DiscardTile, GamePhase, JoinRoomRequest,
    Meld, MeldKind, PassAction, PlayerAction, PlayerActionRequest, PlayerStatus, PromptOption,
    ReadyRequest, RejectCode, ResumeSessionRequest, Seat, ServerFrame, ServerPayload,
    SettlementFlag, SupplementalKongAction, SyncReason, Tile, WinType,
};
use gb_mahjong_server::proto::engine;
use gb_mahjong_server::room::commands::RoomCommand;
use gb_mahjong_server::room::convert::map_tile_to_engine;
use gb_mahjong_server::room::hand::{private_tile_count, PlayerRoundState};
use gb_mahjong_server::room::state::{
    ActiveClaimWindowState, AuthorizedJoin, PlayerSlot, PromptOptions, ResolvedActionRecord,
    RoomOutput, RoomRuntimeMode, RoomState, RoundRuntimeState, WallFactory, INITIAL_SCORE,
    MATCH_TOTAL_HANDS,
};
use gb_mahjong_server::room::steps::RequestContext;
use gb_mahjong_server::tiles::build_standard_wall;

const NOW: u64 = 1_700_000_000_000;

fn new_room(room_id: &str) -> RoomState {
    RoomState::new(
        room_id.to_owned(),
        WallFactory::Fixed(build_standard_wall(false)),
        RoomRuntimeMode::Production,
    )
}

fn connection_of(seat: Seat) -> String {
    format!("conn-{}", seat.as_str_name().to_ascii_lowercase())
}

fn insert_test_player(state: &mut RoomState, seat: Seat, user_id: &str, display_name: &str) {
    let connection_id = connection_of(seat);
    state.players_by_seat.set(
        seat,
        Some(PlayerSlot {
            user_id: user_id.to_owned(),
            display_name: display_name.to_owned(),
            seat,
            status: PlayerStatus::Ready,
            score: INITIAL_SCORE,
            connected: true,
            auto_play_enabled: false,
            connection_id: Some(connection_id.clone()),
            resume_token: format!("resume-{user_id}"),
        }),
    );
    state.player_round_state.set(seat, Some(PlayerRoundState::new()));
    state.user_to_seat.insert(user_id.to_owned(), seat);
    state.connection_to_user.insert(connection_id, user_id.to_owned());
}

fn full_room(room_id: &str) -> RoomState {
    let mut state = new_room(room_id);
    insert_test_player(&mut state, Seat::East, "user-east", "East");
    insert_test_player(&mut state, Seat::South, "user-south", "South");
    insert_test_player(&mut state, Seat::West, "user-west", "West");
    insert_test_player(&mut state, Seat::North, "user-north", "North");
    state
}

fn authorized_join(user_id: &str, display_name: &str, seat: Seat) -> AuthorizedJoin {
    AuthorizedJoin { user_id: user_id.to_owned(), display_name: display_name.to_owned(), seat }
}

fn join_command(connection_id: &str, room_id: &str, user_id: &str, display_name: &str) -> RoomCommand {
    RoomCommand::Join {
        request_id: "req-join".to_owned(),
        connection_id: connection_id.to_owned(),
        request: JoinRoomRequest {
            room_id: room_id.to_owned(),
            user_id: user_id.to_owned(),
            session_token: String::new(),
            display_name: display_name.to_owned(),
            client_version: "test".to_owned(),
        },
        authorized_join: authorized_join(user_id, display_name, Seat::East),
    }
}

fn frames_to(outputs: &[RoomOutput], connection_id: &str) -> Vec<ServerFrame> {
    outputs
        .iter()
        .filter_map(|output| match output {
            RoomOutput::Send(to, frame) if to == connection_id => Some(frame.clone()),
            _ => None,
        })
        .collect()
}

fn stored_events(outputs: &[RoomOutput]) -> Vec<NewMatchEventRecord> {
    outputs
        .iter()
        .filter_map(|output| match output {
            RoomOutput::Persist(event) => Some(event.clone()),
            _ => None,
        })
        .collect()
}

fn verdict(is_legal: bool, reject_code: engine::ValidationRejectCode, derived: engine::ActionKind, explanation: &str) -> engine::ValidateActionResponse {
    engine::ValidateActionResponse {
        is_legal,
        reject_code: reject_code.as_i32(),
        derived_action_type: derived.as_i32(),
        meld_result: None,
        winning_context: None,
        suggested_follow_ups: Vec::new(),
        explanation: explanation.to_owned(),
    }
}

fn winning_verdict(win_type: engine::WinType, explanation: &str) -> engine::ValidateActionResponse {
    let mut response = verdict(
        true,
        engine::ValidationRejectCode::Unspecified,
        engine::ActionKind::DeclareWin,
        explanation,
    );
    response.winning_context = Some(engine::WinningContext {
        win_type: win_type.as_i32(),
        winning_tile: engine::Tile::Character5.as_i32(),
        completes_standard_hand: true,
        completes_seven_pairs: false,
        completes_thirteen_orphans: false,
        tentative_fan_details: Vec::new(),
        tentative_total_fan: 8,
    });
    response
}

fn score_delta(seat: engine::Seat, delta: i64) -> engine::SeatScoreDelta {
    engine::SeatScoreDelta { seat: seat.as_i32(), delta, final_total: INITIAL_SCORE + delta }
}

fn context(request_id: &str, connection_id: &str, state: &RoomState, action_window_id: u64) -> RequestContext {
    RequestContext {
        request_id: request_id.to_owned(),
        connection_id: connection_id.to_owned(),
        expected_event_seq: state.current_event_seq(),
        action_window_id,
    }
}

fn action_request(state: &RoomState, action_window_id: u64, action: PlayerAction) -> PlayerActionRequest {
    PlayerActionRequest {
        room_id: state.room_id.clone(),
        match_id: format!("match-{}", state.room_id),
        round_id: "hand-1".to_owned(),
        expected_event_seq: state.current_event_seq(),
        action_window_id,
        action: Some(action),
    }
}

fn act<E: RuleEngine>(state: &mut RoomState, engine: &mut RuleEngineHandle<E>, request_id: &str, connection_id: &str, request: PlayerActionRequest) {
    let call = state.handle_player_action(request_id, connection_id, &request, NOW);
    assert!(state.settle(call, engine, NOW).is_none());
}

fn pass<E: RuleEngine>(state: &mut RoomState, engine: &mut RuleEngineHandle<E>, request_id: &str, seat: Seat, action_window_id: u64, source_event_seq: u64) {
    let asked = context(request_id, &connection_of(seat), state, action_window_id);
    let call = state.handle_pass_action(asked, seat, &PassAction { source_event_seq }, NOW);
    assert!(state.settle(call, engine, NOW).is_none());
}

fn claim<E: RuleEngine>(state: &mut RoomState, engine: &mut RuleEngineHandle<E>, request_id: &str, seat: Seat, claim: ClaimAction) {
    let request = action_request(state, 1, PlayerAction::Claim(claim.clone()));
    let asked = context(request_id, &connection_of(seat), state, 1);
    let call = state.handle_claim_action(asked, seat, &request, &claim);
    assert!(state.settle(call, engine, NOW).is_none());
}

fn declare_win<E: RuleEngine>(state: &mut RoomState, engine: &mut RuleEngineHandle<E>, request_id: &str, seat: Seat, action_window_id: u64, win: DeclareWinAction) {
    let request = action_request(state, action_window_id, PlayerAction::DeclareWin(win));
    let asked = context(request_id, &connection_of(seat), state, action_window_id);
    let call = state.handle_declare_win_action(asked, seat, &request, &win);
    assert!(state.settle(call, engine, NOW).is_none());
}

fn after_discard(live_wall: Vec<Tile>) -> RoundRuntimeState {
    RoundRuntimeState {
        live_wall: VecDeque::from(live_wall),
        dead_wall: VecDeque::new(),
        active_claim_window: None,
        last_resolved_action: Some(ResolvedActionRecord {
            event_seq: 98,
            actor_seat: Seat::East,
            action_kind: ActionKind::Discard,
            tile: Some(Tile::Character5),
            replacement_draw: false,
            rob_kong_candidate: false,
        }),
        turn_index: 1,
        replacement_draw_pending: false,
    }
}

fn options(items: Vec<PromptOption>) -> PromptOptions {
    PromptOptions { items }
}

fn chi_option() -> PromptOption {
    PromptOption {
        option_id: "south-chi".to_owned(),
        action_kind: ActionKind::Chi.as_i32(),
        claim_kind: ClaimKind::Chi.as_i32(),
        win_type: WinType::Unspecified.as_i32(),
        candidate_tiles: vec![
            Tile::Character4.as_i32(),
            Tile::Character5.as_i32(),
            Tile::Character6.as_i32(),
        ],
        consume_tiles: vec![Tile::Character4.as_i32(), Tile::Character6.as_i32()],
    }
}

fn peng_option() -> PromptOption {
    PromptOption {
        option_id: "west-peng".to_owned(),
        action_kind: ActionKind::Peng.as_i32(),
        claim_kind: ClaimKind::Peng.as_i32(),
        win_type: WinType::Unspecified.as_i32(),
        candidate_tiles: vec![Tile::Character5.as_i32()],
        consume_tiles: vec![Tile::Character5.as_i32(), Tile::Character5.as_i32()],
    }
}

fn peng_claim() -> ClaimAction {
    ClaimAction {
        claim_kind: ClaimKind::Peng.as_i32(),
        target_tile: Tile::Character5.as_i32(),
        consume_tiles: vec![Tile::Character5.as_i32(), Tile::Character5.as_i32()],
        source_seat: Seat::East.as_i32(),
        source_event_seq: 99,
    }
}

fn east_discard() -> DiscardTile {
    DiscardTile {
        tile: Tile::Character5.as_i32(),
        turn_index: 1,
        claimed: false,
        drawn_and_discarded: false,
        source_event_seq: 99,
    }
}

fn discard_window(south: Vec<PromptOption>) -> ActiveClaimWindowState {
    let mut options_by_seat = SeatMap::new();
    options_by_seat.set(Seat::South, Some(options(south)));
    options_by_seat.set(Seat::West, Some(options(vec![peng_option()])));
    ActiveClaimWindowState {
        action_window_id: 1,
        source_event_seq: 99,
        source_seat: Seat::East,
        target_tile: Tile::Character5,
        trigger_action_kind: ActionKind::Discard,
        eligible_seats: vec![Seat::South, Seat::West],
        options_by_seat,
        responded_seats: SeatMap::new(),
        deadline_unix_ms: NOW + 1_000,
    }
}

fn peng_meld() -> Meld {
    Meld {
        kind: MeldKind::Peng.as_i32(),
        tiles: vec![
            Tile::Character5.as_i32(),
            Tile::Character5.as_i32(),
            Tile::Character5.as_i32(),
        ],
        from_seat: Seat::South.as_i32(),
        claimed_tile: Tile::Character5.as_i32(),
        concealed: false,
        source_event_seq: 12,
    }
}

#[test]
fn join_room_creates_room_task_and_assigns_east_seat() {
    let mut state = RoomState::new(
        "room-alpha".to_owned(),
        WallFactory::Shuffled,
        RoomRuntimeMode::Production,
    );
    let mut engine = RuleEngineHandle::noop();
    let command = join_command("conn-1", "room-alpha", "user-alpha", "Alice");
    assert!(state.can_take_command(&command, NOW));
    assert!(state.run_command(command, &mut engine, NOW).is_none());

    let frames = frames_to(&state.take_outputs(), "conn-1");
    assert_eq!(frames.len(), 3);
    match &frames[0].payload {
        Some(ServerPayload::JoinRoom(response)) => {
            assert!(response.accepted);
            assert_eq!(response.room_id, "room-alpha");
            assert_eq!(response.match_id, "match-room-alpha");
            assert_eq!(response.seat, Seat::East.as_i32());
        }
        other => panic!("expected JoinRoomResponse, got {other:?}"),
    }
    match &frames[1].payload {
        Some(ServerPayload::SyncState(sync)) => {
            let snapshot = sync.snapshot.as_ref().expect("snapshot should be present");
            assert_eq!(snapshot.self_seat, Seat::East.as_i32());
            assert_eq!(snapshot.players.len(), 1);
            assert_eq!(snapshot.players[0].status, PlayerStatus::Joined.as_i32());
        }
        other => panic!("expected SyncState, got {other:?}"),
    }
    match &frames[2].payload {
        Some(ServerPayload::PlayerConnectionChanged(changed)) => {
            assert_eq!(changed.user_id, "user-alpha");
            assert_eq!(changed.seat, Seat::East.as_i32());
            assert!(changed.connected);
        }
        other => panic!("expected PlayerConnectionChanged, got {other:?}"),
    }
}

#[test]
fn ready_request_is_serialized_through_room_task() {
    let mut state = RoomState::new(
        "room-beta".to_owned(),
        WallFactory::Shuffled,
        RoomRuntimeMode::Production,
    );
    let mut engine = RuleEngineHandle::noop();
    state.run_command(join_command("conn-2", "room-beta", "user-beta", "Bob"), &mut engine, NOW);
    assert_eq!(frames_to(&state.take_outputs(), "conn-2").len(), 3);

    state.run_command(
        RoomCommand::Ready {
            request_id: "req-ready".to_owned(),
            connection_id: "conn-2".to_owned(),
            request: ReadyRequest { ready: true },
        },
        &mut engine,
        NOW,
    );
    let frames = frames_to(&state.take_outputs(), "conn-2");
    match &frames[0].payload {
        Some(ServerPayload::SyncState(sync)) => {
            let snapshot = sync.snapshot.as_ref().expect("snapshot should be present");
            assert_eq!(snapshot.players.len(), 1);
            assert_eq!(snapshot.players[0].status, PlayerStatus::Ready.as_i32());
            assert_eq!(snapshot.phase, GamePhase::Lobby.as_i32());
        }
        other => panic!("expected SyncState, got {other:?}"),
    }
}

#[test]
fn player_action_is_queued_into_room_task_and_rejected_there() {
    let mut engine = RuleEngineHandle::new(MockRuleEngine::new(verdict(
        true,
        engine::ValidationRejectCode::Unspecified,
        engine::ActionKind::Pass,
        "mock validation accepted action",
    )));
    let mut state = RoomState::new(
        "room-gamma".to_owned(),
        WallFactory::Shuffled,
        RoomRuntimeMode::Production,
    );
    state.run_command(join_command("conn-3", "room-gamma", "user-gamma", "Carol"), &mut engine, NOW);
    assert_eq!(frames_to(&state.take_outputs(), "conn-3").len(), 3);

    state.run_command(
        RoomCommand::PlayerAction {
            request_id: "req-action".to_owned(),
            connection_id: "conn-3".to_owned(),
            request: PlayerActionRequest {
                room_id: "room-gamma".to_owned(),
                match_id: "match-room-gamma".to_owned(),
                round_id: "hand-1".to_owned(),
                expected_event_seq: 3,
                action_window_id: 0,
                action: Some(PlayerAction::SupplementalKong(SupplementalKongAction {
                    tile: Tile::Character1.as_i32(),
                })),
            },
        },
        &mut engine,
        NOW,
    );
    let frames = frames_to(&state.take_outputs(), "conn-3");
    match &frames[0].payload {
        Some(ServerPayload::ActionRejected(rejected)) => {
            assert_eq!(rejected.request_id, "req-action");
            assert_eq!(rejected.reject_code, RejectCode::PhaseMismatch.as_i32());
            assert_eq!(rejected.expected_event_seq, 3);
            assert!(rejected.message.contains("WaitingDiscard"));
        }
        other => panic!("expected ActionRejected, got {other:?}"),
    }
    assert!(engine.inner.validate_requests().is_empty());
}

#[test]
fn rule_engine_validation_failure_is_sent_back_to_client() {
    let mut engine = RuleEngineHandle::new(MockRuleEngine::new(verdict(
        false,
        engine::ValidationRejectCode::ActionWindowMismatch,
        engine::ActionKind::Unspecified,
        "claim window already closed",
    )));
    let mut state = RoomState::new(
        "room-delta".to_owned(),
        WallFactory::Shuffled,
        RoomRuntimeMode::Production,
    );
    state.run_command(join_command("conn-4", "room-delta", "user-delta", "Delta"), &mut engine, NOW);
    assert_eq!(frames_to(&state.take_outputs(), "conn-4").len(), 3);

    state.run_command(
        RoomCommand::PlayerAction {
            request_id: "req-action".to_owned(),
            connection_id: "conn-4".to_owned(),
            request: PlayerActionRequest {
                room_id: "room-delta".to_owned(),
                match_id: "match-room-delta".to_owned(),
                round_id: "hand-1".to_owned(),
                expected_event_seq: 3,
                action_window_id: 42,
                action: Some(PlayerAction::DeclareWin(DeclareWinAction {
                    win_type: WinType::Discard.as_i32(),
                    winning_tile: Tile::Character1.as_i32(),
                    source_seat: Seat::South.as_i32(),
                    source_event_seq: 41,
                })),
            },
        },
        &mut engine,
        NOW,
    );
    let frames = frames_to(&state.take_outputs(), "conn-4");
    match &frames[0].payload {
        Some(ServerPayload::ActionRejected(rejected)) => {
            assert_eq!(rejected.request_id, "req-action");
            assert_eq!(rejected.reject_code, RejectCode::ActionWindowClosed.as_i32());
            assert_eq!(rejected.expected_event_seq, 3);
            assert_eq!(rejected.action_window_id, 42);
            assert_eq!(rejected.message, "claim window already closed");
        }
        other => panic!("expected ActionRejected, got {other:?}"),
    }
}

#[test]
fn start_round_deals_fourteen_to_dealer_and_thirteen_to_others() {
    let mut state = full_room("room-epsilon");
    state.start_round(NOW).expect("round should start successfully");

    assert_eq!(state.phase, GamePhase::WaitingDiscard);
    assert_eq!(state.current_turn_seat, Seat::East);
    assert!(state
        .round_runtime
        .as_ref()
        .expect("runtime should exist")
        .active_claim_window
        .is_none());
    let count = |seat: Seat| {
        private_tile_count(state.player_round_state.get(seat).expect("round state should exist"))
    };
    assert_eq!(count(Seat::East), 14);
    assert_eq!(count(Seat::South), 13);
    assert_eq!(count(Seat::West), 13);
    assert_eq!(count(Seat::North), 13);

    let sync_frame = state.build_sync_state_for(
        Seat::East,
        state.current_event_seq(),
        SyncReason::RoundStart,
        NOW,
    );
    match sync_frame.payload {
        Some(ServerPayload::SyncState(sync)) => {
            let snapshot = sync.snapshot.expect("snapshot should be present");
            let self_hand = snapshot.self_hand.expect("self hand should be present");
            assert_eq!(snapshot.phase, GamePhase::WaitingDiscard.as_i32());
            assert_eq!(snapshot.players.len(), 4);
            assert_eq!(self_hand.concealed_tiles.len(), 13);
            assert_ne!(self_hand.drawn_tile, Tile::Unspecified.as_i32());
            let south_public = snapshot
                .players
                .iter()
                .find(|player| player.seat == Seat::South.as_i32())
                .expect("south public state should exist");
            assert_eq!(south_public.concealed_tile_count, 13);
        }
        other => panic!("expected SyncState, got {other:?}"),
    }
}

#[test]
fn pass_on_active_claim_window_closes_window_and_advances_turn() {
    let mut engine: RuleEngineHandle<NoopRuleEngine> = RuleEngineHandle::noop();
    let mut state = full_room("room-zeta");
    state.start_round(NOW).expect("round should start successfully");
    let source_event_seq = state.allocate_event_seq();
    state.phase = GamePhase::WaitingClaim;
    state.record_last_action(ResolvedActionRecord {
        event_seq: source_event_seq,
        actor_seat: Seat::East,
        action_kind: ActionKind::Discard,
        tile: Some(Tile::Character1),
        replacement_draw: false,
        rob_kong_candidate: false,
    });
    state
        .player_round_state
        .get_mut(Seat::East)
        .expect("east round state should exist")
        .drawn_tile = None;
    let mut options_by_seat = SeatMap::new();
    options_by_seat.set(
        Seat::South,
        Some(options(vec![PromptOption {
            option_id: "pass-only".to_owned(),
            action_kind: ActionKind::Pass.as_i32(),
            claim_kind: ClaimKind::Unspecified.as_i32(),
            win_type: WinType::Unspecified.as_i32(),
            candidate_tiles: vec![Tile::Character1.as_i32()],
            consume_tiles: Vec::new(),
        }])),
    );
    state.round_runtime.as_mut().expect("runtime should exist").active_claim_window =
        Some(ActiveClaimWindowState {
            action_window_id: 7,
            source_event_seq,
            source_seat: Seat::East,
            target_tile: Tile::Character1,
            trigger_action_kind: ActionKind::Discard,
            eligible_seats: vec![Seat::South],
            options_by_seat,
            responded_seats: SeatMap::new(),
            deadline_unix_ms: NOW + 1_000,
        });

    pass(&mut state, &mut engine, "req-pass", Seat::South, 7, source_event_seq);

    let runtime = state.round_runtime.as_ref().expect("runtime should exist");
    assert!(runtime.active_claim_window.is_none());
    assert_eq!(state.current_turn_seat, Seat::South);
    assert_eq!(state.phase, GamePhase::WaitingDiscard);
    assert!(state
        .player_round_state
        .get(Seat::South)
        .expect("south round state should exist")
        .drawn_tile
        .is_some());
    let last_action =
        runtime.last_resolved_action.as_ref().expect("last action should be recorded");
    assert_eq!(last_action.actor_seat, Seat::South);
    assert_eq!(last_action.action_kind, ActionKind::Draw);
}

#[test]
fn self_draw_win_calls_calculate_score_and_broadcasts_round_settlement() {
    let mut engine = RuleEngineHandle::new(
        MockRuleEngine::new(winning_verdict(engine::WinType::SelfDraw, "self draw win accepted"))
            .with_calculate_response(engine::CalculateScoreResponse {
                total_fan: 8,
                fan_details: vec![engine::FanDetail {
                    fan_code: "MEN_QIAN_QING_ZIMO".to_owned(),
                    fan_name: "门前清自摸和".to_owned(),
                    fan_value: 8,
                    count: 1,
                    description: "测试番型".to_owned(),
                }],
                score_delta_by_seat: vec![
                    score_delta(engine::Seat::East, 24),
                    score_delta(engine::Seat::South, -8),
                    score_delta(engine::Seat::West, -8),
                    score_delta(engine::Seat::North, -8),
                ],
                settlement_flags: vec![engine::SettlementFlag::SelfDraw.as_i32()],
            }),
    );
    let mut state = full_room("room-eta");
    state.start_round(NOW).expect("round should start successfully");
    let winning_tile = state
        .player_round_state
        .get(Seat::East)
        .and_then(|round_state| round_state.drawn_tile)
        .expect("dealer should have a pending drawn tile");
    let source_event_seq = state
        .round_runtime
        .as_ref()
        .and_then(|runtime| runtime.last_resolved_action.as_ref())
        .map(|action| action.event_seq)
        .expect("dealer draw should be recorded");
    let request = action_request(
        &state,
        0,
        PlayerAction::DeclareWin(DeclareWinAction {
            win_type: WinType::SelfDraw.as_i32(),
            winning_tile: winning_tile.as_i32(),
            source_seat: Seat::East.as_i32(),
            source_event_seq,
        }),
    );
    act(&mut state, &mut engine, "req-win", "conn-seat_east", request);

    let outputs = state.take_outputs();
    let settlement = frames_to(&outputs, "conn-seat_east")
        .into_iter()
        .take(6)
        .find_map(|frame| match frame.payload {
            Some(ServerPayload::RoundSettlement(settlement)) => Some(settlement),
            _ => None,
        })
        .expect("round settlement should be broadcast");
    assert_eq!(settlement.room_id, "room-eta");
    assert_eq!(settlement.match_id, "match-room-eta");
    assert_eq!(settlement.win_type, WinType::SelfDraw.as_i32());
    assert_eq!(settlement.winner_seat, Seat::East.as_i32());
    assert_eq!(settlement.discarder_seat, Seat::Unspecified.as_i32());
    assert_eq!(settlement.winning_tile, winning_tile.as_i32());
    assert_eq!(settlement.player_results.len(), 4);
    assert_eq!(settlement.fan_details.len(), 1);
    assert_eq!(settlement.fan_details[0].fan_name, "门前清自摸和");

    assert_eq!(state.phase, GamePhase::RoundSettlement);
    assert_eq!(
        state.players_by_seat.get(Seat::East).expect("east player should exist").score,
        INITIAL_SCORE + 24
    );
    let calculate_requests = engine.inner.calculate_requests();
    assert_eq!(calculate_requests.len(), 1);
    let calculate_request = &calculate_requests[0];
    assert_eq!(calculate_request.winner_seat, engine::Seat::East.as_i32());
    assert_eq!(calculate_request.discarder_seat, engine::Seat::Unspecified.as_i32());
    assert_eq!(calculate_request.winning_tile, map_tile_to_engine(winning_tile).as_i32());
    assert_eq!(calculate_request.hands.len(), 4);
    assert!(outputs.iter().any(|output| matches!(output, RoomOutput::SchedulePostRound(1, _))));
}

#[test]
fn supplemental_kong_without_rob_kong_upgrades_meld_and_draws_replacement() {
    let mut engine = RuleEngineHandle::new(MockRuleEngine::new(verdict(
        true,
        engine::ValidationRejectCode::Unspecified,
        engine::ActionKind::SupplementalKong,
        "supplemental kong accepted",
    )));
    let mut state = full_room("room-lambda");
    state.room_config.enable_robbing_kong = false;
    state.start_round(NOW).expect("round should start successfully");
    {
        let east = state.player_round_state.get_mut(Seat::East).unwrap();
        east.melds = vec![peng_meld()];
        east.drawn_tile = Some(Tile::Character5);
    }
    let request = action_request(
        &state,
        0,
        PlayerAction::SupplementalKong(SupplementalKongAction { tile: Tile::Character5.as_i32() }),
    );
    act(&mut state, &mut engine, "req-supplemental-kong", "conn-seat_east", request);

    let east_round_state =
        state.player_round_state.get(Seat::East).expect("east round state should exist");
    assert_eq!(state.phase, GamePhase::WaitingDiscard);
    assert_eq!(state.current_turn_seat, Seat::East);
    assert_eq!(east_round_state.melds.len(), 1);
    assert_eq!(east_round_state.melds[0].kind, MeldKind::SupplementalKong.as_i32());
    assert_eq!(east_round_state.melds[0].tiles.len(), 4);
    assert!(east_round_state.drawn_tile.is_some());
    assert_eq!(engine.inner.validate_requests().len(), 1);

    let mut saw_kong_broadcast = false;
    let mut saw_draw_broadcast = false;
    for frame in frames_to(&state.take_outputs(), "conn-seat_east").into_iter().take(6) {
        if let Some(ServerPayload::ActionBroadcast(broadcast)) = frame.payload {
            if broadcast.action_kind == ActionKind::SupplementalKong.as_i32() {
                saw_kong_broadcast = true;
            }
            if broadcast.action_kind == ActionKind::Draw.as_i32() {
                saw_draw_broadcast = true;
            }
        }
    }
    assert!(saw_kong_broadcast);
    assert!(saw_draw_broadcast);
}

#[test]
fn rob_kong_win_claim_window_blocks_supplemental_kong_until_resolved() {
    let mut engine = RuleEngineHandle::new(
        MockRuleEngine::new(winning_verdict(engine::WinType::RobKong, "rob kong accepted"))
            .with_calculate_response(engine::CalculateScoreResponse {
                total_fan: 8,
                fan_details: vec![engine::FanDetail {
                    fan_code: "QIANG_GANG_HU".to_owned(),
                    fan_name: "抢杠和".to_owned(),
                    fan_value: 8,
                    count: 1,
                    description: "测试抢杠胡".to_owned(),
                }],
                score_delta_by_seat: vec![
                    score_delta(engine::Seat::South, 8),
                    score_delta(engine::Seat::East, -8),
                ],
                settlement_flags: vec![engine::SettlementFlag::RobKongWin.as_i32()],
            }),
    );
    let mut state = full_room("room-mu");
    state.start_round(NOW).expect("round should start successfully");
    {
        let east = state.player_round_state.get_mut(Seat::East).unwrap();
        east.melds = vec![peng_meld()];
        east.drawn_tile = Some(Tile::Character5);
    }
    let request = action_request(
        &state,
        0,
        PlayerAction::SupplementalKong(SupplementalKongAction { tile: Tile::Character5.as_i32() }),
    );
    act(&mut state, &mut engine, "req-supplemental-kong", "conn-seat_east", request);

    let window = state
        .round_runtime
        .as_ref()
        .and_then(|runtime| runtime.active_claim_window.as_ref())
        .expect("rob-kong claim window should be open");
    let window_id = window.action_window_id;
    let source_event_seq = window.source_event_seq;
    assert_eq!(state.phase, GamePhase::ResolvingKong);
    assert_eq!(window.trigger_action_kind, ActionKind::SupplementalKong);

    declare_win(
        &mut state,
        &mut engine,
        "req-south-win",
        Seat::South,
        window_id,
        DeclareWinAction {
            win_type: WinType::RobKong.as_i32(),
            winning_tile: Tile::Character5.as_i32(),
            source_seat: Seat::East.as_i32(),
            source_event_seq,
        },
    );
    for seat in [Seat::West, Seat::North] {
        let request_id = format!("req-pass-{}", seat.as_str_name());
        pass(&mut state, &mut engine, &request_id, seat, window_id, source_event_seq);
    }

    assert_eq!(state.phase, GamePhase::RoundSettlement);
    assert_eq!(state.players_by_seat.get(Seat::South).unwrap().score, INITIAL_SCORE + 8);
    assert_eq!(
        state.player_round_state.get(Seat::East).unwrap().melds[0].kind,
        MeldKind::Peng.as_i32()
    );
    let calculate_requests = engine.inner.calculate_requests();
    assert_eq!(calculate_requests.len(), 1);
    assert_eq!(calculate_requests[0].winner_seat, engine::Seat::South.as_i32());

    let settlement = frames_to(&state.take_outputs(), "conn-seat_east")
        .into_iter()
        .take(8)
        .find_map(|frame| match frame.payload {
            Some(ServerPayload::RoundSettlement(settlement)) => Some(settlement),
            _ => None,
        })
        .expect("round settlement should be broadcast");
    assert_eq!(settlement.win_type, WinType::RobKong.as_i32());
}

#[test]
fn discard_claim_window_generates_chi_and_peng_by_seat() {
    let mut engine = RuleEngineHandle::new(MockRuleEngine::new(verdict(
        false,
        engine::ValidationRejectCode::HandNotComplete,
        engine::ActionKind::Unspecified,
        "not a winning hand",
    )));
    let mut state = full_room("room-theta");
    state.round_runtime = Some(after_discard(Vec::new()));
    state.phase = GamePhase::WaitingDiscard;
    state.player_round_state.get_mut(Seat::South).unwrap().concealed_tiles =
        vec![Tile::Character4, Tile::Character6, Tile::Character5, Tile::Character5];
    state.player_round_state.get_mut(Seat::West).unwrap().concealed_tiles =
        vec![Tile::Character5, Tile::Character5];

    let opened = state
        .open_discard_claim_window(Seat::East, Tile::Character5, 99, &mut engine, NOW)
        .expect("claim window should open");
    assert!(opened);
    let runtime = state.round_runtime.as_ref().expect("runtime should exist");
    let window = runtime.active_claim_window.as_ref().expect("claim window should exist");
    let south_options =
        &window.options_by_seat.get(Seat::South).expect("south options should exist").items;
    let west_options =
        &window.options_by_seat.get(Seat::West).expect("west options should exist").items;

    assert!(south_options.iter().any(|option| {
        option.claim_kind == ClaimKind::Chi.as_i32()
            && option.consume_tiles == vec![Tile::Character4.as_i32(), Tile::Character6.as_i32()]
    }));
    assert!(south_options.iter().any(|option| option.claim_kind == ClaimKind::Peng.as_i32()));
    assert!(!west_options.iter().any(|option| option.claim_kind == ClaimKind::Chi.as_i32()));
    assert!(west_options.iter().any(|option| option.claim_kind == ClaimKind::Peng.as_i32()));
}

#[test]
fn claim_window_opened_event_uses_distinct_persistence_sequence() {
    let mut engine = RuleEngineHandle::new(MockRuleEngine::new(verdict(
        false,
        engine::ValidationRejectCode::HandNotComplete,
        engine::ActionKind::Unspecified,
        "not a winning hand",
    )));
    let mut state = full_room("room-claim-open-persist");
    state.round_runtime = Some(after_discard(Vec::new()));
    state.phase = GamePhase::WaitingDiscard;
    state.next_event_seq = 100;
    state.player_round_state.get_mut(Seat::South).unwrap().concealed_tiles =
        vec![Tile::Character5, Tile::Character5];

    let opened = state
        .open_discard_claim_window(Seat::East, Tile::Character5, 99, &mut engine, NOW)
        .expect("claim window should open");
    assert!(opened);
    let events = stored_events(&state.take_outputs());
    assert_eq!(events.len(), 1);
    assert_eq!(events[0].event_type, "claim_window_opened");
    assert_eq!(events[0].event_seq, 100);
    assert_ne!(events[0].event_seq, 99);
    let payload = &events[0].event_payload;
    assert_eq!(payload.get("event_seq").and_then(|value| value.as_u64()), Some(100));
    assert_eq!(payload.get("source_event_seq").and_then(|value| value.as_u64()), Some(99));
}

#[test]
fn claim_window_resolved_event_keeps_total_order_before_follow_up_draw() {
    let mut engine = RuleEngineHandle::new(MockRuleEngine::new(verdict(
        false,
        engine::ValidationRejectCode::HandNotComplete,
        engine::ActionKind::Unspecified,
        "not a winning hand",
    )));
    let mut state = full_room("room-claim-resolve-persist");
    state.round_runtime = Some(after_discard(vec![Tile::Bamboo1]));
    state.phase = GamePhase::WaitingDiscard;
    state.current_turn_seat = Seat::East;
    state.next_event_seq = 100;
    state.player_round_state.get_mut(Seat::South).unwrap().concealed_tiles =
        vec![Tile::Character5, Tile::Character5];

    let opened = state
        .open_discard_claim_window(Seat::East, Tile::Character5, 99, &mut engine, NOW)
        .expect("claim window should open");
    assert!(opened);
    pass(&mut state, &mut engine, "req-pass-south", Seat::South, 1, 99);

    let events = stored_events(&state.take_outputs());
    let event_kinds: Vec<(&str, i64)> =
        events.iter().map(|event| (event.event_type.as_str(), event.event_seq)).collect();
    assert_eq!(
        event_kinds,
        vec![
            ("claim_window_opened", 100),
            ("claim_window_resolved", 102),
            ("action_broadcast", 103),
        ]
    );
    let text = |index: usize, key: &str| {
        events[index].event_payload.get(key).and_then(|value| value.as_str()).cloned()
    };
    assert_eq!(text(1, "resolution_kind").as_deref(), Some("PASS"));
    assert!(events[1].event_payload.get("winner_seat").unwrap().is_null());
    assert_eq!(
        events[1].event_payload.get("source_event_seq").and_then(|value| value.as_u64()),
        Some(99)
    );
    assert_eq!(text(2, "action_kind").as_deref(), Some("ACTION_KIND_DRAW"));
}

#[test]
fn claim_resolution_prefers_peng_over_chi() {
    let mut engine = RuleEngineHandle::new(MockRuleEngine::new(verdict(
        true,
        engine::ValidationRejectCode::Unspecified,
        engine::ActionKind::Peng,
        "claim accepted",
    )));
    let mut state = full_room("room-iota");
    state.round_runtime = Some(after_discard(Vec::new()));
    state.player_round_state.get_mut(Seat::East).unwrap().discards.push(east_discard());
    state.player_round_state.get_mut(Seat::South).unwrap().concealed_tiles =
        vec![Tile::Character4, Tile::Character6];
    state.player_round_state.get_mut(Seat::West).unwrap().concealed_tiles =
        vec![Tile::Character5, Tile::Character5];
    state.phase = GamePhase::WaitingClaim;
    state.round_runtime.as_mut().expect("runtime should exist").active_claim_window =
        Some(discard_window(vec![chi_option()]));

    claim(
        &mut state,
        &mut engine,
        "req-south-chi",
        Seat::South,
        ClaimAction {
            claim_kind: ClaimKind::Chi.as_i32(),
            target_tile: Tile::Character5.as_i32(),
            consume_tiles: vec![Tile::Character4.as_i32(), Tile::Character6.as_i32()],
            source_seat: Seat::East.as_i32(),
            source_event_seq: 99,
        },
    );
    claim(&mut state, &mut engine, "req-west-peng", Seat::West, peng_claim());

    assert_eq!(state.phase, GamePhase::WaitingDiscard);
    assert_eq!(state.current_turn_seat, Seat::West);
    let west_round_state =
        state.player_round_state.get(Seat::West).expect("west round state should exist");
    assert_eq!(west_round_state.melds.len(), 1);
    assert_eq!(west_round_state.melds[0].kind, MeldKind::Peng.as_i32());
    assert_eq!(west_round_state.concealed_tiles.len(), 0);
    let east_discard = state
        .player_round_state
        .get(Seat::East)
        .and_then(|round_state| round_state.discards.last())
        .expect("east discard should exist");
    assert!(east_discard.claimed);
}

#[test]
fn claim_resolution_prefers_win_over_peng_and_chi() {
    let mut engine = RuleEngineHandle::new(
        MockRuleEngine::new(winning_verdict(engine::WinType::Discard, "claim accepted"))
            .with_calculate_response(engine::CalculateScoreResponse {
                total_fan: 8,
                fan_details: vec![engine::FanDetail {
                    fan_code: "PING_HU".to_owned(),
                    fan_name: "平胡".to_owned(),
                    fan_value: 8,
                    count: 1,
                    description: "测试胡牌优先级".to_owned(),
                }],
                score_delta_by_seat: vec![
                    score_delta(engine::Seat::South, 8),
                    score_delta(engine::Seat::East, -8),
                ],
                settlement_flags: vec![engine::SettlementFlag::DiscardWin.as_i32()],
            }),
    );
    let mut state = full_room("room-kappa");
    state.round_runtime = Some(after_discard(Vec::new()));
    state.phase = GamePhase::WaitingClaim;
    state.player_round_state.get_mut(Seat::East).unwrap().discards.push(east_discard());
    state.player_round_state.get_mut(Seat::South).unwrap().concealed_tiles =
        vec![Tile::Character4, Tile::Character6, Tile::Dot1];
    state.player_round_state.get_mut(Seat::West).unwrap().concealed_tiles =
        vec![Tile::Character5, Tile::Character5, Tile::Dot2];
    state.round_runtime.as_mut().expect("runtime should exist").active_claim_window =
        Some(discard_window(vec![
            chi_option(),
            PromptOption {
                option_id: "south-win".to_owned(),
                action_kind: ActionKind::DeclareWin.as_i32(),
                claim_kind: ClaimKind::DiscardWin.as_i32(),
                win_type: WinType::Discard.as_i32(),
                candidate_tiles: vec![Tile::Character5.as_i32()],
                consume_tiles: Vec::new(),
            },
        ]));

    claim(&mut state, &mut engine, "req-west-peng", Seat::West, peng_claim());
    declare_win(
        &mut state,
        &mut engine,
        "req-south-win",
        Seat::South,
        1,
        DeclareWinAction {
            win_type: WinType::Discard.as_i32(),
            winning_tile: Tile::Character5.as_i32(),
            source_seat: Seat::East.as_i32(),
            source_event_seq: 99,
        },
    );

    let settlement = frames_to(&state.take_outputs(), "conn-seat_east")
        .into_iter()
        .take(6)
        .find_map(|frame| match frame.payload {
            Some(ServerPayload::RoundSettlement(settlement)) => Some(settlement),
            _ => None,
        })
        .expect("round settlement should be broadcast");
    assert_eq!(settlement.winner_seat, Seat::South.as_i32());
    assert_eq!(settlement.discarder_seat, Seat::East.as_i32());
    assert_eq!(state.phase, GamePhase::RoundSettlement);
    assert_eq!(state.players_by_seat.get(Seat::South).unwrap().score, INITIAL_SCORE + 8);
    assert!(state.player_round_state.get(Seat::West).unwrap().melds.is_empty());
}

#[test]
fn draw_game_broadcasts_round_settlement_with_draw_flag() {
    let mut state = full_room("room-draw");
    state.start_round(NOW).expect("round should start successfully");
    state.round_runtime.as_mut().expect("runtime should exist").live_wall.clear();
    state.take_outputs();

    state.advance_turn_after_passes(Seat::East);

    let frames = frames_to(&state.take_outputs(), "conn-seat_east");
    let settlement = match &frames[0].payload {
        Some(ServerPayload::RoundSettlement(settlement)) => settlement,
        other => panic!("expected draw RoundSettlement, got {other:?}"),
    };
    assert_eq!(state.phase, GamePhase::RoundSettlement);
    assert_eq!(settlement.win_type, WinType::Unspecified.as_i32());
    assert_eq!(settlement.winner_seat, Seat::Unspecified.as_i32());
    assert!(settlement.settlement_flags.contains(&SettlementFlag::DrawGame.as_i32()));
    assert!(settlement.player_results.iter().all(|result| result.round_delta == 0));
}

#[test]
fn advance_after_round_settlement_starts_next_hand_when_match_continues() {
    let mut state = full_room("room-next-hand");
    state.start_round(NOW).expect("round should start successfully");
    state.phase = GamePhase::RoundSettlement;
    state.record_round_outcome(Some(Seat::East), true);

    state.advance_after_round_settlement(1, NOW);

    assert_eq!(state.phase, GamePhase::WaitingDiscard);
    assert_eq!(state.hand_number, 2);
    assert_eq!(state.dealer_seat, Seat::East);
    assert_eq!(state.dealer_streak, 1);
    assert_eq!(state.current_turn_seat, Seat::East);
    assert!(state.round_runtime.is_some());
    assert!(state
        .player_round_state
        .get(Seat::East)
        .expect("east round state should exist")
        .drawn_tile
        .is_some());
}

#[test]
fn advance_after_round_settlement_finishes_match_and_broadcasts_match_settlement() {
    let mut state = full_room("room-match-finish");
    state.start_round(NOW).expect("round should start successfully");
    state.take_outputs();
    state.phase = GamePhase::RoundSettlement;
    state.hand_number = MATCH_TOTAL_HANDS;
    state.players_by_seat.get_mut(Seat::South).unwrap().score = 31_000;
    state.players_by_seat.get_mut(Seat::East).unwrap().score = 28_000;
    state.players_by_seat.get_mut(Seat::West).unwrap().score = 24_000;
    state.players_by_seat.get_mut(Seat::North).unwrap().score = 17_000;
    state.record_round_outcome(Some(Seat::South), false);

    state.advance_after_round_settlement(MATCH_TOTAL_HANDS, NOW);

    let frames = frames_to(&state.take_outputs(), "conn-seat_east");
    let settlement = match &frames[0].payload {
        Some(ServerPayload::MatchSettlement(settlement)) => settlement,
        other => panic!("expected MatchSettlement, got {other:?}"),
    };
    assert_eq!(state.phase, GamePhase::MatchSettlement);
    assert_eq!(settlement.match_id, "match-room-match-finish");
    assert_eq!(settlement.standings.len(), 4);
    assert_eq!(settlement.standings[0].user_id, "user-south");
    assert_eq!(settlement.standings[0].rank, 1);
    assert!(state.match_runtime.last_match_settlement.is_some());
}

#[test]
fn resume_after_match_settlement_resends_sync_and_match_settlement() {
    let mut state = full_room("room-resume-finish");
    state.start_round(NOW).expect("round should start successfully");
    state.phase = GamePhase::RoundSettlement;
    state.hand_number = MATCH_TOTAL_HANDS;
    state.players_by_seat.get_mut(Seat::East).unwrap().score = 32_000;
    state.players_by_seat.get_mut(Seat::South).unwrap().score = 26_000;
    state.players_by_seat.get_mut(Seat::West).unwrap().score = 24_000;
    state.players_by_seat.get_mut(Seat::North).unwrap().score = 18_000;
    state.record_round_outcome(Some(Seat::East), true);
    state.advance_after_round_settlement(MATCH_TOTAL_HANDS, NOW);

    state.handle_resume(
        "req-resume",
        "conn-resume-east",
        &ResumeSessionRequest {
            room_id: "room-resume-finish".to_owned(),
            user_id: "user-east".to_owned(),
            resume_token: "resume-user-east".to_owned(),
            last_received_event_seq: 0,
        },
        NOW,
    );

    let frames = frames_to(&state.take_outputs(), "conn-resume-east");
    match &frames[0].payload {
        Some(ServerPayload::SyncState(sync)) => {
            let snapshot = sync.snapshot.as_ref().expect("snapshot should be present");
            assert_eq!(snapshot.phase, GamePhase::MatchSettlement.as_i32());
        }
        other => panic!("expected SyncState on resume, got {other:?}"),
    }
    match &frames[1].payload {
        Some(ServerPayload::MatchSettlement(settlement)) => {
            assert_eq!(settlement.standings[0].user_id, "user-east");
        }
        other => panic!("expected MatchSettlement on resume, got {other:?}"),
    }
}
