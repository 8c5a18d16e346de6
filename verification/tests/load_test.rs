use gb_mahjong_server::load_test::{
    parse_process_stat, peak_value, rooms_for_players, validate_config, LoadTestConfig,
    LoadTestRuntimeMode, ProcessStat, RoomOutcome, StressRun, WinnerPolicy,
};
use gb_mahjong_server::room::commands::RoomCommand;
use gb_mahjong_server::room::load_test::{
    LoadTestRoomResult, LoadTestRoomSpec, LoadTestWinnerPolicy,
};
use gb_mahjong_server::room::state::{RoomOutput, RoomRuntimeMode, RoomState, WallFactory};

const NOW: u64 = 1_700_000_000_000;

fn config(players: u64, rooms: u64, seed: u64, max_actions: u32, concurrency: usize) -> LoadTestConfig {
    LoadTestConfig {
        players,
        rooms,
        seed,
        max_actions_per_room: max_actions,
        hands_per_match: 4,
        concurrency,
        sample_interval_ms: 10,
        winner_policy: WinnerPolicy::Random,
        runtime_mode: LoadTestRuntimeMode::RoomTaskOnly,
        json_out: None,
    }
}

fn run_room(seed: u64, spec: LoadTestRoomSpec, mode: RoomRuntimeMode, now: u64) -> (LoadTestRoomResult, usize) {
    let mut state = RoomState::new(spec.room_id.clone(), WallFactory::Seeded(seed), mode);
    let command = RoomCommand::RunLoadTestRoom { spec };
    assert!(state.can_take_command(&command, now));
    assert!(state.handle_command(command, now).is_none());
    assert!(state.should_shutdown);
    let mut outputs = state.take_outputs();
    let others = outputs.len() - 1;
    match outputs.pop() {
        Some(RoomOutput::FinishLoadTest(result)) => (result, others),
        other => panic!("expected a report, got {other:?}"),
    }
}

fn run_stress(config: LoadTestConfig, now: u64) -> StressRun {
    run_stress_from(config, now, false)
}

fn run_stress_from(config: LoadTestConfig, now: u64, latest_first: bool) -> StressRun {
    validate_config(&config).expect("config should be valid");
    let seed = config.seed;
    let mut run = StressRun::new(config);
    let mut waiting: Vec<LoadTestRoomSpec> = Vec::new();
    while !run.is_finished() {
        while let Some(spec) = run.launch_next() {
            waiting.push(spec);
        }
        let spec = if latest_first { waiting.pop().unwrap() } else { waiting.remove(0) };
        let (result, _) = run_room(seed, spec, RoomRuntimeMode::LoadTest, now);
        run.note_outcome(RoomOutcome::Reported(result));
    }
    run
}

#[test]
fn load_test_config_requires_four_player_rooms() {
    let error = validate_config(&LoadTestConfig {
        players: 6,
        rooms: 1,
        seed: 1,
        max_actions_per_room: 16,
        hands_per_match: 4,
        concurrency: 1,
        sample_interval_ms: 10,
        winner_policy: WinnerPolicy::Random,
        runtime_mode: LoadTestRuntimeMode::RoomTaskOnly,
        json_out: None,
    })
    .expect_err("config should reject non-four-player room counts");

    assert!(error.to_string().contains("multiple of 4"));
}

#[test]
fn single_room_stress_run_is_deterministic_for_seed() {
    let first = run_stress(config(4, 1, 42, 32, 1), NOW);
    let second = run_stress(config(4, 1, 42, 32, 1), NOW + 5_000);

    assert_eq!(first.counters.total_actions, second.counters.total_actions);
    assert_eq!(first.counters.completed_rooms, second.counters.completed_rooms);
    assert_eq!(first.counters.failed_rooms, second.counters.failed_rooms);
}

#[test]
fn small_stress_run_finishes_rooms() {
    let run = run_stress(config(400, 100, 7, 24, 16), NOW);

    assert_eq!(run.counters.completed_rooms, 100);
    assert_eq!(run.counters.failed_rooms, 0);
    assert_eq!(run.config.hands_per_match, 4);
    assert!(run.counters.total_actions > 0);
    assert_eq!(run.counters.total_actions, 100 * 4 * 24);
    assert_eq!(run.counters.completed_hands, 400);
    assert_eq!(run.counters.peak_active_rooms, 16);
}

#[test]
fn load_test_room_does_not_touch_rule_engine_or_match_events() {
    let (result, others) = run_room(
        99,
        LoadTestRoomSpec {
            room_id: "load-test-room".to_owned(),
            room_index: 0,
            player_base_index: 0,
            max_actions: 16,
            hands_per_match: 4,
            seed: 99,
            winner_policy: LoadTestWinnerPolicy::Random,
        },
        RoomRuntimeMode::LoadTest,
        NOW,
    );

    assert!(result.success);
    assert_eq!(result.hands_completed, 4);
    assert_eq!(others, 0);
}

#[test]
fn load_test_needs_a_load_test_room() {
    let (result, others) = run_room(
        1,
        LoadTestRoomSpec {
            room_id: "room".to_owned(),
            room_index: 3,
            player_base_index: 12,
            max_actions: 16,
            hands_per_match: 4,
            seed: 1,
            winner_policy: LoadTestWinnerPolicy::Random,
        },
        RoomRuntimeMode::Production,
        NOW,
    );
    assert!(!result.success);
    assert_eq!(result.room_index, 3);
    assert_eq!(result.failure_reason.as_deref(), Some("room is not running in load-test mode"));
    assert_eq!(others, 0);
}

#[test]
fn load_test_runs_until_the_wall_is_empty() {
    let spec = |max_actions: u32, seed: u64| LoadTestRoomSpec {
        room_id: "room".to_owned(),
        room_index: 0,
        player_base_index: 0,
        max_actions,
        hands_per_match: 0,
        seed,
        winner_policy: LoadTestWinnerPolicy::Random,
    };
    let (result, _) = run_room(5, spec(u32::MAX, 5), RoomRuntimeMode::LoadTest, NOW);
    assert!(result.success);
    assert_eq!(result.hands_completed, 1);
    assert!(result.actions_executed <= 144);
    let (again, _) = run_room(5, spec(u32::MAX, 5), RoomRuntimeMode::LoadTest, NOW + 77);
    assert_eq!(result, again);
    let (other, _) = run_room(6, spec(3, 8), RoomRuntimeMode::LoadTest, NOW);
    assert_eq!(other.actions_executed, 3);
    assert!(other.winner_seat.is_some());
}

#[test]
fn random_discards_follow_the_generator() {
    let mut seats = Vec::new();
    for seed in 0..40 {
        let (result, _) = run_room(
            1,
            LoadTestRoomSpec {
                room_id: "room".to_owned(),
                room_index: 0,
                player_base_index: 0,
                max_actions: 4,
                hands_per_match: 1,
                seed,
                winner_policy: LoadTestWinnerPolicy::Random,
            },
            RoomRuntimeMode::LoadTest,
            NOW,
        );
        seats.push(result.winner_seat.expect("somebody leads"));
    }
    assert!(seats.iter().any(|seat| seat == "SEAT_EAST"));
    assert!(seats.iter().any(|seat| seat != "SEAT_EAST"));
}

#[test]
fn every_fault_of_a_config_is_named() {
    let fault = |change: &dyn Fn(&mut LoadTestConfig)| {
        let mut config = config(8, 2, 1, 16, 1);
        change(&mut config);
        validate_config(&config).expect_err("config should be refused")
    };
    assert!(validate_config(&config(8, 2, 1, 16, 1)).is_ok());
    assert_eq!(fault(&|config| config.players = 0), "players must be greater than zero");
    assert_eq!(fault(&|config| config.players = 9), "players must be a multiple of 4");
    assert_eq!(fault(&|config| config.rooms = 0), "rooms must be greater than zero");
    assert_eq!(
        fault(&|config| config.rooms = 3),
        "players must equal rooms * 4 for fixed four-seat rooms"
    );
    assert_eq!(
        fault(&|config| config.rooms = (1 << 62) + 2),
        "players must equal rooms * 4 for fixed four-seat rooms"
    );
    assert_eq!(
        fault(&|config| config.max_actions_per_room = 0),
        "max_actions_per_room must be greater than zero"
    );
    assert_eq!(
        fault(&|config| config.hands_per_match = 0),
        "hands_per_match must be greater than zero"
    );
    assert_eq!(fault(&|config| config.concurrency = 0), "concurrency must be greater than zero");
}

#[test]
fn rooms_follow_from_players() {
    assert_eq!(rooms_for_players(12, None), Ok(3));
    assert_eq!(rooms_for_players(12, Some(3)), Ok(3));
    assert_eq!(
        rooms_for_players(12, Some(4)),
        Err("players must equal rooms * 4 when --rooms is provided".to_owned())
    );
    assert_eq!(
        rooms_for_players(13, None),
        Err("players must be a multiple of 4 when --rooms is omitted".to_owned())
    );
}

#[test]
fn failures_are_counted_and_told() {
    let mut run = StressRun::new(config(80, 20, 1, 16, 20));
    let mut specs = Vec::new();
    while let Some(spec) = run.launch_next() {
        specs.push(spec);
    }
    assert_eq!(specs.len(), 20);
    assert_eq!(specs[2].room_id, "stress-room-2");
    assert_eq!(specs[2].player_base_index, 8);
    assert_eq!(specs[0].seed, 1);
    assert_eq!(specs[1].seed, 1 ^ 0x9e37_79b9_7f4a_7c15);
    assert!(run.launch_next().is_none());
    run.note_outcome(RoomOutcome::DispatchFailed("gone".to_owned()));
    run.note_outcome(RoomOutcome::JoinFailed("broken".to_owned()));
    for _ in 0..18 {
        run.note_outcome(RoomOutcome::Reported(LoadTestRoomResult {
            room_id: "r".to_owned(),
            room_index: 0,
            success: false,
            actions_executed: 2,
            hands_completed: 1,
            winner_seat: None,
            failure_reason: None,
        }));
    }
    assert!(run.is_finished());
    assert_eq!(run.counters.failed_rooms, 20);
    assert_eq!(run.counters.total_actions, 36);
    assert_eq!(run.failure_examples.len(), 16);
    assert_eq!(run.failure_examples[0], "room dispatch failed: gone");
    assert_eq!(run.failure_examples[1], "room task join failed: broken");
    assert_eq!(run.failure_examples[2], "room r failed: unknown failure");
}

#[test]
fn process_lines_are_read() {
    let line = "7 (a ) name) S 1 2 3 4 5 6 7 8 9 10 250 50 13 14 15 16 17 18 19 20 -3 22\n";
    assert_eq!(
        parse_process_stat(line),
        Some(ProcessStat { utime: 250, stime: 50, rss_pages: -3 })
    );
    assert_eq!(parse_process_stat("7 (name) S 1 2 3"), None);
    assert_eq!(parse_process_stat("nothing"), None);
    assert_eq!(peak_value(&vec![None, Some(3), Some(9), None, Some(4)]), Some(9));
    assert_eq!(peak_value(&vec![None]), None);
}

#[test]
fn stress_runs_repeat_in_whatever_order_rooms_come_back() {
    let first = run_stress_from(config(40, 10, 5, 24, 4), NOW, false);
    let second = run_stress_from(config(40, 10, 5, 24, 3), NOW + 77, true);
    assert_eq!(first.counters.total_actions, second.counters.total_actions);
    assert_eq!(first.counters.completed_hands, second.counters.completed_hands);
    assert_eq!(first.counters.completed_rooms, 10);
    assert_eq!(second.counters.completed_rooms, 10);
    assert_eq!(first.counters.failed_rooms, 0);
    assert_eq!(second.counters.failed_rooms, 0);
}
