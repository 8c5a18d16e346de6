//! Load tests: many rooms that play by themselves, a limited number of them at a time.

use vstd::prelude::*;

use crate::collections::{lemma_views_push, opt_view, views};
use crate::room::load_test::{
    LoadTestRoomResult, LoadTestRoomResultModel, LoadTestRoomSpec, LoadTestRoomSpecModel,
    LoadTestWinnerPolicy,
};
use crate::text::{
    after_last_pair, concat, concat4, decimal, integer_value, law_numbers_are_told_apart,
    number_value, parse_integer, parse_number, split_after_last_pair, split_words, u64_to_text,
    words_of,
};

pub mod repeat;

verus! {

/// How many failures are told in full.
pub const MAX_FAILURE_EXAMPLES: usize = 16;

/// What a load test puts under load.
#[derive(Clone, Copy, Debug, PartialEq, Eq, Structural)]
pub enum LoadTestRuntimeMode {
    /// The rooms alone: no connections, no database, no rule engine.
    RoomTaskOnly,
}

/// Who wins a hand that was stopped early.
#[derive(Clone, Copy, Debug, PartialEq, Eq, Structural)]
pub enum WinnerPolicy {
    Random,
}

/// What a load test does.
#[derive(Debug, PartialEq, Eq)]
pub struct LoadTestConfig {
    pub players: u64,
    pub rooms: u64,
    pub seed: u64,
    /// After so many discards a hand is stopped and somebody wins it.
    pub max_actions_per_room: u32,
    /// How many hands each room plays.
    pub hands_per_match: u32,
    /// How many rooms run at a time.
    pub concurrency: usize,
    pub sample_interval_ms: u64,
    pub winner_policy: WinnerPolicy,
    pub runtime_mode: LoadTestRuntimeMode,
    /// Where the summary goes.
    pub json_out: Option<String>,
}

impl Clone for LoadTestConfig {
    fn clone(&self) -> (r: Self)
        ensures
            r.players == self.players,
            r.rooms == self.rooms,
            r.seed == self.seed,
            r.max_actions_per_room == self.max_actions_per_room,
            r.hands_per_match == self.hands_per_match,
            r.concurrency == self.concurrency,
            r.sample_interval_ms == self.sample_interval_ms,
            r.winner_policy == self.winner_policy,
            r.runtime_mode == self.runtime_mode,
            opt_view(r.json_out) == opt_view(self.json_out),
    {
        LoadTestConfig {
            players: self.players,
            rooms: self.rooms,
            seed: self.seed,
            max_actions_per_room: self.max_actions_per_room,
            hands_per_match: self.hands_per_match,
            concurrency: self.concurrency,
            sample_interval_ms: self.sample_interval_ms,
            winner_policy: self.winner_policy,
            runtime_mode: self.runtime_mode,
            json_out: self.json_out.clone(),
        }
    }
}

impl LoadTestConfig {
    /// What is wrong with a configuration, if anything is.
    pub open spec fn fault(self) -> Option<Seq<char>> {
        if self.players == 0 {
            Some("players must be greater than zero"@)
        } else if self.players % 4 != 0 {
            Some("players must be a multiple of 4"@)
        } else if self.rooms == 0 {
            Some("rooms must be greater than zero"@)
        } else if self.players != self.rooms * 4 {
            Some("players must equal rooms * 4 for fixed four-seat rooms"@)
        } else if self.max_actions_per_room == 0 {
            Some("max_actions_per_room must be greater than zero"@)
        } else if self.hands_per_match == 0 {
            Some("hands_per_match must be greater than zero"@)
        } else if self.concurrency == 0 {
            Some("concurrency must be greater than zero"@)
        } else {
            None
        }
    }
}

/// Checks a configuration.
pub fn validate_config(config: &LoadTestConfig) -> (r: Result<(), String>)
    ensures
        match r {
            Ok(_) => config.fault() is None,
            Err(message) => config.fault() == Some(message@),
        },
{
    if config.players == 0 {
        return Err(String::from_str("players must be greater than zero"));
    }
    if config.players % 4 != 0 {
        return Err(String::from_str("players must be a multiple of 4"));
    }
    if config.rooms == 0 {
        return Err(String::from_str("rooms must be greater than zero"));
    }
    if config.players / 4 != config.rooms {
        return Err(String::from_str("players must equal rooms * 4 for fixed four-seat rooms"));
    }
    if config.max_actions_per_room == 0 {
        return Err(String::from_str("max_actions_per_room must be greater than zero"));
    }
    if config.hands_per_match == 0 {
        return Err(String::from_str("hands_per_match must be greater than zero"));
    }
    if config.concurrency == 0 {
        return Err(String::from_str("concurrency must be greater than zero"));
    }
    Ok(())
}

/// How many rooms so many players fill, where the number of rooms may be given as well.
pub fn rooms_for_players(players: u64, rooms: Option<u64>) -> (r: Result<u64, String>)
    ensures
        match rooms {
            Some(rooms) => match r {
                Ok(count) => count == rooms && players == rooms * 4,
                Err(message) => players != rooms * 4 && message@
                    == "players must equal rooms * 4 when --rooms is provided"@,
            },
            None => match r {
                Ok(count) => players == count * 4,
                Err(message) => players % 4 != 0 && message@
                    == "players must be a multiple of 4 when --rooms is omitted"@,
            },
        },
{
    match rooms {
        Some(rooms) => if players % 4 != 0 || players / 4 != rooms {
            Err(String::from_str("players must equal rooms * 4 when --rooms is provided"))
        } else {
            Ok(rooms)
        },
        None => if players % 4 != 0 {
            Err(String::from_str("players must be a multiple of 4 when --rooms is omitted"))
        } else {
            Ok(players / 4)
        },
    }
}

/// What a load test has seen so far.
#[derive(Clone, Copy, Debug, PartialEq, Eq, Structural)]
pub struct StressCounters {
    pub active_rooms: u64,
    pub peak_active_rooms: u64,
    pub completed_rooms: u64,
    pub failed_rooms: u64,
    pub total_actions: u64,
    pub completed_hands: u64,
}

/// A sum that starts over where it gets too large.
pub open spec fn counted(number: u64, by: int) -> u64 {
    ((number + by) % 0x1_0000_0000_0000_0000) as u64
}

/// The counters with the report of a room.
pub open spec fn with_report(counters: StressCounters, report: LoadTestRoomResultModel) -> StressCounters {
    StressCounters {
        total_actions: counted(counters.total_actions, report.actions_executed as int),
        completed_hands: counted(counters.completed_hands, report.hands_completed as int),
        completed_rooms: if report.success {
            counted(counters.completed_rooms, 1)
        } else {
            counters.completed_rooms
        },
        failed_rooms: if report.success {
            counters.failed_rooms
        } else {
            counted(counters.failed_rooms, 1)
        },
        ..counters
    }
}

/// The failures that are told, with one more where there is room.
pub open spec fn with_example(examples: Seq<Seq<char>>, example: Seq<char>) -> Seq<Seq<char>> {
    if examples.len() < MAX_FAILURE_EXAMPLES {
        examples.push(example)
    } else {
        examples
    }
}

/// What is told of a room that failed.
pub open spec fn failure_told(report: LoadTestRoomResultModel) -> Seq<char> {
    "room "@ + report.room_id + " failed: "@ + match report.failure_reason {
        Some(reason) => reason,
        None => "unknown failure"@,
    }
}

fn add_example(failure_examples: &mut Vec<String>, example: String)
    ensures
        views(final(failure_examples)@) == with_example(views(old(failure_examples)@), example@),
{
    broadcast use lemma_views_push;

    if failure_examples.len() < MAX_FAILURE_EXAMPLES {
        failure_examples.push(example);
    }
}

/// Takes the report of a room into account.
pub fn record_room_result(
    counters: &mut StressCounters,
    failure_examples: &mut Vec<String>,
    room_result: LoadTestRoomResult,
)
    ensures
        *final(counters) == with_report(*old(counters), room_result@),
        views(final(failure_examples)@) == if room_result.success {
            views(old(failure_examples)@)
        } else {
            with_example(views(old(failure_examples)@), failure_told(room_result@))
        },
{
    counters.total_actions = counters.total_actions.wrapping_add(
        room_result.actions_executed as u64,
    );
    counters.completed_hands = counters.completed_hands.wrapping_add(
        room_result.hands_completed as u64,
    );
    if room_result.success {
        counters.completed_rooms = counters.completed_rooms.wrapping_add(1);
    } else {
        counters.failed_rooms = counters.failed_rooms.wrapping_add(1);
        let reason: String = match room_result.failure_reason {
            Some(reason) => reason,
            None => String::from_str("unknown failure"),
        };
        add_example(
            failure_examples,
            concat4("room ", room_result.room_id.as_str(), " failed: ", reason.as_str()),
        );
    }
}

/// How a room came back.
pub enum RoomOutcome {
    /// With a report.
    Reported(LoadTestRoomResult),
    /// Not at all: the room could not be given its task.
    DispatchFailed(String),
    /// Not at all: whatever ran the room broke down.
    JoinFailed(String),
}

/// The contents of a [`RoomOutcome`].
#[verifier::ext_equal]
pub enum RoomOutcomeModel {
    Reported(LoadTestRoomResultModel),
    DispatchFailed(Seq<char>),
    JoinFailed(Seq<char>),
}

impl View for RoomOutcome {
    type V = RoomOutcomeModel;

    open spec fn view(&self) -> RoomOutcomeModel {
        match self {
            RoomOutcome::Reported(report) => RoomOutcomeModel::Reported(report@),
            RoomOutcome::DispatchFailed(reason) => RoomOutcomeModel::DispatchFailed(reason@),
            RoomOutcome::JoinFailed(reason) => RoomOutcomeModel::JoinFailed(reason@),
        }
    }
}

/// The counters with one more room at work.
pub open spec fn launched(counters: StressCounters) -> StressCounters {
    StressCounters {
        active_rooms: (counters.active_rooms + 1) as u64,
        peak_active_rooms: if counters.peak_active_rooms < counters.active_rooms + 1 {
            (counters.active_rooms + 1) as u64
        } else {
            counters.peak_active_rooms
        },
        ..counters
    }
}

/// The counters with a room that came back.
pub open spec fn noted(counters: StressCounters, outcome: RoomOutcomeModel) -> StressCounters {
    let active = StressCounters {
        active_rooms: (counters.active_rooms - 1) as u64,
        ..counters
    };
    match outcome {
        RoomOutcomeModel::Reported(report) => with_report(active, report),
        _ => StressCounters { failed_rooms: counted(active.failed_rooms, 1), ..active },
    }
}

/// The failures that are told, with a room that came back.
pub open spec fn with_outcome_told(examples: Seq<Seq<char>>, outcome: RoomOutcomeModel) -> Seq<Seq<char>> {
    match outcome {
        RoomOutcomeModel::Reported(report) => if report.success {
            examples
        } else {
            with_example(examples, failure_told(report))
        },
        RoomOutcomeModel::DispatchFailed(reason) => with_example(
            examples,
            "room dispatch failed: "@ + reason,
        ),
        RoomOutcomeModel::JoinFailed(reason) => with_example(
            examples,
            "room task join failed: "@ + reason,
        ),
    }
}

/// A load test in progress.
pub struct StressRun {
    pub config: LoadTestConfig,
    pub counters: StressCounters,
    pub launched_rooms: u64,
    pub failure_examples: Vec<String>,
}

/// The order for a room of a load test.
pub open spec fn room_spec(config: LoadTestConfig, room_index: u64) -> LoadTestRoomSpecModel {
    LoadTestRoomSpecModel {
        room_id: "stress-room-"@ + decimal(room_index as nat),
        room_index,
        player_base_index: (room_index * 4) as u64,
        max_actions: config.max_actions_per_room,
        hands_per_match: config.hands_per_match,
        seed: config.seed ^ ((room_index * 0x9e37_79b9_7f4a_7c15u64)
            % 0x1_0000_0000_0000_0000) as u64,
        winner_policy: LoadTestWinnerPolicy::Random,
    }
}

impl StressRun {
    /// Whether the counters fit each other: every room that was launched is active, completed or
    /// failed, and no more than allowed are active.
    pub open spec fn consistent(self) -> bool {
        &&& self.config.fault() is None
        &&& self.launched_rooms <= self.config.rooms
        &&& self.counters.active_rooms + self.counters.completed_rooms + self.counters.failed_rooms
            == self.launched_rooms
        &&& self.counters.active_rooms <= self.counters.peak_active_rooms
        &&& self.counters.peak_active_rooms <= self.config.concurrency
        &&& self.failure_examples@.len() <= MAX_FAILURE_EXAMPLES
    }

    /// Whether another room can be launched now.
    pub open spec fn can_launch(self) -> bool {
        self.launched_rooms < self.config.rooms && self.counters.active_rooms
            < self.config.concurrency
    }

    /// Whether every room has been launched and has come back.
    pub open spec fn is_over(self) -> bool {
        self.launched_rooms >= self.config.rooms && self.counters.active_rooms == 0
    }

    /// A load test that has not begun.
    pub fn new(config: LoadTestConfig) -> (r: StressRun)
        requires
            config.fault() is None,
        ensures
            r.config == config,
            r.counters == (StressCounters {
                active_rooms: 0,
                peak_active_rooms: 0,
                completed_rooms: 0,
                failed_rooms: 0,
                total_actions: 0,
                completed_hands: 0,
            }),
            r.launched_rooms == 0,
            r.failure_examples@.len() == 0,
            r.consistent(),
    {
        StressRun {
            config,
            counters: StressCounters {
                active_rooms: 0,
                peak_active_rooms: 0,
                completed_rooms: 0,
                failed_rooms: 0,
                total_actions: 0,
                completed_hands: 0,
            },
            launched_rooms: 0,
            failure_examples: Vec::new(),
        }
    }

    /// The order for the next room, where one can be launched now.
    pub fn launch_next(&mut self) -> (r: Option<LoadTestRoomSpec>)
        requires
            old(self).consistent(),
        ensures
            final(self).consistent(),
            r is Some <==> old(self).can_launch(),
            r matches Some(spec) ==> {
                &&& spec@ == room_spec(old(self).config, old(self).launched_rooms)
                &&& *final(self) == (StressRun {
                    launched_rooms: (old(self).launched_rooms + 1) as u64,
                    counters: launched(old(self).counters),
                    ..*old(self)
                })
            },
            r is None ==> *final(self) == *old(self),
    {
        if self.launched_rooms >= self.config.rooms || self.counters.active_rooms
            >= self.config.concurrency as u64 {
            return None;
        }
        let room_index: u64 = self.launched_rooms;
        let spec = LoadTestRoomSpec {
            room_id: concat("stress-room-", u64_to_text(room_index).as_str()),
            room_index,
            player_base_index: room_index * 4,
            max_actions: self.config.max_actions_per_room,
            hands_per_match: self.config.hands_per_match,
            seed: self.config.seed ^ room_index.wrapping_mul(0x9e37_79b9_7f4a_7c15),
            winner_policy: match self.config.winner_policy {
                WinnerPolicy::Random => LoadTestWinnerPolicy::Random,
            },
        };
        let active_rooms: u64 = self.counters.active_rooms + 1;
        self.counters.active_rooms = active_rooms;
        if self.counters.peak_active_rooms < active_rooms {
            self.counters.peak_active_rooms = active_rooms;
        }
        self.launched_rooms = room_index + 1;
        Some(spec)
    }

    /// Takes a room that came back into account.
    pub fn note_outcome(&mut self, outcome: RoomOutcome)
        requires
            old(self).consistent(),
            old(self).counters.active_rooms > 0,
        ensures
            final(self).consistent(),
            final(self).config == old(self).config,
            final(self).launched_rooms == old(self).launched_rooms,
            final(self).counters == noted(old(self).counters, outcome@),
            views(final(self).failure_examples@) == with_outcome_told(
                views(old(self).failure_examples@),
                outcome@,
            ),
    {
        self.counters.active_rooms = self.counters.active_rooms - 1;
        match outcome {
            RoomOutcome::Reported(report) => {
                let ghost before = self.failure_examples@;
                record_room_result(&mut self.counters, &mut self.failure_examples, report);
                assert(views(self.failure_examples@).len() == self.failure_examples@.len());
                assert(views(before).len() == before.len());
            },
            RoomOutcome::DispatchFailed(reason) => {
                let ghost before = self.failure_examples@;
                self.counters.failed_rooms = self.counters.failed_rooms + 1;
                add_example(
                    &mut self.failure_examples,
                    concat("room dispatch failed: ", reason.as_str()),
                );
                assert(views(self.failure_examples@).len() == self.failure_examples@.len());
                assert(views(before).len() == before.len());
            },
            RoomOutcome::JoinFailed(reason) => {
                let ghost before = self.failure_examples@;
                self.counters.failed_rooms = self.counters.failed_rooms + 1;
                add_example(
                    &mut self.failure_examples,
                    concat("room task join failed: ", reason.as_str()),
                );
                assert(views(self.failure_examples@).len() == self.failure_examples@.len());
                assert(views(before).len() == before.len());
            },
        }
    }

    /// Tells whether every room has been launched and has come back.
    pub fn is_finished(&self) -> (r: bool)
        ensures
            r == self.is_over(),
    {
        self.launched_rooms >= self.config.rooms && self.counters.active_rooms == 0
    }
}

/// A load test that is over has accounted for every room: each was completed or failed.
pub proof fn law_every_room_is_accounted_for(run: StressRun)
    requires
        run.consistent(),
        run.is_over(),
    ensures
        run.counters.completed_rooms + run.counters.failed_rooms == run.config.rooms,
{
}

/// A load test that is not over can go on: it can launch a room, or waits for one to come back.
pub proof fn law_stress_run_goes_on(run: StressRun)
    requires
        run.consistent(),
        !run.is_over(),
    ensures
        run.can_launch() || run.counters.active_rooms > 0,
{
}

// ---------------------------------------------------------------------------
// Samples
// ---------------------------------------------------------------------------

/// The largest of the values that are there.
pub open spec fn peak_of(values: Seq<Option<u64>>) -> Option<u64>
    decreases values.len(),
{
    if values.len() == 0 {
        None
    } else {
        match (peak_of(values.drop_last()), values.last()) {
            (Some(peak), Some(value)) => Some(
                if peak <= value {
                    value
                } else {
                    peak
                },
            ),
            (None, last) => last,
            (peak, None) => peak,
        }
    }
}

/// The largest of the values that are there.
pub fn peak_value(values: &Vec<Option<u64>>) -> (r: Option<u64>)
    ensures
        r == peak_of(values@),
{
    let mut peak: Option<u64> = None;
    let mut i: usize = 0;
    while i < values.len()
        invariant
            i <= values.len(),
            peak == peak_of(values@.take(i as int)),
        decreases values.len() - i,
    {
        assert(values@.take(i + 1).drop_last() =~= values@.take(i as int));
        peak = match (peak, values[i]) {
            (Some(peak), Some(value)) => Some(
                if peak <= value {
                    value
                } else {
                    peak
                },
            ),
            (None, last) => last,
            (peak, None) => peak,
        };
        i = i + 1;
    }
    assert(values@.take(i as int) =~= values@);
    peak
}

/// What the kernel tells of a process: the ticks that it ran in user mode and in the kernel, and
/// the pages that it holds in memory.
#[derive(Clone, Copy, Debug, PartialEq, Eq, Structural)]
pub struct ProcessStat {
    pub utime: u64,
    pub stime: u64,
    pub rss_pages: i64,
}

/// The number at a place among some words.
pub open spec fn word_number(words: Seq<Seq<char>>, place: int) -> Option<nat> {
    match number_value(words[place]) {
        Some(value) => if value <= u64::MAX {
            Some(value)
        } else {
            None
        },
        None => None,
    }
}

/// What the line of a process tells. The name of the process, in brackets, may hold anything, so
/// the fields are counted from behind it.
pub open spec fn process_stat_of(stat: Seq<char>) -> Option<ProcessStat> {
    match after_last_pair(stat, ')', ' ', stat.len() as int) {
        None => None,
        Some(tail) => {
            let fields = words_of(tail);
            if fields.len() <= 21 {
                None
            } else {
                match (
                    word_number(fields, 11),
                    word_number(fields, 12),
                    integer_value(fields[21]),
                ) {
                    (Some(utime), Some(stime), Some(pages)) => if i64::MIN <= pages <= i64::MAX {
                        Some(
                            ProcessStat {
                                utime: utime as u64,
                                stime: stime as u64,
                                rss_pages: pages as i64,
                            },
                        )
                    } else {
                        None
                    },
                    _ => None,
                }
            }
        },
    }
}

/// Reads the line of a process.
pub fn parse_process_stat(stat: &str) -> (r: Option<ProcessStat>)
    ensures
        r == process_stat_of(stat@),
{
    let tail = match split_after_last_pair(stat, ')', ' ') {
        None => {
            return None;
        },
        Some(tail) => tail,
    };
    let fields = split_words(tail.as_str());
    assert(views(fields@).len() == fields@.len());
    if fields.len() <= 21 {
        return None;
    }
    assert(views(fields@)[11] == fields@[11]@);
    assert(views(fields@)[12] == fields@[12]@);
    assert(views(fields@)[21] == fields@[21]@);
    let utime: Option<u64> = parse_number(fields[11].as_str(), u64::MAX);
    let stime: Option<u64> = parse_number(fields[12].as_str(), u64::MAX);
    let rss_pages: Option<i64> = parse_integer(fields[21].as_str());
    match (utime, stime, rss_pages) {
        (Some(utime), Some(stime), Some(rss_pages)) => Some(
            ProcessStat { utime, stime, rss_pages },
        ),
        _ => None,
    }
}

// ---------------------------------------------------------------------------
// Rooms and samples
// ---------------------------------------------------------------------------

/// A configuration is in order where its players fill its rooms by fours, every room has something to
/// do, and some room may run.
pub proof fn law_configurations_in_order(config: LoadTestConfig)
    ensures
        config.fault() is None <==> {
            &&& config.players > 0
            &&& config.players == 4 * config.rooms
            &&& config.max_actions_per_room > 0
            &&& config.hands_per_match > 0
            &&& config.concurrency > 0
        },
{
}

/// No two rooms of a load test share a name or a player, and all players are among those that were
/// asked for. Every room plays what the configuration says.
pub proof fn law_rooms_share_nothing(config: LoadTestConfig, a: u64, b: u64)
    requires
        config.fault() is None,
        a < b < config.rooms,
    ensures
        ({
            let first = room_spec(config, a);
            let second = room_spec(config, b);
            &&& first.room_id != second.room_id
            &&& first.room_index == a && second.room_index == b
            &&& first.player_base_index + 4 <= second.player_base_index
            &&& second.player_base_index + 4 <= config.players
            &&& first.max_actions == config.max_actions_per_room
            &&& first.hands_per_match == config.hands_per_match
        }),
{
    law_numbers_are_told_apart(a as nat, b as nat);
    let prefix = "stress-room-"@;
    let first = prefix + decimal(a as nat);
    let second = prefix + decimal(b as nat);
    assert(first.skip(prefix.len() as int) =~= decimal(a as nat));
    assert(second.skip(prefix.len() as int) =~= decimal(b as nat));
}

/// The report of a room adds what the room did. A room counts as completed or as failed, by its own
/// word.
pub proof fn law_reports_add_up(counters: StressCounters, report: LoadTestRoomResultModel)
    requires
        counters.total_actions + report.actions_executed <= u64::MAX,
        counters.completed_hands + report.hands_completed <= u64::MAX,
        counters.completed_rooms < u64::MAX,
        counters.failed_rooms < u64::MAX,
    ensures
        ({
            let after = with_report(counters, report);
            &&& after.total_actions == counters.total_actions + report.actions_executed
            &&& after.completed_hands == counters.completed_hands + report.hands_completed
            &&& after.completed_rooms - counters.completed_rooms == if report.success {
                1int
            } else {
                0
            }
            &&& after.failed_rooms - counters.failed_rooms == if report.success {
                0int
            } else {
                1
            }
            &&& after.active_rooms == counters.active_rooms
            &&& after.peak_active_rooms == counters.peak_active_rooms
        }),
{
}

/// A room that comes back is no longer at work. One that never reported has failed.
pub proof fn law_rooms_come_back(counters: StressCounters, outcome: RoomOutcomeModel)
    requires
        counters.active_rooms > 0,
        counters.failed_rooms < u64::MAX,
    ensures
        noted(counters, outcome).active_rooms == counters.active_rooms - 1,
        noted(counters, outcome).peak_active_rooms == counters.peak_active_rooms,
        !(outcome is Reported) ==> noted(counters, outcome).failed_rooms == counters.failed_rooms + 1
            && noted(counters, outcome).completed_rooms == counters.completed_rooms,
{
}

/// Whether a value is the largest of those that are there.
pub open spec fn is_peak(values: Seq<Option<u64>>, peak: u64) -> bool {
    &&& values.contains(Some(peak))
    &&& forall|i: int| 0 <= i < values.len() ==> match #[trigger] values[i] {
        Some(value) => value <= peak,
        None => true,
    }
}

/// The peak of some samples is one of them, and none is larger; there is none where no sample was
/// taken.
pub proof fn law_peaks_are_the_largest(values: Seq<Option<u64>>)
    ensures
        match peak_of(values) {
            Some(peak) => is_peak(values, peak),
            None => forall|i: int| 0 <= i < values.len() ==> (#[trigger] values[i]) is None,
        },
    decreases values.len(),
{
    if values.len() > 0 {
        let fewer = values.drop_last();
        law_peaks_are_the_largest(fewer);
        assert(values =~= fewer.push(values.last()));
        assert forall|i: int| 0 <= i < fewer.len() implies #[trigger] values[i] == fewer[i] by {}
        assert(values[values.len() - 1] == values.last());
        if let Some(peak) = peak_of(values) {
            if values.last() == Some(peak) {
                assert(values.contains(Some(peak)));
            } else {
                let i = choose|i: int| 0 <= i < fewer.len() && fewer[i] == Some(peak);
                assert(values[i] == Some(peak));
                assert(values.contains(Some(peak)));
            }
        }
    }
}

} // verus!
