//! Two runs of the same load test come to the same totals.

use vstd::prelude::*;

use crate::load_test::{
    counted, launched, noted, room_spec, LoadTestConfig, RoomOutcomeModel, StressCounters,
};
use crate::room::basics::new_room;
use crate::room::simulation::{hands_to_play, law_load_test_repeats, report_of};
use crate::room::state::{RoomRuntimeMode, RoomStateModel, WallFactoryModel};
use crate::room::success::law_full_walls_succeed;

verus! {

/// A step of a load test.
#[verifier::ext_equal]
pub enum RunStep {
    /// A room is launched.
    Launch,
    /// A room has come back.
    Note(RoomOutcomeModel),
}

/// The counters of a load test that has not begun.
pub open spec fn no_counts() -> StressCounters {
    StressCounters {
        active_rooms: 0,
        peak_active_rooms: 0,
        completed_rooms: 0,
        failed_rooms: 0,
        total_actions: 0,
        completed_hands: 0,
    }
}

/// The counters of a load test after some steps.
pub open spec fn counters_after(steps: Seq<RunStep>) -> StressCounters
    decreases steps.len(),
{
    if steps.len() == 0 {
        no_counts()
    } else {
        match steps.last() {
            RunStep::Launch => launched(counters_after(steps.drop_last())),
            RunStep::Note(outcome) => noted(counters_after(steps.drop_last()), outcome),
        }
    }
}

/// The rooms that came back in the course of some steps, in order.
pub open spec fn outcomes_of(steps: Seq<RunStep>) -> Seq<RoomOutcomeModel>
    decreases steps.len(),
{
    if steps.len() == 0 {
        Seq::empty()
    } else {
        match steps.last() {
            RunStep::Launch => outcomes_of(steps.drop_last()),
            RunStep::Note(outcome) => outcomes_of(steps.drop_last()).push(outcome),
        }
    }
}

/// A room of a load test before it is given its task.
pub open spec fn stress_room(config: LoadTestConfig, room_index: u64) -> RoomStateModel {
    new_room(
        room_spec(config, room_index).room_id,
        WallFactoryModel::Seeded(config.seed),
        RoomRuntimeMode::LoadTest,
    )
}

/// Whether a load test is a valid one, and the discards of each room can be counted.
pub open spec fn is_countable(config: LoadTestConfig) -> bool {
    &&& config.fault() is None
    &&& hands_to_play(config.hands_per_match) * stress_room(config, 0).hand_limit(
        config.max_actions_per_room,
    ) <= u32::MAX
}

proof fn lemma_rooms_can_simulate(config: LoadTestConfig, room_index: u64)
    requires
        is_countable(config),
        room_index < config.rooms,
    ensures
        stress_room(config, room_index).can_simulate(room_spec(config, room_index)),
{
}

/// How a room of a load test comes back that is given its task at a time.
pub open spec fn room_outcome(config: LoadTestConfig, room_index: u64, now_ms: u64) -> RoomOutcomeModel {
    let spec = room_spec(config, room_index);
    RoomOutcomeModel::Reported(
        report_of(spec, stress_room(config, room_index).simulated(spec, now_ms)),
    )
}

/// How the rooms of a load test come back; `clock` gives the time at which each is given its task.
pub open spec fn room_outcomes(config: LoadTestConfig, clock: spec_fn(u64) -> u64) -> Seq<RoomOutcomeModel> {
    Seq::new(
        config.rooms as nat,
        |room_index: int| room_outcome(config, room_index as u64, clock(room_index as u64)),
    )
}

/// Whether every room of a load test comes back in the course of some steps, in whatever order.
pub open spec fn runs_every_room(
    config: LoadTestConfig,
    clock: spec_fn(u64) -> u64,
    steps: Seq<RunStep>,
) -> bool {
    outcomes_of(steps).to_multiset() == room_outcomes(config, clock).to_multiset()
}

/// How many discards a room tells of.
pub open spec fn actions_told(outcome: RoomOutcomeModel) -> nat {
    match outcome {
        RoomOutcomeModel::Reported(report) => report.actions_executed as nat,
        _ => 0,
    }
}

/// How many hands a room tells of.
pub open spec fn hands_told(outcome: RoomOutcomeModel) -> nat {
    match outcome {
        RoomOutcomeModel::Reported(report) => report.hands_completed as nat,
        _ => 0,
    }
}

/// One for a room that succeeded.
pub open spec fn success_told(outcome: RoomOutcomeModel) -> nat {
    match outcome {
        RoomOutcomeModel::Reported(report) => if report.success {
            1
        } else {
            0
        },
        _ => 0,
    }
}

/// The sum of what rooms tell.
pub open spec fn sum_told(outcomes: Seq<RoomOutcomeModel>, told: spec_fn(RoomOutcomeModel) -> nat) -> nat
    decreases outcomes.len(),
{
    if outcomes.len() == 0 {
        0
    } else {
        sum_told(outcomes.drop_last(), told) + told(outcomes.last())
    }
}

proof fn lemma_sum_without(
    outcomes: Seq<RoomOutcomeModel>,
    told: spec_fn(RoomOutcomeModel) -> nat,
    place: int,
)
    requires
        0 <= place < outcomes.len(),
    ensures
        sum_told(outcomes, told) == sum_told(outcomes.remove(place), told) + told(outcomes[place]),
    decreases outcomes.len(),
{
    let rest = outcomes.remove(place);
    if place == outcomes.len() - 1 {
        assert(rest =~= outcomes.drop_last());
    } else {
        let fewer = outcomes.drop_last();
        lemma_sum_without(fewer, told, place);
        assert(rest.drop_last() =~= fewer.remove(place));
        assert(rest.last() == outcomes.last());
        assert(fewer[place] == outcomes[place]);
    }
}

/// The order of what is told does not matter to the sum.
proof fn lemma_sum_in_any_order(
    a: Seq<RoomOutcomeModel>,
    b: Seq<RoomOutcomeModel>,
    told: spec_fn(RoomOutcomeModel) -> nat,
)
    requires
        a.to_multiset() == b.to_multiset(),
    ensures
        sum_told(a, told) == sum_told(b, told),
    decreases a.len(),
{
    broadcast use vstd::seq_lib::group_to_multiset_ensures;
    assert(a.len() == a.to_multiset().len());
    assert(b.len() == b.to_multiset().len());
    if a.len() > 0 {
        let last = a.last();
        assert(a.contains(last)) by {
            assert(a[a.len() - 1] == last);
        }
        assert(a.to_multiset().count(last) > 0);
        assert(b.to_multiset().count(last) > 0);
        assert(b.contains(last));
        let place = choose|place: int| 0 <= place < b.len() && b[place] == last;
        lemma_sum_without(b, told, place);
        let rest = b.remove(place);
        assert(a =~= a.drop_last().push(last));
        assert(a.drop_last().to_multiset() =~= a.to_multiset().remove(last));
        assert(rest.to_multiset() =~= b.to_multiset().remove(last));
        lemma_sum_in_any_order(a.drop_last(), rest, told);
    }
}

/// What a counter shows of a sum.
#[verifier::opaque]
spec fn shown(sum: int) -> u64 {
    (sum % 0x1_0000_0000_0000_0000) as u64
}

proof fn lemma_counted(sum: int, by: int)
    requires
        0 <= sum,
        0 <= by,
    ensures
        counted(shown(sum), by) == shown(sum + by),
{
    reveal(shown);
    vstd::arithmetic::div_mod::lemma_add_mod_noop(sum, by, 0x1_0000_0000_0000_0000);
    vstd::arithmetic::div_mod::lemma_add_mod_noop(
        sum % 0x1_0000_0000_0000_0000,
        by,
        0x1_0000_0000_0000_0000,
    );
    vstd::arithmetic::div_mod::lemma_mod_twice(sum, 0x1_0000_0000_0000_0000);
}

/// The counters are the sums of what the rooms told, as far as a counter counts.
spec fn are_sums(counters: StressCounters, outcomes: Seq<RoomOutcomeModel>) -> bool {
    let successes = sum_told(outcomes, |outcome: RoomOutcomeModel| success_told(outcome));
    &&& counters.total_actions == shown(
        sum_told(outcomes, |outcome: RoomOutcomeModel| actions_told(outcome)) as int,
    )
    &&& counters.completed_hands == shown(
        sum_told(outcomes, |outcome: RoomOutcomeModel| hands_told(outcome)) as int,
    )
    &&& successes <= outcomes.len()
    &&& counters.completed_rooms == shown(successes as int)
    &&& counters.failed_rooms == shown(outcomes.len() - successes)
}

proof fn lemma_noted_sums(
    counters: StressCounters,
    outcomes: Seq<RoomOutcomeModel>,
    outcome: RoomOutcomeModel,
)
    requires
        are_sums(counters, outcomes),
    ensures
        are_sums(noted(counters, outcome), outcomes.push(outcome)),
{
    assert(outcomes.push(outcome).drop_last() =~= outcomes);
    let actions = sum_told(outcomes, |outcome: RoomOutcomeModel| actions_told(outcome));
    let hands = sum_told(outcomes, |outcome: RoomOutcomeModel| hands_told(outcome));
    let successes = sum_told(outcomes, |outcome: RoomOutcomeModel| success_told(outcome));
    lemma_counted(actions as int, actions_told(outcome) as int);
    lemma_counted(hands as int, hands_told(outcome) as int);
    lemma_counted(successes as int, 1);
    lemma_counted(outcomes.len() - successes, 1);
}

proof fn lemma_counters_are_sums(steps: Seq<RunStep>)
    ensures
        are_sums(counters_after(steps), outcomes_of(steps)),
    decreases steps.len(),
{
    if steps.len() == 0 {
        reveal(shown);
    } else {
        lemma_counters_are_sums(steps.drop_last());
        if let RunStep::Note(outcome) = steps.last() {
            lemma_noted_sums(
                counters_after(steps.drop_last()),
                outcomes_of(steps.drop_last()),
                outcome,
            );
        }
    }
}

proof fn lemma_shown_in_full(sum: int)
    requires
        0 <= sum <= u64::MAX,
    ensures
        shown(sum) == sum,
{
    reveal(shown);
}

proof fn lemma_same_length(a: Seq<RoomOutcomeModel>, b: Seq<RoomOutcomeModel>)
    requires
        a.to_multiset() == b.to_multiset(),
    ensures
        a.len() == b.len(),
{
    broadcast use vstd::seq_lib::group_to_multiset_ensures;
    assert(a.len() == a.to_multiset().len());
    assert(b.len() == b.to_multiset().len());
}

/// The clock has no part in how the rooms come back.
proof fn lemma_outcomes_repeat(
    config: LoadTestConfig,
    first_clock: spec_fn(u64) -> u64,
    second_clock: spec_fn(u64) -> u64,
)
    requires
        is_countable(config),
    ensures
        room_outcomes(config, first_clock) == room_outcomes(config, second_clock),
{
    let first = room_outcomes(config, first_clock);
    let second = room_outcomes(config, second_clock);
    assert forall|room_index: int| 0 <= room_index < first.len() implies #[trigger] first[room_index]
        == second[room_index] by {
        let index = room_index as u64;
        lemma_rooms_can_simulate(config, index);
        law_load_test_repeats(
            stress_room(config, index),
            room_spec(config, index),
            first_clock(index),
            second_clock(index),
        );
    }
    assert(first =~= second);
}

/// A load test comes to the same totals whenever it is run and in whatever order its rooms come
/// back, and every room is completed or has failed.
pub proof fn law_stress_runs_repeat(
    config: LoadTestConfig,
    first_clock: spec_fn(u64) -> u64,
    first: Seq<RunStep>,
    second_clock: spec_fn(u64) -> u64,
    second: Seq<RunStep>,
)
    requires
        is_countable(config),
        runs_every_room(config, first_clock, first),
        runs_every_room(config, second_clock, second),
    ensures
        ({
            let a = counters_after(first);
            let b = counters_after(second);
            &&& a.total_actions == b.total_actions
            &&& a.completed_hands == b.completed_hands
            &&& a.completed_rooms == b.completed_rooms
            &&& a.failed_rooms == b.failed_rooms
            &&& a.completed_rooms + a.failed_rooms == config.rooms
        }),
{
    lemma_outcomes_repeat(config, first_clock, second_clock);
    let expected = room_outcomes(config, first_clock);
    let a = outcomes_of(first);
    let b = outcomes_of(second);
    lemma_same_length(a, expected);
    lemma_same_length(b, expected);
    lemma_counters_are_sums(first);
    lemma_counters_are_sums(second);
    lemma_sum_in_any_order(a, b, |outcome: RoomOutcomeModel| actions_told(outcome));
    lemma_sum_in_any_order(a, b, |outcome: RoomOutcomeModel| hands_told(outcome));
    lemma_sum_in_any_order(a, b, |outcome: RoomOutcomeModel| success_told(outcome));
    let successes = sum_told(a, |outcome: RoomOutcomeModel| success_told(outcome));
    lemma_shown_in_full(successes as int);
    lemma_shown_in_full(a.len() - successes);
}

proof fn lemma_all_succeed(outcomes: Seq<RoomOutcomeModel>)
    requires
        forall|i: int| 0 <= i < outcomes.len() ==> success_told(#[trigger] outcomes[i]) == 1,
    ensures
        sum_told(outcomes, |outcome: RoomOutcomeModel| success_told(outcome)) == outcomes.len(),
    decreases outcomes.len(),
{
    if outcomes.len() > 0 {
        let fewer = outcomes.drop_last();
        assert forall|i: int| 0 <= i < fewer.len() implies success_told(#[trigger] fewer[i])
            == 1 by {
            assert(success_told(outcomes[i]) == 1);
        }
        lemma_all_succeed(fewer);
        assert(success_told(outcomes[outcomes.len() - 1]) == 1);
    }
}

/// In a load test in which every room comes back with its report, every room is completed and none
/// has failed.
pub proof fn law_stress_runs_complete_every_room(
    config: LoadTestConfig,
    clock: spec_fn(u64) -> u64,
    steps: Seq<RunStep>,
)
    requires
        is_countable(config),
        runs_every_room(config, clock, steps),
    ensures
        counters_after(steps).completed_rooms == config.rooms,
        counters_after(steps).failed_rooms == 0,
{
    let expected = room_outcomes(config, clock);
    assert forall|room_index: int| 0 <= room_index < expected.len() implies success_told(
        #[trigger] expected[room_index],
    ) == 1 by {
        let index = room_index as u64;
        lemma_rooms_can_simulate(config, index);
        law_full_walls_succeed(
            stress_room(config, index),
            room_spec(config, index),
            clock(index),
        );
    }
    lemma_all_succeed(expected);
    let outcomes = outcomes_of(steps);
    lemma_same_length(outcomes, expected);
    lemma_sum_in_any_order(
        outcomes,
        expected,
        |outcome: RoomOutcomeModel| success_told(outcome),
    );
    lemma_counters_are_sums(steps);
    lemma_shown_in_full(config.rooms as int);
    lemma_shown_in_full(0);
}

} // verus!
