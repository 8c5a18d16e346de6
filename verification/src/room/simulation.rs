//! A match that a room plays by itself from beginning to end.

use vstd::prelude::*;

use crate::collections::{group_seat_map, opt_view, SeatMap};
use crate::proto::client::{GamePhase, RejectCode, Seat, ServerFrameModel, SyncReason, Tile};
use crate::rng::{draw_below, number_below, SeededRng};
use crate::room::basics::group_announcing_keeps;
use crate::room::conservation::{
    hand_tiles, law_discarding_conserves_tiles, law_drawing_conserves_tiles,
    law_start_deals_the_wall,
};
use crate::room::convert::{failure, ActionValidationError, ActionValidationErrorModel};
use crate::room::frames::lemma_synced_keeps;
use crate::room::hand::{private_count, seat_after, seat_at, seat_order};
use crate::room::load_test::{
    lemma_load_discard_keeps, LoadTestRoomResult, LoadTestRoomResultModel, LoadTestRoomSpec,
    LoadTestRoomSpecModel, LoadTestWinnerPolicy, SimulationModel,
};
use crate::room::match_flow::match_settlement_frame;
use crate::room::rounds::{lemma_drawn_keeps, lemma_next_wall_len, lemma_round_started_keeps};
use crate::room::state::{
    DrawSource, MatchRuntimeStateModel, RoomOutput, RoomOutputModel, RoomRuntimeMode, RoomState,
    RoomStateModel, WallFactoryModel, INITIAL_SCORE,
};
use crate::text::concat3;
use crate::tiles::{law_shuffled_wall_is_permutation, standard_wall};

verus! {

broadcast use group_seat_map;

/// A simulation that went on from where another one stopped.
pub open spec fn after_actions(simulation: SimulationModel, actions: nat) -> SimulationModel {
    SimulationModel { actions: simulation.actions + actions, ..simulation }
}

/// Why a simulated hand cannot be left in a phase.
pub open spec fn stuck_in(phase: GamePhase) -> ActionValidationErrorModel {
    if phase == GamePhase::WaitingDiscard {
        failure(
            RejectCode::InternalError,
            "load-test room unexpectedly remained in WaitingDiscard after hand loop"@,
        )
    } else {
        failure(
            RejectCode::InternalError,
            "load-test room entered unexpected phase "@ + phase.name()
                + " during match simulation"@,
        )
    }
}

impl RoomStateModel {
    /// At most so many random discards, as long as somebody has to discard.
    pub open spec fn hand_simulated(self, trace: Seq<u64>, left: nat) -> SimulationModel
        decreases left,
    {
        if left == 0 || self.phase != GamePhase::WaitingDiscard {
            SimulationModel { room: self, trace, actions: 0, error: None }
        } else {
            let seat = self.current_turn_seat;
            let (choice, trace) = self.random_discard(seat, trace);
            match choice {
                Err(error) => SimulationModel { room: self, trace, actions: 0, error: Some(error) },
                Ok((tile, tsumogiri)) => {
                    let (after, result) = self.load_discarded(seat, tile, tsumogiri);
                    match result {
                        Err(error) => SimulationModel {
                            room: after,
                            trace,
                            actions: 0,
                            error: Some(error),
                        },
                        Ok(_) => after_actions(after.hand_simulated(trace, (left - 1) as nat), 1),
                    }
                },
            }
        }
    }

    /// The room with a random winner, where nobody has won or drawn yet.
    pub open spec fn winner_drawn(self, trace: Seq<u64>) -> (RoomStateModel, Seq<u64>) {
        if self.phase == GamePhase::WaitingDiscard {
            (
                self.random_winner_settled(seat_order()[number_below(trace, 4) as int]),
                trace.push(4),
            )
        } else {
            (self, trace)
        }
    }

    /// One hand from its first discard to the start of the next hand or the end of the match.
    pub open spec fn hand_completed(self, trace: Seq<u64>, max_actions: u32, now_ms: u64) -> SimulationModel {
        let played = self.hand_simulated(trace, max_actions as nat);
        if played.error is Some {
            played
        } else {
            let (settled, trace) = played.room.winner_drawn(played.trace);
            if settled.phase == GamePhase::RoundSettlement {
                SimulationModel {
                    room: settled.advanced(self.hand_number, now_ms),
                    trace,
                    ..played
                }
            } else if settled.phase == GamePhase::MatchSettlement {
                SimulationModel { room: settled, trace, ..played }
            } else {
                SimulationModel {
                    room: settled,
                    trace,
                    error: Some(stuck_in(settled.phase)),
                    ..played
                }
            }
        }
    }

    /// At most so many hands, as long as the match is not over.
    pub open spec fn match_simulated(
        self,
        trace: Seq<u64>,
        max_actions: u32,
        now_ms: u64,
        hands: nat,
    ) -> SimulationModel
        decreases hands,
    {
        if hands == 0 || self.phase == GamePhase::MatchSettlement {
            SimulationModel { room: self, trace, actions: 0, error: None }
        } else {
            let hand = self.hand_completed(trace, max_actions, now_ms);
            if hand.error is Some {
                hand
            } else {
                after_actions(
                    hand.room.match_simulated(hand.trace, max_actions, now_ms, (hands - 1) as nat),
                    hand.actions,
                )
            }
        }
    }

    /// A whole match: players who do not exist take their seats and play until it is over.
    #[verifier::opaque]
    pub open spec fn simulated(self, spec: LoadTestRoomSpecModel, now_ms: u64) -> SimulationModel {
        let seated = self.with_load_players(spec.player_base_index).with_total_hands(
            spec.hands_per_match,
        );
        let (started, result) = seated.round_started(seated.next_wall(now_ms));
        match result {
            Err(error) => SimulationModel {
                room: started,
                trace: Seq::empty(),
                actions: 0,
                error: Some(error),
            },
            Ok(_) => started.match_simulated(
                seq![spec.seed],
                spec.max_actions,
                now_ms,
                hands_to_play(spec.hands_per_match),
            ),
        }
    }

    /// The room with another number of hands to play.
    pub open spec fn with_total_hands(self, hands: u32) -> RoomStateModel {
        RoomStateModel {
            match_runtime: MatchRuntimeStateModel { total_hands: hands, ..self.match_runtime },
            ..self
        }
    }

    /// Who leads the final standings.
    pub open spec fn leader_name(self) -> Option<Seq<char>> {
        match self.match_runtime.last_match_settlement {
            Some(summary) => if summary.standings.len() > 0 {
                match Seat::decode(summary.standings[0].seat) {
                    Some(seat) => Some(seat.name()),
                    None => None,
                }
            } else {
                None
            },
            None => None,
        }
    }

    /// The most tiles that a wall of this room has.
    pub open spec fn wall_limit(self) -> nat {
        match self.wall_factory {
            WallFactoryModel::Fixed(tiles) => tiles.len(),
            _ => standard_wall(self.room_config.enable_flower_tiles).len(),
        }
    }

    /// How many discards a simulated hand can have.
    pub open spec fn hand_limit(self, max_actions: u32) -> nat {
        if max_actions <= self.wall_limit() {
            max_actions as nat
        } else {
            self.wall_limit()
        }
    }

    /// Whether a load test can count its discards and its players.
    pub open spec fn can_simulate(self, spec: LoadTestRoomSpecModel) -> bool {
        &&& self.wall_fits()
        &&& spec.player_base_index + 3 <= u64::MAX
        &&& hands_to_play(spec.hands_per_match) * self.hand_limit(spec.max_actions) <= u32::MAX
    }

    /// The room after a load test, and the report of it.
    #[verifier::opaque]
    pub open spec fn load_tested(self, spec: LoadTestRoomSpecModel, now_ms: u64) -> RoomStateModel {
        let (after, report) = if self.runtime_mode is LoadTest {
            let simulation = self.simulated(spec, now_ms);
            (simulation.room, report_of(spec, simulation))
        } else {
            (
                self,
                failed_report(spec, 0, "room is not running in load-test mode"@),
            )
        };
        RoomStateModel {
            should_shutdown: true,
            ..after.with_output(RoomOutputModel::FinishLoadTest(report))
        }
    }
}

/// How many hands a match of so many hands has: the first one is always played.
pub open spec fn hands_to_play(hands_per_match: u32) -> nat {
    if hands_per_match == 0 {
        1
    } else {
        hands_per_match as nat
    }
}

/// The report of a room that failed.
pub open spec fn failed_report(
    spec: LoadTestRoomSpecModel,
    hands_completed: u32,
    reason: Seq<char>,
) -> LoadTestRoomResultModel {
    LoadTestRoomResultModel {
        room_id: spec.room_id,
        room_index: spec.room_index,
        success: false,
        actions_executed: 0,
        hands_completed,
        winner_seat: None,
        failure_reason: Some(reason),
    }
}

/// The report of a simulation.
pub open spec fn report_of(spec: LoadTestRoomSpecModel, simulation: SimulationModel) -> LoadTestRoomResultModel {
    match simulation.error {
        Some(error) => failed_report(
            spec,
            simulation.room.match_runtime.completed_hands,
            error.message,
        ),
        None => LoadTestRoomResultModel {
            room_id: spec.room_id,
            room_index: spec.room_index,
            success: true,
            actions_executed: simulation.actions as u32,
            hands_completed: simulation.room.match_runtime.completed_hands,
            winner_seat: simulation.room.leader_name(),
            failure_reason: None,
        },
    }
}

// ---------------------------------------------------------------------------
// What every simulated step keeps
// ---------------------------------------------------------------------------

impl RoomStateModel {
    /// How many hands may have been settled by now.
    pub open spec fn settled_hands(self) -> int {
        if self.phase == GamePhase::WaitingDiscard {
            self.hand_number - 1
        } else {
            self.hand_number as int
        }
    }

    /// Whether nobody has won, gained or lost more than so many hands allow.
    pub open spec fn tallied_within(self, hands: int) -> bool {
        &&& forall|seat: Seat|
            (#[trigger] self.match_runtime.player_stats.at(seat)) matches Some(tally)
                ==> tally.rounds_won <= hands && tally.self_draw_wins <= hands
        &&& forall|seat: Seat|
            (#[trigger] self.players_by_seat.at(seat)) matches Some(player)
                ==> INITIAL_SCORE - 1000 * hands <= player.score <= INITIAL_SCORE + 3000 * hands
    }

    /// What holds of a room between two steps of a simulation with so many discards so far.
    pub open spec fn in_simulation(self, actions: int) -> bool {
        &&& self.runtime_mode is LoadTest
        &&& self.wall_fits()
        &&& self.dealer_seat != Seat::Unspecified
        &&& self.dealer_streak < self.hand_number
        &&& 1 <= self.hand_number <= hands_to_play(self.match_runtime.total_hands)
        &&& self.tallied_within(self.settled_hands())
        &&& match self.phase {
            GamePhase::WaitingDiscard => {
                &&& self.next_event_seq <= 2 * actions + 4 * self.hand_number - 2
                &&& self.round_runtime is Some
                &&& self.all_can_draw()
                &&& self.current_turn_seat != Seat::Unspecified
            },
            GamePhase::RoundSettlement => self.next_event_seq <= 2 * actions + 4 * self.hand_number - 1,
            GamePhase::MatchSettlement => self.next_event_seq <= 2 * actions + 4 * self.hand_number,
            _ => false,
        }
    }

    /// What holds besides during a hand with so many discards so far.
    pub open spec fn in_hand(self, discards: int) -> bool {
        self.phase == GamePhase::WaitingDiscard ==> {
            &&& self.unplayed().len() + discards <= self.wall_limit()
            &&& self.round_runtime->0.turn_index <= discards
        }
    }
}

/// Whether two rooms agree on what a hand does not change.
pub open spec fn same_match(before: RoomStateModel, after: RoomStateModel) -> bool {
    &&& after.hand_number == before.hand_number
    &&& after.match_runtime.total_hands == before.match_runtime.total_hands
    &&& after.match_runtime.completed_hands == before.match_runtime.completed_hands
    &&& after.wall_factory == before.wall_factory
    &&& after.room_config == before.room_config
    &&& after.runtime_mode == before.runtime_mode
    &&& after.runtime_mode is LoadTest ==> after.outbox == before.outbox
}

/// A load test announces nothing.
proof fn lemma_nothing_sent(room: RoomStateModel, frame: ServerFrameModel)
    requires
        room.runtime_mode is LoadTest,
    ensures
        room.sent_to_all(frame) == room,
{
    reveal(RoomStateModel::sent_to_all);
}

/// A load test sends no snapshots.
proof fn lemma_nothing_synced(room: RoomStateModel, reason: SyncReason, now_ms: u64)
    requires
        room.runtime_mode is LoadTest,
    ensures
        room.synced(reason, now_ms) == room.numbered(),
{
    reveal(RoomStateModel::synced);
}

/// No hand holds more tiles than there are on the table.
pub proof fn lemma_private_tiles(room: RoomStateModel, seat: Seat)
    requires
        seat != Seat::Unspecified,
        room.player_round_state.at(seat) is Some,
    ensures
        private_count(room.player_round_state.at(seat)->0) <= room.unplayed().len(),
{
    reveal(RoomStateModel::unplayed);
    broadcast use vstd::seq_lib::group_to_multiset_ensures;
    let hand = room.player_round_state.at(seat)->0;
    assert(hand.concealed_tiles.to_multiset().len() == hand.concealed_tiles.len());
    assert(private_count(hand) <= hand_tiles(hand).len());
}

/// Passing the turn on keeps all tiles, and either somebody has to discard or the hand is over.
proof fn lemma_turn_passed_on(room: RoomStateModel, seat: Seat)
    requires
        seat != Seat::Unspecified,
        room.round_runtime is Some,
        room.all_can_draw(),
        room.phase == GamePhase::WaitingDiscard,
        room.can_number(1),
    ensures
        ({
            let after = room.turn_passed_on(seat);
            &&& same_match(room, after)
            &&& after.next_event_seq <= room.next_event_seq + 1
            &&& after.phase == GamePhase::WaitingDiscard || after.phase == GamePhase::RoundSettlement
            &&& after.unplayed() == room.unplayed()
            &&& after.all_can_draw()
            &&& after.round_runtime matches Some(runtime) && runtime.turn_index
                == room.round_runtime->0.turn_index
            &&& after.current_turn_seat == seat_after(seat)
            &&& after.players_by_seat == room.players_by_seat
            &&& after.match_runtime.player_stats == room.match_runtime.player_stats
            &&& after.dealer_seat == room.dealer_seat
            &&& after.dealer_streak == room.dealer_streak
        }),
{
    reveal(RoomStateModel::turn_passed_on);
    broadcast use group_announcing_keeps;
    let next = seat_after(seat);
    let turned = RoomStateModel { current_turn_seat: next, ..room }.without_window();
    assert(turned.unplayed() == room.unplayed()) by {
        reveal(RoomStateModel::unplayed);
    }
    assert(turned.can_draw(Seat::East) && turned.can_draw(Seat::South) && turned.can_draw(
        Seat::West,
    ) && turned.can_draw(Seat::North));
    lemma_drawn_keeps(turned, next, DrawSource::LiveWall);
    law_drawing_conserves_tiles(turned, next, DrawSource::LiveWall);
    let drawn = turned.drawn(next, DrawSource::LiveWall).0;
    assert(drawn.can_draw(Seat::East) && drawn.can_draw(Seat::South) && drawn.can_draw(Seat::West)
        && drawn.can_draw(Seat::North));
    let after = room.turn_passed_on(seat);
    if drawn.runtime_mode is LoadTest {
        let ended = drawn.without_window().in_phase(GamePhase::RoundSettlement).with_outcome(
            None,
            false,
        ).numbered();
        let result = drawn.without_window().in_phase(GamePhase::RoundSettlement).with_outcome(
            None,
            false,
        ).drawn_game_result();
        lemma_nothing_sent(ended, ended.settlement_frame(drawn.next_event_seq, result));
    }
    assert(after.unplayed() == drawn.unplayed()) by {
        reveal(RoomStateModel::unplayed);
    }
    assert(after.player_round_state == drawn.player_round_state);
}

/// A simulated discard keeps what a simulation needs, and brings the hand nearer to its end.
pub proof fn lemma_simulated_discard(
    room: RoomStateModel,
    tile: Tile,
    tsumogiri: bool,
    actions: int,
    discards: int,
)
    requires
        0 <= discards <= actions,
        actions <= u32::MAX,
        room.in_simulation(actions),
        room.phase == GamePhase::WaitingDiscard,
        room.in_hand(discards),
        room.round_runtime->0.turn_index < u32::MAX,
    ensures
        room.can_number(2),
        ({
            let (after, result) = room.load_discarded(room.current_turn_seat, tile, tsumogiri);
            &&& same_match(room, after)
            &&& result is Ok ==> after.in_simulation(actions + 1) && after.in_hand(discards + 1)
                && room.unplayed().len() > 0 && (after.phase == GamePhase::WaitingDiscard
                || after.phase == GamePhase::RoundSettlement)
            &&& result is Err ==> after == room
        }),
{
    reveal(RoomStateModel::load_discarded);
    let seat = room.current_turn_seat;
    assert(room.can_draw(seat));
    lemma_load_discard_keeps(room, seat, tile, tsumogiri);
    let (taken, result) = room.discarded(seat, tile, tsumogiri);
    if result is Ok {
        law_discarding_conserves_tiles(room, seat, tile, tsumogiri);
        assert(room.unplayed().len() == taken.unplayed().len() + 1);
        let event_seq = taken.next_event_seq;
        let noted = taken.numbered().with_discard_bound(seat, event_seq).with_last_action(
            crate::room::state::ResolvedActionRecord {
                event_seq,
                actor_seat: seat,
                action_kind: crate::proto::client::ActionKind::Discard,
                tile: Some(tile),
                replacement_draw: false,
                rob_kong_candidate: false,
            },
        );
        assert(noted.unplayed() == taken.unplayed()) by {
            reveal(RoomStateModel::unplayed);
        }
        assert(taken.can_draw(Seat::East) && taken.can_draw(Seat::South) && taken.can_draw(
            Seat::West,
        ) && taken.can_draw(Seat::North));
        assert(noted.can_draw(Seat::East) && noted.can_draw(Seat::South) && noted.can_draw(
            Seat::West,
        ) && noted.can_draw(Seat::North));
        lemma_turn_passed_on(noted, seat);
        let after = noted.turn_passed_on(seat);
        assert(after.tallied_within(after.settled_hands()));
    }
}

/// A random winner keeps what a simulation needs.
pub proof fn lemma_simulated_winner(room: RoomStateModel, winner: Seat, actions: int)
    requires
        winner != Seat::Unspecified,
        0 <= actions <= u32::MAX,
        room.in_simulation(actions),
        room.phase == GamePhase::WaitingDiscard,
    ensures
        room.can_pay(),
        room.can_number(1),
        room.can_tally(Some(winner)),
        same_match(room, room.random_winner_settled(winner)),
        room.random_winner_settled(winner).in_simulation(actions),
        room.random_winner_settled(winner).phase == GamePhase::RoundSettlement,
{
    reveal(RoomStateModel::random_winner_settled);
    assert(room.can_pay()) by {
        reveal(SeatMap::at);
        assert(room.players_by_seat.at(Seat::East) == room.players_by_seat.east);
        assert(room.players_by_seat.at(Seat::South) == room.players_by_seat.south);
        assert(room.players_by_seat.at(Seat::West) == room.players_by_seat.west);
        assert(room.players_by_seat.at(Seat::North) == room.players_by_seat.north);
    }
    let after = room.random_winner_settled(winner);
    assert forall|seat: Seat|
        (#[trigger] after.players_by_seat.at(seat)) is Some implies INITIAL_SCORE - 1000
        * room.hand_number <= after.players_by_seat.at(seat)->0.score <= INITIAL_SCORE + 3000
        * room.hand_number by {
        assert(room.players_by_seat.at(seat) == room.players_by_seat.at(seat));
        reveal(SeatMap::at);
    }
    assert forall|seat: Seat|
        (#[trigger] after.match_runtime.player_stats.at(seat)) is Some implies (
    after.match_runtime.player_stats.at(seat)->0.rounds_won <= room.hand_number
        && after.match_runtime.player_stats.at(seat)->0.self_draw_wins <= room.hand_number) by {
        assert(room.match_runtime.player_stats.at(seat) == room.match_runtime.player_stats.at(seat));
        assert(room.match_runtime.player_stats.at(winner) == room.match_runtime.player_stats.at(winner));
    }
}

/// The wall of the next hand is no longer than the room allows.
pub proof fn lemma_wall_within_limit(room: RoomStateModel, now_ms: u64)
    requires
        room.wall_fits(),
    ensures
        room.next_wall(now_ms).len() == room.wall_limit(),
        room.wall_limit() <= u32::MAX,
{
    lemma_next_wall_len(room, now_ms);
    law_shuffled_wall_is_permutation(
        room.room_config.enable_flower_tiles,
        room.room_id,
        room.hand_number,
        now_ms,
    );
    if let WallFactoryModel::Seeded(seed) = room.wall_factory {
        law_shuffled_wall_is_permutation(
            room.room_config.enable_flower_tiles,
            room.room_id,
            room.hand_number,
            seed,
        );
    }
}

/// Starting a hand, where it succeeds, brings a room into the state that its discards need.
pub proof fn lemma_simulated_start(room: RoomStateModel, now_ms: u64)
    requires
        room.wall_fits(),
        room.dealer_seat != Seat::Unspecified,
    ensures
        ({
            let (after, result) = room.round_started(room.next_wall(now_ms));
            &&& same_match(room, after)
            &&& after.next_event_seq <= room.next_event_seq + 1
            &&& after.match_runtime == room.match_runtime
            &&& after.dealer_seat == room.dealer_seat
            &&& after.dealer_streak == room.dealer_streak
            &&& forall|seat: Seat|
                (#[trigger] after.players_by_seat.at(seat)) matches Some(player)
                    ==> room.players_by_seat.at(seat) matches Some(before) && before.score
                    == player.score
            &&& result is Ok ==> {
                &&& after.phase == GamePhase::WaitingDiscard
                &&& after.round_runtime is Some
                &&& after.all_can_draw()
                &&& after.current_turn_seat == room.dealer_seat
                &&& after.in_hand(0)
            }
        }),
{
    let wall = room.next_wall(now_ms);
    lemma_wall_within_limit(room, now_ms);
    lemma_round_started_keeps(room, wall);
    let (after, result) = room.round_started(wall);
    if result is Ok {
        law_start_deals_the_wall(room, wall);
        broadcast use vstd::seq_lib::group_to_multiset_ensures;
        assert(after.unplayed().len() == wall.len());
    }
    assert forall|seat: Seat|
        (#[trigger] after.players_by_seat.at(seat)) is Some implies (room.players_by_seat.at(
        seat,
    ) matches Some(before) && before.score == after.players_by_seat.at(seat)->0.score) by {
        reveal(SeatMap::at);
    }
}

/// Moving on from a settled hand keeps what a simulation needs.
pub proof fn lemma_simulated_advance(room: RoomStateModel, now_ms: u64, actions: int)
    requires
        0 <= actions <= u32::MAX,
        room.in_simulation(actions),
        room.phase == GamePhase::RoundSettlement,
    ensures
        room.can_number(2),
        room.dealer_streak < u32::MAX,
        ({
            let after = room.advanced(room.hand_number, now_ms);
            &&& after.in_simulation(actions)
            &&& after.in_hand(0)
            &&& after.outbox == room.outbox
            &&& after.match_runtime.total_hands == room.match_runtime.total_hands
            &&& after.wall_factory == room.wall_factory
            &&& after.room_config == room.room_config
            &&& after.phase == GamePhase::MatchSettlement || after.hand_number == room.hand_number + 1
            &&& after.phase == GamePhase::MatchSettlement ==> after.hand_number == room.hand_number
                && after.match_runtime.completed_hands == hands_to_play(
                room.match_runtime.total_hands,
            )
        }),
{
    reveal(RoomStateModel::advanced);
    broadcast use {group_announcing_keeps, lemma_synced_keeps};
    let transition = room.transition(room.hand_number);
    let counted = room.with_completed(room.hand_number);
    if transition.match_finished {
        let ended = counted.in_phase(GamePhase::MatchSettlement);
        let summary = ended.match_summary(now_ms);
        lemma_nothing_sent(
            ended.numbered(),
            match_settlement_frame(room.room_id, room.match_id, summary),
        );
    } else {
        let next = counted.moved_on(transition);
        lemma_simulated_start(next, now_ms);
        let (started, result) = next.round_started(next.next_wall(now_ms));
        lemma_nothing_synced(started, SyncReason::RoundStart, now_ms);
        let after = room.advanced(room.hand_number, now_ms);
        assert(after.unplayed() == started.unplayed()) by {
            reveal(RoomStateModel::unplayed);
        }
        if result is Ok {
            assert(started.can_draw(Seat::East) && started.can_draw(Seat::South)
                && started.can_draw(Seat::West) && started.can_draw(Seat::North));
        }
        assert(after.players_by_seat == started.players_by_seat);
        assert forall|seat: Seat|
            (#[trigger] after.players_by_seat.at(seat)) is Some implies INITIAL_SCORE - 1000
            * room.hand_number <= after.players_by_seat.at(seat)->0.score <= INITIAL_SCORE + 3000
            * room.hand_number by {
            assert(room.players_by_seat.at(seat) == next.players_by_seat.at(seat));
        }
    }
}

impl RoomState {
    /// Discards at random, at most so often, as long as somebody has to discard.
    fn simulate_hand(
        &mut self,
        rng: &mut SeededRng,
        max_actions: u32,
        actions_before: u32,
    ) -> (r: Result<u32, ActionValidationError>)
        requires
            old(self)@.in_simulation(actions_before as int),
            old(self)@.in_hand(0),
            actions_before + old(self)@.hand_limit(max_actions) <= u32::MAX,
        ensures
            ({
                let simulation = old(self)@.hand_simulated(
                    old(rng).history(),
                    max_actions as nat,
                );
                &&& final(self)@ == simulation.room
                &&& final(rng).history() == simulation.trace
                &&& match r {
                    Ok(actions) => simulation.error is None && actions == simulation.actions,
                    Err(error) => simulation.error == Some(error@),
                }
            }),
            same_match(old(self)@, final(self)@),
            r matches Ok(actions) ==> actions <= old(self)@.hand_limit(max_actions)
                && final(self)@.in_simulation(actions_before + actions)
                && (final(self)@.phase == old(self)@.phase || final(self)@.phase
                == GamePhase::RoundSettlement),
    {
        let ghost start = self@;
        let ghost trace = rng.history();
        let mut actions: u32 = 0;
        proof {
            lemma_wall_within_limit(self@, 0);
            assert(after_actions(start.hand_simulated(trace, max_actions as nat), 0)
                =~= start.hand_simulated(trace, max_actions as nat));
        }
        while actions < max_actions && self.phase == GamePhase::WaitingDiscard
            invariant
                actions <= start.hand_limit(max_actions),
                actions_before + start.hand_limit(max_actions) <= u32::MAX,
                start == old(self)@,
                trace == old(rng).history(),
                start.wall_limit() <= u32::MAX,
                same_match(start, self@),
                self@.in_simulation(actions_before + actions),
                self@.in_hand(actions as int),
                self@.phase == start.phase || self@.phase == GamePhase::RoundSettlement,
                after_actions(
                    self@.hand_simulated(rng.history(), (max_actions - actions) as nat),
                    actions as nat,
                ) == start.hand_simulated(trace, max_actions as nat),
            decreases max_actions - actions,
        {
            let seat = self.current_turn_seat;
            proof {
                assert(self@.can_draw(seat));
                lemma_private_tiles(self@, seat);
            }
            let ghost room = self@;
            match self.pick_random_load_test_discard(seat, rng) {
                Err(error) => {
                    return Err(error);
                },
                Ok((tile, tsumogiri)) => {
                    proof {
                        lemma_simulated_discard(
                            room,
                            tile,
                            tsumogiri,
                            actions_before + actions,
                            actions as int,
                        );
                        assert(room.can_draw(seat_after(seat)));
                    }
                    match self.apply_load_test_discard(seat, tile, tsumogiri) {
                        Err(error) => {
                            return Err(error);
                        },
                        Ok(_) => {
                            proof {
                                let rest = self@.hand_simulated(
                                    rng.history(),
                                    (max_actions - actions - 1) as nat,
                                );
                                assert(after_actions(after_actions(rest, 1), actions as nat)
                                    =~= after_actions(rest, (actions + 1) as nat));
                            }
                        },
                    }
                    actions = actions + 1;
                },
            }
        }
        Ok(actions)
    }

    /// Lets a seat win that chance picks, where the hand is not over.
    fn draw_winner(
        &mut self,
        rng: &mut SeededRng,
        winner_policy: LoadTestWinnerPolicy,
        actions: Ghost<int>,
    )
        requires
            0 <= actions@ <= u32::MAX,
            old(self)@.in_simulation(actions@),
        ensures
            (final(self)@, final(rng).history()) == old(self)@.winner_drawn(old(rng).history()),
            final(self)@.in_simulation(actions@),
            final(self)@.phase == if old(self)@.phase == GamePhase::WaitingDiscard {
                GamePhase::RoundSettlement
            } else {
                old(self)@.phase
            },
            same_match(old(self)@, final(self)@),
    {
        if self.phase == GamePhase::WaitingDiscard {
            let winner_seat: Seat = match winner_policy {
                LoadTestWinnerPolicy::Random => {
                    let index: u64 = draw_below(rng, 4);
                    seat_at(index as usize)
                },
            };
            proof {
                lemma_simulated_winner(self@, winner_seat, actions@);
            }
            self.settle_load_test_random_winner(winner_seat);
        }
    }

    /// Plays one hand and moves on to the next one, or to the end of the match.
    fn complete_hand(
        &mut self,
        rng: &mut SeededRng,
        max_actions: u32,
        winner_policy: LoadTestWinnerPolicy,
        actions_before: u32,
        now_ms: u64,
    ) -> (r: Result<u32, ActionValidationError>)
        requires
            old(self)@.in_simulation(actions_before as int),
            old(self)@.in_hand(0),
            old(self)@.phase != GamePhase::MatchSettlement,
            actions_before + old(self)@.hand_limit(max_actions) <= u32::MAX,
        ensures
            ({
                let simulation = old(self)@.hand_completed(
                    old(rng).history(),
                    max_actions,
                    now_ms,
                );
                &&& final(self)@ == simulation.room
                &&& final(rng).history() == simulation.trace
                &&& match r {
                    Ok(actions) => simulation.error is None && actions == simulation.actions,
                    Err(error) => simulation.error == Some(error@),
                }
            }),
            final(self)@.outbox == old(self)@.outbox,
            r matches Ok(actions) ==> {
                &&& actions <= old(self)@.hand_limit(max_actions)
                &&& final(self)@.in_simulation(actions_before + actions)
                &&& final(self)@.in_hand(0)
                &&& final(self)@.match_runtime.total_hands
                    == old(self)@.match_runtime.total_hands
                &&& final(self)@.wall_factory == old(self)@.wall_factory
                &&& final(self)@.room_config == old(self)@.room_config
                &&& final(self)@.phase == GamePhase::MatchSettlement || final(self)@.hand_number
                    == old(self)@.hand_number + 1
                &&& final(self)@.phase == GamePhase::MatchSettlement
                    ==> final(self)@.match_runtime.completed_hands == hands_to_play(
                    old(self)@.match_runtime.total_hands,
                )
            },
    {
        let settled_hand_number: u32 = self.hand_number;
        let actions: u32 = match self.simulate_hand(rng, max_actions, actions_before) {
            Err(error) => {
                return Err(error);
            },
            Ok(actions) => actions,
        };
        self.draw_winner(rng, winner_policy, Ghost(actions_before + actions));
        match self.phase {
            GamePhase::RoundSettlement => {
                proof {
                    lemma_simulated_advance(self@, now_ms, actions_before + actions);
                }
                self.advance_after_round_settlement(settled_hand_number, now_ms);
                Ok(actions)
            },
            GamePhase::MatchSettlement => Ok(actions),
            GamePhase::WaitingDiscard => Err(
                ActionValidationError::new(
                    RejectCode::InternalError,
                    "load-test room unexpectedly remained in WaitingDiscard after hand loop",
                ),
            ),
            other => Err(
                ActionValidationError {
                    reject_code: RejectCode::InternalError,
                    message: concat3(
                        "load-test room entered unexpected phase ",
                        other.as_str_name(),
                        " during match simulation",
                    ),
                },
            ),
        }
    }

    /// Plays hands until the match is over.
    fn simulate_match(
        &mut self,
        rng: &mut SeededRng,
        max_actions: u32,
        winner_policy: LoadTestWinnerPolicy,
        now_ms: u64,
    ) -> (r: Result<u32, ActionValidationError>)
        requires
            old(self)@.in_simulation(0),
            old(self)@.in_hand(0),
            old(self)@.phase == GamePhase::WaitingDiscard,
            old(self)@.hand_number == 1,
            hands_to_play(old(self)@.match_runtime.total_hands) * old(self)@.hand_limit(max_actions)
                <= u32::MAX,
        ensures
            ({
                let simulation = old(self)@.match_simulated(
                    old(rng).history(),
                    max_actions,
                    now_ms,
                    hands_to_play(old(self)@.match_runtime.total_hands),
                );
                &&& final(self)@ == simulation.room
                &&& match r {
                    Ok(actions) => simulation.error is None && actions == simulation.actions,
                    Err(error) => simulation.error == Some(error@),
                }
            }),
            final(self)@.outbox == old(self)@.outbox,
            r is Ok ==> final(self)@.phase == GamePhase::MatchSettlement
                && final(self)@.match_runtime.completed_hands == hands_to_play(
                old(self)@.match_runtime.total_hands,
            ),
    {
        let ghost start = self@;
        let ghost trace = rng.history();
        let ghost hands = hands_to_play(self@.match_runtime.total_hands);
        let ghost limit = self@.hand_limit(max_actions);
        let mut actions: u32 = 0;
        proof {
            assert(after_actions(start.match_simulated(trace, max_actions, now_ms, hands), 0)
                =~= start.match_simulated(trace, max_actions, now_ms, hands));
        }
        while self.phase != GamePhase::MatchSettlement
            invariant
                start == old(self)@,
                trace == old(rng).history(),
                hands == hands_to_play(start.match_runtime.total_hands),
                limit == start.hand_limit(max_actions),
                hands * limit <= u32::MAX,
                self@.match_runtime.total_hands == start.match_runtime.total_hands,
                self@.wall_factory == start.wall_factory,
                self@.room_config == start.room_config,
                self@.outbox == start.outbox,
                self@.in_simulation(actions as int),
                self@.in_hand(0),
                self@.phase != GamePhase::MatchSettlement ==> actions <= (self@.hand_number - 1)
                    * limit,
                self@.phase == GamePhase::MatchSettlement
                    ==> self@.match_runtime.completed_hands == hands,
                after_actions(
                    self@.match_simulated(
                        rng.history(),
                        max_actions,
                        now_ms,
                        (hands + 1 - self@.hand_number) as nat,
                    ),
                    actions as nat,
                ) == start.match_simulated(trace, max_actions, now_ms, hands) || (self@.phase
                    == GamePhase::MatchSettlement && start.match_simulated(
                    trace,
                    max_actions,
                    now_ms,
                    hands,
                ) == (SimulationModel {
                    room: self@,
                    trace: rng.history(),
                    actions: actions as nat,
                    error: None,
                })),
            decreases
                    (if self@.phase == GamePhase::MatchSettlement {
                        0int
                    } else {
                        hands + 1 - self@.hand_number
                    }),
        {
            let ghost room = self@;
            let ghost before = rng.history();
            let ghost left = (hands + 1 - room.hand_number) as nat;
            proof {
                assert((room.hand_number - 1) * limit + limit == room.hand_number * limit)
                    by (nonlinear_arith);
                assert(room.hand_number * limit <= hands * limit) by (nonlinear_arith)
                    requires
                        room.hand_number <= hands,
                        limit >= 0,
                ;
                assert(room.hand_limit(max_actions) == limit);
            }
            match self.complete_hand(rng, max_actions, winner_policy, actions, now_ms) {
                Err(error) => {
                    return Err(error);
                },
                Ok(played) => {
                    proof {
                        let hand = room.hand_completed(before, max_actions, now_ms);
                        let rest = hand.room.match_simulated(
                            hand.trace,
                            max_actions,
                            now_ms,
                            (left - 1) as nat,
                        );
                        assert(room.match_simulated(before, max_actions, now_ms, left)
                            == after_actions(rest, hand.actions));
                        assert(after_actions(after_actions(rest, hand.actions), actions as nat)
                            =~= after_actions(rest, (actions + played) as nat));
                    }
                    actions = actions + played;
                },
            }
        }
        Ok(actions)
    }

    /// Plays a whole match at random between players who do not exist.
    pub fn run_load_test_room(&mut self, spec: &LoadTestRoomSpec, now_ms: u64) -> (r: Result<
        LoadTestRoomResult,
        ActionValidationError,
    >)
        requires
            old(self)@.runtime_mode is LoadTest,
            old(self)@.can_simulate(spec@),
        ensures
            ({
                let simulation = old(self)@.simulated(spec@, now_ms);
                &&& final(self)@ == simulation.room
                &&& match r {
                    Ok(report) => simulation.error is None && report@ == report_of(
                        spec@,
                        simulation,
                    ),
                    Err(error) => simulation.error == Some(error@),
                }
            }),
            final(self)@.outbox == old(self)@.outbox,
            r matches Ok(report) ==> report.hands_completed == hands_to_play(spec.hands_per_match)
                && final(self)@.phase == GamePhase::MatchSettlement,
    {
        reveal(RoomStateModel::simulated);
        self.initialize_load_test_players(spec.player_base_index);
        self.match_runtime.total_hands = spec.hands_per_match;
        proof {
            lemma_load_players(old(self)@, spec@);
            lemma_simulated_start(self@, now_ms);
        }
        match self.start_round(now_ms) {
            Err(error) => {
                return Err(error);
            },
            Ok(_) => {},
        }
        let mut rng = SeededRng::new(spec.seed);
        match self.simulate_match(&mut rng, spec.max_actions, spec.winner_policy, now_ms) {
            Err(error) => Err(error),
            Ok(actions_executed) => Ok(
                LoadTestRoomResult {
                    room_id: spec.room_id.clone(),
                    room_index: spec.room_index,
                    success: true,
                    actions_executed,
                    hands_completed: self.match_runtime.completed_hands,
                    winner_seat: self.leading_seat_name(),
                    failure_reason: None,
                },
            ),
        }
    }

    fn leading_seat_name(&self) -> (r: Option<String>)
        ensures
            opt_view(r) == self@.leader_name(),
    {
        match self.match_runtime.last_match_settlement.as_ref() {
            Some(summary) => if summary.standings.len() > 0 {
                match Seat::from_i32(summary.standings[0].seat) {
                    Some(seat) => Some(String::from_str(seat.as_str_name())),
                    None => None,
                }
            } else {
                None
            },
            None => None,
        }
    }

    /// Runs a load test in this room, reports how it went, and ends the room.
    pub fn handle_load_test_room(&mut self, spec: LoadTestRoomSpec, now_ms: u64)
        requires
            old(self)@.runtime_mode is LoadTest ==> old(self)@.can_simulate(spec@),
        ensures
            final(self)@ == old(self)@.load_tested(spec@, now_ms),
            exists|report: LoadTestRoomResultModel|
                final(self)@.outbox == #[trigger] old(self)@.outbox.push(
                    RoomOutputModel::FinishLoadTest(report),
                ),
    {
        reveal(RoomStateModel::load_tested);
        let report = if self.runtime_mode != RoomRuntimeMode::LoadTest {
            LoadTestRoomResult {
                room_id: spec.room_id,
                room_index: spec.room_index,
                success: false,
                actions_executed: 0,
                hands_completed: 0,
                winner_seat: None,
                failure_reason: Some(String::from_str("room is not running in load-test mode")),
            }
        } else {
            match self.run_load_test_room(&spec, now_ms) {
                Ok(report) => report,
                Err(error) => LoadTestRoomResult {
                    room_id: spec.room_id,
                    room_index: spec.room_index,
                    success: false,
                    actions_executed: 0,
                    hands_completed: self.match_runtime.completed_hands,
                    winner_seat: None,
                    failure_reason: Some(error.message),
                },
            }
        };
        self.push_output(RoomOutput::FinishLoadTest(report));
        self.should_shutdown = true;
    }
}

/// What a room is like when the players of a load test have taken their seats.
pub proof fn lemma_load_players(room: RoomStateModel, spec: LoadTestRoomSpecModel)
    requires
        room.can_simulate(spec),
    ensures
        ({
            let seated = room.with_load_players(spec.player_base_index).with_total_hands(
                spec.hands_per_match,
            );
            &&& seated.wall_fits()
            &&& seated.dealer_seat == Seat::East
            &&& seated.next_event_seq == 1
            &&& seated.hand_number == 1
            &&& seated.dealer_streak == 0
            &&& seated.runtime_mode == room.runtime_mode
            &&& seated.wall_factory == room.wall_factory
            &&& seated.room_config == room.room_config
            &&& seated.match_runtime.total_hands == spec.hands_per_match
            &&& seated.tallied_within(0)
            &&& seated.outbox == room.outbox
        }),
{
    reveal(RoomStateModel::with_load_players);
    reveal(SeatMap::at);
}

// ---------------------------------------------------------------------------
// A load test can be repeated
// ---------------------------------------------------------------------------

/// A simulated hand keeps what a simulation needs.
pub proof fn lemma_hand_simulated(
    room: RoomStateModel,
    trace: Seq<u64>,
    left: nat,
    actions: int,
    discards: int,
)
    requires
        0 <= discards <= actions,
        discards + left <= u32::MAX,
        room.in_simulation(actions),
        room.in_hand(discards),
        room.phase != GamePhase::MatchSettlement,
        actions + left <= u32::MAX || actions - discards + room.wall_limit() <= u32::MAX,
        actions <= u32::MAX,
    ensures
        ({
            let played = room.hand_simulated(trace, left);
            &&& same_match(room, played.room)
            &&& played.error is None ==> {
                &&& played.room.in_simulation(actions + played.actions)
                &&& played.room.phase != GamePhase::MatchSettlement
                &&& played.actions == 0 || discards + played.actions <= room.wall_limit()
                &&& played.actions <= left
            }
        }),
    decreases left,
{
    if left > 0 && room.phase == GamePhase::WaitingDiscard {
        let (choice, next) = room.random_discard(room.current_turn_seat, trace);
        if let Ok((tile, tsumogiri)) = choice {
            lemma_simulated_discard(room, tile, tsumogiri, actions, discards);
            let (after, result) = room.load_discarded(room.current_turn_seat, tile, tsumogiri);
            if result is Ok {
                lemma_hand_simulated(after, next, (left - 1) as nat, actions + 1, discards + 1);
            }
        }
    }
}

/// In a load test whose walls do not depend on the clock, the clock only dates the result.
proof fn lemma_advance_ignores_clock(room: RoomStateModel, first_ms: u64, second_ms: u64)
    requires
        room.runtime_mode is LoadTest,
        !(room.wall_factory is Shuffled),
        room.wall_fits(),
        room.dealer_seat != Seat::Unspecified,
    ensures
        ({
            let first = room.advanced(room.hand_number, first_ms);
            let second = room.advanced(room.hand_number, second_ms);
            &&& first.phase != GamePhase::MatchSettlement ==> second == first
            &&& second.phase == first.phase
            &&& second.leader_name() == first.leader_name()
            &&& second.match_runtime.completed_hands == first.match_runtime.completed_hands
        }),
{
    reveal(RoomStateModel::advanced);
    reveal(RoomStateModel::synced);
    broadcast use group_announcing_keeps;
    if room.phase == GamePhase::RoundSettlement {
        let transition = room.transition(room.hand_number);
        let counted = room.with_completed(room.hand_number);
        if !transition.match_finished {
            let next = counted.moved_on(transition);
            assert(next.next_wall(first_ms) == next.next_wall(second_ms));
            lemma_next_wall_len(next, first_ms);
            lemma_round_started_keeps(next, next.next_wall(first_ms));
        }
    }
}

proof fn lemma_match_ignores_clock(
    room: RoomStateModel,
    trace: Seq<u64>,
    max_actions: u32,
    first_ms: u64,
    second_ms: u64,
    hands: nat,
    actions: int,
)
    requires
        room.in_simulation(actions),
        room.in_hand(0),
        !(room.wall_factory is Shuffled),
        0 <= actions,
        actions + hands * room.hand_limit(max_actions) <= u32::MAX,
        room.wall_limit() <= u32::MAX,
    ensures
        ({
            let first = room.match_simulated(trace, max_actions, first_ms, hands);
            let second = room.match_simulated(trace, max_actions, second_ms, hands);
            &&& second.error == first.error
            &&& second.actions == first.actions
            &&& second.room.leader_name() == first.room.leader_name()
            &&& second.room.match_runtime.completed_hands == first.room.match_runtime.completed_hands
        }),
    decreases hands,
{
    if hands > 0 && room.phase != GamePhase::MatchSettlement {
        let limit = room.hand_limit(max_actions);
        assert(hands * limit == limit + (hands - 1) * limit) by (nonlinear_arith)
            requires
                hands > 0,
        ;
        assert((hands - 1) * limit >= 0) by (nonlinear_arith)
            requires
                hands > 0,
                limit >= 0,
        ;
        lemma_hand_simulated(room, trace, max_actions as nat, actions, 0);
        let played = room.hand_simulated(trace, max_actions as nat);
        if played.error is None {
            if played.room.phase == GamePhase::WaitingDiscard {
                let winner = seat_order()[number_below(played.trace, 4) as int];
                lemma_simulated_winner(played.room, winner, actions + played.actions);
            }
            let (settled, next) = played.room.winner_drawn(played.trace);
            lemma_simulated_advance(settled, first_ms, actions + played.actions);
            lemma_advance_ignores_clock(settled, first_ms, second_ms);
            let after = settled.advanced(room.hand_number, first_ms);
            let other = settled.advanced(room.hand_number, second_ms);
            if after.phase != GamePhase::MatchSettlement {
                lemma_match_ignores_clock(
                    after,
                    next,
                    max_actions,
                    first_ms,
                    second_ms,
                    (hands - 1) as nat,
                    actions + played.actions,
                );
            } else {
                assert(after.match_simulated(next, max_actions, first_ms, (hands - 1) as nat).room
                    == after);
                assert(other.match_simulated(next, max_actions, second_ms, (hands - 1) as nat).room
                    == other);
            }
        }
    }
}

/// A load test gives the same report whenever it is run, where its walls come from a seed or are
/// fixed: the clock has no part in it.
pub proof fn law_load_test_repeats(
    room: RoomStateModel,
    spec: LoadTestRoomSpecModel,
    first_ms: u64,
    second_ms: u64,
)
    requires
        room.runtime_mode is LoadTest,
        !(room.wall_factory is Shuffled),
        room.can_simulate(spec),
    ensures
        report_of(spec, room.simulated(spec, first_ms)) == report_of(
            spec,
            room.simulated(spec, second_ms),
        ),
{
    reveal(RoomStateModel::simulated);
    let seated = room.with_load_players(spec.player_base_index).with_total_hands(
        spec.hands_per_match,
    );
    lemma_load_players(room, spec);
    lemma_simulated_start(seated, first_ms);
    assert(seated.next_wall(first_ms) == seated.next_wall(second_ms));
    let (started, result) = seated.round_started(seated.next_wall(first_ms));
    if result is Ok {
        lemma_wall_within_limit(started, first_ms);
        lemma_match_ignores_clock(
            started,
            seq![spec.seed],
            spec.max_actions,
            first_ms,
            second_ms,
            hands_to_play(spec.hands_per_match),
            0,
        );
    }
}

} // verus!
