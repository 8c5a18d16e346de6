//! A load test with full walls always succeeds.

use vstd::prelude::*;

use crate::collections::group_seat_map;
use crate::proto::client::{ActionKind, GamePhase, Seat, Tile};
use crate::rng::number_below;
use crate::room::basics::group_announcing_keeps;
use crate::room::conservation::{
    law_discarding_conserves_tiles, law_drawing_conserves_tiles, law_start_deals_the_wall,
    lemma_hand_after_discard,
};
use crate::room::frames::lemma_synced_keeps;
use crate::room::hand::{
    hand_after_discard, lemma_first_place, private_count, seat_after, seat_order,
};
use crate::room::load_test::{lemma_load_discard_keeps, LoadTestRoomSpecModel};
use crate::room::rounds::lemma_drawn_keeps;
use crate::room::simulation::{
    hands_to_play, lemma_hand_simulated, lemma_load_players, lemma_private_tiles,
    lemma_simulated_advance, lemma_simulated_discard, lemma_simulated_start, lemma_simulated_winner,
    lemma_wall_within_limit, report_of,
};
use crate::room::state::{DrawSource, ResolvedActionRecord, RoomStateModel, WallFactoryModel};
use crate::room::stock::{is_full_wall, law_full_walls_start_hands, lemma_draw_comes, only_flowers};
use crate::tiles::law_shuffled_wall_is_permutation;

verus! {

broadcast use {group_seat_map, group_announcing_keeps, lemma_synced_keeps};

impl RoomStateModel {
    /// Whether the walls that are laid for this room are full ones, in whatever order.
    pub open spec fn lays_full_walls(self) -> bool {
        self.wall_factory matches WallFactoryModel::Fixed(tiles) ==> is_full_wall(
            tiles,
            self.room_config.enable_flower_tiles,
        )
    }

    /// Whether somebody has drawn and everybody else has not, and no flower waits for a replacement.
    #[verifier::opaque]
    pub open spec fn plays_well(self) -> bool {
        &&& self.stocked(0)
        &&& self.current_turn_seat != Seat::Unspecified
        &&& forall|seat: Seat|
            seat != Seat::Unspecified ==> ((#[trigger] self.player_round_state.at(seat)) matches Some(
                hand,
            ) && (hand.drawn_tile is Some <==> seat == self.current_turn_seat))
    }
}

proof fn lemma_next_wall_is_full(room: RoomStateModel, now_ms: u64)
    requires
        room.lays_full_walls(),
    ensures
        is_full_wall(room.next_wall(now_ms), room.room_config.enable_flower_tiles),
{
    let flowers = room.room_config.enable_flower_tiles;
    law_shuffled_wall_is_permutation(flowers, room.room_id, room.hand_number, now_ms);
    if let WallFactoryModel::Seeded(seed) = room.wall_factory {
        law_shuffled_wall_is_permutation(flowers, room.room_id, room.hand_number, seed);
    }
}

/// A hand of a load test starts well.
proof fn lemma_starts_well(room: RoomStateModel, now_ms: u64)
    requires
        room.lays_full_walls(),
        room.wall_fits(),
        room.dealer_seat != Seat::Unspecified,
    ensures
        room.round_started(room.next_wall(now_ms)).1 is Ok,
        room.round_started(room.next_wall(now_ms)).0.plays_well(),
{
    let wall = room.next_wall(now_ms);
    lemma_next_wall_is_full(room, now_ms);
    lemma_wall_within_limit(room, now_ms);
    law_full_walls_start_hands(room, wall);
    law_start_deals_the_wall(room, wall);
    lemma_simulated_start(room, now_ms);
    reveal(RoomStateModel::plays_well);
}

/// Whoever has drawn has a tile to discard, and the one picked is there.
proof fn lemma_pick_is_there(room: RoomStateModel, trace: Seq<u64>)
    requires
        room.plays_well(),
        room.unplayed().len() <= u32::MAX,
    ensures
        room.random_discard(room.current_turn_seat, trace).0 matches Ok((tile, tsumogiri))
            && hand_after_discard(
            room.player_round_state.at(room.current_turn_seat)->0,
            tile,
            tsumogiri,
        ) is Ok,
{
    reveal(RoomStateModel::plays_well);
    let seat = room.current_turn_seat;
    let hand = room.player_round_state.at(seat)->0;
    assert(room.player_round_state.at(seat) is Some && hand.drawn_tile is Some);
    lemma_private_tiles(room, seat);
    let choices = private_count(hand) as u64;
    let index = number_below(trace, choices) as int;
    assert(index < choices);
    if index < hand.concealed_tiles.len() {
        lemma_first_place(hand.concealed_tiles, hand.concealed_tiles[index]);
    }
}

/// Whether nobody has drawn.
pub open spec fn nobody_has_drawn(room: RoomStateModel) -> bool {
    forall|seat: Seat|
        seat != Seat::Unspecified ==> ((#[trigger] room.player_round_state.at(seat)) matches Some(
            hand,
        ) && hand.drawn_tile is None)
}

/// After a discard nobody has drawn.
proof fn lemma_discard_taken_well(room: RoomStateModel, tile: Tile, tsumogiri: bool)
    requires
        room.plays_well(),
        hand_after_discard(
            room.player_round_state.at(room.current_turn_seat)->0,
            tile,
            tsumogiri,
        ) is Ok,
    ensures
        ({
            let (taken, result) = room.discarded(room.current_turn_seat, tile, tsumogiri);
            &&& result is Ok
            &&& taken.stocked(0)
            &&& nobody_has_drawn(taken)
        }),
{
    reveal(RoomStateModel::plays_well);
    reveal(RoomStateModel::stocked);
    let seat = room.current_turn_seat;
    let (taken, result) = room.discarded(seat, tile, tsumogiri);
    let hand = room.player_round_state.at(seat)->0;
    assert(room.player_round_state.at(seat) is Some);
    lemma_hand_after_discard(hand, tile, tsumogiri);
    assert(result is Ok && taken.player_round_state.at(seat) is Some
        && taken.player_round_state.at(seat)->0.drawn_tile is None
        && taken.player_round_state.at(seat)->0.flowers == hand.flowers && taken.dead_len()
        == room.dead_len() && taken.round_runtime is Some) by {
        reveal(RoomStateModel::discarded);
    }
    law_discarding_conserves_tiles(room, seat, tile, tsumogiri);
    assert(forall|any: Tile| #[trigger]
        taken.unplayed().count(any) <= taken.unplayed().insert(tile).count(any));
    assert forall|other: Seat| other != Seat::Unspecified implies (
    #[trigger] taken.player_round_state.at(other)) is Some && taken.player_round_state.at(
        other,
    )->0.drawn_tile is None && taken.player_round_state.at(other)->0.flowers
        == room.player_round_state.at(other)->0.flowers && only_flowers(
        taken.player_round_state.at(other)->0.flowers,
    ) by {
        assert(room.player_round_state.at(other) is Some);
        if other != seat {
            assert(taken.player_round_state.at(other) == room.player_round_state.at(other));
        }
    }
    assert(taken.flowers_laid() == room.flowers_laid()) by {
        assert(taken.player_round_state.at(Seat::East) is Some);
        assert(taken.player_round_state.at(Seat::South) is Some);
        assert(taken.player_round_state.at(Seat::West) is Some);
        assert(taken.player_round_state.at(Seat::North) is Some);
        assert(room.player_round_state.at(Seat::East) is Some);
        assert(room.player_round_state.at(Seat::South) is Some);
        assert(room.player_round_state.at(Seat::West) is Some);
        assert(room.player_round_state.at(Seat::North) is Some);
    }
}

/// Where nobody has drawn, the next seat draws or the hand is over.
proof fn lemma_turn_comes_well(room: RoomStateModel, seat: Seat)
    requires
        room.stocked(0),
        nobody_has_drawn(room),
        room.can_draw(seat_after(seat)),
    ensures
        room.turn_passed_on(seat).phase == GamePhase::WaitingDiscard ==> room.turn_passed_on(
            seat,
        ).plays_well(),
{
    reveal(RoomStateModel::turn_passed_on);
    let next = seat_after(seat);
    let after = room.turn_passed_on(seat);
    let turned = RoomStateModel { current_turn_seat: next, ..room }.without_window();
    assert(turned.stocked(0)) by {
        reveal(RoomStateModel::stocked);
        reveal(RoomStateModel::unplayed);
    }
    assert(room.player_round_state.at(next) is Some);
    lemma_draw_comes(turned, next);
    law_drawing_conserves_tiles(turned, next, DrawSource::LiveWall);
    lemma_drawn_keeps(turned, next, DrawSource::LiveWall);
    let (drawn, outcome) = turned.drawn(next, DrawSource::LiveWall);
    if let Ok(Some(outcome)) = outcome {
        assert(after.player_round_state == drawn.player_round_state);
        assert(after.current_turn_seat == next);
        assert(after.stocked(0)) by {
            reveal(RoomStateModel::stocked);
            reveal(RoomStateModel::unplayed);
        }
        assert(after.plays_well()) by {
            reveal(RoomStateModel::plays_well);
            assert forall|other: Seat| other != Seat::Unspecified implies ((
            #[trigger] after.player_round_state.at(other)) is Some && (
            after.player_round_state.at(other)->0.drawn_tile is Some <==> other == next)) by {
                assert(room.player_round_state.at(other) is Some);
            }
        }
    }
}

/// Noting where a discard came from changes no stock and draws nothing.
proof fn lemma_discard_noted_well(room: RoomStateModel, seat: Seat, event_seq: u64, record: ResolvedActionRecord)
    requires
        room.stocked(0),
        nobody_has_drawn(room),
        seat != Seat::Unspecified,
    ensures
        ({
            let noted = room.numbered().with_discard_bound(seat, event_seq).with_last_action(record);
            &&& noted.stocked(0)
            &&& nobody_has_drawn(noted)
        }),
{
    let noted = room.numbered().with_discard_bound(seat, event_seq).with_last_action(record);
    reveal(RoomStateModel::stocked);
    assert(room.player_round_state.at(seat) is Some);
    assert(noted.unplayed() =~= room.unplayed()) by {
        reveal(RoomStateModel::unplayed);
    }
    assert forall|other: Seat| other != Seat::Unspecified implies (
    #[trigger] noted.player_round_state.at(other)) is Some && noted.player_round_state.at(
        other,
    )->0.drawn_tile is None && noted.player_round_state.at(other)->0.flowers
        == room.player_round_state.at(other)->0.flowers by {
        assert(room.player_round_state.at(other) is Some);
    }
    assert forall|other: Seat| other != Seat::Unspecified implies only_flowers(
        (#[trigger] noted.player_round_state.at(other))->0.flowers,
    ) by {
        assert(room.player_round_state.at(other) is Some);
    }
    assert(noted.flowers_laid() == room.flowers_laid()) by {
        assert(noted.player_round_state.at(Seat::East) is Some);
        assert(noted.player_round_state.at(Seat::South) is Some);
        assert(noted.player_round_state.at(Seat::West) is Some);
        assert(noted.player_round_state.at(Seat::North) is Some);
        assert(room.player_round_state.at(Seat::East) is Some);
        assert(room.player_round_state.at(Seat::South) is Some);
        assert(room.player_round_state.at(Seat::West) is Some);
        assert(room.player_round_state.at(Seat::North) is Some);
    }
}

/// After a discard the next seat draws, or the hand is over.
proof fn lemma_discards_well(room: RoomStateModel, tile: Tile, tsumogiri: bool)
    requires
        room.plays_well(),
        room.phase == GamePhase::WaitingDiscard,
        room.all_can_draw(),
        room.round_runtime->0.turn_index < u32::MAX,
        hand_after_discard(
            room.player_round_state.at(room.current_turn_seat)->0,
            tile,
            tsumogiri,
        ) is Ok,
    ensures
        ({
            let (after, result) = room.load_discarded(room.current_turn_seat, tile, tsumogiri);
            &&& result is Ok
            &&& after.phase == GamePhase::WaitingDiscard ==> after.plays_well()
        }),
{
    let seat = room.current_turn_seat;
    let next = seat_after(seat);
    let taken = room.discarded(seat, tile, tsumogiri).0;
    lemma_discard_taken_well(room, tile, tsumogiri);
    assert(seat != Seat::Unspecified && room.player_round_state.at(seat) is Some) by {
        reveal(RoomStateModel::plays_well);
    }
    lemma_load_discard_keeps(room, seat, tile, tsumogiri);
    assert(room.can_draw(next));
    assert(taken.can_draw(next));
    let record = ResolvedActionRecord {
        event_seq: taken.next_event_seq,
        actor_seat: seat,
        action_kind: ActionKind::Discard,
        tile: Some(tile),
        replacement_draw: false,
        rob_kong_candidate: false,
    };
    lemma_discard_noted_well(taken, seat, taken.next_event_seq, record);
    let noted = taken.numbered().with_discard_bound(seat, taken.next_event_seq).with_last_action(
        record,
    );
    assert(noted.can_draw(next));
    lemma_turn_comes_well(noted, seat);
    reveal(RoomStateModel::load_discarded);
}

/// A simulated hand meets no error.
proof fn lemma_hand_goes_well(
    room: RoomStateModel,
    trace: Seq<u64>,
    left: nat,
    actions: int,
    discards: int,
)
    requires
        0 <= discards <= actions,
        discards + left <= u32::MAX,
        room.in_simulation(actions),
        room.in_hand(discards),
        room.phase == GamePhase::WaitingDiscard || room.phase == GamePhase::RoundSettlement,
        actions + left <= u32::MAX || actions - discards + room.wall_limit() <= u32::MAX,
        actions <= u32::MAX,
        room.wall_limit() <= u32::MAX,
        room.phase == GamePhase::WaitingDiscard ==> room.plays_well(),
    ensures
        ({
            let played = room.hand_simulated(trace, left);
            &&& played.error is None
            &&& played.room.phase == GamePhase::WaitingDiscard || played.room.phase
                == GamePhase::RoundSettlement
        }),
    decreases left,
{
    if left > 0 && room.phase == GamePhase::WaitingDiscard {
        lemma_pick_is_there(room, trace);
        let (choice, next) = room.random_discard(room.current_turn_seat, trace);
        if let Ok((tile, tsumogiri)) = choice {
            lemma_simulated_discard(room, tile, tsumogiri, actions, discards);
            lemma_discards_well(room, tile, tsumogiri);
            let (after, result) = room.load_discarded(room.current_turn_seat, tile, tsumogiri);
            lemma_hand_goes_well(after, next, (left - 1) as nat, actions + 1, discards + 1);
        }
    }
}

/// After a settled hand the next one starts well, or the match is over.
proof fn lemma_advances_well(room: RoomStateModel, now_ms: u64, actions: int)
    requires
        0 <= actions <= u32::MAX,
        room.in_simulation(actions),
        room.phase == GamePhase::RoundSettlement,
        room.lays_full_walls(),
    ensures
        ({
            let after = room.advanced(room.hand_number, now_ms);
            &&& after.phase == GamePhase::MatchSettlement || (after.phase
                == GamePhase::WaitingDiscard && after.plays_well())
            &&& after.phase == GamePhase::MatchSettlement <==> room.hand_number
                >= room.match_runtime.total_hands
        }),
{
    reveal(RoomStateModel::advanced);
    let transition = room.transition(room.hand_number);
    let counted = room.with_completed(room.hand_number);
    if !transition.match_finished {
        let next = counted.moved_on(transition);
        lemma_starts_well(next, now_ms);
        lemma_simulated_start(next, now_ms);
        let started = next.round_started(next.next_wall(now_ms)).0;
        let after = room.advanced(room.hand_number, now_ms);
        assert(after.plays_well()) by {
            reveal(RoomStateModel::plays_well);
            reveal(RoomStateModel::stocked);
            reveal(RoomStateModel::unplayed);
        }
    }
}

/// A simulated match meets no error, and plays all its hands.
proof fn lemma_match_goes_well(
    room: RoomStateModel,
    trace: Seq<u64>,
    max_actions: u32,
    now_ms: u64,
    hands: nat,
    actions: int,
)
    requires
        room.in_simulation(actions),
        room.in_hand(0),
        room.lays_full_walls(),
        room.phase == GamePhase::WaitingDiscard,
        room.plays_well(),
        0 <= actions,
        actions + hands * room.hand_limit(max_actions) <= u32::MAX,
        room.wall_limit() <= u32::MAX,
        room.hand_number + hands == hands_to_play(room.match_runtime.total_hands) + 1,
        hands > 0,
    ensures
        ({
            let played = room.match_simulated(trace, max_actions, now_ms, hands);
            &&& played.error is None
            &&& played.room.phase == GamePhase::MatchSettlement
            &&& played.room.match_runtime.completed_hands == hands_to_play(
                room.match_runtime.total_hands,
            )
        }),
    decreases hands,
{
    let limit = room.hand_limit(max_actions);
    assert(hands * limit == limit + (hands - 1) * limit) by (nonlinear_arith)
        requires
            hands > 0,
    ;
    assert((hands - 1) * limit >= 0) by (nonlinear_arith)
        requires
            hands > 0,
            limit >= 0,
    ;
    lemma_hand_simulated(room, trace, max_actions as nat, actions, 0);
    lemma_hand_goes_well(room, trace, max_actions as nat, actions, 0);
    let played = room.hand_simulated(trace, max_actions as nat);
    if played.room.phase == GamePhase::WaitingDiscard {
        let winner = seat_order()[number_below(played.trace, 4) as int];
        lemma_simulated_winner(played.room, winner, actions + played.actions);
    }
    let (settled, next) = played.room.winner_drawn(played.trace);
    lemma_simulated_advance(settled, now_ms, actions + played.actions);
    lemma_advances_well(settled, now_ms, actions + played.actions);
    let after = settled.advanced(room.hand_number, now_ms);
    if after.phase == GamePhase::WaitingDiscard {
        lemma_match_goes_well(
            after,
            next,
            max_actions,
            now_ms,
            (hands - 1) as nat,
            actions + played.actions,
        );
    } else {
        assert(after.match_simulated(next, max_actions, now_ms, (hands - 1) as nat).room == after);
    }
}

/// A load test whose walls are full, in whatever order, always succeeds, and plays every hand of its
/// match.
pub proof fn law_full_walls_succeed(room: RoomStateModel, spec: LoadTestRoomSpecModel, now_ms: u64)
    requires
        room.runtime_mode is LoadTest,
        room.can_simulate(spec),
        room.lays_full_walls(),
    ensures
        ({
            let report = report_of(spec, room.simulated(spec, now_ms));
            &&& report.success
            &&& report.failure_reason is None
            &&& report.hands_completed == hands_to_play(spec.hands_per_match)
        }),
{
    reveal(RoomStateModel::simulated);
    let seated = room.with_load_players(spec.player_base_index).with_total_hands(
        spec.hands_per_match,
    );
    lemma_load_players(room, spec);
    lemma_simulated_start(seated, now_ms);
    lemma_starts_well(seated, now_ms);
    let (started, result) = seated.round_started(seated.next_wall(now_ms));
    lemma_wall_within_limit(started, now_ms);
    lemma_match_goes_well(
        started,
        seq![spec.seed],
        spec.max_actions,
        now_ms,
        hands_to_play(spec.hands_per_match),
        0,
    );
}

} // verus!
