//! What a room does in a load test: who plays, what they discard, and who is paid.

use vstd::prelude::*;

use crate::collections::{group_seat_map, SeatMap};
use crate::proto::client::{GamePhase, PlayerStatus, RejectCode, Seat};
use crate::rng::number_below;
use crate::room::basics::no_wins;
use crate::room::load_test::{load_user_id, LoadTestRoomSpecModel, SimulationModel};
use crate::room::simulation::report_of;
use crate::room::state::RoomStateModel;
use crate::text::{decimal, law_numbers_are_told_apart};

verus! {

broadcast use group_seat_map;

/// The number of the player of a seat, counted from the first player of the room.
pub open spec fn place_at_table(seat: Seat) -> int {
    match seat {
        Seat::South => 1,
        Seat::West => 2,
        Seat::North => 3,
        _ => 0,
    }
}

proof fn lemma_load_users_differ(a: nat, b: nat)
    ensures
        load_user_id(a) == load_user_id(b) <==> a == b,
{
    law_numbers_are_told_apart(a, b);
    let prefix = "load-user-"@;
    assert(load_user_id(a).skip(prefix.len() as int) =~= decimal(a));
    assert(load_user_id(b).skip(prefix.len() as int) =~= decimal(b));
}

/// A load test seats four players of its own, each at one seat and ready, with the starting score and
/// empty hands, at the beginning of a match.
pub proof fn law_load_tests_seat_four_players(room: RoomStateModel, base: u64, seat: Seat)
    requires
        seat != Seat::Unspecified,
        base + 3 <= u64::MAX,
    ensures
        ({
            let after = room.with_load_players(base);
            let player = after.players_by_seat.at(seat)->0;
            let hand = after.player_round_state.at(seat)->0;
            &&& after.players_by_seat.at(seat) is Some
            &&& player.user_id == load_user_id((base + place_at_table(seat)) as nat)
            &&& player.seat == seat
            &&& player.status == PlayerStatus::Ready
            &&& player.score == 25_000
            &&& player.auto_play_enabled
            &&& !player.connected && player.connection_id is None
            &&& after.user_to_seat.contains_key(player.user_id)
            &&& after.user_to_seat[player.user_id] == seat
            &&& after.player_round_state.at(seat) is Some
            &&& hand.concealed_tiles.len() == 0 && hand.drawn_tile is None && hand.melds.len() == 0
            &&& after.players_by_seat.at(Seat::Unspecified) is None
            &&& after.hand_number == 1 && after.dealer_streak == 0
            &&& after.dealer_seat == Seat::East && after.prevailing_wind == Seat::East
            &&& after.round_runtime is None
        }),
{
    reveal(RoomStateModel::with_load_players);
    reveal(SeatMap::at);
    lemma_load_users_differ(base as nat, (base + 1) as nat);
    lemma_load_users_differ(base as nat, (base + 2) as nat);
    lemma_load_users_differ(base as nat, (base + 3) as nat);
    lemma_load_users_differ((base + 1) as nat, (base + 2) as nat);
    lemma_load_users_differ((base + 1) as nat, (base + 3) as nat);
    lemma_load_users_differ((base + 2) as nat, (base + 3) as nat);
}

/// A random discard is a tile that the seat holds out of sight, and is told as the drawn one just where
/// it is that.
pub proof fn law_random_discards_are_held(room: RoomStateModel, seat: Seat, trace: Seq<u64>)
    requires
        room.player_round_state.at(seat) matches Some(hand) && hand.concealed_tiles.len() < u64::MAX,
    ensures
        ({
            let hand = room.player_round_state.at(seat)->0;
            match room.random_discard(seat, trace).0 {
                Ok((tile, drawn)) => if drawn {
                    hand.drawn_tile == Some(tile)
                } else {
                    hand.concealed_tiles.contains(tile)
                },
                Err(_) => hand.concealed_tiles.len() == 0 && hand.drawn_tile is None,
            }
        }),
{
    let hand = room.player_round_state.at(seat)->0;
    if let Ok(choices) = room.discard_choices(seat) {
        let index = number_below(trace, choices) as int;
        assert(0 <= index < choices);
        if index < hand.concealed_tiles.len() {
            assert(hand.concealed_tiles.contains(hand.concealed_tiles[index]));
        }
    }
}

/// In a load test too, only the seat whose turn it is discards, and only while a discard is waited for.
pub proof fn law_load_discards_need_a_turn(
    room: RoomStateModel,
    seat: Seat,
    tile: crate::proto::client::Tile,
    tsumogiri: bool,
)
    ensures
        ({
            let (after, result) = room.load_discarded(seat, tile, tsumogiri);
            &&& room.phase != GamePhase::WaitingDiscard ==> after == room && (result matches Err(
                error,
            ) && error.reject_code == RejectCode::PhaseMismatch)
            &&& room.phase == GamePhase::WaitingDiscard && seat != room.current_turn_seat ==> after
                == room && (result matches Err(error) && error.reject_code
                == RejectCode::NotYourTurn)
        }),
{
    reveal(RoomStateModel::load_discarded);
}

/// Who wins a stopped hand gets a thousand points from each of the others. The win is counted, as
/// self-drawn where it was the winner's turn.
pub proof fn law_stopped_hands_are_paid(room: RoomStateModel, winner: Seat, seat: Seat)
    requires
        room.can_pay(),
        winner != Seat::Unspecified,
        seat != Seat::Unspecified,
        room.players_by_seat.at(seat) is Some,
        room.match_runtime.player_stats.at(winner) matches Some(tally) ==> tally.rounds_won < u32::MAX
            && tally.self_draw_wins < u32::MAX,
    ensures
        ({
            let after = room.random_winner_settled(winner);
            let own_turn = winner == room.current_turn_seat;
            let before = match room.match_runtime.player_stats.at(winner) {
                Some(tally) => tally,
                None => no_wins(),
            };
            &&& after.players_by_seat.at(seat) is Some
            &&& after.players_by_seat.at(seat)->0.score - room.players_by_seat.at(seat)->0.score
                == if seat == winner {
                3 * 1000int
            } else {
                -1000
            }
            &&& after.phase == GamePhase::RoundSettlement
            &&& after.match_runtime.last_round_winner == Some(winner)
            &&& after.match_runtime.last_round_self_draw == own_turn
            &&& after.match_runtime.player_stats.at(winner) matches Some(tally) && tally.rounds_won
                == before.rounds_won + 1 && tally.self_draw_wins == before.self_draw_wins
                + if own_turn {
                1int
            } else {
                0
            }
        }),
{
    reveal(RoomStateModel::random_winner_settled);
    reveal(SeatMap::at);
}

/// The report of a room names the room, says whether it got through, and why it did not; a room that got
/// through names whoever leads its final standings.
pub proof fn law_rooms_report_what_happened(spec: LoadTestRoomSpecModel, simulation: SimulationModel)
    requires
        simulation.actions <= u32::MAX,
    ensures
        ({
            let report = report_of(spec, simulation);
            &&& report.room_id == spec.room_id && report.room_index == spec.room_index
            &&& report.success <==> simulation.error is None
            &&& report.hands_completed == simulation.room.match_runtime.completed_hands
            &&& match simulation.error {
                Some(error) => report.failure_reason == Some(error.message)
                    && report.actions_executed == 0 && report.winner_seat is None,
                None => report.failure_reason is None && report.actions_executed
                    == simulation.actions,
            }
            &&& simulation.error is None ==> forall|seat: Seat|
                #![trigger seat.name()]
                (simulation.room.match_runtime.last_match_settlement matches Some(summary)
                    && summary.standings.len() > 0 && Seat::decode(summary.standings[0].seat)
                    == Some(seat)) ==> report.winner_seat == Some(seat.name())
        }),
{
}

} // verus!
