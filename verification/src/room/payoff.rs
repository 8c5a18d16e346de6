//! What a settled hand comes to: scores, tallies, the next deal and the end of the match.

use vstd::prelude::*;

use crate::collections::{group_seat_map, SeatMap};
use crate::proto::client::{GamePhase, Seat};
use crate::proto::engine;
use crate::room::basics::group_announcing_keeps;
use crate::room::convert::engine_seat;
use crate::room::frames::lemma_synced_keeps;
use crate::room::outcomes::lemma_scored_keeps;
use crate::room::rounds::{lemma_next_wall_len, lemma_round_started_keeps};
use crate::room::state::{MatchPlayerStats, PlayerSlotModel, RoomStateModel};
use crate::room::steps::{PendingWin, WinOriginModel};

verus! {

broadcast use {group_seat_map, group_announcing_keeps, lemma_synced_keeps};

// ---------------------------------------------------------------------------
// Scores
// ---------------------------------------------------------------------------

/// Whether a score change of the rule engine is for a seat.
pub open spec fn is_for(delta: engine::SeatScoreDelta, seat: Seat) -> bool {
    delta.seat == engine_seat(seat).code()
}

/// Whether a score change is the last of its seat among some.
pub open spec fn is_last_for(deltas: Seq<engine::SeatScoreDelta>, place: int, seat: Seat) -> bool {
    &&& 0 <= place < deltas.len()
    &&& is_for(deltas[place], seat)
    &&& forall|later: int| place < later < deltas.len() ==> !is_for(#[trigger] deltas[later], seat)
}

/// Whether the players of two rooms are the same but for their scores, and a seat has the score that
/// its last change names, or the score that it had where no change is for it.
pub open spec fn is_paid(
    before: SeatMap<PlayerSlotModel>,
    after: SeatMap<PlayerSlotModel>,
    deltas: Seq<engine::SeatScoreDelta>,
    seat: Seat,
) -> bool {
    match before.at(seat) {
        None => after.at(seat) is None,
        Some(player) => {
            &&& after.at(seat) matches Some(paid) && paid == (PlayerSlotModel {
                score: paid.score,
                ..player
            })
            &&& forall|place: int| #[trigger]
                is_last_for(deltas, place, seat) ==> after.at(seat)->0.score
                    == deltas[place].final_total
            &&& (forall|place: int|
                0 <= place < deltas.len() ==> !is_for(#[trigger] deltas[place], seat))
                ==> after.at(seat)->0.score == player.score
        },
    }
}

/// The rule engine's seats and the client's stand for each other by name, and no number stands for
/// two of them.
proof fn lemma_seat_of(code: i32, seat: Seat)
    ensures
        crate::room::convert::client_seat_of(code) == Some(seat) <==> code == engine_seat(
            seat,
        ).code(),
{
    engine::law_seat_codes(engine_seat(seat), code);
}

pub proof fn lemma_scored(room: RoomStateModel, deltas: Seq<engine::SeatScoreDelta>, seat: Seat)
    ensures
        is_paid(room.players_by_seat, room.scored(deltas).players_by_seat, deltas, seat),
    decreases deltas.len(),
{
    if deltas.len() > 0 {
        let fewer = deltas.drop_last();
        let last = deltas.last();
        lemma_scored(room, fewer, seat);
        lemma_seat_of(last.seat, seat);
        let before = room.scored(fewer);
        let after = room.scored(deltas);
        assert(after == before.with_score(last));
        assert(deltas[deltas.len() - 1] == last);
        if let Some(player) = room.players_by_seat.at(seat) {
            if is_for(last, seat) {
                assert(after.players_by_seat.at(seat)->0.score == last.final_total);
            } else {
                assert(after.players_by_seat.at(seat) == before.players_by_seat.at(seat));
                assert forall|place: int| #[trigger] is_last_for(deltas, place, seat) implies
                    after.players_by_seat.at(seat)->0.score == deltas[place].final_total by {
                    assert(place < fewer.len());
                    assert(fewer[place] == deltas[place]);
                    assert forall|later: int| place < later < fewer.len() implies !is_for(
                        #[trigger] fewer[later],
                        seat,
                    ) by {
                        assert(!is_for(deltas[later], seat));
                    }
                    assert(is_last_for(fewer, place, seat));
                }
                if forall|place: int|
                    0 <= place < deltas.len() ==> !is_for(#[trigger] deltas[place], seat) {
                    assert forall|place: int| 0 <= place < fewer.len() implies !is_for(
                        #[trigger] fewer[place],
                        seat,
                    ) by {
                        assert(!is_for(deltas[place], seat));
                    }
                }
            }
        }
    }
}

/// How often a seat has won, and how often on a tile that it drew itself.
pub open spec fn wins_of(room: RoomStateModel, seat: Seat) -> (int, int) {
    match room.match_runtime.player_stats.at(seat) {
        Some(MatchPlayerStats { rounds_won, self_draw_wins }) => (
            rounds_won as int,
            self_draw_wins as int,
        ),
        None => (0, 0),
    }
}

/// After a win that the rule engine has scored, every player has the score of the last change that
/// is for their seat, winner or not, and whoever no change is for keeps theirs. The winner has one
/// more win, on a tile drawn by themselves just where nobody is to pay for the tile, and nobody else
/// has; and the hand is over.
pub proof fn law_wins_are_paid(
    room: RoomStateModel,
    origin: WinOriginModel,
    win: PendingWin,
    response: engine::CalculateScoreResponseModel,
    now_ms: u64,
    seat: Seat,
)
    requires
        room.can_tally(Some(win.winner_seat)),
    ensures
        ({
            let after = room.win_scored(origin, win, Ok(response), now_ms);
            &&& is_paid(
                room.players_by_seat,
                after.players_by_seat,
                response.score_delta_by_seat,
                seat,
            )
            &&& after.phase == GamePhase::RoundSettlement
            &&& after.window() is None
            &&& after.hand_number == room.hand_number
            &&& after.dealer_seat == room.dealer_seat
            &&& after.dealer_streak == room.dealer_streak
            &&& after.match_runtime.last_round_winner == Some(win.winner_seat)
            &&& after.match_runtime.last_round_self_draw == (win.discarder_seat is None)
            &&& wins_of(after, seat) == (if seat == win.winner_seat {
                (
                    wins_of(room, seat).0 + 1,
                    wins_of(room, seat).1 + (if win.discarder_seat is None {
                        1int
                    } else {
                        0int
                    }),
                )
            } else {
                wins_of(room, seat)
            })
        }),
{
    let taken = match win.discarder_seat {
        Some(discarder) => room.with_discard_claimed(discarder, win.source_event_seq),
        None => room,
    };
    let ended = taken.without_window().in_phase(GamePhase::RoundSettlement).with_last_action(
        win.terminal_action,
    );
    lemma_scored_keeps(ended, response.score_delta_by_seat);
    lemma_scored(ended, response.score_delta_by_seat, seat);
}

/// A win that the rule engine does not score changes no score, no tally and no hand.
pub proof fn law_unscored_wins_change_nothing(
    room: RoomStateModel,
    origin: WinOriginModel,
    win: PendingWin,
    reason: Seq<char>,
    now_ms: u64,
)
    ensures
        ({
            let after = room.win_scored(origin, win, Err(reason), now_ms);
            after == (RoomStateModel {
                outbox: after.outbox,
                next_event_seq: after.next_event_seq,
                ..room
            })
        }),
{
}

/// A hand that ends because the wall is exhausted is settled without a winner: no score and no tally
/// changes.
pub proof fn law_exhausted_walls_pay_nobody(room: RoomStateModel, source_seat: Seat, seat: Seat)
    requires
        seat_after_has_not_drawn(room, source_seat),
        room.round_runtime matches Some(runtime) && runtime.live_wall.len() == 0,
    ensures
        ({
            let after = room.turn_passed_on(source_seat);
            &&& after.phase == GamePhase::RoundSettlement
            &&& after.window() is None
            &&& after.players_by_seat == room.players_by_seat
            &&& after.player_round_state == room.player_round_state
            &&& after.match_runtime.last_round_winner is None
            &&& wins_of(after, seat) == wins_of(room, seat)
            &&& after.dealer_seat == room.dealer_seat
            &&& after.hand_number == room.hand_number
        }),
{
    reveal(RoomStateModel::turn_passed_on);
}

/// Whether the seat after another takes part in the hand and has not drawn.
pub open spec fn seat_after_has_not_drawn(room: RoomStateModel, seat: Seat) -> bool {
    room.player_round_state.at(crate::room::hand::seat_after(seat)) matches Some(hand)
        && hand.drawn_tile is None
}

// ---------------------------------------------------------------------------
// From hand to hand
// ---------------------------------------------------------------------------

/// Whether the dealer of the hand that is being settled has won it, by whatever kind of win.
pub open spec fn dealer_has_won(room: RoomStateModel) -> bool {
    room.match_runtime.last_round_winner == Some(room.dealer_seat)
}

/// When a settled hand has been on show and the match is not over, the next hand is dealt: by the
/// same dealer, with a streak one longer, if the dealer won, self-drawn or not; by the seat after the
/// dealer, with no streak, if not. It is the dealer's turn, nobody has won it yet, and nobody's score
/// or tally changes.
pub proof fn law_winning_dealers_deal_again(room: RoomStateModel, now_ms: u64, seat: Seat)
    requires
        room.phase == GamePhase::RoundSettlement,
        room.hand_number < room.match_runtime.total_hands,
        room.dealer_streak < u32::MAX,
        room.wall_fits(),
        room.dealer_seat != Seat::Unspecified,
    ensures
        ({
            let after = room.advanced(room.hand_number, now_ms);
            &&& after.hand_number == room.hand_number + 1
            &&& dealer_has_won(room) ==> after.dealer_seat == room.dealer_seat
                && after.dealer_streak == room.dealer_streak + 1
            &&& !dealer_has_won(room) ==> after.dealer_seat == crate::room::hand::seat_after(
                room.dealer_seat,
            ) && after.dealer_streak == 0
            &&& after.prevailing_wind == Seat::East
            &&& after.current_turn_seat == after.dealer_seat
            &&& after.match_runtime.last_round_winner is None
            &&& after.match_runtime.completed_hands == room.hand_number
            &&& after.match_runtime.total_hands == room.match_runtime.total_hands
            &&& after.match_runtime.last_match_settlement
                == room.match_runtime.last_match_settlement
            &&& wins_of(after, seat) == wins_of(room, seat)
            &&& match room.players_by_seat.at(seat) {
                Some(player) => after.players_by_seat.at(seat) matches Some(next) && next.score
                    == player.score && next.user_id == player.user_id,
                None => after.players_by_seat.at(seat) is None,
            }
            &&& after.phase == GamePhase::WaitingDiscard || after.phase
                == GamePhase::RoundSettlement
        }),
{
    reveal(RoomStateModel::advanced);
    let transition = room.transition(room.hand_number);
    let next = room.with_completed(room.hand_number).moved_on(transition);
    lemma_next_wall_len(next, now_ms);
    let wall = next.next_wall(now_ms);
    lemma_round_started_keeps(next, wall);
    lemma_turn_of_dealer(next, wall);
    reveal(SeatMap::at);
}

/// However the start of a hand goes, it is the dealer's turn.
proof fn lemma_turn_of_dealer(room: RoomStateModel, wall: Seq<crate::proto::client::Tile>)
    requires
        room.dealer_seat != Seat::Unspecified,
        room.current_turn_seat == room.dealer_seat,
    ensures
        room.round_started(wall).0.current_turn_seat == room.dealer_seat,
        room.round_started(wall).0.prevailing_wind == room.prevailing_wind,
{
    if wall.len() > crate::room::state::DEAD_WALL_TILE_COUNT {
        lemma_table_moves(room.table_set(wall), 4);
        let (dealt, result) = room.table_set(wall).dealt_seats(4);
        if result is Ok {
            lemma_draw_moves(dealt, room.dealer_seat, crate::room::state::DrawSource::LiveWall, false);
        }
    }
}

spec fn same_turn(before: RoomStateModel, after: RoomStateModel) -> bool {
    after.current_turn_seat == before.current_turn_seat && after.prevailing_wind
        == before.prevailing_wind && after.dealer_seat == before.dealer_seat
}

proof fn lemma_replacement_moves(room: RoomStateModel, seat: Seat)
    ensures
        same_turn(room, room.dealt_replacement(seat).0),
    decreases room.dead_len(),
{
    let (after, tile) = room.popped(crate::room::state::DrawSource::DeadWall);
    if let Some(tile) = tile {
        if after.lays_aside(tile) {
            lemma_replacement_moves(after.with_flower(seat, tile), seat);
        }
    }
}

proof fn lemma_many_move(room: RoomStateModel, seat: Seat, count: nat)
    ensures
        same_turn(room, room.dealt_many(seat, count).0),
    decreases count,
{
    if count > 0 {
        lemma_many_move(room, seat, (count - 1) as nat);
        let before = room.dealt_many(seat, (count - 1) as nat).0;
        let (after, tile) = before.popped(crate::room::state::DrawSource::LiveWall);
        if let Some(tile) = tile {
            lemma_replacement_moves(after.with_flower(seat, tile), seat);
        }
    }
}

proof fn lemma_table_moves(room: RoomStateModel, seats: nat)
    ensures
        same_turn(room, room.dealt_seats(seats).0),
    decreases seats,
{
    if seats > 0 {
        lemma_table_moves(room, (seats - 1) as nat);
        lemma_many_move(
            room.dealt_seats((seats - 1) as nat).0,
            crate::room::hand::seat_order()[seats - 1],
            crate::room::state::STARTING_HAND_LEN as nat,
        );
    }
}

proof fn lemma_draw_moves(
    room: RoomStateModel,
    seat: Seat,
    source: crate::room::state::DrawSource,
    replacement_draw: bool,
)
    ensures
        same_turn(room, room.drawn_from(seat, source, replacement_draw).0),
    decreases (if source is LiveWall {
        1nat
    } else {
        0nat
    }), room.dead_len(),
{
    let (after, tile) = room.popped(source);
    if let Some(tile) = tile {
        if after.lays_aside(tile) {
            lemma_draw_moves(
                after.with_flower(seat, tile).with_replacement_pending(true),
                seat,
                crate::room::state::DrawSource::DeadWall,
                true,
            );
        }
    }
}

/// When the last hand of a match has been on show the match is over: nothing is dealt, every player
/// keeps score and hand, and the final table is kept.
pub proof fn law_matches_end_with_the_last_hand(room: RoomStateModel, now_ms: u64, seat: Seat)
    requires
        room.phase == GamePhase::RoundSettlement,
        room.hand_number >= room.match_runtime.total_hands,
    ensures
        ({
            let after = room.advanced(room.hand_number, now_ms);
            &&& after.phase == GamePhase::MatchSettlement
            &&& after.players_by_seat == room.players_by_seat
            &&& after.player_round_state == room.player_round_state
            &&& after.hand_number == room.hand_number
            &&& after.dealer_seat == room.dealer_seat
            &&& after.match_runtime.completed_hands == room.hand_number
            &&& wins_of(after, seat) == wins_of(room, seat)
            &&& after.match_runtime.last_match_settlement matches Some(summary) && summary.standings
                == room.final_standings() && summary.finished_at_unix_ms == now_ms
        }),
{
    reveal(RoomStateModel::advanced);
    let counted = room.with_completed(room.hand_number);
    let ended = counted.in_phase(GamePhase::MatchSettlement);
    lemma_same_standings(room, ended);
    let summary = ended.match_summary(now_ms);
    let announced = ended.numbered().match_announced(summary);
    assert(announced == (RoomStateModel { outbox: announced.outbox, ..ended.numbered() }));
}

proof fn lemma_same_place(a: RoomStateModel, b: RoomStateModel, seat: Seat, place: nat)
    requires
        a.players_by_seat == b.players_by_seat,
        a.match_runtime.player_stats == b.match_runtime.player_stats,
    ensures
        a.placed_at(seat, place) == b.placed_at(seat, place),
{
    assert(a.ahead(Seat::East, seat) == b.ahead(Seat::East, seat));
    assert(a.ahead(Seat::South, seat) == b.ahead(Seat::South, seat));
    assert(a.ahead(Seat::West, seat) == b.ahead(Seat::West, seat));
    assert(a.ahead(Seat::North, seat) == b.ahead(Seat::North, seat));
    assert(a.players_ahead(seat) == b.players_ahead(seat));
}

proof fn lemma_same_places(a: RoomStateModel, b: RoomStateModel, place: nat)
    requires
        a.players_by_seat == b.players_by_seat,
        a.match_runtime.player_stats == b.match_runtime.player_stats,
    ensures
        a.in_place(place) == b.in_place(place),
{
    lemma_same_place(a, b, Seat::East, place);
    lemma_same_place(a, b, Seat::South, place);
    lemma_same_place(a, b, Seat::West, place);
    lemma_same_place(a, b, Seat::North, place);
}

/// The final table depends on the players and their tallies alone.
proof fn lemma_same_standings(a: RoomStateModel, b: RoomStateModel)
    requires
        a.players_by_seat == b.players_by_seat,
        a.match_runtime.player_stats == b.match_runtime.player_stats,
    ensures
        a.final_standings() == b.final_standings(),
{
    lemma_same_places(a, b, 0);
    lemma_same_places(a, b, 1);
    lemma_same_places(a, b, 2);
    lemma_same_places(a, b, 3);
}

/// A settlement is left once: a reminder for another hand, or outside a settlement, changes nothing.
pub proof fn law_late_reminders_change_nothing(room: RoomStateModel, settled_hand_number: u32, now_ms: u64)
    requires
        room.phase != GamePhase::RoundSettlement || room.hand_number != settled_hand_number,
    ensures
        room.advanced(settled_hand_number, now_ms) == room,
{
    reveal(RoomStateModel::advanced);
}

} // verus!
