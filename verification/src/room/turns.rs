//! How the turn goes round: draws, windows and what comes of them.

use vstd::prelude::*;

use crate::collections::{group_seat_map, SeatMap};
use crate::proto::client::{
    ActionKind, ClaimActionModel, ClaimKind, GamePhase, MeldKind, Seat, Tile, WinType,
};
use crate::room::basics::group_announcing_keeps;
use crate::room::claims::{seat_weight, winning_seat};
use crate::room::conservation::{is_feasible, law_claims_conserve_tiles};
use crate::room::convert::{parsed_claim_kind, parsed_seat, parsed_tile, parsed_tiles};
use crate::room::frames::lemma_synced_keeps;
use crate::room::hand::{seat_after, seat_order};
use crate::room::outcomes::{lemma_window_resolution_keeps, with_silent_passes};
use crate::room::state::{
    ActiveClaimWindowStateModel, ClaimResponseModel, DrawSource, RoomStateModel,
};
use crate::room::steps::{PendingCallModel, ProbeStepModel, WindowProbeModel};
use crate::tiles::{lemma_sorted_tiles_keeps_tiles, sorted_tiles};

verus! {

broadcast use {group_announcing_keeps, lemma_synced_keeps, group_seat_map};

// ---------------------------------------------------------------------------
// Draws
// ---------------------------------------------------------------------------

/// Whether a tile is a flower that has to be laid aside in a room.
pub open spec fn is_replaced(room: RoomStateModel, tile: Tile) -> bool {
    room.room_config.enable_flower_tiles && 35 <= tile.code()
}

/// Whether so many tiles at the top of a wall have to be laid aside, and the one below them not.
pub open spec fn flowers_on_top(room: RoomStateModel, wall: Seq<Tile>, count: int) -> bool {
    &&& 0 <= count < wall.len()
    &&& forall|i: int| 0 <= i < count ==> is_replaced(room, #[trigger] wall[i])
    &&& !is_replaced(room, wall[count])
}

/// A draw takes the top tile of the live wall. If that is a flower it is laid aside and replaced from
/// the dead wall, and so is every flower that comes up there, until a tile comes that is none: that
/// one is drawn. Nothing else is taken from either wall.
pub proof fn law_draws_take_from_the_top(room: RoomStateModel, seat: Seat, count: int)
    requires
        seat != Seat::Unspecified,
        room.player_round_state.at(seat) matches Some(hand) && hand.drawn_tile is None,
        room.round_runtime matches Some(runtime) && runtime.live_wall.len() > 0,
    ensures
        ({
            let walls = room.round_runtime->0;
            let before = room.player_round_state.at(seat)->0;
            let (after, outcome) = room.drawn(seat, DrawSource::LiveWall);
            let hand = after.player_round_state.at(seat)->0;
            &&& !is_replaced(room, walls.live_wall[0]) ==> {
                &&& outcome matches Ok(Some(drawn)) && drawn.tile == walls.live_wall[0]
                    && !drawn.replacement_draw
                &&& after.player_round_state.at(seat) is Some && hand.drawn_tile == Some(
                    walls.live_wall[0],
                )
                &&& hand.flowers == before.flowers
                &&& after.round_runtime matches Some(left) && left.live_wall
                    == walls.live_wall.drop_first() && left.dead_wall == walls.dead_wall
            }
            &&& is_replaced(room, walls.live_wall[0]) && flowers_on_top(
                room,
                walls.dead_wall,
                count,
            ) ==> {
                &&& outcome matches Ok(Some(drawn)) && drawn.tile == walls.dead_wall[count]
                    && drawn.replacement_draw
                &&& after.player_round_state.at(seat) is Some && hand.drawn_tile == Some(
                    walls.dead_wall[count],
                )
                &&& hand.flowers.to_multiset() == before.flowers.to_multiset().insert(
                    walls.live_wall[0],
                ).add(walls.dead_wall.take(count).to_multiset())
                &&& after.round_runtime matches Some(left) && left.live_wall
                    == walls.live_wall.drop_first() && left.dead_wall == walls.dead_wall.skip(
                    count + 1,
                )
            }
        }),
{
    broadcast use vstd::seq_lib::group_to_multiset_ensures;
    let walls = room.round_runtime->0;
    let before = room.player_round_state.at(seat)->0;
    let (popped, tile) = room.popped(DrawSource::LiveWall);
    lemma_is_replaced(room, walls.live_wall[0]);
    if is_replaced(room, walls.live_wall[0]) && flowers_on_top(room, walls.dead_wall, count) {
        let aside = popped.with_flower(seat, walls.live_wall[0]).with_replacement_pending(true);
        lemma_sorted_tiles_keeps_tiles(before.flowers.push(walls.live_wall[0]));
        lemma_replacements(aside, seat, count);
    }
}

proof fn lemma_is_replaced(room: RoomStateModel, tile: Tile)
    ensures
        room.lays_aside(tile) == is_replaced(room, tile),
{
    assert(tile.code() <= 42);
}

proof fn lemma_replacements(room: RoomStateModel, seat: Seat, count: int)
    requires
        seat != Seat::Unspecified,
        room.player_round_state.at(seat) matches Some(hand) && hand.drawn_tile is None,
        room.round_runtime matches Some(runtime) && flowers_on_top(room, runtime.dead_wall, count),
    ensures
        ({
            let walls = room.round_runtime->0;
            let before = room.player_round_state.at(seat)->0;
            let (after, outcome) = room.drawn_from(seat, DrawSource::DeadWall, true);
            let hand = after.player_round_state.at(seat)->0;
            &&& outcome matches Ok(Some(drawn)) && drawn.tile == walls.dead_wall[count]
                && drawn.replacement_draw
            &&& after.player_round_state.at(seat) is Some && hand.drawn_tile == Some(
                walls.dead_wall[count],
            )
            &&& hand.flowers.to_multiset() == before.flowers.to_multiset().add(
                walls.dead_wall.take(count).to_multiset(),
            )
            &&& after.round_runtime matches Some(left) && left.live_wall == walls.live_wall
                && left.dead_wall == walls.dead_wall.skip(count + 1)
        }),
    decreases count,
{
    broadcast use vstd::seq_lib::group_to_multiset_ensures;
    let walls = room.round_runtime->0;
    let wall = walls.dead_wall;
    let before = room.player_round_state.at(seat)->0;
    let (popped, tile) = room.popped(DrawSource::DeadWall);
    lemma_is_replaced(room, wall[0]);
    if count == 0 {
        assert(wall.take(0) =~= Seq::<Tile>::empty());
        assert(wall.skip(1) =~= wall.drop_first());
        assert(before.flowers.to_multiset().add(wall.take(0).to_multiset())
            =~= before.flowers.to_multiset());
    } else {
        let aside = popped.with_flower(seat, wall[0]).with_replacement_pending(true);
        let rest = wall.drop_first();
        lemma_sorted_tiles_keeps_tiles(before.flowers.push(wall[0]));
        assert forall|i: int| 0 <= i < count - 1 implies is_replaced(aside, #[trigger] rest[i]) by {
            assert(rest[i] == wall[i + 1]);
        }
        assert(rest[count - 1] == wall[count]);
        lemma_replacements(aside, seat, count - 1);
        assert(rest.skip(count) =~= wall.skip(count + 1));
        assert(wall.take(count) =~= seq![wall[0]] + rest.take(count - 1));
        assert(seq![wall[0]].to_multiset() =~= vstd::multiset::Multiset::empty().insert(wall[0]))
            by {
            assert(seq![wall[0]] =~= Seq::<Tile>::empty().push(wall[0]));
        }
        vstd::seq_lib::lemma_multiset_commutative(seq![wall[0]], rest.take(count - 1));
        assert(before.flowers.push(wall[0]).to_multiset() =~= before.flowers.to_multiset().insert(
            wall[0],
        ));
        let hand = room.drawn_from(seat, DrawSource::DeadWall, true).0.player_round_state.at(
            seat,
        )->0;
        assert(hand.flowers.to_multiset() =~= before.flowers.to_multiset().add(
            wall.take(count).to_multiset(),
        ));
    }
}

// ---------------------------------------------------------------------------
// Whether a window is settled
// ---------------------------------------------------------------------------

/// Whether only seats that may answer a window have answered, and none may twice.
pub open spec fn answered_by_eligible(window: ActiveClaimWindowStateModel) -> bool {
    &&& window.eligible_seats.no_duplicates()
    &&& forall|seat: Seat|
        (#[trigger] window.responded_seats.at(seat)) is Some ==> window.eligible_seats.contains(
            seat,
        )
}

/// Whether every seat that may answer a window has.
pub open spec fn everybody_answered(window: ActiveClaimWindowStateModel) -> bool {
    forall|seat: Seat| #[trigger]
        window.eligible_seats.contains(seat) ==> window.responded_seats.at(seat) is Some
}

spec fn answering<T>(map: SeatMap<T>) -> Set<Seat> {
    Set::new(|seat: Seat| map.at(seat) is Some)
}

spec fn with_if(set: Set<Seat>, seat: Seat, there: bool) -> Set<Seat> {
    if there {
        set.insert(seat)
    } else {
        set
    }
}

proof fn lemma_filled<T>(map: SeatMap<T>)
    ensures
        answering(map).finite(),
        answering(map).len() == map.filled(),
{
    reveal(SeatMap::at);
    let a = with_if(Set::empty(), Seat::Unspecified, map.unspecified is Some);
    let b = with_if(a, Seat::East, map.east is Some);
    let c = with_if(b, Seat::South, map.south is Some);
    let d = with_if(c, Seat::West, map.west is Some);
    let e = with_if(d, Seat::North, map.north is Some);
    assert(e =~= answering(map));
}

proof fn lemma_counts_answers(window: ActiveClaimWindowStateModel)
    requires
        answered_by_eligible(window),
    ensures
        window.responded_seats.filled() == window.eligible_seats.len() <==> everybody_answered(
            window,
        ),
{
    let answered = answering(window.responded_seats);
    let eligible = window.eligible_seats.to_set();
    lemma_filled(window.responded_seats);
    window.eligible_seats.unique_seq_to_set();
    assert(answered.subset_of(eligible)) by {
        assert forall|seat: Seat| answered.contains(seat) implies eligible.contains(seat) by {
            assert(window.responded_seats.at(seat) is Some);
        }
    }
    vstd::set_lib::lemma_len_subset(answered, eligible);
    if everybody_answered(window) {
        assert(eligible =~= answered) by {
            assert forall|seat: Seat| eligible.contains(seat) implies answered.contains(seat) by {
                assert(window.eligible_seats.contains(seat));
            }
        }
    } else {
        let silent = choose|seat: Seat|
            #[trigger] window.eligible_seats.contains(seat) && window.responded_seats.at(seat)
                is None;
        assert(eligible.contains(silent) && !answered.contains(silent));
        vstd::set_lib::lemma_len_subset(answered.insert(silent), eligible);
    }
}

/// An answer is kept, and the window waits, as long as somebody who may answer has not and the time
/// is not over: nothing at the table changes.
pub proof fn law_windows_wait_for_everybody(room: RoomStateModel, now_ms: u64)
    requires
        room.window() matches Some(window) && answered_by_eligible(window) && !everybody_answered(
            window,
        ),
    ensures
        ({
            let (after, next) = room.window_settled_if_ready(false, now_ms);
            &&& next is None
            &&& after == (RoomStateModel {
                outbox: after.outbox,
                next_event_seq: after.next_event_seq,
                ..room
            })
        }),
{
    reveal(RoomStateModel::window_settled_if_ready);
    lemma_counts_answers(room.window()->0);
}

/// Whoever keeps silent wants nothing.
proof fn lemma_silence(responses: SeatMap<ClaimResponseModel>, eligible: Seq<Seat>, seat: Seat)
    ensures
        seat_weight(with_silent_passes(responses, eligible), seat) == seat_weight(responses, seat),
        responses.at(seat) is Some ==> with_silent_passes(responses, eligible).at(seat)
            == responses.at(seat),
    decreases eligible.len(),
{
    if eligible.len() > 0 {
        lemma_silence(responses, eligible.drop_last(), seat);
        lemma_silence(responses, eligible.drop_last(), eligible.last());
    }
}

proof fn lemma_same_winner(
    responses: SeatMap<ClaimResponseModel>,
    eligible: Seq<Seat>,
    source_seat: Seat,
)
    ensures
        winning_seat(with_silent_passes(responses, eligible), source_seat) == winning_seat(
            responses,
            source_seat,
        ),
{
    reveal(winning_seat);
    lemma_silence(responses, eligible, Seat::East);
    lemma_silence(responses, eligible, Seat::South);
    lemma_silence(responses, eligible, Seat::West);
    lemma_silence(responses, eligible, Seat::North);
    lemma_silence(responses, eligible, Seat::Unspecified);
}

// ---------------------------------------------------------------------------
// What comes of a window
// ---------------------------------------------------------------------------

/// Whether a room waits for the score of a win on the tile of a window.
pub open spec fn waits_for_score(
    next: Option<PendingCallModel>,
    window: ActiveClaimWindowStateModel,
    winner: Seat,
    win: crate::proto::client::DeclareWinAction,
) -> bool {
    match next {
        Some(PendingCallModel::Score(pending)) => {
            &&& pending.win.winner_seat == winner
            &&& pending.win.discarder_seat == Some(window.source_seat)
            &&& pending.win.source_event_seq == win.source_event_seq
            &&& Tile::decode(win.winning_tile) matches Some(tile) ==> pending.win.winning_tile
                == tile
            &&& WinType::decode(win.win_type) matches Some(win_type) ==> pending.win.win_type
                == win_type
        },
        _ => false,
    }
}

/// When everybody who may answer has, or the time is over, the window is closed. If its winner has
/// declared a win, that is sent to be scored, and the source of the tile is to pay. If the winner has
/// claimed the tile, it is the winner's turn, and if the claim can be carried out a discard is
/// awaited. If nobody wants the discard, the turn goes to the seat after its source.
pub proof fn law_windows_go_to_their_winner(room: RoomStateModel, force: bool, now_ms: u64)
    requires
        room.sound(),
        room.can_number(4),
        room.window() matches Some(window) && (force || (answered_by_eligible(window)
            && everybody_answered(window))),
    ensures
        ({
            let window = room.window()->0;
            let (after, next) = room.window_settled_if_ready(force, now_ms);
            match winning_seat(window.responded_seats, window.source_seat) {
                None => {
                    &&& next is None
                    &&& after.window() is None
                    &&& window.trigger_action_kind != ActionKind::SupplementalKong
                        ==> after.current_turn_seat == seat_after(window.source_seat)
                },
                Some(winner) => match window.responded_seats.at(winner) {
                    Some(ClaimResponseModel::DeclareWin(win)) => {
                        &&& after.window() is None
                        &&& after.player_round_state == room.player_round_state
                        &&& after.players_by_seat == room.players_by_seat
                        &&& waits_for_score(next, window, winner, win)
                    },
                    Some(ClaimResponseModel::Claim(claim)) => {
                        &&& next is None
                        &&& after.window() is None
                        &&& is_feasible(room, winner, claim) ==> after.current_turn_seat == winner
                            && after.phase == GamePhase::WaitingDiscard
                    },
                    _ => true,
                },
            }
        }),
{
    reveal(RoomStateModel::window_settled_if_ready);
    broadcast use lemma_window_resolution_keeps;
    let window = room.window()->0;
    if !force {
        lemma_counts_answers(window);
    }
    let closed = room.without_window();
    let responses = with_silent_passes(window.responded_seats, window.eligible_seats);
    lemma_same_winner(window.responded_seats, window.eligible_seats, window.source_seat);
    let after = closed.window_settled(window, responses, now_ms).0;
    match winning_seat(window.responded_seats, window.source_seat) {
        None => {
            reveal(RoomStateModel::window_let_pass);
            let stored = closed.window_resolution_stored(window, responses, None, "PASS"@);
            crate::room::soundness::lemma_sound_draws(room, window.source_seat);
            assert(stored.can_draw(seat_after(window.source_seat)));
            if window.trigger_action_kind == ActionKind::SupplementalKong {
                crate::room::table::lemma_kong_plays_on(
                    stored,
                    window.source_seat,
                    window.target_tile,
                    window.source_event_seq,
                );
            } else {
                lemma_turn_moves_on(stored, window.source_seat);
                crate::room::table::lemma_turn_passed_on_plays_on(stored, window.source_seat);
            }
        },
        Some(winner) => {
            lemma_silence(window.responded_seats, window.eligible_seats, winner);
            crate::room::claims::law_window_winner(
                window.responded_seats,
                window.source_seat,
                winner,
            );
            match window.responded_seats.at(winner) {
                Some(ClaimResponseModel::DeclareWin(win)) => {
                    reveal(RoomStateModel::window_won);
                },
                Some(ClaimResponseModel::Claim(claim)) => {
                    reveal(RoomStateModel::window_claimed);
                    let stored = closed.window_resolution_stored(
                        window,
                        responses,
                        Some(winner),
                        "CLAIM"@,
                    );
                    crate::room::soundness::lemma_sound_draws(room, winner);
                    assert(stored.draws_fit(winner));
                    assert(is_feasible(room, winner, claim) == is_feasible(stored, winner, claim));
                    lemma_claim_closes(stored, winner, claim);
                    if is_feasible(stored, winner, claim) {
                        lemma_claim_takes_turn(stored, winner, claim);
                    }
                },
                _ => {},
            }
        },
    }
}

proof fn lemma_turn_moves_on(room: RoomStateModel, source_seat: Seat)
    requires
        room.can_draw(seat_after(source_seat)),
    ensures
        room.turn_passed_on(source_seat).current_turn_seat == seat_after(source_seat),
{
    reveal(RoomStateModel::turn_passed_on);
    let next = seat_after(source_seat);
    let turned = RoomStateModel { current_turn_seat: next, ..room }.without_window();
    crate::room::rounds::lemma_drawn_keeps(turned, next, DrawSource::LiveWall);
}

proof fn lemma_claim_closes(room: RoomStateModel, seat: Seat, claim: ClaimActionModel)
    requires
        room.window() is None,
        room.draws_fit(seat),
    ensures
        room.claim_applied(seat, claim).0.window() is None,
{
    if is_feasible(room, seat, claim) {
        crate::room::table::lemma_claim_company(room, seat, claim);
    } else {
        reveal(RoomStateModel::claim_applied);
    }
}

proof fn lemma_claim_takes_turn(room: RoomStateModel, seat: Seat, claim: ClaimActionModel)
    requires
        room.draws_fit(seat),
        is_feasible(room, seat, claim),
    ensures
        room.claim_applied(seat, claim).0.current_turn_seat == seat,
        room.claim_applied(seat, claim).0.phase == GamePhase::WaitingDiscard,
{
    reveal(RoomStateModel::claim_applied);
    let kind = parsed_claim_kind(claim.claim_kind)->Ok_0;
    let target = parsed_tile(claim.target_tile)->Ok_0;
    let source_seat = parsed_seat(claim.source_seat)->Ok_0;
    let consume = sorted_tiles(parsed_tiles(claim.consume_tiles)->Ok_0);
    let taken = room.with_tiles_taken(seat, consume);
    let laid = taken.claim_laid(seat, kind, target, source_seat, consume, claim.source_event_seq);
    assert(laid.current_turn_seat == seat && laid.phase == GamePhase::WaitingDiscard
        && laid.can_draw(seat)) by {
        reveal(RoomStateModel::claim_laid);
    }
    crate::room::rounds::lemma_drawn_keeps(laid, seat, DrawSource::DeadWall);
    reveal(RoomStateModel::replacement_recorded);
}

/// A claim that can be carried out lays down one meld: a run, a triplet or a kong, as it was claimed,
/// face up, with the claimed tile, from the seat and under the number of the discard. For a kong, and
/// for nothing else, a replacement is drawn from the dead wall.
pub proof fn law_claims_lay_down_what_was_claimed(
    room: RoomStateModel,
    seat: Seat,
    claim: ClaimActionModel,
)
    requires
        seat != Seat::Unspecified,
        room.draws_fit(seat),
        is_feasible(room, seat, claim),
    ensures
        ({
            let (after, result) = room.claim_applied(seat, claim);
            let hand = after.player_round_state.at(seat)->0;
            let meld = hand.melds.last();
            &&& after.player_round_state.at(seat) is Some
            &&& hand.melds.len() == room.player_round_state.at(seat)->0.melds.len() + 1
            &&& claim.claim_kind == ClaimKind::Chi.code() ==> meld.kind == MeldKind::Chi.code()
            &&& claim.claim_kind == ClaimKind::Peng.code() ==> meld.kind == MeldKind::Peng.code()
            &&& claim.claim_kind == ClaimKind::ExposedKong.code() ==> meld.kind
                == MeldKind::ExposedKong.code()
            &&& meld.claimed_tile == claim.target_tile
            &&& meld.from_seat == claim.source_seat
            &&& meld.source_event_seq == claim.source_event_seq
            &&& !meld.concealed
            &&& meld.tiles.len() == claim.consume_tiles.len() + 1
            &&& claim.claim_kind != ClaimKind::ExposedKong.code() ==> hand.drawn_tile is None
                && result is Ok && (after.round_runtime matches Some(runtime) ==> runtime.dead_wall
                == room.round_runtime->0.dead_wall)
            &&& claim.claim_kind == ClaimKind::ExposedKong.code() && result is Ok ==> hand.drawn_tile
                is Some
        }),
{
    law_claims_conserve_tiles(room, seat, claim);
    let kind = parsed_claim_kind(claim.claim_kind)->Ok_0;
    let target = parsed_tile(claim.target_tile)->Ok_0;
    let source_seat = parsed_seat(claim.source_seat)->Ok_0;
    let named = parsed_tiles(claim.consume_tiles)->Ok_0;
    let consume = sorted_tiles(named);
    crate::proto::client::law_claim_kind_codes(kind, claim.claim_kind);
    crate::proto::client::law_claim_kind_codes(ClaimKind::ExposedKong, claim.claim_kind);
    crate::proto::client::law_tile_codes(target, claim.target_tile);
    crate::proto::client::law_seat_codes(source_seat, claim.source_seat);
    lemma_sorted_tiles_keeps_tiles(named);
    lemma_sorted_tiles_keeps_tiles(consume.push(target));
    lemma_parsed_len(claim.consume_tiles);
    reveal(RoomStateModel::claim_applied);
    let taken = room.with_tiles_taken(seat, consume);
    let laid = taken.claim_laid(seat, kind, target, source_seat, consume, claim.source_event_seq);
    assert(laid.player_round_state.at(seat) is Some && laid.player_round_state.at(seat)->0.drawn_tile
        is None && laid.can_draw(seat) && (laid.round_runtime matches Some(runtime)
        ==> runtime.dead_wall == room.round_runtime->0.dead_wall)) by {
        reveal(RoomStateModel::claim_laid);
    }
    crate::room::conservation::law_drawing_conserves_tiles(laid, seat, DrawSource::DeadWall);
    crate::room::rounds::lemma_drawn_keeps(laid, seat, DrawSource::DeadWall);
    reveal(RoomStateModel::replacement_recorded);
}

proof fn lemma_parsed_len(codes: Seq<i32>)
    ensures
        parsed_tiles(codes) matches Ok(tiles) ==> tiles.len() == codes.len(),
    decreases codes.len(),
{
    if codes.len() > 0 {
        lemma_parsed_len(codes.drop_last());
    }
}

// ---------------------------------------------------------------------------
// How a window comes about
// ---------------------------------------------------------------------------

/// The next place in the order of play, from one on, whose seat is not the source; four where there is
/// none.
pub open spec fn next_asked(source_seat: Seat, from: int) -> int
    decreases 4 - from,
{
    if from >= 4 {
        4
    } else if seat_order()[from] != source_seat {
        from
    } else {
        next_asked(source_seat, from + 1)
    }
}

/// The rule engine is asked about every seat in the order of play except the source, one after the
/// other, whether it could win on the tile. A seat may answer the window if it can do anything with
/// the tile: what its hand allows, and winning if and only if the rule engine says so. When all have
/// been asked about, the window opens just if somebody may answer it.
pub proof fn law_every_other_seat_is_asked(
    room: RoomStateModel,
    probe: WindowProbeModel,
    response: crate::proto::engine::ValidateActionResponseModel,
    now_ms: u64,
)
    requires
        probe.asked < 4,
    ensures
        ({
            let seat = seat_order()[probe.asked as int];
            let (after, step) = room.probe_answered(probe, Ok(response), now_ms);
            let may_answer = probe.local_options.len() > 0 || response.is_legal;
            let eligible = if may_answer {
                probe.eligible_seats.push(seat)
            } else {
                probe.eligible_seats
            };
            match step {
                ProbeStepModel::Ask(next, _) => {
                    &&& after == room
                    &&& next.asked == next_asked(probe.source_seat, probe.asked + 1) && next.asked
                        < 4
                    &&& next.eligible_seats == eligible
                    &&& next.source_seat == probe.source_seat && next.tile == probe.tile
                        && next.source_event_seq == probe.source_event_seq && next.trigger
                        == probe.trigger
                    &&& may_answer ==> has_options(next.options_by_seat.at(seat), probe, response.is_legal)
                },
                ProbeStepModel::Settled(opened) => {
                    &&& next_asked(probe.source_seat, probe.asked + 1) == 4
                    &&& opened <==> eligible.len() > 0
                    &&& !opened ==> after == room
                    &&& opened && room.round_runtime is Some ==> {
                        &&& after.window() matches Some(window) && window.eligible_seats == eligible
                            && window.source_seat == probe.source_seat && window.target_tile
                            == probe.tile && window.source_event_seq == probe.source_event_seq
                            && window.trigger_action_kind == probe.trigger
                            && window.action_window_id == room.next_action_window_id && (now_ms
                            + room.room_config.action_timeout_ms <= u64::MAX
                            ==> window.deadline_unix_ms == now_ms
                            + room.room_config.action_timeout_ms) && (may_answer ==> has_options(
                            window.options_by_seat.at(seat),
                            probe,
                            response.is_legal,
                        )) && forall|other: Seat|
                            (#[trigger] window.responded_seats.at(other)) is None
                        &&& room.next_action_window_id < u64::MAX ==> after.next_action_window_id
                            == room.next_action_window_id + 1
                        &&& probe.trigger == ActionKind::Discard ==> after.phase
                            == GamePhase::WaitingClaim
                    }
                },
                ProbeStepModel::Failed(_) => after == room,
            }
        }),
{
    let answered = crate::room::windows::probe_with_answer(probe, response.is_legal);
    lemma_asks_next(room, answered, probe.asked + 1, now_ms);
    let seat = seat_order()[probe.asked as int];
    let options = crate::room::windows::probed_options(probe, seat, response.is_legal);
    if response.is_legal {
        assert(options.drop_last() =~= probe.local_options);
        assert(options.last().candidate_tiles =~= seq![probe.tile.code()]);
    }
    assert(has_options(Some(options), probe, response.is_legal));
    if answered.eligible_seats.len() > 0 {
        let window = room.new_window(
            answered.source_seat,
            answered.tile,
            answered.source_event_seq,
            answered.trigger,
            answered.eligible_seats,
            answered.options_by_seat,
            now_ms,
        );
        lemma_window_is_open(room, window);
    }
}

/// Whether the options of a seat are those that its hand allows, and the win on top if and only if it
/// is legal.
pub open spec fn has_options(
    options: Option<Seq<crate::proto::client::PromptOptionModel>>,
    probe: WindowProbeModel,
    is_legal: bool,
) -> bool {
    match options {
        None => false,
        Some(options) => if is_legal {
            &&& options.len() == probe.local_options.len() + 1
            &&& options.drop_last() == probe.local_options
            &&& options.last().action_kind == ActionKind::DeclareWin.code()
            &&& options.last().consume_tiles.len() == 0
            &&& options.last().candidate_tiles == seq![probe.tile.code()]
            &&& options.last().win_type == (if probe.trigger == ActionKind::SupplementalKong {
                WinType::RobKong
            } else {
                WinType::Discard
            }).code()
        } else {
            options == probe.local_options
        },
    }
}

pub proof fn lemma_asks_next(room: RoomStateModel, probe: WindowProbeModel, from: int, now_ms: u64)
    requires
        0 <= from,
    ensures
        ({
            let (after, step) = room.probed(probe, from, now_ms);
            let place = next_asked(probe.source_seat, from);
            &&& place == 4 ==> (after, step) == room.probed(probe, 4, now_ms)
            &&& place < 4 ==> after == room && (match step {
                ProbeStepModel::Ask(next, _) => next.asked == place && next.eligible_seats
                    == probe.eligible_seats && next.options_by_seat == probe.options_by_seat
                    && next.source_seat == probe.source_seat && next.tile == probe.tile
                    && next.source_event_seq == probe.source_event_seq && next.trigger
                    == probe.trigger,
                ProbeStepModel::Failed(_) => true,
                ProbeStepModel::Settled(_) => false,
            })
            &&& 0 <= place <= 4
        }),
    decreases 4 - from,
{
    if from < 4 && seat_order()[from] == probe.source_seat {
        lemma_asks_next(room, probe, from + 1, now_ms);
    }
}

proof fn lemma_window_is_open(room: RoomStateModel, window: ActiveClaimWindowStateModel)
    ensures
        ({
            let after = room.window_opened(window);
            &&& room.round_runtime is Some ==> after.window() == Some(window)
            &&& after.next_action_window_id == (room.next_action_window_id + 1) as u64
            &&& window.trigger_action_kind == ActionKind::Discard ==> after.phase
                == GamePhase::WaitingClaim
        }),
{
    let phase = if window.trigger_action_kind == ActionKind::Discard {
        GamePhase::WaitingClaim
    } else {
        room.phase
    };
    let stored = RoomStateModel {
        next_action_window_id: (room.next_action_window_id + 1) as u64,
        ..room
    }.with_window(window).window_opening_stored().in_phase(phase);
    crate::room::actions::lemma_prompted_seats_keeps(
        stored.numbered(),
        stored.next_event_seq,
        window.eligible_seats,
        window.action_window_id,
        window.deadline_unix_ms,
    );
}

} // verus!
