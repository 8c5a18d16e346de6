//! Who gets which tiles, and when a kong goes through.

use vstd::prelude::*;

use crate::collections::{group_seat_map, SeatMap};
use crate::proto::client::{ActionKind, GamePhase, MeldKind, Seat, Tile};
use crate::proto::engine;
use crate::room::basics::group_announcing_keeps;
use crate::room::conservation::{law_drawing_conserves_tiles, law_kongs_conserve_tiles};
use crate::room::frames::lemma_synced_keeps;
use crate::room::hand::{after_kong_tile, seat_after, seat_order, PlayerRoundStateModel};
use crate::room::plays::peng_place;
use crate::room::rounds::lemma_drawn_keeps;
use crate::room::state::{DrawSource, RoomStateModel, DEAD_WALL_TILE_COUNT, STARTING_HAND_LEN};
use crate::room::steps::{PendingCallModel, RequestContextModel, ValidationPurposeModel};
use crate::room::turns::{is_replaced, law_draws_take_from_the_top};
use crate::tiles::lemma_sorted_tiles_keeps_tiles;

verus! {

broadcast use {group_announcing_keeps, lemma_synced_keeps, group_seat_map};

// ---------------------------------------------------------------------------
// Turns
// ---------------------------------------------------------------------------

/// When the turn is passed on, the seat after the source draws the top tile of the live wall and a
/// discard is awaited from it; nobody else's hand changes.
pub proof fn law_the_next_seat_draws(room: RoomStateModel, source_seat: Seat, other: Seat)
    requires
        room.can_draw(seat_after(source_seat)),
        room.player_round_state.at(seat_after(source_seat))->0.drawn_tile is None,
        room.round_runtime matches Some(runtime) && runtime.live_wall.len() > 0 && !is_replaced(
            room,
            runtime.live_wall[0],
        ),
    ensures
        ({
            let next = seat_after(source_seat);
            let walls = room.round_runtime->0;
            let after = room.turn_passed_on(source_seat);
            let hand = after.player_round_state.at(next)->0;
            &&& after.phase == GamePhase::WaitingDiscard
            &&& after.current_turn_seat == next
            &&& after.window() is None
            &&& after.player_round_state.at(next) is Some
            &&& hand == (PlayerRoundStateModel {
                drawn_tile: Some(walls.live_wall[0]),
                ..room.player_round_state.at(next)->0
            })
            &&& other != next ==> after.player_round_state.at(other) == room.player_round_state.at(
                other,
            )
            &&& after.round_runtime matches Some(left) && left.live_wall
                == walls.live_wall.drop_first() && left.dead_wall == walls.dead_wall
            &&& after.players_by_seat == room.players_by_seat
        }),
{
    reveal(RoomStateModel::turn_passed_on);
    let next = seat_after(source_seat);
    let turned = RoomStateModel { current_turn_seat: next, ..room }.without_window();
    law_draws_take_from_the_top(turned, next, 0);
    law_drawing_conserves_tiles(turned, next, DrawSource::LiveWall);
    lemma_drawn_keeps(turned, next, DrawSource::LiveWall);
    let tile = room.round_runtime->0.live_wall[0];
    assert(!turned.popped(DrawSource::LiveWall).0.lays_aside(tile)) by {
        assert(tile.code() <= 42);
    }
}

// ---------------------------------------------------------------------------
// The deal
// ---------------------------------------------------------------------------

/// Dealing so many tiles that are no flowers gives a seat just the top of the live wall.
proof fn lemma_dealt_from_the_top(room: RoomStateModel, seat: Seat, count: nat)
    requires
        seat != Seat::Unspecified,
        room.player_round_state.at(seat) is Some,
        room.round_runtime matches Some(runtime) && count <= runtime.live_wall.len() && forall|i: int|
            0 <= i < count ==> !is_replaced(room, #[trigger] runtime.live_wall[i]),
    ensures
        ({
            let walls = room.round_runtime->0;
            let (after, result) = room.dealt_many(seat, count);
            let hand = after.player_round_state.at(seat)->0;
            &&& result is Ok
            &&& after.player_round_state.at(seat) is Some
            &&& hand == (PlayerRoundStateModel {
                concealed_tiles: hand.concealed_tiles,
                ..room.player_round_state.at(seat)->0
            })
            &&& hand.concealed_tiles.to_multiset() == room.player_round_state.at(
                seat,
            )->0.concealed_tiles.to_multiset().add(
                walls.live_wall.take(count as int).to_multiset(),
            )
            &&& after.round_runtime matches Some(left) && left.live_wall == walls.live_wall.skip(
                count as int,
            ) && left.dead_wall == walls.dead_wall
            &&& forall|other: Seat|
                other != seat ==> #[trigger] after.player_round_state.at(other)
                    == room.player_round_state.at(other)
            &&& after.room_config == room.room_config
        }),
    decreases count,
{
    broadcast use vstd::seq_lib::group_to_multiset_ensures;
    let wall = room.round_runtime->0.live_wall;
    let before = room.player_round_state.at(seat)->0;
    if count == 0 {
        assert(wall.take(0) =~= Seq::<Tile>::empty());
        assert(wall.skip(0) =~= wall);
        assert(before.concealed_tiles.to_multiset().add(wall.take(0).to_multiset())
            =~= before.concealed_tiles.to_multiset());
    } else {
        lemma_dealt_from_the_top(room, seat, (count - 1) as nat);
        let (middle, _) = room.dealt_many(seat, (count - 1) as nat);
        let rest = middle.round_runtime->0.live_wall;
        let tile = wall[count - 1];
        assert(rest[0] == tile);
        assert(tile.code() <= 42);
        let hand = middle.player_round_state.at(seat)->0;
        lemma_sorted_tiles_keeps_tiles(hand.concealed_tiles.push(tile));
        assert(rest.drop_first() =~= wall.skip(count as int));
        assert(wall.take(count as int) =~= wall.take(count - 1).push(tile));
        let after = room.dealt_many(seat, count).0.player_round_state.at(seat)->0;
        assert(after.concealed_tiles.to_multiset() =~= before.concealed_tiles.to_multiset().add(
            wall.take(count as int).to_multiset(),
        ));
    }
}

/// The place in the wall at which the tiles of a seat start.
pub open spec fn deal_start(seat: Seat) -> int {
    STARTING_HAND_LEN * (if seat == Seat::East {
        0int
    } else if seat == Seat::South {
        1int
    } else if seat == Seat::West {
        2int
    } else {
        3int
    })
}

/// Where no flower comes up, the tiles are dealt from the top of the wall: the first thirteen to East,
/// the next to South, then West, then North, and the one after them is the dealer's draw. The last
/// fourteen of the wall are set apart for replacements.
pub proof fn law_tiles_are_dealt_in_order(room: RoomStateModel, wall: Seq<Tile>, seat: Seat)
    requires
        seat != Seat::Unspecified,
        room.dealer_seat != Seat::Unspecified,
        wall.len() >= 4 * STARTING_HAND_LEN + 1 + DEAD_WALL_TILE_COUNT,
        forall|i: int|
            0 <= i <= 4 * STARTING_HAND_LEN ==> !is_replaced(room, #[trigger] wall[i]),
    ensures
        ({
            let (after, result) = room.round_started(wall);
            let hand = after.player_round_state.at(seat)->0;
            let start = deal_start(seat);
            &&& result is Ok
            &&& after.player_round_state.at(seat) is Some
            &&& hand.concealed_tiles.to_multiset() == wall.subrange(
                start,
                start + STARTING_HAND_LEN,
            ).to_multiset()
            &&& hand.drawn_tile == (if seat == room.dealer_seat {
                Some(wall[4 * STARTING_HAND_LEN as int])
            } else {
                None
            })
            &&& hand.melds.len() == 0 && hand.discards.len() == 0 && hand.flowers.len() == 0
            &&& after.round_runtime matches Some(left) && left.live_wall == wall.subrange(
                4 * STARTING_HAND_LEN + 1,
                wall.len() - DEAD_WALL_TILE_COUNT,
            ) && left.dead_wall == wall.subrange(
                wall.len() - DEAD_WALL_TILE_COUNT,
                wall.len() as int,
            )
        }),
{
    broadcast use vstd::seq_lib::group_to_multiset_ensures;
    let set = room.table_set(wall);
    lemma_dealt_in_order(room, wall, 4);
    let (dealt, _) = set.dealt_seats(4);
    let dealer = room.dealer_seat;
    assert(seat_order()[0] == Seat::East && seat_order()[1] == Seat::South && seat_order()[2]
        == Seat::West && seat_order()[3] == Seat::North);
    let place = if seat == Seat::East {
        0int
    } else if seat == Seat::South {
        1
    } else if seat == Seat::West {
        2
    } else {
        3
    };
    let dealer_place = if dealer == Seat::East {
        0int
    } else if dealer == Seat::South {
        1
    } else if dealer == Seat::West {
        2
    } else {
        3
    };
    assert(was_dealt(dealt, wall, seat_order()[place], place));
    assert(was_dealt(dealt, wall, seat_order()[dealer_place], dealer_place));
    let left = dealt.round_runtime->0.live_wall;
    assert(left[0] == wall[4 * STARTING_HAND_LEN as int]);
    law_draws_take_from_the_top(dealt, dealer, 0);
    law_drawing_conserves_tiles(dealt, dealer, DrawSource::LiveWall);
    let tile = left[0];
    assert(!dealt.popped(DrawSource::LiveWall).0.lays_aside(tile)) by {
        assert(tile.code() <= 42);
    }
    assert(left.drop_first() =~= wall.subrange(
        4 * STARTING_HAND_LEN + 1,
        wall.len() - DEAD_WALL_TILE_COUNT,
    ));
}

/// Whether a seat has been dealt its part of a wall, and nothing else.
spec fn was_dealt(room: RoomStateModel, wall: Seq<Tile>, seat: Seat, place: int) -> bool {
    room.player_round_state.at(seat) matches Some(hand) && hand.drawn_tile is None
        && hand.melds.len() == 0 && hand.discards.len() == 0 && hand.flowers.len() == 0
        && hand.concealed_tiles.to_multiset() == wall.subrange(
        STARTING_HAND_LEN * place,
        STARTING_HAND_LEN * place + STARTING_HAND_LEN,
    ).to_multiset()
}

proof fn lemma_dealt_in_order(room: RoomStateModel, wall: Seq<Tile>, seats: nat)
    requires
        seats <= 4,
        wall.len() >= 4 * STARTING_HAND_LEN + 1 + DEAD_WALL_TILE_COUNT,
        forall|i: int|
            0 <= i <= 4 * STARTING_HAND_LEN ==> !is_replaced(room, #[trigger] wall[i]),
    ensures
        ({
            let (after, result) = room.table_set(wall).dealt_seats(seats);
            &&& result is Ok
            &&& forall|place: int|
                0 <= place < seats ==> was_dealt(
                    after,
                    wall,
                    #[trigger] seat_order()[place],
                    place,
                )
            &&& forall|place: int|
                seats <= place < 4 ==> (#[trigger] after.player_round_state.at(seat_order()[place]))
                    == Some(crate::room::hand::empty_hand())
            &&& after.round_runtime matches Some(left) && left.live_wall == wall.subrange(
                STARTING_HAND_LEN * seats,
                wall.len() - DEAD_WALL_TILE_COUNT,
            ) && left.dead_wall == wall.subrange(
                wall.len() - DEAD_WALL_TILE_COUNT,
                wall.len() as int,
            )
            &&& after.room_config == room.room_config
        }),
    decreases seats,
{
    broadcast use vstd::seq_lib::group_to_multiset_ensures;
    let set = room.table_set(wall);
    if seats == 0 {
        assert(set.player_round_state.at(Seat::East) == Some(crate::room::hand::empty_hand())
            && set.player_round_state.at(Seat::South) == Some(crate::room::hand::empty_hand())
            && set.player_round_state.at(Seat::West) == Some(crate::room::hand::empty_hand())
            && set.player_round_state.at(Seat::North) == Some(crate::room::hand::empty_hand())) by {
            reveal(SeatMap::at);
        }
    } else {
        lemma_dealt_in_order(room, wall, (seats - 1) as nat);
        let (before, _) = set.dealt_seats((seats - 1) as nat);
        let seat = seat_order()[seats - 1];
        let left = before.round_runtime->0.live_wall;
        let first = STARTING_HAND_LEN * (seats - 1);
        assert(before.player_round_state.at(seat_order()[seats - 1]) == Some(
            crate::room::hand::empty_hand(),
        ));
        assert forall|i: int| 0 <= i < STARTING_HAND_LEN implies !is_replaced(
            before,
            #[trigger] left[i],
        ) by {
            assert(left[i] == wall[first + i]);
        }
        lemma_dealt_from_the_top(before, seat, STARTING_HAND_LEN as nat);
        let (after, _) = set.dealt_seats(seats);
        assert(left.take(STARTING_HAND_LEN as int) =~= wall.subrange(
            first,
            first + STARTING_HAND_LEN,
        ));
        assert(left.skip(STARTING_HAND_LEN as int) =~= wall.subrange(
            STARTING_HAND_LEN * seats,
            wall.len() - DEAD_WALL_TILE_COUNT,
        ));
        let hand = after.player_round_state.at(seat)->0;
        assert(hand.concealed_tiles.to_multiset() =~= wall.subrange(
            first,
            first + STARTING_HAND_LEN,
        ).to_multiset());
        assert forall|place: int| 0 <= place < seats implies was_dealt(
            after,
            wall,
            #[trigger] seat_order()[place],
            place,
        ) by {
            if place < seats - 1 {
                assert(was_dealt(before, wall, seat_order()[place], place));
                assert(seat_order()[place] != seat);
            }
        }
        assert forall|place: int| seats <= place < 4 implies (
        #[trigger] after.player_round_state.at(seat_order()[place])) == Some(
            crate::room::hand::empty_hand(),
        ) by {
            assert(before.player_round_state.at(seat_order()[place]) == Some(
                crate::room::hand::empty_hand(),
            ));
            assert(seat_order()[place] != seat);
        }
    }
}

// ---------------------------------------------------------------------------
// Kongs
// ---------------------------------------------------------------------------

/// Whether a room asks whether somebody could rob a kong, or could not even ask.
pub open spec fn asks_who_robs(
    next: Option<PendingCallModel>,
    seat: Seat,
    tile: Tile,
) -> bool {
    match next {
        Some(PendingCallModel::Validation(pending)) => match pending.purpose {
            ValidationPurposeModel::ClaimWindow(probe) => probe.trigger
                == ActionKind::SupplementalKong && probe.source_seat == seat && probe.tile == tile
                && seat_order()[probe.asked as int] != seat,
            _ => false,
        },
        Some(_) => false,
        None => true,
    }
}

/// A supplemental kong that is judged legal waits until it is clear whether anybody robs it, where the
/// rules allow that: nothing at the table changes yet. Where they do not, it goes through at once: the
/// tile is on the triplet, which is a kong now, and it stays that player's turn.
pub proof fn law_kongs_wait_for_robbers(
    room: RoomStateModel,
    context: RequestContextModel,
    seat: Seat,
    tile: Tile,
    response: engine::ValidateActionResponseModel,
    now_ms: u64,
)
    requires
        response.is_legal,
        seat != Seat::Unspecified,
        room.draws_fit(seat),
        room.player_round_state.at(seat) matches Some(hand) && peng_place(hand.melds, tile) is Some
            && after_kong_tile(hand, tile) is Some,
    ensures
        ({
            let (after, next) = room.kong_judged(context, seat, tile, Ok(response), now_ms);
            &&& room.room_config.enable_robbing_kong ==> {
                &&& asks_who_robs(next, seat, tile)
                &&& after == (RoomStateModel {
                    outbox: after.outbox,
                    next_event_seq: after.next_event_seq,
                    ..room
                })
            }
            &&& !room.room_config.enable_robbing_kong ==> {
                &&& next is None
                &&& is_kong_of(room.numbered(), after, seat, tile)
            }
        }),
{
    let event_seq = room.next_event_seq;
    let numbered = room.numbered();
    if room.room_config.enable_robbing_kong {
        lemma_robbers_are_asked(numbered, context, seat, tile, event_seq, now_ms);
    } else {
        lemma_kong(numbered, seat, tile, event_seq);
        lemma_kong_is_finished(numbered, context, seat, tile, event_seq, now_ms);
    }
}

proof fn lemma_robbers_are_asked(
    room: RoomStateModel,
    context: RequestContextModel,
    seat: Seat,
    tile: Tile,
    event_seq: u64,
    now_ms: u64,
)
    ensures
        ({
            let (after, next) = room.window_begun(
                context,
                seat,
                tile,
                event_seq,
                ActionKind::SupplementalKong,
                now_ms,
            );
            &&& asks_who_robs(next, seat, tile)
            &&& after == (RoomStateModel {
                outbox: after.outbox,
                next_event_seq: after.next_event_seq,
                ..room
            })
        }),
{
    reveal(RoomStateModel::window_begun);
    let probe = crate::room::windows::fresh_probe(
        seat,
        tile,
        event_seq,
        ActionKind::SupplementalKong,
    );
    crate::room::turns::lemma_asks_next(room, probe, 0, now_ms);
    reveal_with_fuel(crate::room::turns::next_asked, 3);
    assert(seat_order()[0] != seat_order()[1]);
    let (probed, step) = room.probed(probe, 0, now_ms);
    reveal(RoomStateModel::probe_followed);
}

proof fn lemma_kong_is_finished(
    room: RoomStateModel,
    context: RequestContextModel,
    seat: Seat,
    tile: Tile,
    event_seq: u64,
    now_ms: u64,
)
    requires
        is_kong_of(room, room.kong_applied(seat, tile, event_seq).0, seat, tile),
    ensures
        is_kong_of(room, room.kong_finished(context, seat, tile, event_seq, now_ms), seat, tile),
{
    reveal(RoomStateModel::kong_finished);
    let applied = room.kong_applied(seat, tile, event_seq).0;
    let after = room.kong_finished(context, seat, tile, event_seq, now_ms);
    assert(after.unplayed() == applied.unplayed()) by {
        reveal(RoomStateModel::unplayed);
    }
}

/// Whether a triplet of a seat has become a kong by a tile of its hand, and it is that seat's turn.
pub open spec fn is_kong_of(before: RoomStateModel, after: RoomStateModel, seat: Seat, tile: Tile) -> bool {
    let melds = before.player_round_state.at(seat)->0.melds;
    let place = peng_place(melds, tile)->0;
    &&& after.unplayed().insert(tile) == before.unplayed()
    &&& after.current_turn_seat == seat
    &&& after.player_round_state.at(seat) matches Some(hand) && hand.melds.len() == melds.len()
        && hand.melds[place].kind == MeldKind::SupplementalKong.code()
        && hand.melds[place].tiles.to_multiset() == melds[place].tiles.to_multiset().insert(
        tile.code(),
    ) && hand.melds[place].from_seat == melds[place].from_seat && forall|i: int|
        0 <= i < melds.len() && i != place ==> #[trigger] hand.melds[i] == melds[i]
}

proof fn lemma_kong(room: RoomStateModel, seat: Seat, tile: Tile, event_seq: u64)
    requires
        seat != Seat::Unspecified,
        room.draws_fit(seat),
        room.player_round_state.at(seat) matches Some(hand) && peng_place(hand.melds, tile) is Some
            && after_kong_tile(hand, tile) is Some,
    ensures
        is_kong_of(room, room.kong_applied(seat, tile, event_seq).0, seat, tile),
{
    law_kongs_conserve_tiles(room, seat, tile, event_seq);
    crate::room::plays::lemma_peng_place_in_range(room.player_round_state.at(seat)->0.melds, tile);
    reveal(RoomStateModel::kong_applied);
    let hand = room.player_round_state.at(seat)->0;
    let place = peng_place(hand.melds, tile)->0;
    let rest = after_kong_tile(hand, tile)->0;
    let laid = room.kong_laid(seat, tile, event_seq, rest, place);
    assert(laid.current_turn_seat == seat && laid.can_draw(seat)) by {
        reveal(RoomStateModel::kong_laid);
    }
    lemma_drawn_keeps(laid, seat, DrawSource::DeadWall);
    reveal(RoomStateModel::replacement_recorded);
}

/// A kong that nobody robs, because everybody who could lets it pass, goes through.
pub proof fn law_unrobbed_kongs_go_through(
    room: RoomStateModel,
    window: crate::room::state::ActiveClaimWindowStateModel,
    now_ms: u64,
)
    requires
        window.trigger_action_kind == ActionKind::SupplementalKong,
        window.source_seat != Seat::Unspecified,
        room.draws_fit(window.source_seat),
        room.player_round_state.at(window.source_seat) matches Some(hand) && peng_place(
            hand.melds,
            window.target_tile,
        ) is Some && after_kong_tile(hand, window.target_tile) is Some,
    ensures
        is_kong_of(
            room,
            room.window_passed(window, now_ms),
            window.source_seat,
            window.target_tile,
        ),
{
    lemma_kong(room, window.source_seat, window.target_tile, window.source_event_seq);
    let applied = room.kong_applied(
        window.source_seat,
        window.target_tile,
        window.source_event_seq,
    ).0;
    let after = room.window_passed(window, now_ms);
    assert(after.unplayed() == applied.unplayed()) by {
        reveal(RoomStateModel::unplayed);
    }
}

} // verus!
