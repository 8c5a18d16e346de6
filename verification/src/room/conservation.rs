//! No tile gets lost or doubled between the walls, the hands and the discards.

use vstd::multiset::Multiset;
use vstd::prelude::*;

use crate::collections::{group_seat_map, SeatMap};
use crate::proto::client::{ClaimActionModel, GamePhase, Seat, Tile};
use crate::room::basics::group_announcing_keeps;
use crate::room::convert::{parsed_claim_kind, parsed_seat, parsed_tile, parsed_tiles};
use crate::room::flow::first_claimed;
use crate::room::hand::{
    after_kong_tile, after_taking, hand_after_discard, hand_after_taking,
    law_taking_conserves_tiles, private_count, seat_order, PlayerRoundStateModel,
};
use crate::room::plays::{claimed_meld, kong_meld, lemma_peng_place_in_range, peng_place};
use crate::room::rounds::fresh_runtime;
use crate::room::state::{
    DrawSource, RoomStateModel, RoundRuntimeStateModel, DEAD_WALL_TILE_COUNT, STARTING_HAND_LEN,
};
use crate::tiles::{
    lemma_sorted_codes_keeps_codes, lemma_sorted_tiles_keeps_tiles, sorted_tiles, tile_codes,
};

verus! {

broadcast use {group_seat_map, group_announcing_keeps};

/// A tile that may be there, as a multiset.
pub open spec fn maybe_tile(tile: Option<Tile>) -> Multiset<Tile> {
    match tile {
        Some(tile) => Multiset::empty().insert(tile),
        None => Multiset::empty(),
    }
}

/// The tiles that a hand holds and has laid aside as flowers.
pub open spec fn hand_tiles(hand: PlayerRoundStateModel) -> Multiset<Tile> {
    hand.concealed_tiles.to_multiset().add(maybe_tile(hand.drawn_tile)).add(
        hand.flowers.to_multiset(),
    )
}

/// The tiles of a hand that may be there.
pub open spec fn hand_tiles_at(hand: Option<PlayerRoundStateModel>) -> Multiset<Tile> {
    match hand {
        Some(hand) => hand_tiles(hand),
        None => Multiset::empty(),
    }
}

/// The tiles of both walls.
pub open spec fn wall_tiles(runtime: Option<RoundRuntimeStateModel>) -> Multiset<Tile> {
    match runtime {
        Some(runtime) => runtime.live_wall.to_multiset().add(runtime.dead_wall.to_multiset()),
        None => Multiset::empty(),
    }
}

impl RoomStateModel {
    /// Every tile that was not discarded or melded yet: those in the walls, in the hands, and the
    /// flowers that were laid aside.
    #[verifier::opaque]
    pub open spec fn unplayed(self) -> Multiset<Tile> {
        wall_tiles(self.round_runtime).add(hand_tiles_at(self.player_round_state.at(Seat::East))).add(
            hand_tiles_at(self.player_round_state.at(Seat::South)),
        ).add(hand_tiles_at(self.player_round_state.at(Seat::West))).add(
            hand_tiles_at(self.player_round_state.at(Seat::North)),
        )
    }
}

/// Tiles come and go with the hand that holds them.
proof fn lemma_with_hand(
    room: RoomStateModel,
    seat: Seat,
    hand: PlayerRoundStateModel,
    gained: Multiset<Tile>,
)
    requires
        seat != Seat::Unspecified,
        room.player_round_state.at(seat) is Some,
        hand_tiles(hand) == hand_tiles(room.player_round_state.at(seat)->0).add(gained),
    ensures
        room.with_hand(seat, hand).unplayed() == room.unplayed().add(gained),
{
    reveal(RoomStateModel::unplayed);
    assert(room.with_hand(seat, hand).unplayed() =~= room.unplayed().add(gained));
}

/// A tile taken from a wall is gone from it.
pub proof fn lemma_popped(room: RoomStateModel, source: DrawSource)
    ensures
        ({
            let (after, tile) = room.popped(source);
            &&& after.unplayed().add(maybe_tile(tile)) == room.unplayed()
            &&& after.player_round_state == room.player_round_state
        }),
{
    reveal(RoomStateModel::unplayed);
    broadcast use vstd::seq_lib::group_to_multiset_ensures;
    let (after, tile) = room.popped(source);
    if let Some(runtime) = room.round_runtime {
        let wall = if source is LiveWall {
            runtime.live_wall
        } else {
            runtime.dead_wall
        };
        if wall.len() > 0 {
            assert(wall.drop_first() =~= wall.remove(0));
            assert(wall.contains(wall[0]));
            assert(wall.to_multiset() =~= wall.drop_first().to_multiset().insert(wall[0]));
        }
    }
    assert(after.unplayed().add(maybe_tile(tile)) =~= room.unplayed());
}

proof fn lemma_pushed(tiles: Seq<Tile>, tile: Tile)
    ensures
        tiles.push(tile).to_multiset() == tiles.to_multiset().insert(tile),
{
    broadcast use vstd::seq_lib::group_to_multiset_ensures;
}

pub proof fn lemma_with_flower(room: RoomStateModel, seat: Seat, tile: Tile)
    requires
        seat != Seat::Unspecified,
        room.player_round_state.at(seat) is Some,
    ensures
        room.with_flower(seat, tile).unplayed() == room.unplayed().insert(tile),
{
    let hand = room.player_round_state.at(seat)->0;
    lemma_sorted_tiles_keeps_tiles(hand.flowers.push(tile));
    lemma_pushed(hand.flowers, tile);
    let one = Multiset::empty().insert(tile);
    let next = room.with_flower(seat, tile).player_round_state.at(seat)->0;
    assert(hand_tiles(next) =~= hand_tiles(hand).add(one));
    lemma_with_hand(room, seat, next, one);
    assert(room.unplayed().add(one) =~= room.unplayed().insert(tile));
}

pub proof fn lemma_with_concealed(room: RoomStateModel, seat: Seat, tile: Tile)
    requires
        seat != Seat::Unspecified,
        room.player_round_state.at(seat) is Some,
    ensures
        room.with_concealed(seat, tile).unplayed() == room.unplayed().insert(tile),
        private_count(room.with_concealed(seat, tile).player_round_state.at(seat)->0)
            == private_count(room.player_round_state.at(seat)->0) + 1,
{
    let hand = room.player_round_state.at(seat)->0;
    lemma_sorted_tiles_keeps_tiles(hand.concealed_tiles.push(tile));
    lemma_pushed(hand.concealed_tiles, tile);
    let one = Multiset::empty().insert(tile);
    let next = room.with_concealed(seat, tile).player_round_state.at(seat)->0;
    assert(hand_tiles(next) =~= hand_tiles(hand).add(one));
    lemma_with_hand(room, seat, next, one);
    assert(room.unplayed().add(one) =~= room.unplayed().insert(tile));
}

pub proof fn lemma_with_drawn(room: RoomStateModel, seat: Seat, tile: Tile)
    requires
        seat != Seat::Unspecified,
        room.player_round_state.at(seat) is Some,
        room.player_round_state.at(seat)->0.drawn_tile is None,
    ensures
        room.with_drawn(seat, tile).unplayed() == room.unplayed().insert(tile),
{
    let hand = room.player_round_state.at(seat)->0;
    let one = Multiset::empty().insert(tile);
    let next = room.with_drawn(seat, tile).player_round_state.at(seat)->0;
    assert(hand_tiles(next) =~= hand_tiles(hand).add(one));
    lemma_with_hand(room, seat, next, one);
    assert(room.unplayed().add(one) =~= room.unplayed().insert(tile));
}

pub proof fn lemma_replacement_mark(room: RoomStateModel, pending: bool)
    ensures
        room.with_replacement_pending(pending).unplayed() == room.unplayed(),
        room.with_replacement_pending(pending).player_round_state == room.player_round_state,
{
    reveal(RoomStateModel::unplayed);
}

/// Whether only the hand of one seat differs, and that hand has grown by so many tiles.
pub open spec fn only_hand_grew(before: RoomStateModel, after: RoomStateModel, seat: Seat, by: nat) -> bool {
    &&& after.player_round_state.at(seat) is Some
    &&& private_count(after.player_round_state.at(seat)->0) == private_count(
        before.player_round_state.at(seat)->0,
    ) + by
    &&& forall|other: Seat|
        other != seat ==> #[trigger] after.player_round_state.at(other)
            == before.player_round_state.at(other)
}

proof fn lemma_dealt_replacement(room: RoomStateModel, seat: Seat)
    requires
        seat != Seat::Unspecified,
        room.player_round_state.at(seat) is Some,
    ensures
        room.dealt_replacement(seat).0.unplayed() == room.unplayed(),
        only_hand_grew(
            room,
            room.dealt_replacement(seat).0,
            seat,
            if room.dealt_replacement(seat).1 is Ok {
                1
            } else {
                0
            },
        ),
        room.dealt_replacement(seat).0.player_round_state.at(seat)->0.drawn_tile
            == room.player_round_state.at(seat)->0.drawn_tile,
    decreases room.dead_len(),
{
    let (after, tile) = room.popped(DrawSource::DeadWall);
    lemma_popped(room, DrawSource::DeadWall);
    match tile {
        None => {
            assert(after.unplayed().add(maybe_tile(tile)) =~= after.unplayed());
        },
        Some(tile) => {
            assert(after.unplayed().add(maybe_tile(Some(tile))) =~= after.unplayed().insert(tile));
            if after.lays_aside(tile) {
                lemma_with_flower(after, seat, tile);
                lemma_dealt_replacement(after.with_flower(seat, tile), seat);
            } else {
                lemma_with_concealed(after, seat, tile);
            }
        },
    }
}

proof fn lemma_dealt(room: RoomStateModel, seat: Seat)
    requires
        seat != Seat::Unspecified,
        room.player_round_state.at(seat) is Some,
    ensures
        room.dealt(seat).0.unplayed() == room.unplayed(),
        only_hand_grew(
            room,
            room.dealt(seat).0,
            seat,
            if room.dealt(seat).1 is Ok {
                1
            } else {
                0
            },
        ),
        room.dealt(seat).0.player_round_state.at(seat)->0.drawn_tile
            == room.player_round_state.at(seat)->0.drawn_tile,
{
    let (after, tile) = room.popped(DrawSource::LiveWall);
    lemma_popped(room, DrawSource::LiveWall);
    match tile {
        None => {
            assert(after.unplayed().add(maybe_tile(tile)) =~= after.unplayed());
        },
        Some(tile) => {
            assert(after.unplayed().add(maybe_tile(Some(tile))) =~= after.unplayed().insert(tile));
            if after.lays_aside(tile) {
                lemma_with_flower(after, seat, tile);
                lemma_dealt_replacement(after.with_flower(seat, tile), seat);
            } else {
                lemma_with_concealed(after, seat, tile);
            }
        },
    }
}

proof fn lemma_dealt_many(room: RoomStateModel, seat: Seat, count: nat)
    requires
        seat != Seat::Unspecified,
        room.player_round_state.at(seat) is Some,
    ensures
        room.dealt_many(seat, count).0.unplayed() == room.unplayed(),
        room.dealt_many(seat, count).0.player_round_state.at(seat) is Some,
        room.dealt_many(seat, count).1 is Ok ==> only_hand_grew(
            room,
            room.dealt_many(seat, count).0,
            seat,
            count,
        ),
        room.dealt_many(seat, count).0.player_round_state.at(seat)->0.drawn_tile
            == room.player_round_state.at(seat)->0.drawn_tile,
        forall|other: Seat|
            other != seat ==> #[trigger] room.dealt_many(seat, count).0.player_round_state.at(other)
                == room.player_round_state.at(other),
    decreases count,
{
    if count > 0 {
        lemma_dealt_many(room, seat, (count - 1) as nat);
        lemma_dealt(room.dealt_many(seat, (count - 1) as nat).0, seat);
    }
}

/// Whether a hand holds so many tiles, none of them drawn.
pub open spec fn dealt_hand(hand: Option<PlayerRoundStateModel>, count: nat) -> bool {
    hand matches Some(hand) && hand.drawn_tile is None && private_count(hand) == count
}

proof fn lemma_dealt_seats(room: RoomStateModel, seats: nat)
    requires
        seats <= 4,
        forall|place: int|
            0 <= place < 4 ==> dealt_hand(
                room.player_round_state.at(#[trigger] seat_order()[place]),
                0,
            ),
    ensures
        room.dealt_seats(seats).0.unplayed() == room.unplayed(),
        forall|place: int|
            seats <= place < 4 ==> dealt_hand(
                room.dealt_seats(seats).0.player_round_state.at(#[trigger] seat_order()[place]),
                0,
            ),
        room.dealt_seats(seats).1 is Ok ==> forall|place: int|
            0 <= place < seats ==> dealt_hand(
                room.dealt_seats(seats).0.player_round_state.at(#[trigger] seat_order()[place]),
                STARTING_HAND_LEN as nat,
            ),
    decreases seats,
{
    if seats > 0 {
        lemma_dealt_seats(room, (seats - 1) as nat);
        let (before, result) = room.dealt_seats((seats - 1) as nat);
        if result is Ok {
            let seat = seat_order()[seats - 1];
            assert(dealt_hand(before.player_round_state.at(seat), 0));
            lemma_dealt_many(before, seat, STARTING_HAND_LEN as nat);
            assert forall|place: int| 0 <= place < 4 && place != seats - 1 implies
                #[trigger] seat_order()[place] != seat by {}
        }
    }
}

/// Drawing keeps all tiles, and what is drawn is in the hand of the seat that drew.
proof fn lemma_drawn_from(room: RoomStateModel, seat: Seat, source: DrawSource, replacement_draw: bool)
    requires
        seat != Seat::Unspecified,
        room.player_round_state.at(seat) is Some,
        room.player_round_state.at(seat)->0.drawn_tile is None,
    ensures
        room.drawn_from(seat, source, replacement_draw).0.unplayed() == room.unplayed(),
        ({
            let (after, outcome) = room.drawn_from(seat, source, replacement_draw);
            &&& only_hand_grew(
                room,
                after,
                seat,
                if outcome matches Ok(Some(_)) {
                    1
                } else {
                    0
                },
            )
            &&& after.player_round_state.at(seat)->0.drawn_tile == match outcome {
                Ok(Some(outcome)) => Some(outcome.tile),
                _ => None,
            }
            &&& after.player_round_state.at(seat)->0.melds == room.player_round_state.at(
                seat,
            )->0.melds
            &&& after.player_round_state.at(seat)->0.discards == room.player_round_state.at(
                seat,
            )->0.discards
        }),
    decreases (if source is LiveWall {
        1nat
    } else {
        0nat
    }), room.dead_len(),
{
    let (after, tile) = room.popped(source);
    lemma_popped(room, source);
    match tile {
        None => {
            assert(after.unplayed().add(maybe_tile(tile)) =~= after.unplayed());
        },
        Some(tile) => {
            assert(after.unplayed().add(maybe_tile(Some(tile))) =~= after.unplayed().insert(tile));
            if after.lays_aside(tile) {
                lemma_with_flower(after, seat, tile);
                let aside = after.with_flower(seat, tile);
                lemma_replacement_mark(aside, true);
                lemma_drawn_from(aside.with_replacement_pending(true), seat, DrawSource::DeadWall, true);
            } else {
                lemma_with_drawn(after, seat, tile);
                lemma_replacement_mark(after.with_drawn(seat, tile), false);
            }
        },
    }
}

/// Drawing a tile, with the flowers that it turns up, neither loses nor doubles a tile. Where a
/// tile was drawn it is the drawn tile of the seat; melds, discards and the other hands stay as they
/// are.
pub proof fn law_drawing_conserves_tiles(room: RoomStateModel, seat: Seat, source: DrawSource)
    requires
        seat != Seat::Unspecified,
    ensures
        room.drawn(seat, source).0.unplayed() == room.unplayed(),
        room.drawn(seat, source).1 matches Ok(Some(outcome)) ==> room.drawn(
            seat,
            source,
        ).0.player_round_state.at(seat)->0.drawn_tile == Some(outcome.tile),
        room.player_round_state.at(seat) matches Some(hand) ==> (room.drawn(
            seat,
            source,
        ).0.player_round_state.at(seat) matches Some(after) && after.melds == hand.melds
            && after.discards == hand.discards),
        forall|other: Seat|
            other != seat ==> #[trigger] room.drawn(seat, source).0.player_round_state.at(other)
                == room.player_round_state.at(other),
{
    if let Some(hand) = room.player_round_state.at(seat) {
        if hand.drawn_tile is None {
            lemma_drawn_from(room, seat, source, source is DeadWall);
        }
    }
}

/// Before the deal all tiles are in the walls.
pub proof fn lemma_table_set(room: RoomStateModel, wall: Seq<Tile>)
    requires
        wall.len() > DEAD_WALL_TILE_COUNT,
    ensures
        room.table_set(wall).unplayed() == wall.to_multiset(),
{
    let set = room.table_set(wall);
    reveal(RoomStateModel::unplayed);
    reveal(SeatMap::at);
    let cut = wall.len() - DEAD_WALL_TILE_COUNT;
    assert(wall =~= fresh_runtime(wall).live_wall + fresh_runtime(wall).dead_wall);
    vstd::seq_lib::lemma_multiset_commutative(
        fresh_runtime(wall).live_wall,
        fresh_runtime(wall).dead_wall,
    );
    broadcast use vstd::seq_lib::group_to_multiset_ensures;
    assert(Seq::<Tile>::empty().to_multiset() =~= Multiset::empty());
    assert(set.unplayed() =~= wall.to_multiset());
}

/// After the deal everybody has a hand, and nobody has drawn yet.
pub proof fn lemma_hands_dealt_undrawn(room: RoomStateModel, wall: Seq<Tile>)
    requires
        room.table_set(wall).dealt_seats(4).1 is Ok,
    ensures
        room.table_set(wall).dealt_seats(4).0.unplayed() == room.table_set(wall).unplayed(),
        forall|seat: Seat|
            seat != Seat::Unspecified ==> dealt_hand(
                #[trigger] room.table_set(wall).dealt_seats(4).0.player_round_state.at(seat),
                STARTING_HAND_LEN as nat,
            ),
{
    let set = room.table_set(wall);
    assert forall|place: int| 0 <= place < 4 implies dealt_hand(
        set.player_round_state.at(#[trigger] seat_order()[place]),
        0,
    ) by {
        reveal(SeatMap::at);
    }
    lemma_dealt_seats(set, 4);
    let (dealt, _) = set.dealt_seats(4);
    assert(forall|seat: Seat|
        seat != Seat::Unspecified ==> dealt_hand(
            #[trigger] dealt.player_round_state.at(seat),
            STARTING_HAND_LEN as nat,
        )) by {
        assert(dealt_hand(dealt.player_round_state.at(seat_order()[0]), STARTING_HAND_LEN as nat));
        assert(dealt_hand(dealt.player_round_state.at(seat_order()[1]), STARTING_HAND_LEN as nat));
        assert(dealt_hand(dealt.player_round_state.at(seat_order()[2]), STARTING_HAND_LEN as nat));
        assert(dealt_hand(dealt.player_round_state.at(seat_order()[3]), STARTING_HAND_LEN as nat));
    }
}

/// A hand that starts well holds exactly the tiles of its wall: the dealer has fourteen, one of
/// them drawn, and the others thirteen.
pub proof fn law_start_deals_the_wall(room: RoomStateModel, wall: Seq<Tile>)
    requires
        room.dealer_seat != Seat::Unspecified,
        wall.len() <= u32::MAX,
        room.round_started(wall).1 is Ok,
    ensures
        room.round_started(wall).0.unplayed() == wall.to_multiset(),
        forall|seat: Seat|
            seat != Seat::Unspecified ==> (#[trigger] room.round_started(
                wall,
            ).0.player_round_state.at(seat) matches Some(hand) && private_count(hand)
                == STARTING_HAND_LEN + (if seat == room.dealer_seat {
                1int
            } else {
                0int
            }) && (hand.drawn_tile is Some <==> seat == room.dealer_seat)),
{
    let set = room.table_set(wall);
    lemma_table_set(room, wall);
    lemma_hands_dealt_undrawn(room, wall);
    let (dealt, _) = set.dealt_seats(4);
    lemma_drawn_from(dealt, room.dealer_seat, DrawSource::LiveWall, false);
    let (drawn, outcome) = dealt.drawn(room.dealer_seat, DrawSource::LiveWall);
    let started = drawn.round_announced(outcome->Ok_0->Some_0);
    assert(started.unplayed() == drawn.unplayed()) by {
        reveal(RoomStateModel::unplayed);
    }
    assert forall|seat: Seat| seat != Seat::Unspecified implies (
    #[trigger] started.player_round_state.at(seat) matches Some(hand) && private_count(hand)
        == STARTING_HAND_LEN + (if seat == room.dealer_seat {
        1int
    } else {
        0int
    }) && (hand.drawn_tile is Some <==> seat == room.dealer_seat)) by {
        assert(dealt_hand(dealt.player_round_state.at(seat), STARTING_HAND_LEN as nat));
        assert(started.player_round_state == drawn.player_round_state);
    }
}

/// A hand loses exactly the tile that it discards.
pub proof fn lemma_hand_after_discard(hand: PlayerRoundStateModel, tile: Tile, tsumogiri: bool)
    requires
        hand_after_discard(hand, tile, tsumogiri) is Ok,
    ensures
        hand_tiles(hand) == hand_tiles(hand_after_discard(hand, tile, tsumogiri)->Ok_0.0).insert(tile),
        private_count(hand) == private_count(hand_after_discard(hand, tile, tsumogiri)->Ok_0.0) + 1,
        hand_after_discard(hand, tile, tsumogiri)->Ok_0.0.drawn_tile is None,
{
    broadcast use vstd::seq_lib::group_to_multiset_ensures;
    let rest = hand_after_discard(hand, tile, tsumogiri)->Ok_0.0;
    if !tsumogiri {
        crate::room::hand::lemma_first_place(hand.concealed_tiles, tile);
        if let Some(place) = crate::room::hand::first_place(hand.concealed_tiles, tile) {
            let left = hand.concealed_tiles.remove(place);
            assert(hand.concealed_tiles.contains(tile));
            assert(hand.concealed_tiles.to_multiset() =~= left.to_multiset().insert(tile));
            if let Some(drawn) = hand.drawn_tile {
                lemma_sorted_tiles_keeps_tiles(left.push(drawn));
                lemma_pushed(left, drawn);
            }
        }
    }
    assert(hand_tiles(hand) =~= hand_tiles(rest).insert(tile));
}

/// A discard that succeeds takes one tile out of the hand, and that tile is the latest of the
/// seat's discards; nothing else is lost or gained.
pub proof fn law_discarding_conserves_tiles(room: RoomStateModel, seat: Seat, tile: Tile, tsumogiri: bool)
    requires
        seat != Seat::Unspecified,
        room.player_round_state.at(seat) is Some,
        room.discarded(seat, tile, tsumogiri).1 is Ok,
    ensures
        room.discarded(seat, tile, tsumogiri).0.unplayed().insert(tile) == room.unplayed(),
        room.discarded(seat, tile, tsumogiri).0.player_round_state.at(seat) matches Some(hand)
            && hand.discards.len() == room.player_round_state.at(seat)->0.discards.len() + 1
            && hand.discards.drop_last() == room.player_round_state.at(seat)->0.discards
            && hand.discards.last().tile == tile.code(),
        forall|other: Seat|
            other != seat ==> #[trigger] room.discarded(
                seat,
                tile,
                tsumogiri,
            ).0.player_round_state.at(other) == room.player_round_state.at(other),
{
    reveal(RoomStateModel::discarded);
    let hand = room.player_round_state.at(seat)->0;
    lemma_hand_after_discard(hand, tile, tsumogiri);
    let after = room.discarded(seat, tile, tsumogiri).0;
    let next = after.player_round_state.at(seat)->0;
    assert(next.discards.drop_last() =~= hand.discards);
    let one = Multiset::empty().insert(tile);
    assert(hand_tiles(hand) =~= hand_tiles(next).add(one));
    lemma_with_hand(after, seat, hand, one);
    assert(after.with_hand(seat, hand).unplayed() =~= room.unplayed()) by {
        reveal(RoomStateModel::unplayed);
    }
    assert(after.unplayed().add(one) =~= after.unplayed().insert(tile));
}

/// Whether two rooms hold the same hands and walls.
spec fn same_tiles(before: RoomStateModel, after: RoomStateModel) -> bool {
    &&& after.player_round_state == before.player_round_state
    &&& wall_tiles(after.round_runtime) == wall_tiles(before.round_runtime)
}

proof fn lemma_same_tiles(before: RoomStateModel, after: RoomStateModel)
    requires
        same_tiles(before, after),
    ensures
        after.unplayed() == before.unplayed(),
{
    reveal(RoomStateModel::unplayed);
}

proof fn lemma_replacement_recorded(room: RoomStateModel, seat: Seat, tile: Tile)
    ensures
        same_tiles(room, room.replacement_recorded(seat, tile)),
{
    reveal(RoomStateModel::replacement_recorded);
}

/// A hand loses exactly the tile that it adds to a triplet.
proof fn lemma_after_kong_tile(hand: PlayerRoundStateModel, tile: Tile)
    requires
        after_kong_tile(hand, tile) is Some,
    ensures
        hand_tiles(hand) == hand_tiles(after_kong_tile(hand, tile)->0).insert(tile),
        after_kong_tile(hand, tile)->0.melds == hand.melds,
        after_kong_tile(hand, tile)->0.drawn_tile is None,
{
    broadcast use vstd::seq_lib::group_to_multiset_ensures;
    let rest = after_kong_tile(hand, tile)->0;
    if hand.drawn_tile != Some(tile) {
        crate::room::hand::lemma_first_place(hand.concealed_tiles, tile);
        if let Some(place) = crate::room::hand::first_place(hand.concealed_tiles, tile) {
            let left = hand.concealed_tiles.remove(place);
            assert(hand.concealed_tiles.contains(tile));
            assert(hand.concealed_tiles.to_multiset() =~= left.to_multiset().insert(tile));
            if let Some(drawn) = hand.drawn_tile {
                lemma_sorted_tiles_keeps_tiles(left.push(drawn));
                lemma_pushed(left, drawn);
            }
        }
    }
    assert(hand_tiles(hand) =~= hand_tiles(rest).insert(tile));
}

/// A supplemental kong moves one tile out of the hand and onto a triplet of the same seat, whether
/// or not the dead wall has a replacement for it; nothing else is lost or gained.
pub proof fn law_kongs_conserve_tiles(room: RoomStateModel, seat: Seat, tile: Tile, source_event_seq: u64)
    requires
        seat != Seat::Unspecified,
        room.player_round_state.at(seat) matches Some(hand) && peng_place(hand.melds, tile) is Some
            && after_kong_tile(hand, tile) is Some,
    ensures
        ({
            let after = room.kong_applied(seat, tile, source_event_seq).0;
            let melds = room.player_round_state.at(seat)->0.melds;
            let place = peng_place(melds, tile)->0;
            &&& after.unplayed().insert(tile) == room.unplayed()
            &&& 0 <= place < melds.len()
            &&& after.player_round_state.at(seat) matches Some(hand) && hand.melds == melds.update(
                place,
                kong_meld(melds[place], tile, source_event_seq),
            ) && hand.discards == room.player_round_state.at(seat)->0.discards
            &&& forall|other: Seat|
                other != seat ==> #[trigger] after.player_round_state.at(other)
                    == room.player_round_state.at(other)
            &&& kong_meld(melds[place], tile, source_event_seq).tiles.to_multiset()
                == melds[place].tiles.to_multiset().insert(tile.code())
        }),
{
    reveal(RoomStateModel::kong_applied);
    broadcast use vstd::seq_lib::group_to_multiset_ensures;
    let hand = room.player_round_state.at(seat)->0;
    let place = peng_place(hand.melds, tile)->0;
    lemma_peng_place_in_range(hand.melds, tile);
    let rest = after_kong_tile(hand, tile)->0;
    lemma_after_kong_tile(hand, tile);
    lemma_sorted_codes_keeps_codes(hand.melds[place].tiles.push(tile.code()));
    let laid = room.kong_laid(seat, tile, source_event_seq, rest, place);
    let lying = PlayerRoundStateModel {
        melds: rest.melds.update(place, kong_meld(rest.melds[place], tile, source_event_seq)),
        ..rest
    };
    assert(same_tiles(room.with_hand(seat, lying), laid)) by {
        reveal(RoomStateModel::kong_laid);
    }
    lemma_same_tiles(room.with_hand(seat, lying), laid);
    let one = Multiset::empty().insert(tile);
    assert(hand_tiles(hand) =~= hand_tiles(lying).add(one));
    lemma_with_hand(room.with_hand(seat, lying), seat, hand, one);
    assert(room.with_hand(seat, lying).with_hand(seat, hand).unplayed() =~= room.unplayed()) by {
        reveal(RoomStateModel::unplayed);
    }
    assert(laid.unplayed().add(one) =~= laid.unplayed().insert(tile));
    law_drawing_conserves_tiles(laid, seat, DrawSource::DeadWall);
    let (drawn, outcome) = laid.drawn(seat, DrawSource::DeadWall);
    if let Ok(Some(outcome)) = outcome {
        let waiting = drawn.in_phase(GamePhase::WaitingDiscard);
        lemma_replacement_recorded(waiting, seat, outcome.tile);
        lemma_same_tiles(drawn, waiting.replacement_recorded(seat, outcome.tile));
    }
}

/// Whether a claim can be carried out: it can be read, and the hand of the seat, without a tile just
/// drawn, holds the tiles that it names.
pub open spec fn is_feasible(room: RoomStateModel, seat: Seat, claim: ClaimActionModel) -> bool {
    &&& parsed_claim_kind(claim.claim_kind) is Ok
    &&& parsed_tile(claim.target_tile) is Ok
    &&& parsed_seat(claim.source_seat) is Ok
    &&& parsed_tiles(claim.consume_tiles) is Ok
    &&& room.player_round_state.at(seat) matches Some(hand) && hand.drawn_tile is None && ({
        let consume = sorted_tiles(parsed_tiles(claim.consume_tiles)->Ok_0);
        after_taking(hand.concealed_tiles, consume, consume.len() as int).1
    })
}

/// A claim that can be carried out moves the tiles that it names out of the hand, lays them down in
/// one more meld together with the tile that it claims, and marks that tile among the discards of
/// its source, whether or not the dead wall has a replacement for a kong; nothing else is lost or
/// gained, and no other meld or discard changes.
pub proof fn law_claims_conserve_tiles(room: RoomStateModel, seat: Seat, claim: ClaimActionModel)
    requires
        seat != Seat::Unspecified,
        is_feasible(room, seat, claim),
    ensures
        ({
            let after = room.claim_applied(seat, claim).0;
            let kind = parsed_claim_kind(claim.claim_kind)->Ok_0;
            let target = parsed_tile(claim.target_tile)->Ok_0;
            let source_seat = parsed_seat(claim.source_seat)->Ok_0;
            let consume = sorted_tiles(parsed_tiles(claim.consume_tiles)->Ok_0);
            let meld = claimed_meld(kind, consume, target, source_seat, claim.source_event_seq);
            let laid = sorted_tiles(consume.push(target));
            &&& after.unplayed().add(consume.to_multiset()) == room.unplayed()
            &&& meld.tiles == tile_codes(laid)
            &&& laid.to_multiset() == consume.to_multiset().insert(target)
            &&& forall|other: Seat|
                match #[trigger] room.player_round_state.at(other) {
                    Some(hand) => after.player_round_state.at(other) matches Some(next)
                        && next.melds == (if other == seat {
                        hand.melds.push(meld)
                    } else {
                        hand.melds
                    }) && next.discards == (if other == source_seat {
                        first_claimed(hand.discards, claim.source_event_seq)
                    } else {
                        hand.discards
                    }),
                    None => after.player_round_state.at(other) is None,
                }
        }),
{
    reveal(RoomStateModel::claim_applied);
    let kind = parsed_claim_kind(claim.claim_kind)->Ok_0;
    let target = parsed_tile(claim.target_tile)->Ok_0;
    let source_seat = parsed_seat(claim.source_seat)->Ok_0;
    let consume = sorted_tiles(parsed_tiles(claim.consume_tiles)->Ok_0);
    let meld = claimed_meld(kind, consume, target, source_seat, claim.source_event_seq);
    lemma_sorted_tiles_keeps_tiles(consume.push(target));
    lemma_pushed(consume, target);

    let hand = room.player_round_state.at(seat)->0;
    law_taking_conserves_tiles(hand.concealed_tiles, consume);
    let rest = PlayerRoundStateModel {
        concealed_tiles: hand_after_taking(hand.concealed_tiles, consume),
        ..hand
    };
    let taken = room.with_tiles_taken(seat, consume);
    assert(hand_tiles(hand) =~= hand_tiles(rest).add(consume.to_multiset()));
    lemma_with_hand(taken, seat, hand, consume.to_multiset());
    assert(taken.with_hand(seat, hand).unplayed() =~= room.unplayed()) by {
        reveal(RoomStateModel::unplayed);
    }
    let laid = taken.claim_laid(seat, kind, target, source_seat, consume, claim.source_event_seq);
    let marked = taken.with_meld(seat, meld).with_discard_claimed(
        source_seat,
        claim.source_event_seq,
    );
    assert(same_tiles(marked, laid)) by {
        reveal(RoomStateModel::claim_laid);
    }
    lemma_same_tiles(marked, laid);
    assert(marked.unplayed() =~= taken.unplayed()) by {
        reveal(RoomStateModel::unplayed);
    }
    law_drawing_conserves_tiles(laid, seat, DrawSource::DeadWall);
    let (drawn, outcome) = laid.drawn(seat, DrawSource::DeadWall);
    if let Ok(Some(outcome)) = outcome {
        lemma_replacement_recorded(drawn, seat, outcome.tile);
        lemma_same_tiles(drawn, drawn.replacement_recorded(seat, outcome.tile));
    }
}

} // verus!
