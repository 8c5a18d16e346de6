//! With a full wall no flower ever goes without a replacement.

use vstd::multiset::Multiset;
use vstd::prelude::*;

use crate::collections::{group_seat_map, SeatMap};
use crate::proto::client::{Seat, Tile};
use crate::room::conservation::{
    hand_tiles, lemma_hands_dealt_undrawn, lemma_popped, lemma_replacement_mark, lemma_table_set,
    lemma_with_concealed, lemma_with_drawn, lemma_with_flower, maybe_tile,
};
use crate::room::hand::{is_flower, seat_order, PlayerRoundStateModel};
use crate::room::state::{DrawSource, RoomStateModel, DEAD_WALL_TILE_COUNT, STARTING_HAND_LEN};
use crate::tiles::{
    law_standard_wall_contents, lemma_sorted_tiles_keeps_tiles, sorted_tiles, standard_wall,
};

verus! {

broadcast use group_seat_map;

/// How many of some tiles are flowers.
pub open spec fn flower_count(tiles: Multiset<Tile>) -> nat {
    tiles.count(Tile::FlowerPlum) + tiles.count(Tile::FlowerOrchid) + tiles.count(
        Tile::FlowerBamboo,
    ) + tiles.count(Tile::FlowerChrysanthemum) + tiles.count(Tile::SeasonSpring) + tiles.count(
        Tile::SeasonSummer,
    ) + tiles.count(Tile::SeasonAutumn) + tiles.count(Tile::SeasonWinter)
}

/// Whether all of some tiles are flowers.
pub open spec fn only_flowers(tiles: Seq<Tile>) -> bool {
    forall|i: int| 0 <= i < tiles.len() ==> is_flower(#[trigger] tiles[i])
}

/// How many flowers a seat has laid aside.
pub open spec fn laid_at(hand: Option<PlayerRoundStateModel>) -> nat {
    match hand {
        Some(hand) => hand.flowers.len(),
        None => 0,
    }
}

impl RoomStateModel {
    /// How many flowers were laid aside.
    pub open spec fn flowers_laid(self) -> nat {
        laid_at(self.player_round_state.at(Seat::East)) + laid_at(
            self.player_round_state.at(Seat::South),
        ) + laid_at(self.player_round_state.at(Seat::West)) + laid_at(
            self.player_round_state.at(Seat::North),
        )
    }

    /// How many tiles the live wall holds.
    pub open spec fn live_len(self) -> nat {
        match self.round_runtime {
            Some(runtime) => runtime.live_wall.len(),
            None => 0,
        }
    }

    /// Whether every tile that is gone from the dead wall stands for a flower that was laid aside,
    /// but for so many flowers that still wait for theirs; and there are no more than the eight
    /// flowers of a full wall.
    #[verifier::opaque]
    pub open spec fn stocked(self, waiting: nat) -> bool {
        &&& self.round_runtime is Some
        &&& self.dead_len() + self.flowers_laid() == DEAD_WALL_TILE_COUNT + waiting
        &&& flower_count(self.unplayed()) <= 8
        &&& forall|seat: Seat|
            seat != Seat::Unspecified ==> ((#[trigger] self.player_round_state.at(seat)) matches Some(
                hand,
            ) && only_flowers(hand.flowers))
    }
}

proof fn lemma_flowers_counted(tiles: Seq<Tile>)
    requires
        only_flowers(tiles),
    ensures
        flower_count(tiles.to_multiset()) == tiles.len(),
    decreases tiles.len(),
{
    broadcast use vstd::seq_lib::group_to_multiset_ensures;
    if tiles.len() > 0 {
        let fewer = tiles.drop_last();
        let last = tiles.last();
        assert forall|i: int| 0 <= i < fewer.len() implies is_flower(#[trigger] fewer[i]) by {
            assert(is_flower(tiles[i]));
        }
        lemma_flowers_counted(fewer);
        assert(tiles =~= fewer.push(last));
        assert(is_flower(tiles[tiles.len() - 1]));
        match last {
            Tile::FlowerPlum => {},
            Tile::FlowerOrchid => {},
            Tile::FlowerBamboo => {},
            Tile::FlowerChrysanthemum => {},
            Tile::SeasonSpring => {},
            Tile::SeasonSummer => {},
            Tile::SeasonAutumn => {},
            Tile::SeasonWinter => {},
            _ => {},
        }
    }
}

/// The flowers that were laid aside are among the tiles that are left.
proof fn lemma_few_flowers_laid(room: RoomStateModel, waiting: nat)
    requires
        room.stocked(waiting),
    ensures
        room.flowers_laid() <= 8,
        room.dead_len() >= DEAD_WALL_TILE_COUNT + waiting - 8,
{
    reveal(RoomStateModel::stocked);
    let east = room.player_round_state.at(Seat::East)->0;
    let south = room.player_round_state.at(Seat::South)->0;
    let west = room.player_round_state.at(Seat::West)->0;
    let north = room.player_round_state.at(Seat::North)->0;
    assert(room.player_round_state.at(Seat::East) is Some);
    assert(room.player_round_state.at(Seat::South) is Some);
    assert(room.player_round_state.at(Seat::West) is Some);
    assert(room.player_round_state.at(Seat::North) is Some);
    lemma_flowers_counted(east.flowers);
    lemma_flowers_counted(south.flowers);
    lemma_flowers_counted(west.flowers);
    lemma_flowers_counted(north.flowers);
    assert forall|tile: Tile| #[trigger]
        room.unplayed().count(tile) >= east.flowers.to_multiset().count(tile)
            + south.flowers.to_multiset().count(tile) + west.flowers.to_multiset().count(tile)
            + north.flowers.to_multiset().count(tile) by {
        reveal(RoomStateModel::unplayed);
        assert(hand_tiles(east).count(tile) >= east.flowers.to_multiset().count(tile));
    }
}

/// Sorting flowers leaves flowers.
proof fn lemma_flower_added(flowers: Seq<Tile>, tile: Tile)
    requires
        only_flowers(flowers),
        is_flower(tile),
    ensures
        only_flowers(sorted_tiles(flowers.push(tile))),
        sorted_tiles(flowers.push(tile)).len() == flowers.len() + 1,
{
    broadcast use vstd::seq_lib::group_to_multiset_ensures;
    let more = flowers.push(tile);
    let sorted = sorted_tiles(more);
    lemma_sorted_tiles_keeps_tiles(more);
    assert forall|i: int| 0 <= i < sorted.len() implies is_flower(#[trigger] sorted[i]) by {
        assert(sorted.contains(sorted[i]));
        assert(sorted.to_multiset().count(sorted[i]) > 0);
        assert(more.to_multiset().count(sorted[i]) > 0);
        assert(more.contains(sorted[i]));
        let j = choose|j: int| 0 <= j < more.len() && more[j] == sorted[i];
        if j < flowers.len() {
            assert(is_flower(flowers[j]));
        }
    }
}

/// A flower that is turned up and laid aside waits for its replacement.
proof fn lemma_laid_aside(room: RoomStateModel, seat: Seat, source: DrawSource, waiting: nat)
    requires
        room.stocked(waiting),
        seat != Seat::Unspecified,
        room.popped(source).1 matches Some(tile) && room.popped(source).0.lays_aside(tile),
    ensures
        room.popped(source).0.with_flower(seat, room.popped(source).1->0).stocked(
            if source is LiveWall {
                waiting + 1
            } else {
                waiting
            },
        ),
        room.popped(source).0.with_flower(seat, room.popped(source).1->0).live_len()
            == room.live_len() - (if source is LiveWall {
            1int
        } else {
            0int
        }),
{
    reveal(RoomStateModel::stocked);
    let (after, popped) = room.popped(source);
    let tile = popped->0;
    let aside = after.with_flower(seat, tile);
    let hand = room.player_round_state.at(seat)->0;
    assert(room.player_round_state.at(seat) is Some && only_flowers(hand.flowers));
    lemma_popped(room, source);
    lemma_with_flower(after, seat, tile);
    assert(after.unplayed().add(maybe_tile(Some(tile))) =~= after.unplayed().insert(tile));
    lemma_flower_added(hand.flowers, tile);
    assert forall|other: Seat| other != Seat::Unspecified implies (
    #[trigger] aside.player_round_state.at(other)) is Some && only_flowers(
        aside.player_round_state.at(other)->0.flowers,
    ) by {
        assert(room.player_round_state.at(other) is Some);
    }
    match seat {
        Seat::East => {},
        Seat::South => {},
        Seat::West => {},
        Seat::North => {},
        Seat::Unspecified => {},
    }
}

/// A tile that is turned up and concealed is what a flower waited for, or an ordinary draw.
proof fn lemma_concealed(room: RoomStateModel, seat: Seat, source: DrawSource, waiting: nat)
    requires
        room.stocked(waiting),
        seat != Seat::Unspecified,
        room.popped(source).1 is Some,
        source is DeadWall ==> waiting > 0,
    ensures
        room.popped(source).0.with_concealed(seat, room.popped(source).1->0).stocked(
            if source is LiveWall {
                waiting
            } else {
                (waiting - 1) as nat
            },
        ),
        room.popped(source).0.with_concealed(seat, room.popped(source).1->0).live_len()
            == room.live_len() - (if source is LiveWall {
            1int
        } else {
            0int
        }),
{
    reveal(RoomStateModel::stocked);
    let (after, popped) = room.popped(source);
    let tile = popped->0;
    assert(room.player_round_state.at(seat) is Some);
    lemma_popped(room, source);
    lemma_with_concealed(after, seat, tile);
    assert(after.unplayed().add(maybe_tile(Some(tile))) =~= after.unplayed().insert(tile));
    let kept = after.with_concealed(seat, tile);
    assert forall|other: Seat| other != Seat::Unspecified implies (
    #[trigger] kept.player_round_state.at(other)) is Some && only_flowers(
        kept.player_round_state.at(other)->0.flowers,
    ) by {
        assert(room.player_round_state.at(other) is Some);
    }
    match seat {
        Seat::East => {},
        Seat::South => {},
        Seat::West => {},
        Seat::North => {},
        Seat::Unspecified => {},
    }
}

/// The same of a tile that is kept as the drawn one.
proof fn lemma_drawn_kept(room: RoomStateModel, seat: Seat, source: DrawSource, waiting: nat)
    requires
        room.stocked(waiting),
        seat != Seat::Unspecified,
        room.popped(source).1 is Some,
        room.player_round_state.at(seat) matches Some(hand) && hand.drawn_tile is None,
        source is DeadWall ==> waiting > 0,
    ensures
        room.popped(source).0.with_drawn(seat, room.popped(source).1->0).stocked(
            if source is LiveWall {
                waiting
            } else {
                (waiting - 1) as nat
            },
        ),
{
    reveal(RoomStateModel::stocked);
    let (after, popped) = room.popped(source);
    let tile = popped->0;
    lemma_popped(room, source);
    lemma_with_drawn(after, seat, tile);
    assert(after.unplayed().add(maybe_tile(Some(tile))) =~= after.unplayed().insert(tile));
    let kept = after.with_drawn(seat, tile);
    assert forall|other: Seat| other != Seat::Unspecified implies (
    #[trigger] kept.player_round_state.at(other)) is Some && only_flowers(
        kept.player_round_state.at(other)->0.flowers,
    ) by {
        assert(room.player_round_state.at(other) is Some);
    }
    match seat {
        Seat::East => {},
        Seat::South => {},
        Seat::West => {},
        Seat::North => {},
        Seat::Unspecified => {},
    }
}

proof fn lemma_mark_keeps_stock(room: RoomStateModel, pending: bool, waiting: nat)
    requires
        room.stocked(waiting),
    ensures
        room.with_replacement_pending(pending).stocked(waiting),
{
    reveal(RoomStateModel::stocked);
    lemma_replacement_mark(room, pending);
}

// ---------------------------------------------------------------------------
// Dealing and drawing
// ---------------------------------------------------------------------------

proof fn lemma_replacement_comes(room: RoomStateModel, seat: Seat)
    requires
        room.stocked(1),
        seat != Seat::Unspecified,
    ensures
        room.dealt_replacement(seat).1 is Ok,
        room.dealt_replacement(seat).0.stocked(0),
        room.dealt_replacement(seat).0.live_len() == room.live_len(),
    decreases room.dead_len(),
{
    lemma_few_flowers_laid(room, 1);
    let (after, popped) = room.popped(DrawSource::DeadWall);
    let tile = popped->0;
    if after.lays_aside(tile) {
        lemma_laid_aside(room, seat, DrawSource::DeadWall, 1);
        lemma_replacement_comes(after.with_flower(seat, tile), seat);
    } else {
        lemma_concealed(room, seat, DrawSource::DeadWall, 1);
    }
}

proof fn lemma_deal_succeeds(room: RoomStateModel, seat: Seat)
    requires
        room.stocked(0),
        seat != Seat::Unspecified,
        room.live_len() > 0,
    ensures
        room.dealt(seat).1 is Ok,
        room.dealt(seat).0.stocked(0),
        room.dealt(seat).0.live_len() == room.live_len() - 1,
{
    let (after, popped) = room.popped(DrawSource::LiveWall);
    let tile = popped->0;
    if after.lays_aside(tile) {
        lemma_laid_aside(room, seat, DrawSource::LiveWall, 0);
        lemma_replacement_comes(after.with_flower(seat, tile), seat);
    } else {
        lemma_concealed(room, seat, DrawSource::LiveWall, 0);
    }
}

proof fn lemma_deals_succeed(room: RoomStateModel, seat: Seat, count: nat)
    requires
        room.stocked(0),
        seat != Seat::Unspecified,
        room.live_len() >= count,
    ensures
        room.dealt_many(seat, count).1 is Ok,
        room.dealt_many(seat, count).0.stocked(0),
        room.dealt_many(seat, count).0.live_len() == room.live_len() - count,
    decreases count,
{
    if count > 0 {
        lemma_deals_succeed(room, seat, (count - 1) as nat);
        lemma_deal_succeeds(room.dealt_many(seat, (count - 1) as nat).0, seat);
    }
}

proof fn lemma_hands_are_dealt(room: RoomStateModel, seats: nat)
    requires
        room.stocked(0),
        seats <= 4,
        room.live_len() >= STARTING_HAND_LEN * seats,
    ensures
        room.dealt_seats(seats).1 is Ok,
        room.dealt_seats(seats).0.stocked(0),
        room.dealt_seats(seats).0.live_len() == room.live_len() - STARTING_HAND_LEN * seats,
    decreases seats,
{
    if seats > 0 {
        lemma_hands_are_dealt(room, (seats - 1) as nat);
        lemma_deals_succeed(
            room.dealt_seats((seats - 1) as nat).0,
            seat_order()[seats - 1],
            STARTING_HAND_LEN as nat,
        );
    }
}

proof fn lemma_draw_from_comes(room: RoomStateModel, seat: Seat, source: DrawSource, replacement_draw: bool)
    requires
        room.stocked(
            if source is LiveWall {
                0
            } else {
                1
            },
        ),
        seat != Seat::Unspecified,
        room.player_round_state.at(seat) matches Some(hand) && hand.drawn_tile is None,
    ensures
        ({
            let (after, outcome) = room.drawn_from(seat, source, replacement_draw);
            &&& after.stocked(0)
            &&& outcome is Ok
            &&& outcome matches Ok(None) ==> source is LiveWall && room.live_len() == 0
        }),
    decreases (if source is LiveWall {
        1nat
    } else {
        0nat
    }), room.dead_len(),
{
    reveal_with_fuel(RoomStateModel::drawn_from, 2);
    let (after, popped) = room.popped(source);
    if source is DeadWall {
        lemma_few_flowers_laid(room, 1);
    }
    match popped {
        None => {
            assert(after.stocked(0)) by {
                reveal(RoomStateModel::stocked);
                lemma_popped(room, source);
                assert(after.unplayed().add(maybe_tile(popped)) =~= after.unplayed());
            }
        },
        Some(tile) => {
            if after.lays_aside(tile) {
                lemma_laid_aside(
                    room,
                    seat,
                    source,
                    if source is LiveWall {
                        0
                    } else {
                        1
                    },
                );
                let aside = after.with_flower(seat, tile);
                lemma_mark_keeps_stock(aside, true, 1);
                lemma_draw_from_comes(
                    aside.with_replacement_pending(true),
                    seat,
                    DrawSource::DeadWall,
                    true,
                );
            } else {
                lemma_drawn_kept(
                    room,
                    seat,
                    source,
                    if source is LiveWall {
                        0
                    } else {
                        1
                    },
                );
                lemma_mark_keeps_stock(after.with_drawn(seat, tile), false, 0);
            }
        },
    }
}

/// A draw from the live wall gives a tile for as long as there is one, whatever flowers it turns up.
pub proof fn lemma_draw_comes(room: RoomStateModel, seat: Seat)
    requires
        room.stocked(0),
        seat != Seat::Unspecified,
        room.player_round_state.at(seat) matches Some(hand) && hand.drawn_tile is None,
    ensures
        ({
            let (after, outcome) = room.drawn(seat, DrawSource::LiveWall);
            &&& after.stocked(0)
            &&& outcome is Ok
            &&& outcome matches Ok(None) ==> room.live_len() == 0
        }),
{
    lemma_draw_from_comes(room, seat, DrawSource::LiveWall, false);
}

/// Whether a wall holds the tiles of the standard wall, in whatever order.
pub open spec fn is_full_wall(wall: Seq<Tile>, enable_flower_tiles: bool) -> bool {
    wall.to_multiset() == standard_wall(enable_flower_tiles).to_multiset()
}

proof fn lemma_full_wall_is_stocked(room: RoomStateModel, wall: Seq<Tile>)
    requires
        is_full_wall(wall, room.room_config.enable_flower_tiles),
    ensures
        wall.len() == standard_wall(room.room_config.enable_flower_tiles).len(),
        room.table_set(wall).stocked(0),
        room.table_set(wall).live_len() == wall.len() - DEAD_WALL_TILE_COUNT,
{
    broadcast use vstd::seq_lib::group_to_multiset_ensures;
    let flowers = room.room_config.enable_flower_tiles;
    assert(wall.len() == wall.to_multiset().len());
    assert(standard_wall(flowers).len() == standard_wall(flowers).to_multiset().len());
    law_standard_wall_contents(flowers, Tile::FlowerPlum);
    law_standard_wall_contents(flowers, Tile::FlowerOrchid);
    law_standard_wall_contents(flowers, Tile::FlowerBamboo);
    law_standard_wall_contents(flowers, Tile::FlowerChrysanthemum);
    law_standard_wall_contents(flowers, Tile::SeasonSpring);
    law_standard_wall_contents(flowers, Tile::SeasonSummer);
    law_standard_wall_contents(flowers, Tile::SeasonAutumn);
    law_standard_wall_contents(flowers, Tile::SeasonWinter);
    lemma_table_set(room, wall);
    reveal(RoomStateModel::stocked);
    reveal(SeatMap::at);
}

/// A hand can always be started from a full wall, in whatever order its tiles are.
pub proof fn law_full_walls_start_hands(room: RoomStateModel, wall: Seq<Tile>)
    requires
        is_full_wall(wall, room.room_config.enable_flower_tiles),
        room.dealer_seat != Seat::Unspecified,
    ensures
        room.round_started(wall).1 is Ok,
        room.round_started(wall).0.stocked(0),
{
    lemma_full_wall_is_stocked(room, wall);
    let set = room.table_set(wall);
    lemma_hands_are_dealt(set, 4);
    let (dealt, _) = set.dealt_seats(4);
    lemma_hands_dealt_undrawn(room, wall);
    lemma_draw_comes(dealt, room.dealer_seat);
    let (drawn, outcome) = dealt.drawn(room.dealer_seat, DrawSource::LiveWall);
    let started = drawn.round_announced(outcome->Ok_0->Some_0);
    assert(started.stocked(0)) by {
        reveal(RoomStateModel::stocked);
        reveal(RoomStateModel::unplayed);
    }
}

} // verus!
