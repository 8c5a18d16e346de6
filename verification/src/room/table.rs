//! The tiles of a hand stay on the table, whatever the players do.

use vstd::multiset::Multiset;
use vstd::prelude::*;

use crate::collections::{group_seat_map, SeatMap};
use crate::proto::client::{ClaimActionModel, DiscardTile, MeldModel, Seat, Tile};
use crate::room::basics::group_announcing_keeps;
use crate::room::conservation::{
    is_feasible, law_claims_conserve_tiles, law_discarding_conserves_tiles,
    law_drawing_conserves_tiles, law_kongs_conserve_tiles,
};
use crate::room::frames::lemma_synced_keeps;
use crate::room::convert::{parsed_claim_kind, parsed_seat, parsed_tile, parsed_tiles};
use crate::room::flow::{first_claimed, lemma_first_claimed};
use crate::room::hand::{after_kong_tile, seat_after, PlayerRoundStateModel};
use crate::room::plays::{claimed_meld, kong_meld, peng_place};
use crate::room::rounds::lemma_drawn_keeps;
use crate::room::state::{DrawSource, RoomStateModel};
use crate::tiles::{sorted_tiles, tile_codes};

verus! {

broadcast use {group_seat_map, group_announcing_keeps, lemma_synced_keeps};

// ---------------------------------------------------------------------------
// What lies on the table
// ---------------------------------------------------------------------------

/// The numbers of the tiles in some melds.
pub open spec fn meld_codes(melds: Seq<MeldModel>) -> Multiset<i32>
    decreases melds.len(),
{
    if melds.len() == 0 {
        Multiset::empty()
    } else {
        meld_codes(melds.drop_last()).add(melds.last().tiles.to_multiset())
    }
}

/// The numbers of the discards that nobody took.
pub open spec fn lying_codes(discards: Seq<DiscardTile>) -> Multiset<i32>
    decreases discards.len(),
{
    if discards.len() == 0 {
        Multiset::empty()
    } else if discards.last().claimed {
        lying_codes(discards.drop_last())
    } else {
        lying_codes(discards.drop_last()).insert(discards.last().tile)
    }
}

/// The numbers of the tiles that a seat has laid down: its melds, and its discards that nobody took.
pub open spec fn shown_codes(hand: Option<PlayerRoundStateModel>) -> Multiset<i32> {
    match hand {
        Some(hand) => meld_codes(hand.melds).add(lying_codes(hand.discards)),
        None => Multiset::empty(),
    }
}

impl RoomStateModel {
    /// The numbers of the tiles that were laid down.
    #[verifier::opaque]
    pub open spec fn played(self) -> Multiset<i32> {
        shown_codes(self.player_round_state.at(Seat::East)).add(
            shown_codes(self.player_round_state.at(Seat::South)),
        ).add(shown_codes(self.player_round_state.at(Seat::West))).add(
            shown_codes(self.player_round_state.at(Seat::North)),
        )
    }

    /// How often a tile is on the table: in a wall, in a hand, among the flowers, in a meld, or among
    /// the discards that nobody took.
    pub open spec fn on_table(self, tile: Tile) -> nat {
        self.unplayed().count(tile) + self.played().count(tile.code())
    }
}

/// Whether two tables hold the same tiles.
#[verifier::opaque]
pub open spec fn conserves(before: RoomStateModel, after: RoomStateModel) -> bool {
    forall|tile: Tile| #[trigger] after.on_table(tile) == before.on_table(tile)
}

pub proof fn lemma_conserves_chain(a: RoomStateModel, b: RoomStateModel, c: RoomStateModel)
    requires
        conserves(a, b),
        conserves(b, c),
    ensures
        conserves(a, c),
{
    reveal(conserves);
    assert forall|tile: Tile| #[trigger] c.on_table(tile) == a.on_table(tile) by {
        assert(b.on_table(tile) == a.on_table(tile));
    }
}

/// Whether a step left the walls and the hands as they are.
pub open spec fn untouched(before: RoomStateModel, after: RoomStateModel) -> bool {
    &&& after.player_round_state == before.player_round_state
    &&& after.round_runtime is Some == before.round_runtime is Some
    &&& after.round_runtime matches Some(runtime) ==> runtime.live_wall
        == before.round_runtime->0.live_wall && runtime.dead_wall
        == before.round_runtime->0.dead_wall
}

proof fn lemma_untouched_conserves(before: RoomStateModel, after: RoomStateModel)
    requires
        untouched(before, after),
    ensures
        conserves(before, after),
{
    reveal(conserves);
    reveal(RoomStateModel::unplayed);
    reveal(RoomStateModel::played);
}

/// What one seat lays down or takes up changes what was laid down by just that.
proof fn lemma_played_with_hand(room: RoomStateModel, seat: Seat, hand: PlayerRoundStateModel, code: i32)
    requires
        seat != Seat::Unspecified,
    ensures
        room.with_hand(seat, hand).played().count(code) + shown_codes(
            room.player_round_state.at(seat),
        ).count(code) == room.played().count(code) + shown_codes(Some(hand)).count(code),
{
    reveal(RoomStateModel::played);
    reveal(SeatMap::at);
    reveal(SeatMap::with);
}

proof fn lemma_played_is_of_hands(a: RoomStateModel, b: RoomStateModel)
    requires
        forall|seat: Seat|
            seat != Seat::Unspecified ==> shown_codes(#[trigger] a.player_round_state.at(seat))
                == shown_codes(b.player_round_state.at(seat)),
    ensures
        a.played() == b.played(),
{
    reveal(RoomStateModel::played);
}

/// A tile is as often among some tiles as its number is among their numbers.
proof fn lemma_codes_count(tiles: Seq<Tile>, tile: Tile)
    ensures
        tile_codes(tiles).to_multiset().count(tile.code()) == tiles.to_multiset().count(tile),
    decreases tiles.len(),
{
    broadcast use vstd::seq_lib::group_to_multiset_ensures;
    if tiles.len() == 0 {
        assert(tile_codes(tiles).len() == 0);
    } else {
        lemma_codes_count(tiles.drop_last(), tile);
        assert(tiles =~= tiles.drop_last().push(tiles.last()));
        assert(tile_codes(tiles) =~= tile_codes(tiles.drop_last()).push(tiles.last().code()));
        crate::proto::client::law_tile_codes(tile, tile.code());
        crate::proto::client::law_tile_codes(tiles.last(), tiles.last().code());
    }
}

// ---------------------------------------------------------------------------
// Melds and discards
// ---------------------------------------------------------------------------

proof fn lemma_meld_pushed(melds: Seq<MeldModel>, meld: MeldModel)
    ensures
        meld_codes(melds.push(meld)) == meld_codes(melds).add(meld.tiles.to_multiset()),
{
    assert(melds.push(meld).drop_last() =~= melds);
}

proof fn lemma_meld_replaced(melds: Seq<MeldModel>, place: int, meld: MeldModel)
    requires
        0 <= place < melds.len(),
    ensures
        meld_codes(melds.update(place, meld)).add(melds[place].tiles.to_multiset()) == meld_codes(
            melds,
        ).add(meld.tiles.to_multiset()),
    decreases melds.len(),
{
    let after = melds.update(place, meld);
    if place == melds.len() - 1 {
        assert(after.drop_last() =~= melds.drop_last());
        assert(after.last() == meld);
    } else {
        assert(after.drop_last() =~= melds.drop_last().update(place, meld));
        assert(after.last() == melds.last());
        let fewer = melds.drop_last();
        lemma_meld_replaced(fewer, place, meld);
        assert(fewer[place] == melds[place]);
        assert forall|code: i32|
            meld_codes(after).count(code) + melds[place].tiles.to_multiset().count(code)
                == #[trigger] meld_codes(melds).count(code) + meld.tiles.to_multiset().count(
                code,
            ) by {
            let left = meld_codes(fewer.update(place, meld)).add(fewer[place].tiles.to_multiset());
            let right = meld_codes(fewer).add(meld.tiles.to_multiset());
            assert(left.count(code) == right.count(code));
        }
    }
    assert(meld_codes(after).add(melds[place].tiles.to_multiset()) =~= meld_codes(melds).add(
        meld.tiles.to_multiset(),
    ));
}

proof fn lemma_discard_taken(discards: Seq<DiscardTile>, place: int)
    requires
        0 <= place < discards.len(),
        !discards[place].claimed,
    ensures
        lying_codes(
            discards.update(place, DiscardTile { claimed: true, ..discards[place] }),
        ).insert(discards[place].tile) == lying_codes(discards),
    decreases discards.len(),
{
    let after = discards.update(place, DiscardTile { claimed: true, ..discards[place] });
    if place == discards.len() - 1 {
        assert(after.drop_last() =~= discards.drop_last());
    } else {
        assert(after.drop_last() =~= discards.drop_last().update(
            place,
            DiscardTile { claimed: true, ..discards.drop_last()[place] },
        ));
        assert(after.last() == discards.last());
        lemma_discard_taken(discards.drop_last(), place);
    }
    assert(lying_codes(after).insert(discards[place].tile) =~= lying_codes(discards));
}

proof fn lemma_discard_pushed(discards: Seq<DiscardTile>, discard: DiscardTile)
    requires
        !discard.claimed,
    ensures
        lying_codes(discards.push(discard)) == lying_codes(discards).insert(discard.tile),
{
    assert(discards.push(discard).drop_last() =~= discards);
}

// ---------------------------------------------------------------------------
// Draws
// ---------------------------------------------------------------------------

proof fn lemma_drawn_conserves(room: RoomStateModel, seat: Seat, source: DrawSource)
    requires
        seat != Seat::Unspecified,
    ensures
        conserves(room, room.drawn(seat, source).0),
{
    reveal(conserves);
    law_drawing_conserves_tiles(room, seat, source);
    let after = room.drawn(seat, source).0;
    assert forall|other: Seat| other != Seat::Unspecified implies shown_codes(
        #[trigger] after.player_round_state.at(other),
    ) == shown_codes(room.player_round_state.at(other)) by {
        if other == seat && room.player_round_state.at(seat) is Some {
        }
    }
    lemma_played_is_of_hands(after, room);
}

// ---------------------------------------------------------------------------
// Steps that keep the tiles
// ---------------------------------------------------------------------------

/// Whether every discard of a row was announced under a number below a bound.
pub open spec fn announced_before(discards: Seq<DiscardTile>, bound: int) -> bool {
    forall|i: int| 0 <= i < discards.len() ==> (#[trigger] discards[i]).source_event_seq < bound
}

/// Whether every discard on the table was announced under a number below a bound.
pub open spec fn all_announced_before(room: RoomStateModel, bound: int) -> bool {
    forall|seat: Seat|
        #[trigger] room.player_round_state.at(seat) matches Some(hand) ==> announced_before(
            hand.discards,
            bound,
        )
}

/// Whether a step kept the tiles on the table and the players at it, and announced no discard.
#[verifier::opaque]
pub open spec fn plays_on(before: RoomStateModel, after: RoomStateModel) -> bool {
    &&& conserves(before, after)
    &&& forall|bound: int|
        all_announced_before(before, bound) ==> #[trigger] all_announced_before(after, bound)
    &&& forall|seat: Seat|
        (#[trigger] after.players_by_seat.at(seat) is Some) == (before.players_by_seat.at(
            seat,
        ) is Some)
    &&& after.round_runtime is Some == before.round_runtime is Some
    &&& after.room_config == before.room_config
}

pub proof fn lemma_plays_chain(a: RoomStateModel, b: RoomStateModel, c: RoomStateModel)
    requires
        plays_on(a, b),
        plays_on(b, c),
    ensures
        plays_on(a, c),
{
    reveal(plays_on);
    lemma_conserves_chain(a, b, c);
    assert forall|bound: int| all_announced_before(a, bound) implies #[trigger] all_announced_before(
        c,
        bound,
    ) by {
        assert(all_announced_before(b, bound));
    }
    assert forall|seat: Seat|
        (#[trigger] c.players_by_seat.at(seat) is Some) == (a.players_by_seat.at(seat) is Some) by {
        assert((b.players_by_seat.at(seat) is Some) == (a.players_by_seat.at(seat) is Some));
    }
}

/// Whether a step left the walls and the hands as they are, and nobody came or left.
pub open spec fn only_told(before: RoomStateModel, after: RoomStateModel) -> bool {
    &&& untouched(before, after)
    &&& forall|seat: Seat|
        (#[trigger] after.players_by_seat.at(seat) is Some) == (before.players_by_seat.at(
            seat,
        ) is Some)
    &&& after.room_config == before.room_config
}

pub proof fn lemma_told_plays_on(before: RoomStateModel, after: RoomStateModel)
    requires
        only_told(before, after),
    ensures
        plays_on(before, after),
{
    reveal(plays_on);
    lemma_untouched_conserves(before, after);
}

proof fn lemma_drawn_plays_on(room: RoomStateModel, seat: Seat, source: DrawSource)
    requires
        seat != Seat::Unspecified,
        room.draws_fit(seat),
    ensures
        plays_on(room, room.drawn(seat, source).0),
        room.drawn(seat, source).0.window() == room.window(),
{
    let after = room.drawn(seat, source).0;
    if room.player_round_state.at(seat) is Some {
        lemma_drawn_keeps(room, seat, source);
        lemma_drawn_conserves(room, seat, source);
        law_drawing_conserves_tiles(room, seat, source);
        assert(plays_on(room, after)) by {
            reveal(plays_on);
            assert forall|bound: int| all_announced_before(
                room,
                bound,
            ) implies #[trigger] all_announced_before(after, bound) by {
                assert forall|other: Seat|
                    #[trigger] after.player_round_state.at(other) is Some implies announced_before(
                    after.player_round_state.at(other)->0.discards,
                    bound,
                ) by {
                    assert(room.player_round_state.at(other) is Some ==> announced_before(
                        room.player_round_state.at(other)->0.discards,
                        bound,
                    ));
                }
            }
        }
    } else {
        lemma_told_plays_on(room, room);
    }
}

pub proof fn lemma_turn_passed_on_plays_on(room: RoomStateModel, source_seat: Seat)
    requires
        room.can_draw(seat_after(source_seat)),
    ensures
        plays_on(room, room.turn_passed_on(source_seat)),
        room.turn_passed_on(source_seat).window() is None,
{
    reveal(RoomStateModel::turn_passed_on);
    let next = seat_after(source_seat);
    let turned = RoomStateModel { current_turn_seat: next, ..room }.without_window();
    lemma_told_plays_on(room, turned);
    lemma_drawn_plays_on(turned, next, DrawSource::LiveWall);
    let (drawn, outcome) = turned.drawn(next, DrawSource::LiveWall);
    lemma_plays_chain(room, turned, drawn);
    let after = room.turn_passed_on(source_seat);
    if !(outcome is Err) {
        assert(only_told(drawn, after));
        lemma_told_plays_on(drawn, after);
        lemma_plays_chain(room, drawn, after);
    }
}

/// What neither a kong nor a claim changes.
pub open spec fn same_company(before: RoomStateModel, after: RoomStateModel) -> bool {
    &&& after.players_by_seat == before.players_by_seat
    &&& after.room_config == before.room_config
    &&& after.round_runtime is Some == before.round_runtime is Some
    &&& after.window() == before.window()
}

proof fn lemma_kong_company(room: RoomStateModel, seat: Seat, tile: Tile, source_event_seq: u64)
    requires
        room.draws_fit(seat),
    ensures
        same_company(room, room.kong_applied(seat, tile, source_event_seq).0),
{
    reveal(RoomStateModel::kong_applied);
    if let Some(hand) = room.player_round_state.at(seat) {
        if let Some(place) = peng_place(hand.melds, tile) {
            if let Some(rest) = after_kong_tile(hand, tile) {
                let laid = room.kong_laid(seat, tile, source_event_seq, rest, place);
                assert(same_company(room, laid) && laid.can_draw(seat)) by {
                    reveal(RoomStateModel::kong_laid);
                }
                lemma_drawn_keeps(laid, seat, DrawSource::DeadWall);
                let (drawn, outcome) = laid.drawn(seat, DrawSource::DeadWall);
                assert(same_company(room, drawn));
                reveal(RoomStateModel::replacement_recorded);
            }
        }
    }
}

proof fn lemma_kong_conserves(room: RoomStateModel, seat: Seat, tile: Tile, source_event_seq: u64)
    requires
        seat != Seat::Unspecified,
        room.player_round_state.at(seat) matches Some(hand) && peng_place(hand.melds, tile) is Some
            && after_kong_tile(hand, tile) is Some,
    ensures
        conserves(room, room.kong_applied(seat, tile, source_event_seq).0),
{
    law_kongs_conserve_tiles(room, seat, tile, source_event_seq);
    let after = room.kong_applied(seat, tile, source_event_seq).0;
    let hand = room.player_round_state.at(seat)->0;
    let place = peng_place(hand.melds, tile)->0;
    let meld = kong_meld(hand.melds[place], tile, source_event_seq);
    let laid = PlayerRoundStateModel { melds: hand.melds.update(place, meld), ..hand };
    lemma_meld_replaced(hand.melds, place, meld);
    assert forall|other: Seat| other != Seat::Unspecified implies shown_codes(
        #[trigger] after.player_round_state.at(other),
    ) == shown_codes(room.with_hand(seat, laid).player_round_state.at(other)) by {
        if other == seat {
            assert(after.player_round_state.at(seat)->0.melds == laid.melds);
        } else {
            assert(after.player_round_state.at(other) == room.player_round_state.at(other));
        }
    }
    lemma_played_is_of_hands(after, room.with_hand(seat, laid));
    reveal(conserves);
    assert forall|any: Tile| #[trigger] after.on_table(any) == room.on_table(any) by {
        let code = any.code();
        lemma_played_with_hand(room, seat, laid, code);
        crate::proto::client::law_tile_codes(any, any.code());
        crate::proto::client::law_tile_codes(tile, tile.code());
        assert(room.unplayed().count(any) == after.unplayed().insert(tile).count(any));
        let left = meld_codes(laid.melds).add(hand.melds[place].tiles.to_multiset());
        let right = meld_codes(hand.melds).add(meld.tiles.to_multiset());
        assert(left.count(code) == right.count(code));
        assert(meld.tiles.to_multiset().count(code)
            == hand.melds[place].tiles.to_multiset().insert(tile.code()).count(code));
    }
}

pub proof fn lemma_kong_plays_on(room: RoomStateModel, seat: Seat, tile: Tile, source_event_seq: u64)
    requires
        room.player_round_state.at(Seat::Unspecified) is None,
        room.draws_fit(seat),
    ensures
        plays_on(room, room.kong_applied(seat, tile, source_event_seq).0),
        room.kong_applied(seat, tile, source_event_seq).0.window() == room.window(),
{
    let after = room.kong_applied(seat, tile, source_event_seq).0;
    lemma_kong_company(room, seat, tile, source_event_seq);
    if room.player_round_state.at(seat) matches Some(hand) && peng_place(hand.melds, tile) is Some
        && after_kong_tile(hand, tile) is Some {
        lemma_kong_conserves(room, seat, tile, source_event_seq);
        law_kongs_conserve_tiles(room, seat, tile, source_event_seq);
        reveal(plays_on);
        assert forall|bound: int| all_announced_before(
            room,
            bound,
        ) implies #[trigger] all_announced_before(after, bound) by {
            assert forall|other: Seat|
                #[trigger] after.player_round_state.at(other) is Some implies announced_before(
                after.player_round_state.at(other)->0.discards,
                bound,
            ) by {
                assert(room.player_round_state.at(other) is Some ==> announced_before(
                    room.player_round_state.at(other)->0.discards,
                    bound,
                ));
            }
        }
    } else {
        assert(after == room) by {
            reveal(RoomStateModel::kong_applied);
        }
        lemma_told_plays_on(room, room);
    }
}

// ---------------------------------------------------------------------------
// Claims
// ---------------------------------------------------------------------------

/// Whether the discard of a seat that an event announced is such a tile, and nobody took it yet.
pub open spec fn lies(room: RoomStateModel, seat: Seat, tile: Tile, source_event_seq: u64) -> bool {
    room.player_round_state.at(seat) matches Some(hand) && exists|place: int|
        is_latest(hand.discards, place, tile, source_event_seq)
}

/// Whether the first discard that an event announced is at a place, is such a tile, and was not
/// taken yet.
pub open spec fn is_latest(discards: Seq<DiscardTile>, place: int, tile: Tile, source_event_seq: u64) -> bool {
    &&& 0 <= place < discards.len()
    &&& discards[place].tile == tile.code()
    &&& !discards[place].claimed
    &&& discards[place].source_event_seq == source_event_seq
    &&& forall|i: int| 0 <= i < place ==> discards[i].source_event_seq != source_event_seq
}

pub proof fn lemma_claim_company(room: RoomStateModel, seat: Seat, claim: ClaimActionModel)
    requires
        room.draws_fit(seat),
        is_feasible(room, seat, claim),
    ensures
        same_company(room, room.claim_applied(seat, claim).0),
{
    reveal(RoomStateModel::claim_applied);
    let kind = parsed_claim_kind(claim.claim_kind)->Ok_0;
    let target = parsed_tile(claim.target_tile)->Ok_0;
    let source_seat = parsed_seat(claim.source_seat)->Ok_0;
    let consume = sorted_tiles(parsed_tiles(claim.consume_tiles)->Ok_0);
    let taken = room.with_tiles_taken(seat, consume);
    let laid = taken.claim_laid(seat, kind, target, source_seat, consume, claim.source_event_seq);
    assert(same_company(room, laid) && laid.can_draw(seat)) by {
        reveal(RoomStateModel::claim_laid);
    }
    lemma_drawn_keeps(laid, seat, DrawSource::DeadWall);
    let (drawn, outcome) = laid.drawn(seat, DrawSource::DeadWall);
    assert(same_company(room, drawn));
    reveal(RoomStateModel::replacement_recorded);
}

/// A claim of a tile that lies there moves tiles from the hand and the discards into a meld.
proof fn lemma_claim_conserves(room: RoomStateModel, seat: Seat, claim: ClaimActionModel)
    requires
        seat != Seat::Unspecified,
        room.player_round_state.at(Seat::Unspecified) is None,
        is_feasible(room, seat, claim),
        lies(
            room,
            parsed_seat(claim.source_seat)->Ok_0,
            parsed_tile(claim.target_tile)->Ok_0,
            claim.source_event_seq,
        ),
    ensures
        conserves(room, room.claim_applied(seat, claim).0),
{
    law_claims_conserve_tiles(room, seat, claim);
    let after = room.claim_applied(seat, claim).0;
    let kind = parsed_claim_kind(claim.claim_kind)->Ok_0;
    let target = parsed_tile(claim.target_tile)->Ok_0;
    let source_seat = parsed_seat(claim.source_seat)->Ok_0;
    let consume = sorted_tiles(parsed_tiles(claim.consume_tiles)->Ok_0);
    let meld = claimed_meld(kind, consume, target, source_seat, claim.source_event_seq);
    let tiles = sorted_tiles(consume.push(target));

    let source = room.player_round_state.at(source_seat)->0;
    let place = choose|place: int|
        is_latest(source.discards, place, target, claim.source_event_seq);
    lemma_first_claimed(source.discards, claim.source_event_seq, place);
    lemma_discard_taken(source.discards, place);
    let robbed = PlayerRoundStateModel {
        discards: first_claimed(source.discards, claim.source_event_seq),
        ..source
    };
    let marked = room.with_hand(source_seat, robbed);
    let hand = marked.player_round_state.at(seat)->0;
    lemma_meld_pushed(hand.melds, meld);
    let laid = PlayerRoundStateModel { melds: hand.melds.push(meld), ..hand };
    assert(room.player_round_state.at(seat) is Some);
    assert forall|other: Seat| other != Seat::Unspecified implies shown_codes(
        #[trigger] after.player_round_state.at(other),
    ) == shown_codes(marked.with_hand(seat, laid).player_round_state.at(other)) by {
        match room.player_round_state.at(other) {
            Some(_) => {},
            None => {},
        }
    }
    lemma_played_is_of_hands(after, marked.with_hand(seat, laid));
    reveal(conserves);
    assert forall|any: Tile| #[trigger] after.on_table(any) == room.on_table(any) by {
        let code = any.code();
        lemma_played_with_hand(room, source_seat, robbed, code);
        lemma_played_with_hand(marked, seat, laid, code);
        lemma_codes_count(tiles, any);
        crate::proto::client::law_tile_codes(any, any.code());
        crate::proto::client::law_tile_codes(target, target.code());
        assert(room.unplayed().count(any) == after.unplayed().add(consume.to_multiset()).count(any));
        assert(tiles.to_multiset().count(any) == consume.to_multiset().insert(target).count(any));
        assert(lying_codes(source.discards).count(code) == lying_codes(robbed.discards).insert(
            target.code(),
        ).count(code));
    }
}

pub proof fn lemma_claim_plays_on(room: RoomStateModel, seat: Seat, claim: ClaimActionModel)
    requires
        room.player_round_state.at(Seat::Unspecified) is None,
        room.draws_fit(seat),
        is_feasible(room, seat, claim) || room.claim_applied(seat, claim).0 == room,
        lies(
            room,
            parsed_seat(claim.source_seat)->Ok_0,
            parsed_tile(claim.target_tile)->Ok_0,
            claim.source_event_seq,
        ),
    ensures
        plays_on(room, room.claim_applied(seat, claim).0),
        room.claim_applied(seat, claim).0.window() == room.window(),
{
    let after = room.claim_applied(seat, claim).0;
    if is_feasible(room, seat, claim) {
        lemma_claim_company(room, seat, claim);
        lemma_claim_conserves(room, seat, claim);
        law_claims_conserve_tiles(room, seat, claim);
        let source_seat = parsed_seat(claim.source_seat)->Ok_0;
        let target = parsed_tile(claim.target_tile)->Ok_0;
        let source = room.player_round_state.at(source_seat)->0;
        let place = choose|place: int|
            is_latest(source.discards, place, target, claim.source_event_seq);
        lemma_first_claimed(source.discards, claim.source_event_seq, place);
        reveal(plays_on);
        assert forall|bound: int| all_announced_before(
            room,
            bound,
        ) implies #[trigger] all_announced_before(after, bound) by {
            assert forall|other: Seat|
                #[trigger] after.player_round_state.at(other) is Some implies announced_before(
                after.player_round_state.at(other)->0.discards,
                bound,
            ) by {
                match room.player_round_state.at(other) {
                    Some(hand) => {
                        assert(announced_before(hand.discards, bound));
                    },
                    None => {},
                }
            }
        }
    } else {
        lemma_told_plays_on(room, room);
    }
}

// ---------------------------------------------------------------------------
// Discards
// ---------------------------------------------------------------------------

/// What a discard that has landed leaves behind: the tile lies there under the latest number, and
/// the table holds what it held.
pub open spec fn has_landed(before: RoomStateModel, after: RoomStateModel, seat: Seat, tile: Tile) -> bool {
    &&& conserves(before, after)
    &&& same_company(before, after)
    &&& after.next_event_seq == before.next_event_seq + 1
    &&& after.phase == before.phase
    &&& all_announced_before(before, before.next_event_seq as int) ==> all_announced_before(
        after,
        after.next_event_seq as int,
    ) && lies(after, seat, tile, before.next_event_seq)
}

pub proof fn lemma_discard_lands(room: RoomStateModel, seat: Seat, tile: Tile, tsumogiri: bool)
    requires
        seat != Seat::Unspecified,
        room.player_round_state.at(seat) is Some,
        room.discarded(seat, tile, tsumogiri).1 is Ok,
        room.can_number(1),
    ensures
        has_landed(
            room,
            room.discarded(seat, tile, tsumogiri).0.discard_landed(seat, tile),
            seat,
            tile,
        ),
        room.discarded(seat, tile, tsumogiri).0.next_event_seq == room.next_event_seq,
{
    law_discarding_conserves_tiles(room, seat, tile, tsumogiri);
    let event_seq = room.next_event_seq;
    let dropped = room.discarded(seat, tile, tsumogiri).0;
    let landed = dropped.discard_landed(seat, tile);
    let hand = room.player_round_state.at(seat)->0;
    let rest = dropped.player_round_state.at(seat)->0;
    let row = rest.discards.update(
        rest.discards.len() - 1,
        DiscardTile { source_event_seq: event_seq, ..rest.discards.last() },
    );
    let bound = PlayerRoundStateModel { discards: row, ..rest };
    assert(!rest.discards.last().claimed && same_company(room, dropped) && dropped.next_event_seq
        == event_seq && dropped.phase == room.phase && rest.melds == hand.melds) by {
        reveal(RoomStateModel::discarded);
    }
    assert(untouched(dropped.with_hand(seat, bound), landed) && same_company(dropped, landed)
        && landed.next_event_seq == event_seq + 1 && landed.phase == dropped.phase) by {
        reveal(RoomStateModel::discard_landed);
    }
    lemma_untouched_conserves(dropped.with_hand(seat, bound), landed);
    assert(row =~= hand.discards.push(row.last()));
    lemma_discard_pushed(hand.discards, row.last());

    assert(dropped.with_hand(seat, bound).unplayed() == dropped.unplayed()) by {
        reveal(RoomStateModel::unplayed);
    }
    assert(conserves(room, landed)) by {
        reveal(conserves);
        assert forall|any: Tile| #[trigger] landed.on_table(any) == room.on_table(any) by {
            let code = any.code();
            crate::proto::client::law_tile_codes(any, any.code());
            crate::proto::client::law_tile_codes(tile, tile.code());
            let thrown = room.with_hand(seat, bound);
            lemma_played_with_hand(room, seat, bound, code);
            assert forall|other: Seat| other != Seat::Unspecified implies shown_codes(
                #[trigger] thrown.player_round_state.at(other),
            ) == shown_codes(dropped.with_hand(seat, bound).player_round_state.at(other)) by {
                if other != seat {
                    assert(dropped.player_round_state.at(other) == room.player_round_state.at(
                        other,
                    ));
                }
            }
            lemma_played_is_of_hands(thrown, dropped.with_hand(seat, bound));
            assert(landed.on_table(any) == dropped.with_hand(seat, bound).on_table(any));
            assert(room.unplayed().count(any) == dropped.unplayed().insert(tile).count(any));
        }
    }
    if all_announced_before(room, event_seq as int) {
        assert(announced_before(hand.discards, event_seq as int));
        assert forall|other: Seat|
            #[trigger] landed.player_round_state.at(other) is Some implies announced_before(
            landed.player_round_state.at(other)->0.discards,
            event_seq + 1,
        ) by {
            if other != seat {
                assert(dropped.player_round_state.at(other) == room.player_round_state.at(other));
                assert(announced_before(
                    room.player_round_state.at(other)->0.discards,
                    event_seq as int,
                ));
            }
        }
        assert(is_latest(row, row.len() - 1, tile, event_seq));
    }
}

} // verus!
