//! What the rule engine is told when it is asked.

use vstd::prelude::*;

use crate::collections::group_seat_map;
use crate::proto::client::{
    law_meld_kind_codes, law_seat_codes, law_tile_codes, DiscardTile, MeldKind, MeldModel,
    PlayerActionModel, PlayerActionRequestModel, Seat, Tile, WinType,
};
use crate::proto::engine;
use crate::room::convert::{
    engine_claim_kind, engine_meld, engine_meld_kind, engine_seat, engine_tile, engine_tile_codes,
    engine_tile_numbers, engine_win_type,
};
use crate::room::hand::private_tiles;
use crate::room::requests::private_multiset;
use crate::room::state::{ResolvedActionRecord, RoomStateModel};
use crate::text::decimal;
use crate::tiles::lemma_sorted_tiles_keeps_tiles;

verus! {

broadcast use group_seat_map;

// ---------------------------------------------------------------------------
// The same by name
// ---------------------------------------------------------------------------

/// Whether a number of the rule engine stands for a seat: for the one of the same name.
pub open spec fn is_seat(code: i32, seat: Seat) -> bool {
    engine::Seat::decode(code) matches Some(value) && value.name() == seat.name()
}

/// Whether a number of the rule engine stands for a tile.
pub open spec fn is_tile(code: i32, tile: Tile) -> bool {
    engine::Tile::decode(code) matches Some(value) && value.name() == tile.name()
}

/// Whether some numbers of the rule engine stand for some tiles, one for one.
pub open spec fn are_tiles(codes: Seq<i32>, tiles: Seq<Tile>) -> bool {
    &&& codes.len() == tiles.len()
    &&& forall|i: int| 0 <= i < tiles.len() ==> is_tile(#[trigger] codes[i], tiles[i])
}

proof fn lemma_seat(seat: Seat)
    ensures
        is_seat(engine_seat(seat).code(), seat),
{
    engine::law_seat_codes(engine_seat(seat), engine_seat(seat).code());
}

proof fn lemma_tile(tile: Tile)
    ensures
        is_tile(engine_tile(tile).code(), tile),
{
    engine::law_tile_codes(engine_tile(tile), engine_tile(tile).code());
}

proof fn lemma_tiles(tiles: Seq<Tile>)
    ensures
        are_tiles(engine_tile_codes(tiles), tiles),
{
    assert forall|i: int| 0 <= i < tiles.len() implies is_tile(
        #[trigger] engine_tile_codes(tiles)[i],
        tiles[i],
    ) by {
        lemma_tile(tiles[i]);
    }
}

// ---------------------------------------------------------------------------
// Players
// ---------------------------------------------------------------------------

/// Whether what the rule engine is told of a meld is that meld: its kind, tiles, source and event.
pub open spec fn tells_engine_meld(told: engine::MeldModel, meld: MeldModel) -> bool {
    &&& MeldKind::decode(meld.kind) matches Some(kind) ==> (engine::MeldKind::decode(
        told.kind,
    ) matches Some(value) && value.name() == kind.name())
    &&& Seat::decode(meld.from_seat) matches Some(seat) ==> is_seat(told.from_seat, seat)
    &&& Tile::decode(meld.claimed_tile) matches Some(tile) ==> is_tile(told.claimed_tile, tile)
    &&& told.concealed == meld.concealed
    &&& told.source_event_seq == meld.source_event_seq
    &&& forall|tiles: Seq<Tile>| #[trigger]
        crate::room::views::stand_for(meld.tiles, tiles) ==> are_tiles(told.tiles, tiles)
}

proof fn lemma_tile_numbers(codes: Seq<i32>, tiles: Seq<Tile>)
    requires
        crate::room::views::stand_for(codes, tiles),
    ensures
        are_tiles(engine_tile_numbers(codes), tiles),
    decreases codes.len(),
{
    if codes.len() > 0 {
        let fewer = codes.drop_last();
        let rest = tiles.drop_last();
        assert forall|i: int| 0 <= i < rest.len() implies Tile::decode(#[trigger] fewer[i]) == Some(
            rest[i],
        ) by {
            assert(Tile::decode(codes[i]) == Some(tiles[i]));
        }
        lemma_tile_numbers(fewer, rest);
        assert(Tile::decode(codes[codes.len() - 1]) == Some(tiles[tiles.len() - 1]));
        lemma_tile(tiles.last());
        let told = engine_tile_numbers(codes);
        assert(told == engine_tile_numbers(fewer).push(engine_tile(tiles.last()).code()));
        assert forall|i: int| 0 <= i < tiles.len() implies is_tile(#[trigger] told[i], tiles[i]) by {
            if i < rest.len() {
                assert(is_tile(engine_tile_numbers(fewer)[i], rest[i]));
            }
        }
    }
}

proof fn lemma_meld(meld: MeldModel)
    ensures
        tells_engine_meld(engine_meld(meld), meld),
{
    let told = engine_meld(meld);
    if let Some(kind) = MeldKind::decode(meld.kind) {
        engine::law_meld_kind_codes(engine_meld_kind(kind), told.kind);
    }
    if let Some(seat) = Seat::decode(meld.from_seat) {
        lemma_seat(seat);
    }
    if let Some(tile) = Tile::decode(meld.claimed_tile) {
        lemma_tile(tile);
    }
    assert forall|tiles: Seq<Tile>| #[trigger]
        crate::room::views::stand_for(meld.tiles, tiles) implies are_tiles(told.tiles, tiles) by {
        lemma_tile_numbers(meld.tiles, tiles);
    }
}

/// Whether what the rule engine is told of a discard is that discard.
pub open spec fn tells_engine_discard(told: engine::DiscardTile, discard: DiscardTile) -> bool {
    &&& Tile::decode(discard.tile) matches Some(tile) ==> is_tile(told.tile, tile)
    &&& told.turn_index == discard.turn_index
    &&& told.claimed == discard.claimed
    &&& told.drawn_and_discarded == discard.drawn_and_discarded
    &&& told.source_event_seq == discard.source_event_seq
}

/// Whether what the rule engine is told of a player is the player of a seat: the score, what lies on
/// the table, and how many tiles do not.
pub open spec fn tells_engine_player(
    room: RoomStateModel,
    told: engine::EnginePlayerStateModel,
    seat: Seat,
) -> bool {
    match (room.players_by_seat.at(seat), room.player_round_state.at(seat)) {
        (Some(player), Some(hand)) => {
            &&& is_seat(told.seat, player.seat)
            &&& told.current_score == player.score
            &&& hand.concealed_tiles.len() < u32::MAX ==> told.concealed_tile_count
                == private_multiset(hand).len()
            &&& told.melds.len() == hand.melds.len()
            &&& forall|i: int|
                0 <= i < hand.melds.len() ==> tells_engine_meld(#[trigger] told.melds[i], hand.melds[i])
            &&& told.discards.len() == hand.discards.len()
            &&& forall|i: int|
                0 <= i < hand.discards.len() ==> tells_engine_discard(
                    #[trigger] told.discards[i],
                    hand.discards[i],
                )
            &&& are_tiles(told.flowers, hand.flowers)
        },
        _ => false,
    }
}

/// Whether the player of a seat is among those that the rule engine is told of.
pub open spec fn is_told_of(
    room: RoomStateModel,
    players: Seq<engine::EnginePlayerStateModel>,
    seat: Seat,
) -> bool {
    exists|i: int|
        0 <= i < players.len() && tells_engine_player(room, #[trigger] players[i], seat)
}

proof fn lemma_player(room: RoomStateModel, seat: Seat)
    requires
        room.players_by_seat.at(seat) is Some,
        room.player_round_state.at(seat) is Some,
    ensures
        room.engine_player_at(seat).len() == 1,
        tells_engine_player(room, room.engine_player_at(seat)[0], seat),
{
    broadcast use vstd::seq_lib::group_to_multiset_ensures;
    let player = room.players_by_seat.at(seat)->0;
    let hand = room.player_round_state.at(seat)->0;
    let told = room.engine_player_at(seat)[0];
    lemma_seat(player.seat);
    lemma_tiles(hand.flowers);
    assert(hand.concealed_tiles.to_multiset().len() == hand.concealed_tiles.len());
    assert forall|i: int| 0 <= i < hand.melds.len() implies tells_engine_meld(
        #[trigger] told.melds[i],
        hand.melds[i],
    ) by {
        lemma_meld(hand.melds[i]);
    }
    assert forall|i: int| 0 <= i < hand.discards.len() implies tells_engine_discard(
        #[trigger] told.discards[i],
        hand.discards[i],
    ) by {
        if let Some(tile) = Tile::decode(hand.discards[i].tile) {
            lemma_tile(tile);
        }
    }
}

// ---------------------------------------------------------------------------
// Questions
// ---------------------------------------------------------------------------

/// Whether the rule engine is told how a hand stands.
pub open spec fn tells_standing(room: RoomStateModel, told: engine::RoundContext) -> bool {
    &&& is_seat(told.prevailing_wind, room.prevailing_wind)
    &&& is_seat(told.dealer_seat, room.dealer_seat)
    &&& is_seat(told.current_turn_seat, room.current_turn_seat)
    &&& told.hand_number == room.hand_number
    &&& told.dealer_streak == room.dealer_streak
    &&& told.wall_tiles_remaining == room.wall_tiles_remaining
    &&& told.dead_wall_tiles_remaining == room.dead_wall_tiles_remaining
    &&& told.is_last_tile <==> room.wall_tiles_remaining <= 1
}

proof fn lemma_standing(room: RoomStateModel)
    ensures
        tells_standing(room, room.round_context()),
{
    lemma_seat(room.prevailing_wind);
    lemma_seat(room.dealer_seat);
    lemma_seat(room.current_turn_seat);
}

/// Whether an action that the rule engine is asked about is the action of a player.
pub open spec fn is_action(
    room: RoomStateModel,
    told: engine::CandidateActionModel,
    seat: Seat,
    action: PlayerActionModel,
) -> bool {
    match (action, told) {
        (PlayerActionModel::Discard(discard), engine::CandidateActionModel::Discard(told)) => {
            &&& Tile::decode(discard.tile) matches Some(tile) && is_tile(told.tile, tile)
            &&& told.tsumogiri == discard.tsumogiri
        },
        (PlayerActionModel::Claim(claim), engine::CandidateActionModel::Claim(told)) => {
            &&& crate::proto::client::ClaimKind::decode(claim.claim_kind) matches Some(kind) && (
            engine::ClaimKind::decode(told.claim_kind) matches Some(value) && value.name()
                == kind.name())
            &&& Tile::decode(claim.target_tile) matches Some(tile) && is_tile(told.target_tile, tile)
            &&& Seat::decode(claim.source_seat) matches Some(source) && is_seat(
                told.source_seat,
                source,
            )
            &&& told.source_event_seq == claim.source_event_seq
            &&& forall|tiles: Seq<Tile>| #[trigger]
                crate::room::views::stand_for(claim.consume_tiles, tiles) ==> are_tiles(
                    told.consume_tiles,
                    tiles,
                )
        },
        (PlayerActionModel::DeclareWin(win), engine::CandidateActionModel::DeclareWin(told)) => {
            &&& WinType::decode(win.win_type) matches Some(kind) && (engine::WinType::decode(
                told.win_type,
            ) matches Some(value) && value.name() == kind.name())
            &&& Tile::decode(win.winning_tile) matches Some(tile) && is_tile(told.winning_tile, tile)
            &&& Seat::decode(win.source_seat) matches Some(source) && is_seat(
                told.source_seat,
                source,
            )
            &&& told.source_event_seq == win.source_event_seq
        },
        (PlayerActionModel::Pass(pass), engine::CandidateActionModel::Pass(told)) => {
            told.source_event_seq == pass.source_event_seq
        },
        (PlayerActionModel::SupplementalKong(kong), engine::CandidateActionModel::Kong(told)) => {
            &&& Tile::decode(kong.tile) matches Some(tile) && is_tile(told.tile, tile)
            &&& engine::ActionKind::decode(told.kong_kind) == Some(
                engine::ActionKind::SupplementalKong,
            )
            &&& is_seat(told.source_seat, seat)
        },
        _ => false,
    }
}

proof fn lemma_action(room: RoomStateModel, seat: Seat, action: PlayerActionModel)
    ensures
        room.candidate(seat, action) matches Ok(told) ==> is_action(room, told, seat, action),
{
    lemma_seat(seat);
    match action {
        PlayerActionModel::Discard(discard) => {
            if let Some(tile) = Tile::decode(discard.tile) {
                lemma_tile(tile);
            }
        },
        PlayerActionModel::Claim(claim) => {
            if let Some(tile) = Tile::decode(claim.target_tile) {
                lemma_tile(tile);
            }
            if let Some(source) = Seat::decode(claim.source_seat) {
                lemma_seat(source);
            }
            if let Some(kind) = crate::proto::client::ClaimKind::decode(claim.claim_kind) {
                engine::law_claim_kind_codes(
                    engine_claim_kind(kind),
                    engine_claim_kind(kind).code(),
                );
            }
            if let Ok(engine::CandidateActionModel::Claim(told)) = room.candidate(seat, action) {
                assert forall|tiles: Seq<Tile>| #[trigger]
                    crate::room::views::stand_for(claim.consume_tiles, tiles) implies are_tiles(
                    told.consume_tiles,
                    tiles,
                ) by {
                    lemma_parsed(claim.consume_tiles, tiles);
                    lemma_tiles(tiles);
                }
            }
        },
        PlayerActionModel::DeclareWin(win) => {
            if let Some(tile) = Tile::decode(win.winning_tile) {
                lemma_tile(tile);
            }
            if let Some(source) = Seat::decode(win.source_seat) {
                lemma_seat(source);
            }
            if let Some(kind) = WinType::decode(win.win_type) {
                engine::law_win_type_codes(engine_win_type(kind), engine_win_type(kind).code());
            }
        },
        PlayerActionModel::SupplementalKong(kong) => {
            if let Some(tile) = Tile::decode(kong.tile) {
                lemma_tile(tile);
            }
            engine::law_action_kind_codes(
                engine::ActionKind::SupplementalKong,
                engine::ActionKind::SupplementalKong.code(),
            );
        },
        _ => {},
    }
}

proof fn lemma_parsed(codes: Seq<i32>, tiles: Seq<Tile>)
    requires
        crate::room::views::stand_for(codes, tiles),
    ensures
        crate::room::convert::parsed_tiles(codes) is Ok,
        crate::room::convert::parsed_tiles(codes)->Ok_0 == tiles,
    decreases codes.len(),
{
    if codes.len() > 0 {
        let fewer = codes.drop_last();
        let rest = tiles.drop_last();
        assert forall|i: int| 0 <= i < rest.len() implies Tile::decode(#[trigger] fewer[i]) == Some(
            rest[i],
        ) by {
            assert(Tile::decode(codes[i]) == Some(tiles[i]));
        }
        lemma_parsed(fewer, rest);
        assert(Tile::decode(codes[codes.len() - 1]) == Some(tiles[tiles.len() - 1]));
        assert(tiles =~= rest.push(tiles.last()));
    } else {
        assert(tiles =~= Seq::<Tile>::empty());
    }
}

/// A question about an action tells the rule engine who acts and what they want to do, their whole
/// hand, how the hand stands, and of every player at the table what lies there; everything by the
/// name under which the client knows it.
pub proof fn law_questions_tell_the_table(
    room: RoomStateModel,
    seat: Seat,
    request: PlayerActionRequestModel,
    other: Seat,
)
    requires
        other != Seat::Unspecified,
        room.players_by_seat.at(other) is Some,
        room.player_round_state.at(other) is Some,
    ensures
        room.validation_request(seat, request) matches Ok(asked) ==> {
            &&& asked.room_id == room.room_id && asked.match_id == room.match_id
            &&& asked.round_id == "hand-"@ + decimal(room.hand_number as nat)
            &&& room.next_event_seq > 0 ==> asked.server_event_seq + 1 == room.next_event_seq
            &&& is_seat(asked.actor_seat, seat)
            &&& request.action matches Some(action) && asked.candidate_action matches Some(told)
                && is_action(room, told, seat, action)
            &&& room.player_round_state.at(seat) matches Some(hand)
                && asked.actor_private_hand matches Some(shown) && are_tiles(
                shown.concealed_tiles,
                hand.concealed_tiles,
            ) && is_tile(
                shown.drawn_tile,
                match hand.drawn_tile {
                    Some(tile) => tile,
                    None => Tile::Unspecified,
                },
            )
            &&& asked.round_context matches Some(told) && tells_standing(room, told)
            &&& is_told_of(room, asked.players, other)
        },
{
    if let Ok(asked) = room.validation_request(seat, request) {
        lemma_seat(seat);
        lemma_action(room, seat, request.action->0);
        let hand = room.player_round_state.at(seat)->0;
        lemma_tiles(hand.concealed_tiles);
        lemma_tile(
            match hand.drawn_tile {
                Some(tile) => tile,
                None => Tile::Unspecified,
            },
        );
        lemma_standing(room);
        lemma_players(room, other);
    }
}

proof fn lemma_players(room: RoomStateModel, seat: Seat)
    requires
        seat != Seat::Unspecified,
        room.players_by_seat.at(seat) is Some,
        room.player_round_state.at(seat) is Some,
    ensures
        is_told_of(room, room.engine_players(), seat),
{
    lemma_player(room, seat);
    let players = room.engine_players();
    let east = room.engine_player_at(Seat::East);
    let south = room.engine_player_at(Seat::South);
    let west = room.engine_player_at(Seat::West);
    assert(players =~= east + south + west + room.engine_player_at(Seat::North));
    let place = if seat == Seat::East {
        0int
    } else if seat == Seat::South {
        east.len() as int
    } else if seat == Seat::West {
        (east.len() + south.len()) as int
    } else {
        (east.len() + south.len() + west.len()) as int
    };
    assert(tells_engine_player(room, players[place], seat));
}

/// Whether a hand that the rule engine is to score by is that of a seat: all of it, and whether it
/// won or has to pay.
pub open spec fn tells_engine_hand(
    room: RoomStateModel,
    told: engine::HandSnapshotModel,
    seat: Seat,
    winner: Seat,
    discarder: Option<Seat>,
) -> bool {
    match (room.players_by_seat.at(seat), room.player_round_state.at(seat)) {
        (Some(player), Some(hand)) => {
            &&& is_seat(told.seat, seat)
            &&& told.current_score == player.score
            &&& told.winner <==> seat == winner
            &&& told.discarder <==> discarder == Some(seat)
            &&& are_tiles(told.flowers, hand.flowers)
            &&& told.melds.len() == hand.melds.len()
            &&& forall|i: int|
                0 <= i < hand.melds.len() ==> tells_engine_meld(#[trigger] told.melds[i], hand.melds[i])
            &&& exists|tiles: Seq<Tile>| #[trigger]
                are_tiles(told.concealed_tiles, tiles) && tiles.to_multiset() == private_multiset(
                    hand,
                )
        },
        _ => false,
    }
}

/// Whether the hand of a seat is among those that the rule engine is to score by.
pub open spec fn is_scored_by(
    room: RoomStateModel,
    hands: Seq<engine::HandSnapshotModel>,
    seat: Seat,
    winner: Seat,
    discarder: Option<Seat>,
) -> bool {
    exists|i: int|
        0 <= i < hands.len() && tells_engine_hand(room, #[trigger] hands[i], seat, winner, discarder)
}

proof fn lemma_hand(room: RoomStateModel, seat: Seat, winner: Seat, discarder: Option<Seat>)
    requires
        room.players_by_seat.at(seat) is Some,
        room.player_round_state.at(seat) is Some,
    ensures
        room.hand_snapshot_at(seat, winner, discarder).len() == 1,
        tells_engine_hand(
            room,
            room.hand_snapshot_at(seat, winner, discarder)[0],
            seat,
            winner,
            discarder,
        ),
{
    broadcast use vstd::seq_lib::group_to_multiset_ensures;
    let hand = room.player_round_state.at(seat)->0;
    let told = room.hand_snapshot_at(seat, winner, discarder)[0];
    lemma_seat(seat);
    lemma_tiles(hand.flowers);
    assert forall|i: int| 0 <= i < hand.melds.len() implies tells_engine_meld(
        #[trigger] told.melds[i],
        hand.melds[i],
    ) by {
        lemma_meld(hand.melds[i]);
    }
    let tiles = private_tiles(hand);
    lemma_tiles(tiles);
    let all = match hand.drawn_tile {
        Some(tile) => hand.concealed_tiles.push(tile),
        None => hand.concealed_tiles,
    };
    lemma_sorted_tiles_keeps_tiles(all);
    assert(tiles.to_multiset() =~= private_multiset(hand));
    assert(are_tiles(told.concealed_tiles, tiles));
}

/// A question for a score tells the rule engine who won, on which tile and how, who has to pay for the
/// tile, how the hand stands, and every hand at the table, tile by tile.
pub proof fn law_scoring_tells_every_hand(
    room: RoomStateModel,
    winner: Seat,
    discarder: Option<Seat>,
    win_type: WinType,
    winning_tile: Tile,
    terminal_action: ResolvedActionRecord,
    seat: Seat,
)
    requires
        seat != Seat::Unspecified,
        room.players_by_seat.at(seat) is Some,
        room.player_round_state.at(seat) is Some,
    ensures
        ({
            let asked = room.scoring_request(
                winner,
                discarder,
                win_type,
                winning_tile,
                terminal_action,
            );
            &&& asked.room_id == room.room_id && asked.match_id == room.match_id
            &&& is_seat(asked.winner_seat, winner)
            &&& is_seat(
                asked.discarder_seat,
                match discarder {
                    Some(seat) => seat,
                    None => Seat::Unspecified,
                },
            )
            &&& is_tile(asked.winning_tile, winning_tile)
            &&& engine::WinType::decode(asked.win_type) matches Some(value) && value.name()
                == win_type.name()
            &&& asked.round_context matches Some(told) && tells_standing(room, told)
            &&& asked.terminal_action matches Some(told) && is_seat(
                told.source_seat,
                terminal_action.actor_seat,
            ) && told.source_event_seq == terminal_action.event_seq
            &&& is_scored_by(room, asked.hands, seat, winner, discarder)
        }),
{
    lemma_seat(winner);
    lemma_seat(Seat::Unspecified);
    if let Some(payer) = discarder {
        lemma_seat(payer);
    }
    lemma_tile(winning_tile);
    engine::law_win_type_codes(engine_win_type(win_type), engine_win_type(win_type).code());
    lemma_standing(room);
    lemma_seat(terminal_action.actor_seat);
    lemma_hand(room, seat, winner, discarder);
    let hands = room.hand_snapshots(winner, discarder);
    let east = room.hand_snapshot_at(Seat::East, winner, discarder);
    let south = room.hand_snapshot_at(Seat::South, winner, discarder);
    let west = room.hand_snapshot_at(Seat::West, winner, discarder);
    assert(hands =~= east + south + west + room.hand_snapshot_at(Seat::North, winner, discarder));
    let place = if seat == Seat::East {
        0int
    } else if seat == Seat::South {
        east.len() as int
    } else if seat == Seat::West {
        (east.len() + south.len()) as int
    } else {
        (east.len() + south.len() + west.len()) as int
    };
    assert(tells_engine_hand(room, hands[place], seat, winner, discarder));
}

} // verus!
