//! What players are told of what happens at the table.

use vstd::prelude::*;

use crate::collections::group_seat_map;
use crate::proto::client::{
    law_seat_codes, law_tile_codes, ActionBroadcastModel, ActionDetailModel, ActionKind, ClaimKind,
    GamePhase, MeldModel, ResultingEffectModel, RevealedHandModel, RoundPlayerResult, Seat,
    ServerFrameModel, ServerPayloadModel, Tile, WinType,
};
use crate::proto::engine;
use crate::room::basics::{goes_to, goes_to_somebody, group_announcing_keeps, lemma_sent_by_seat};
use crate::room::outcomes::lemma_scored_keeps;
use crate::room::payoff::is_for;
use crate::room::settlement::HandResultModel;
use crate::room::state::{RoomOutputModel, RoomStateModel};
use crate::room::steps::PendingWin;
use crate::room::views::stand_for;
use crate::text::decimal;

verus! {

broadcast use {group_announcing_keeps, group_seat_map};

// ---------------------------------------------------------------------------
// Everybody is told
// ---------------------------------------------------------------------------

/// Whether a recipient was told something that has a property, on their own connection.
pub open spec fn is_told(
    before: RoomStateModel,
    after: RoomStateModel,
    recipient: Seat,
    news: spec_fn(ServerFrameModel) -> bool,
) -> bool {
    exists|i: int|
        before.outbox.len() <= i < after.outbox.len() && carries_to(
            #[trigger] after.outbox[i],
            before.reachable(recipient),
            news,
        )
}

/// Whether an output carries news that have a property to a connection.
pub open spec fn carries_to(
    output: RoomOutputModel,
    connection: Option<Seq<char>>,
    news: spec_fn(ServerFrameModel) -> bool,
) -> bool {
    match (output, connection) {
        (RoomOutputModel::Send(told, frame), Some(connection_id)) => told == connection_id && news(
            frame,
        ),
        _ => false,
    }
}

/// Whether everybody who can be reached is told something that has a property, and nobody is told
/// anything else; where anything is told at all.
pub open spec fn everybody_is_told(
    before: RoomStateModel,
    after: RoomStateModel,
    news: spec_fn(ServerFrameModel) -> bool,
) -> bool {
    &&& before.outbox.is_prefix_of(after.outbox)
    &&& forall|i: int|
        before.outbox.len() <= i < after.outbox.len() && (#[trigger] after.outbox[i]) is Send
            ==> news(after.outbox[i]->Send_1)
    &&& before.runtime_mode is Production ==> forall|recipient: Seat|
        (#[trigger] before.reachable(recipient)) is Some ==> is_told(before, after, recipient, news)
}

pub proof fn lemma_told(
    before: RoomStateModel,
    stored: RoomStateModel,
    frame: ServerFrameModel,
    news: spec_fn(ServerFrameModel) -> bool,
)
    requires
        news(frame),
        before.outbox.is_prefix_of(stored.outbox),
        forall|i: int|
            before.outbox.len() <= i < stored.outbox.len() ==> !((#[trigger] stored.outbox[i]) is Send),
        stored.players_by_seat == before.players_by_seat,
        stored.runtime_mode == before.runtime_mode,
    ensures
        everybody_is_told(before, stored.sent_to_all(frame), news),
{
    let after = stored.sent_to_all(frame);
    assert(after == stored.sent_by_seat(Seat::East, frame, frame)) by {
        reveal(RoomStateModel::sent_to_all);
        reveal(RoomStateModel::sent_by_seat);
    }
    lemma_sent_by_seat(stored, Seat::East, frame, frame);
    assert(before.outbox.is_prefix_of(after.outbox)) by {
        assert(after.outbox.subrange(0, before.outbox.len() as int) =~= before.outbox);
    }
    assert forall|i: int|
        before.outbox.len() <= i < after.outbox.len() && (
        #[trigger] after.outbox[i]) is Send implies news(after.outbox[i]->Send_1) by {
        if i < stored.outbox.len() {
            assert(after.outbox[i] == stored.outbox[i]);
        } else {
            assert(goes_to_somebody(stored, Seat::East, frame, frame, after.outbox[i]));
        }
    }
    if before.runtime_mode is Production {
        assert forall|recipient: Seat| (
        #[trigger] before.reachable(recipient)) is Some implies is_told(
            before,
            after,
            recipient,
            news,
        ) by {
            assert(stored.reachable(recipient) == before.reachable(recipient));
            let i = choose|i: int|
                stored.outbox.len() <= i < after.outbox.len() && goes_to(
                    stored,
                    recipient,
                    Seat::East,
                    frame,
                    frame,
                    #[trigger] after.outbox[i],
                );
            assert(carries_to(after.outbox[i], before.reachable(recipient), news));
        }
    }
}

// ---------------------------------------------------------------------------
// Actions
// ---------------------------------------------------------------------------

/// Whether a frame tells of an action at a table: who did what, under which number, and where the
/// hand stands then.
pub open spec fn tells_action(
    room: RoomStateModel,
    frame: ServerFrameModel,
    event_seq: u64,
    actor: Seat,
    kind: ActionKind,
) -> bool {
    frame.event_seq == event_seq && (match frame.payload {
        Some(ServerPayloadModel::ActionBroadcast(action)) => {
            &&& action.room_id == room.room_id
            &&& action.match_id == room.match_id
            &&& action.round_id == "hand-"@ + decimal(room.hand_number as nat)
            &&& action.event_seq == event_seq
            &&& Seat::decode(action.actor_seat) == Some(actor)
            &&& ActionKind::decode(action.action_kind) == Some(kind)
            &&& GamePhase::decode(action.resulting_phase) == Some(room.phase)
            &&& action.wall_tiles_remaining == room.wall_tiles_remaining
        },
        _ => false,
    })
}

/// The action that a frame tells of.
pub open spec fn action_in(frame: ServerFrameModel) -> ActionBroadcastModel {
    frame.payload->0->ActionBroadcast_0
}

pub proof fn lemma_action_told(
    room: RoomStateModel,
    event_seq: u64,
    actor: Seat,
    kind: ActionKind,
    detail: ActionDetailModel,
    effects: Seq<ResultingEffectModel>,
    next: Seat,
    deadline: u64,
)
    ensures
        tells_action(
            room,
            room.action_frame(event_seq, actor, kind, detail, effects, next, deadline),
            event_seq,
            actor,
            kind,
        ),
{
    law_seat_codes(actor, actor.code());
    crate::proto::client::law_action_kind_codes(kind, kind.code());
    crate::proto::client::law_game_phase_codes(room.phase, room.phase.code());
}

/// Whether a frame tells of a discard: the tile, and that it lies as the latest of the seat's
/// discards.
pub open spec fn tells_discard(room: RoomStateModel, seat: Seat, event_seq: u64, tile: Tile) -> spec_fn(
    ServerFrameModel,
) -> bool {
    |frame: ServerFrameModel|
        {
            let hand = room.player_round_state.at(seat)->0;
            &&& tells_action(room, frame, event_seq, seat, ActionKind::Discard)
            &&& action_in(frame).action_detail matches Some(ActionDetailModel::Discard(detail))
                && detail.tile == tile.code() && detail.tsumogiri
                == hand.discards.last().drawn_and_discarded
            &&& action_in(frame).resulting_effects.len() == 1
            &&& action_in(frame).resulting_effects[0] matches ResultingEffectModel::DiscardAdded(
                added,
            ) && added.seat == seat.code() && added.discard == Some(hand.discards.last())
            &&& action_in(frame).next_turn_seat == room.current_turn_seat.code()
        }
}

/// Everybody at the table is told of a discard, and which tile it is.
pub proof fn law_discards_are_told(room: RoomStateModel, seat: Seat, event_seq: u64, tile: Tile)
    requires
        room.player_round_state.at(seat) matches Some(hand) && hand.discards.len() > 0,
    ensures
        everybody_is_told(
            room,
            room.discard_announced(seat, event_seq, tile),
            tells_discard(room, seat, event_seq, tile),
        ),
{
    let hand = room.player_round_state.at(seat)->0;
    let detail = ActionDetailModel::Discard(
        crate::proto::client::DiscardAction {
            tile: tile.code(),
            tsumogiri: hand.discards.last().drawn_and_discarded,
        },
    );
    let effects = seq![
        ResultingEffectModel::DiscardAdded(
            crate::proto::client::DiscardAdded {
                seat: seat.code(),
                discard: Some(hand.discards.last()),
            },
        ),
    ];
    let frame = room.action_frame(
        event_seq,
        seat,
        ActionKind::Discard,
        detail,
        effects,
        room.current_turn_seat,
        0,
    );
    lemma_action_told(
        room,
        event_seq,
        seat,
        ActionKind::Discard,
        detail,
        effects,
        room.current_turn_seat,
        0,
    );
    let after = room.discard_announced(seat, event_seq, tile);
    let stored = room.stored(
        "action_broadcast"@,
        event_seq,
        Some(seat),
        crate::json::JsonModel::Object(
            room.action_members(event_seq, seat, "ACTION_KIND_DISCARD"@)
                .push(("tile"@, crate::json::json_text(tile.name())))
                .push(("tsumogiri"@, crate::json::JsonModel::Bool(hand.discards.last().drawn_and_discarded)))
                .push((
                    "wall_tiles_remaining"@,
                    crate::json::JsonModel::Unsigned(room.wall_tiles_remaining as u64),
                )),
        ),
    );
    assert(after == stored.sent_to_all(frame));
    lemma_told(room, stored, frame, tells_discard(room, seat, event_seq, tile));
}

/// Whether a frame tells of a meld that was laid down, or of a fourth tile that was added to one.
pub open spec fn tells_meld(room: RoomStateModel, seat: Seat, event_seq: u64, kind: ActionKind, meld: MeldModel) -> spec_fn(
    ServerFrameModel,
) -> bool {
    |frame: ServerFrameModel|
        {
            &&& tells_action(room, frame, event_seq, seat, kind)
            &&& action_in(frame).resulting_effects.len() == 1
            &&& action_in(frame).resulting_effects[0] matches ResultingEffectModel::MeldAdded(
                added,
            ) && added.seat == seat.code() && added.meld == Some(meld)
        }
}

/// Everybody at the table is told of a claim that won its window, by the action that it amounts to,
/// and of the meld that it lays down.
pub proof fn law_claims_are_told(
    room: RoomStateModel,
    seat: Seat,
    event_seq: u64,
    kind: ClaimKind,
    target: Tile,
    source_seat: Seat,
    consume: Seq<Tile>,
    meld: MeldModel,
)
    requires
        kind == ClaimKind::Chi || kind == ClaimKind::Peng || kind == ClaimKind::ExposedKong,
    ensures
        everybody_is_told(
            room,
            room.claim_announced(seat, event_seq, kind, target, source_seat, consume, meld),
            tells_meld(
                room,
                seat,
                event_seq,
                if kind == ClaimKind::Chi {
                    ActionKind::Chi
                } else if kind == ClaimKind::Peng {
                    ActionKind::Peng
                } else {
                    ActionKind::ExposedKong
                },
                meld,
            ),
        ),
{
    let action = crate::room::convert::claim_action(kind);
    let detail = ActionDetailModel::Claim(
        crate::proto::client::ResolvedClaimModel {
            claim_kind: kind.code(),
            target_tile: target.code(),
            consume_tiles: crate::tiles::tile_codes(consume),
            source_seat: source_seat.code(),
            resulting_meld: Some(meld),
        },
    );
    let effects = seq![
        ResultingEffectModel::MeldAdded(
            crate::proto::client::MeldAddedModel { seat: seat.code(), meld: Some(meld) },
        ),
    ];
    lemma_action_told(
        room,
        event_seq,
        seat,
        action,
        detail,
        effects,
        room.current_turn_seat,
        0,
    );
    let frame = room.action_frame(
        event_seq,
        seat,
        action,
        detail,
        effects,
        room.current_turn_seat,
        0,
    );
    let stored = room.stored(
        "action_broadcast"@,
        event_seq,
        Some(seat),
        crate::json::JsonModel::Object(
            room.action_members(event_seq, seat, action.name())
                .push(("target_tile"@, crate::json::json_text(target.name())))
                .push(("source_seat"@, crate::json::json_text(source_seat.name())))
                .push(("consume_tiles"@, crate::room::payloads::tile_list(consume)))
                .push(("resulting_meld"@, crate::room::payloads::meld_payload(meld))),
        ),
    );
    let after = room.claim_announced(seat, event_seq, kind, target, source_seat, consume, meld);
    assert(after == stored.sent_to_all(frame));
    lemma_told(room, stored, frame, tells_meld(room, seat, event_seq, action, meld));
}

// ---------------------------------------------------------------------------
// Settlements
// ---------------------------------------------------------------------------

/// Whether a revealed hand shows the hand of a seat: every tile of it, sorted, its melds and flowers,
/// and whether it won.
pub open spec fn reveals(
    room: RoomStateModel,
    revealed: RevealedHandModel,
    seat: Seat,
    winner: Option<Seat>,
) -> bool {
    &&& Seat::decode(revealed.seat) == Some(seat)
    &&& revealed.winner <==> winner == Some(seat)
    &&& match room.player_round_state.at(seat) {
        Some(hand) => {
            &&& revealed.melds == hand.melds
            &&& stand_for(revealed.flowers, hand.flowers)
            &&& exists|tiles: Seq<Tile>| #[trigger]
                stand_for(revealed.concealed_tiles, tiles) && tiles.to_multiset()
                    == crate::room::requests::private_multiset(hand)
        },
        None => false,
    }
}

proof fn lemma_stand_for(tiles: Seq<Tile>)
    ensures
        stand_for(crate::tiles::tile_codes(tiles), tiles),
{
    assert forall|i: int| 0 <= i < tiles.len() implies Tile::decode(
        #[trigger] crate::tiles::tile_codes(tiles)[i],
    ) == Some(tiles[i]) by {
        law_tile_codes(tiles[i], tiles[i].code());
    }
}

proof fn lemma_reveals(room: RoomStateModel, seat: Seat, winner: Option<Seat>)
    ensures
        match room.player_round_state.at(seat) {
            Some(_) => room.revealed_at(seat, winner).len() == 1 && reveals(
                room,
                room.revealed_at(seat, winner)[0],
                seat,
                winner,
            ),
            None => room.revealed_at(seat, winner).len() == 0,
        },
{
    broadcast use vstd::seq_lib::group_to_multiset_ensures;
    if let Some(hand) = room.player_round_state.at(seat) {
        law_seat_codes(seat, seat.code());
        lemma_stand_for(hand.flowers);
        let tiles = crate::room::hand::private_tiles(hand);
        lemma_stand_for(tiles);
        let all = match hand.drawn_tile {
            Some(tile) => hand.concealed_tiles.push(tile),
            None => hand.concealed_tiles,
        };
        crate::tiles::lemma_sorted_tiles_keeps_tiles(all);
        assert(tiles.to_multiset() =~= crate::room::requests::private_multiset(hand));
        assert(stand_for(room.revealed_at(seat, winner)[0].concealed_tiles, tiles));
    }
}

/// Whether a frame tells how a hand ended: who won it, with which tile and how, who is to pay for the
/// tile, and what everybody had.
pub open spec fn tells_settlement(room: RoomStateModel, event_seq: u64, result: HandResultModel) -> spec_fn(
    ServerFrameModel,
) -> bool {
    |frame: ServerFrameModel|
        frame.event_seq == event_seq && (match frame.payload {
            Some(ServerPayloadModel::RoundSettlement(told)) => {
                &&& told.room_id == room.room_id && told.match_id == room.match_id
                &&& told.round_id == "hand-"@ + decimal(room.hand_number as nat)
                &&& told.hand_number == room.hand_number
                &&& Seat::decode(told.prevailing_wind) == Some(room.prevailing_wind)
                &&& Seat::decode(told.dealer_seat) == Some(room.dealer_seat)
                &&& WinType::decode(told.win_type) == Some(result.win_type)
                &&& Tile::decode(told.winning_tile) == Some(result.winning_tile)
                &&& Seat::decode(told.winner_seat) == Some(
                    match result.winner_seat {
                        Some(seat) => seat,
                        None => Seat::Unspecified,
                    },
                )
                &&& Seat::decode(told.discarder_seat) == Some(
                    match result.discarder_seat {
                        Some(seat) => seat,
                        None => Seat::Unspecified,
                    },
                )
                &&& told.player_results == result.player_results
                &&& told.fan_details == result.fan_details
                &&& told.wall_tiles_remaining == room.wall_tiles_remaining
                &&& all_are_revealed(room, told.revealed_hands, result.winner_seat)
            },
            _ => false,
        })
}

/// Whether the hand of a seat is among those revealed.
pub open spec fn is_revealed(
    room: RoomStateModel,
    revealed: Seq<RevealedHandModel>,
    seat: Seat,
    winner: Option<Seat>,
) -> bool {
    exists|i: int| 0 <= i < revealed.len() && reveals(room, #[trigger] revealed[i], seat, winner)
}

/// Whether the hand of every seat that takes part is among those revealed.
pub open spec fn all_are_revealed(
    room: RoomStateModel,
    revealed: Seq<RevealedHandModel>,
    winner: Option<Seat>,
) -> bool {
    forall|seat: Seat|
        seat != Seat::Unspecified && (#[trigger] room.player_round_state.at(seat)) is Some
            ==> is_revealed(room, revealed, seat, winner)
}

/// Everybody at the table is told how a hand ended.
pub proof fn law_settlements_are_told(room: RoomStateModel, result: HandResultModel)
    ensures
        everybody_is_told(
            room,
            room.settlement_announced(result),
            tells_settlement(room, room.next_event_seq, result),
        ),
{
    let event_seq = room.next_event_seq;
    let numbered = room.numbered();
    let stored = numbered.stored(
        "round_settlement"@,
        event_seq,
        result.winner_seat,
        numbered.settlement_payload(event_seq, result),
    );
    let frame = numbered.settlement_frame(event_seq, result);
    law_seat_codes(room.prevailing_wind, room.prevailing_wind.code());
    law_seat_codes(room.dealer_seat, room.dealer_seat.code());
    law_seat_codes(Seat::Unspecified, Seat::Unspecified.code());
    if let Some(seat) = result.winner_seat {
        law_seat_codes(seat, seat.code());
    }
    if let Some(seat) = result.discarder_seat {
        law_seat_codes(seat, seat.code());
    }
    crate::proto::client::law_win_type_codes(result.win_type, result.win_type.code());
    law_tile_codes(result.winning_tile, result.winning_tile.code());
    let winner = result.winner_seat;
    lemma_reveals(room, Seat::East, winner);
    lemma_reveals(room, Seat::South, winner);
    lemma_reveals(room, Seat::West, winner);
    lemma_reveals(room, Seat::North, winner);
    let east = room.revealed_at(Seat::East, winner);
    let south = room.revealed_at(Seat::South, winner);
    let west = room.revealed_at(Seat::West, winner);
    let north = room.revealed_at(Seat::North, winner);
    let revealed = numbered.revealed(winner);
    assert(revealed =~= east + south + west + north);
    assert forall|seat: Seat|
        seat != Seat::Unspecified && (
        #[trigger] room.player_round_state.at(seat)) is Some implies is_revealed(
        room,
        revealed,
        seat,
        winner,
    ) by {
        let place = if seat == Seat::East {
            0int
        } else if seat == Seat::South {
            east.len() as int
        } else if seat == Seat::West {
            (east.len() + south.len()) as int
        } else {
            (east.len() + south.len() + west.len()) as int
        };
        assert(reveals(room, revealed[place], seat, winner));
    }
    let news = tells_settlement(room, event_seq, result);
    assert(news(frame));
    lemma_told(room, stored, frame, news);
}

/// The results that are told of a won hand are those of the rule engine: one for each score change of
/// a seat, in order, with the change and the score after it, and the scoring elements as they are.
pub proof fn law_results_are_the_engines(
    winner_seat: Seat,
    discarder_seat: Option<Seat>,
    win_type: WinType,
    winning_tile: Tile,
    response: engine::CalculateScoreResponseModel,
    place: int,
)
    requires
        forall|i: int|
            0 <= i < response.score_delta_by_seat.len() ==> engine::Seat::decode(
                (#[trigger] response.score_delta_by_seat[i]).seat,
            ) is Some,
    ensures
        ({
            let result = crate::room::settlement::scored_result(
                winner_seat,
                discarder_seat,
                win_type,
                winning_tile,
                response,
            );
            let deltas = response.score_delta_by_seat;
            &&& result.winner_seat == Some(winner_seat)
            &&& result.discarder_seat == discarder_seat
            &&& result.player_results.len() == deltas.len()
            &&& 0 <= place < deltas.len() ==> {
                let told = result.player_results[place];
                &&& Seat::decode(told.seat) matches Some(seat) && is_for(deltas[place], seat)
                &&& told.round_delta == deltas[place].delta
                &&& told.total_score_after == deltas[place].final_total
            }
            &&& result.fan_details.len() == response.fan_details.len()
            &&& 0 <= place < response.fan_details.len() ==> {
                let told = result.fan_details[place];
                let fan = response.fan_details[place];
                &&& told.fan_code == fan.fan_code && told.fan_name == fan.fan_name
                    && told.fan_value == fan.fan_value && told.count == fan.count
                    && told.description == fan.description
            }
        }),
{
    lemma_results(response.score_delta_by_seat, place);
}

proof fn lemma_results(deltas: Seq<engine::SeatScoreDelta>, place: int)
    requires
        forall|i: int|
            0 <= i < deltas.len() ==> engine::Seat::decode((#[trigger] deltas[i]).seat) is Some,
    ensures
        crate::room::settlement::round_results(deltas).len() == deltas.len(),
        0 <= place < deltas.len() ==> is_result(
            crate::room::settlement::round_results(deltas)[place],
            deltas[place],
        ),
    decreases deltas.len(),
{
    if deltas.len() > 0 {
        let fewer = deltas.drop_last();
        let last = deltas.last();
        assert forall|i: int| 0 <= i < fewer.len() implies engine::Seat::decode(
            (#[trigger] fewer[i]).seat,
        ) is Some by {
            assert(engine::Seat::decode(deltas[i].seat) is Some);
        }
        lemma_results(fewer, place);
        assert(engine::Seat::decode(deltas[deltas.len() - 1].seat) is Some);
        let seat = crate::room::convert::client_seat_of(last.seat)->0;
        law_seat_codes(seat, seat.code());
        engine::law_seat_codes(engine::Seat::decode(last.seat)->0, last.seat);
        assert(is_for(last, seat));
    }
}

/// Whether what is told of a score change is what it is.
pub open spec fn is_result(told: RoundPlayerResult, delta: engine::SeatScoreDelta) -> bool {
    &&& Seat::decode(told.seat) matches Some(seat) && is_for(delta, seat)
    &&& told.round_delta == delta.delta
    &&& told.total_score_after == delta.final_total
}

/// Whether a frame tells that a win was declared: by whom, on which tile and how.
pub open spec fn tells_win(win: PendingWin) -> spec_fn(ServerFrameModel) -> bool {
    |frame: ServerFrameModel|
        frame.event_seq == win.terminal_action.event_seq && (match frame.payload {
            Some(ServerPayloadModel::ActionBroadcast(action)) => {
                &&& Seat::decode(action.actor_seat) == Some(win.winner_seat)
                &&& ActionKind::decode(action.action_kind) == Some(ActionKind::DeclareWin)
                &&& match action.action_detail {
                    Some(ActionDetailModel::DeclareWin(detail)) => {
                        &&& WinType::decode(detail.win_type) == Some(win.win_type)
                        &&& Tile::decode(detail.winning_tile) == Some(win.winning_tile)
                        &&& Seat::decode(detail.source_seat) == Some(
                            match win.discarder_seat {
                                Some(seat) => seat,
                                None => win.winner_seat,
                            },
                        )
                        &&& detail.source_event_seq == win.source_event_seq
                    },
                    _ => false,
                }
            },
            _ => false,
        })
}

/// Whether a frame tells how a won hand was scored: who won it and on whose tile, and every score
/// change as the rule engine decided on it.
pub open spec fn tells_score(win: PendingWin, response: engine::CalculateScoreResponseModel) -> spec_fn(
    ServerFrameModel,
) -> bool {
    |frame: ServerFrameModel|
        match frame.payload {
            Some(ServerPayloadModel::RoundSettlement(told)) => {
                &&& Seat::decode(told.winner_seat) == Some(win.winner_seat)
                &&& Seat::decode(told.discarder_seat) == Some(
                    match win.discarder_seat {
                        Some(seat) => seat,
                        None => Seat::Unspecified,
                    },
                )
                &&& WinType::decode(told.win_type) == Some(win.win_type)
                &&& Tile::decode(told.winning_tile) == Some(win.winning_tile)
                &&& are_results(told.player_results, response.score_delta_by_seat)
            },
            _ => false,
        }
}

/// Whether what is told of some score changes is what they are, one for one.
pub open spec fn are_results(told: Seq<RoundPlayerResult>, deltas: Seq<engine::SeatScoreDelta>) -> bool {
    &&& told.len() == deltas.len()
    &&& forall|i: int| 0 <= i < deltas.len() ==> is_result(#[trigger] told[i], deltas[i])
}

/// After a win that the rule engine has scored, everybody at the table who can be reached is told of
/// the win and of the scores, and the next hand is scheduled.
pub proof fn law_won_hands_are_told(
    room: RoomStateModel,
    win: PendingWin,
    response: engine::CalculateScoreResponseModel,
    recipient: Seat,
)
    requires
        room.runtime_mode is Production,
        room.reachable(recipient) is Some,
        forall|i: int|
            0 <= i < response.score_delta_by_seat.len() ==> engine::Seat::decode(
                (#[trigger] response.score_delta_by_seat[i]).seat,
            ) is Some,
    ensures
        ({
            let after = room.win_settled(win, response);
            &&& is_told(room, after, recipient, tells_win(win))
            &&& is_told(room, after, recipient, tells_score(win, response))
            &&& after.outbox.last() matches RoomOutputModel::SchedulePostRound(hand_number, _)
                && hand_number == room.hand_number
        }),
{
    let taken = match win.discarder_seat {
        Some(discarder) => room.with_discard_claimed(discarder, win.source_event_seq),
        None => room,
    };
    let ended = taken.without_window().in_phase(GamePhase::RoundSettlement).with_last_action(
        win.terminal_action,
    );
    let deltas = response.score_delta_by_seat;
    lemma_scored_keeps(ended, deltas);
    crate::room::payoff::lemma_scored(ended, deltas, recipient);
    let scored = ended.scored(deltas).with_outcome(
        Some(win.winner_seat),
        win.discarder_seat is None,
    );
    assert(scored.reachable(recipient) == room.reachable(recipient));
    assert(scored.outbox == room.outbox);
    let won = scored.win_announced(
        win.winner_seat,
        win.terminal_action.event_seq,
        win.win_type,
        win.winning_tile,
        win.discarder_seat,
        win.source_event_seq,
    );
    lemma_win_told(scored, win);
    let result = crate::room::settlement::scored_result(
        win.winner_seat,
        win.discarder_seat,
        win.win_type,
        win.winning_tile,
        response,
    );
    let settled = won.settlement_announced(result);
    law_settlements_are_told(won, result);
    let after = settled.with_transition_scheduled();
    assert(won.reachable(recipient) == room.reachable(recipient));
    assert(is_told(scored, won, recipient, tells_win(win)));
    let news = tells_settlement(won, won.next_event_seq, result);
    assert(is_told(won, settled, recipient, news));
    assert forall|frame: ServerFrameModel| #[trigger] news(frame) implies tells_score(
        win,
        response,
    )(frame) by {
        assert forall|i: int| 0 <= i < deltas.len() implies is_result(
            #[trigger] result.player_results[i],
            deltas[i],
        ) by {
            lemma_results(deltas, i);
        }
        lemma_results(deltas, 0);
    }
    lemma_told_later(room, scored, won, after, recipient, tells_win(win), tells_win(win));
    lemma_told_later(room, won, settled, after, recipient, news, tells_score(win, response));
}

/// What somebody was told in the course of a step they were told in the whole of it.
proof fn lemma_told_later(
    first: RoomStateModel,
    before: RoomStateModel,
    after: RoomStateModel,
    last: RoomStateModel,
    recipient: Seat,
    news: spec_fn(ServerFrameModel) -> bool,
    less: spec_fn(ServerFrameModel) -> bool,
)
    requires
        is_told(before, after, recipient, news),
        first.outbox.len() <= before.outbox.len(),
        after.outbox.is_prefix_of(last.outbox),
        first.reachable(recipient) == before.reachable(recipient),
        forall|frame: ServerFrameModel| #[trigger] news(frame) ==> less(frame),
    ensures
        is_told(first, last, recipient, less),
{
    let i = choose|i: int|
        before.outbox.len() <= i < after.outbox.len() && carries_to(
            #[trigger] after.outbox[i],
            before.reachable(recipient),
            news,
        );
    assert(last.outbox[i] == after.outbox[i]);
    assert(carries_to(last.outbox[i], first.reachable(recipient), less));
}

proof fn lemma_win_told(room: RoomStateModel, win: PendingWin)
    ensures
        everybody_is_told(
            room,
            room.win_announced(
                win.winner_seat,
                win.terminal_action.event_seq,
                win.win_type,
                win.winning_tile,
                win.discarder_seat,
                win.source_event_seq,
            ),
            tells_win(win),
        ),
{
    let event_seq = win.terminal_action.event_seq;
    let source = match win.discarder_seat {
        Some(discarder) => discarder,
        None => win.winner_seat,
    };
    law_seat_codes(source, source.code());
    law_tile_codes(win.winning_tile, win.winning_tile.code());
    crate::proto::client::law_win_type_codes(win.win_type, win.win_type.code());
    let detail = ActionDetailModel::DeclareWin(
        crate::proto::client::DeclareWinAction {
            win_type: win.win_type.code(),
            winning_tile: win.winning_tile.code(),
            source_seat: source.code(),
            source_event_seq: win.source_event_seq,
        },
    );
    lemma_action_told(
        room,
        event_seq,
        win.winner_seat,
        ActionKind::DeclareWin,
        detail,
        Seq::empty(),
        win.winner_seat,
        0,
    );
    let frame = room.action_frame(
        event_seq,
        win.winner_seat,
        ActionKind::DeclareWin,
        detail,
        Seq::empty(),
        win.winner_seat,
        0,
    );
    let stored = room.stored(
        "action_broadcast"@,
        event_seq,
        Some(win.winner_seat),
        crate::json::JsonModel::Object(
            room.action_members(event_seq, win.winner_seat, "ACTION_KIND_DECLARE_WIN"@)
                .push(("win_type"@, crate::json::json_text(win.win_type.name())))
                .push(("winning_tile"@, crate::json::json_text(win.winning_tile.name())))
                .push(("discarder_seat"@, crate::room::payloads::opt_seat(win.discarder_seat)))
                .push(("source_event_seq"@, crate::json::JsonModel::Unsigned(win.source_event_seq))),
        ),
    );
    lemma_told(room, stored, frame, tells_win(win));
}

/// When a match is over everybody at the table is told the final table.
pub proof fn law_final_tables_are_told(
    room: RoomStateModel,
    summary: crate::room::state::MatchSettlementSummaryModel,
)
    ensures
        everybody_is_told(
            room,
            room.match_announced(summary),
            |frame: ServerFrameModel|
                match frame.payload {
                    Some(ServerPayloadModel::MatchSettlement(told)) => told.standings
                        == summary.standings && told.room_id == room.room_id && told.match_id
                        == room.match_id && told.finished_at_unix_ms == summary.finished_at_unix_ms,
                    _ => false,
                },
        ),
{
    let news = |frame: ServerFrameModel|
        match frame.payload {
            Some(ServerPayloadModel::MatchSettlement(told)) => told.standings == summary.standings
                && told.room_id == room.room_id && told.match_id == room.match_id
                && told.finished_at_unix_ms == summary.finished_at_unix_ms,
            _ => false,
        };
    let stored = room.stored(
        "match_settlement"@,
        summary.event_seq,
        None,
        room.match_payload(summary),
    );
    lemma_told(
        room,
        stored,
        crate::room::match_flow::match_settlement_frame(room.room_id, room.match_id, summary),
        news,
    );
}

} // verus!
