//! What players are told in detail: draws, claims, kongs, wins and lost connections.

use vstd::prelude::*;

use crate::collections::group_seat_map;
use crate::json::{json_text, JsonModel};
use crate::proto::client::{
    law_claim_kind_codes, law_player_status_codes, law_seat_codes, law_tile_codes,
    law_win_type_codes, ActionDetailModel, ActionKind, ClaimKind, DeclareWinAction, DrawDetail,
    MeldAddedModel, MeldModel, PlayerStatus, ResolvedClaimModel, ResultingEffectModel, Seat,
    ServerFrameModel, ServerPayloadModel, SupplementalKongAction, Tile, TurnAdvanced, WinType,
};
use crate::room::basics::group_announcing_keeps;
use crate::room::convert::claim_action;
use crate::room::frames::connection_changed_frame;
use crate::room::news::{action_in, everybody_is_told, lemma_action_told, lemma_told, tells_action};
use crate::room::payloads::{meld_payload, opt_seat, tile_list};
use crate::room::state::RoomStateModel;
use crate::room::views::stand_for;
use crate::tiles::tile_codes;

verus! {

broadcast use {group_announcing_keeps, group_seat_map};

/// A draw is told with the tile to whom it may be shown, and without it to everybody else. It is then
/// the turn of the seat that drew.
pub proof fn law_draws_are_told(
    room: RoomStateModel,
    seat: Seat,
    event_seq: u64,
    tile: Tile,
    shown: bool,
    replacement_draw: bool,
)
    ensures
        ({
            let frame = room.draw_frame(seat, event_seq, tile, shown, replacement_draw);
            let action = action_in(frame);
            &&& tells_action(room, frame, event_seq, seat, ActionKind::Draw)
            &&& action.action_detail matches Some(ActionDetailModel::Draw(detail))
                && detail.visible_to_recipient == shown && detail.replacement_draw
                == replacement_draw && Tile::decode(detail.tile) == Some(
                if shown {
                    tile
                } else {
                    Tile::Unspecified
                },
            )
            &&& Seat::decode(action.next_turn_seat) == Some(seat)
            &&& action.resulting_effects.len() == 1
            &&& action.resulting_effects[0] matches ResultingEffectModel::TurnAdvanced(turn)
                && Seat::decode(turn.next_turn_seat) == Some(seat)
            &&& action.action_deadline_unix_ms == match room.window() {
                Some(window) => window.deadline_unix_ms,
                None => 0,
            }
        }),
{
    law_seat_codes(seat, seat.code());
    law_tile_codes(tile, tile.code());
    law_tile_codes(Tile::Unspecified, Tile::Unspecified.code());
    let detail = ActionDetailModel::Draw(
        DrawDetail {
            tile: if shown {
                tile.code()
            } else {
                Tile::Unspecified.code()
            },
            visible_to_recipient: shown,
            replacement_draw,
        },
    );
    let effects = seq![
        ResultingEffectModel::TurnAdvanced(
            TurnAdvanced { next_turn_seat: seat.code(), resulting_phase: room.phase.code() },
        ),
    ];
    let deadline = match room.window() {
        Some(window) => window.deadline_unix_ms,
        None => 0,
    };
    lemma_action_told(room, event_seq, seat, ActionKind::Draw, detail, effects, seat, deadline);
}

/// Whether a frame tells of a claim: its kind, the claimed tile and whose it was, and the tiles that
/// were put to it.
pub open spec fn tells_claim(
    room: RoomStateModel,
    kind: ClaimKind,
    target: Tile,
    source_seat: Seat,
    consume: Seq<Tile>,
    meld: MeldModel,
) -> spec_fn(ServerFrameModel) -> bool {
    |frame: ServerFrameModel|
        {
            &&& action_in(frame).action_detail matches Some(ActionDetailModel::Claim(claim))
                && ClaimKind::decode(claim.claim_kind) == Some(kind) && Tile::decode(
                claim.target_tile,
            ) == Some(target) && Seat::decode(claim.source_seat) == Some(source_seat) && stand_for(
                claim.consume_tiles,
                consume,
            ) && claim.resulting_meld == Some(meld)
            &&& Seat::decode(action_in(frame).next_turn_seat) == Some(room.current_turn_seat)
        }
}

/// Everybody at the table is told what was claimed, from whom, and with which tiles.
pub proof fn law_claims_are_told_in_detail(
    room: RoomStateModel,
    seat: Seat,
    event_seq: u64,
    kind: ClaimKind,
    target: Tile,
    source_seat: Seat,
    consume: Seq<Tile>,
    meld: MeldModel,
)
    ensures
        everybody_is_told(
            room,
            room.claim_announced(seat, event_seq, kind, target, source_seat, consume, meld),
            tells_claim(room, kind, target, source_seat, consume, meld),
        ),
{
    law_claim_kind_codes(kind, kind.code());
    law_tile_codes(target, target.code());
    law_seat_codes(source_seat, source_seat.code());
    law_seat_codes(room.current_turn_seat, room.current_turn_seat.code());
    assert forall|i: int| 0 <= i < consume.len() implies Tile::decode(
        #[trigger] tile_codes(consume)[i],
    ) == Some(consume[i]) by {
        law_tile_codes(consume[i], consume[i].code());
    }
    let frame = room.action_frame(
        event_seq,
        seat,
        claim_action(kind),
        ActionDetailModel::Claim(
            ResolvedClaimModel {
                claim_kind: kind.code(),
                target_tile: target.code(),
                consume_tiles: tile_codes(consume),
                source_seat: source_seat.code(),
                resulting_meld: Some(meld),
            },
        ),
        seq![ResultingEffectModel::MeldAdded(MeldAddedModel { seat: seat.code(), meld: Some(meld) })],
        room.current_turn_seat,
        0,
    );
    let stored = room.stored(
        "action_broadcast"@,
        event_seq,
        Some(seat),
        JsonModel::Object(
            room.action_members(event_seq, seat, claim_action(kind).name())
                .push(("target_tile"@, json_text(target.name())))
                .push(("source_seat"@, json_text(source_seat.name())))
                .push(("consume_tiles"@, tile_list(consume)))
                .push(("resulting_meld"@, meld_payload(meld))),
        ),
    );
    let after = room.claim_announced(seat, event_seq, kind, target, source_seat, consume, meld);
    assert(after == stored.sent_to_all(frame));
    lemma_told(room, stored, frame, tells_claim(room, kind, target, source_seat, consume, meld));
}

/// Whether a frame tells of a supplemental kong: the added tile and the meld that it makes.
pub open spec fn tells_kong(room: RoomStateModel, seat: Seat, event_seq: u64, tile: Tile, meld: MeldModel) -> spec_fn(
    ServerFrameModel,
) -> bool {
    |frame: ServerFrameModel|
        {
            let action = action_in(frame);
            &&& tells_action(room, frame, event_seq, seat, ActionKind::SupplementalKong)
            &&& action.action_detail matches Some(ActionDetailModel::SupplementalKong(kong))
                && Tile::decode(kong.tile) == Some(tile)
            &&& action.resulting_effects.len() == 1
            &&& action.resulting_effects[0] matches ResultingEffectModel::MeldAdded(added)
                && Seat::decode(added.seat) == Some(seat) && added.meld == Some(meld)
            &&& Seat::decode(action.next_turn_seat) == Some(seat)
        }
}

/// Everybody at the table is told of a supplemental kong.
pub proof fn law_kongs_are_told(
    room: RoomStateModel,
    seat: Seat,
    event_seq: u64,
    tile: Tile,
    meld: MeldModel,
)
    ensures
        everybody_is_told(
            room,
            room.kong_announced(seat, event_seq, tile, meld),
            tells_kong(room, seat, event_seq, tile, meld),
        ),
{
    law_tile_codes(tile, tile.code());
    law_seat_codes(seat, seat.code());
    let detail = ActionDetailModel::SupplementalKong(SupplementalKongAction { tile: tile.code() });
    let effects = seq![
        ResultingEffectModel::MeldAdded(MeldAddedModel { seat: seat.code(), meld: Some(meld) }),
    ];
    let frame = room.action_frame(
        event_seq,
        seat,
        ActionKind::SupplementalKong,
        detail,
        effects,
        seat,
        0,
    );
    lemma_action_told(room, event_seq, seat, ActionKind::SupplementalKong, detail, effects, seat, 0);
    let stored = room.stored(
        "action_broadcast"@,
        event_seq,
        Some(seat),
        JsonModel::Object(
            room.action_members(event_seq, seat, "ACTION_KIND_SUPPLEMENTAL_KONG"@)
                .push(("tile"@, json_text(tile.name())))
                .push(("source_event_seq"@, JsonModel::Unsigned(event_seq)))
                .push(("resulting_meld"@, meld_payload(meld))),
        ),
    );
    assert(room.kong_announced(seat, event_seq, tile, meld) == stored.sent_to_all(frame));
    lemma_told(room, stored, frame, tells_kong(room, seat, event_seq, tile, meld));
}

/// Whether a frame tells of a win: how it was won, with which tile, and who gave it.
pub open spec fn tells_win(
    room: RoomStateModel,
    seat: Seat,
    event_seq: u64,
    win_type: WinType,
    tile: Tile,
    discarder_seat: Option<Seat>,
    source_event_seq: u64,
) -> spec_fn(ServerFrameModel) -> bool {
    |frame: ServerFrameModel|
        {
            let action = action_in(frame);
            &&& tells_action(room, frame, event_seq, seat, ActionKind::DeclareWin)
            &&& action.action_detail matches Some(ActionDetailModel::DeclareWin(win))
                && WinType::decode(win.win_type) == Some(win_type) && Tile::decode(win.winning_tile)
                == Some(tile) && win.source_event_seq == source_event_seq && Seat::decode(
                win.source_seat,
            ) == Some(
                match discarder_seat {
                    Some(discarder) => discarder,
                    None => seat,
                },
            )
        }
}

/// Everybody at the table is told of a win. A winner who drew the tile is named as the one who gave
/// it.
pub proof fn law_wins_are_told(
    room: RoomStateModel,
    seat: Seat,
    event_seq: u64,
    win_type: WinType,
    tile: Tile,
    discarder_seat: Option<Seat>,
    source_event_seq: u64,
)
    ensures
        everybody_is_told(
            room,
            room.win_announced(seat, event_seq, win_type, tile, discarder_seat, source_event_seq),
            tells_win(room, seat, event_seq, win_type, tile, discarder_seat, source_event_seq),
        ),
{
    let giver = match discarder_seat {
        Some(discarder) => discarder,
        None => seat,
    };
    law_tile_codes(tile, tile.code());
    law_win_type_codes(win_type, win_type.code());
    law_seat_codes(giver, giver.code());
    let detail = ActionDetailModel::DeclareWin(
        DeclareWinAction {
            win_type: win_type.code(),
            winning_tile: tile.code(),
            source_seat: giver.code(),
            source_event_seq,
        },
    );
    let frame = room.action_frame(
        event_seq,
        seat,
        ActionKind::DeclareWin,
        detail,
        Seq::empty(),
        seat,
        0,
    );
    lemma_action_told(
        room,
        event_seq,
        seat,
        ActionKind::DeclareWin,
        detail,
        Seq::empty(),
        seat,
        0,
    );
    let stored = room.stored(
        "action_broadcast"@,
        event_seq,
        Some(seat),
        JsonModel::Object(
            room.action_members(event_seq, seat, "ACTION_KIND_DECLARE_WIN"@)
                .push(("win_type"@, json_text(win_type.name())))
                .push(("winning_tile"@, json_text(tile.name())))
                .push(("discarder_seat"@, opt_seat(discarder_seat)))
                .push(("source_event_seq"@, JsonModel::Unsigned(source_event_seq))),
        ),
    );
    assert(room.win_announced(seat, event_seq, win_type, tile, discarder_seat, source_event_seq)
        == stored.sent_to_all(frame));
    lemma_told(
        room,
        stored,
        frame,
        tells_win(room, seat, event_seq, win_type, tile, discarder_seat, source_event_seq),
    );
}

/// Whether a frame tells that a player came or went, and until when a player who went may come back.
pub open spec fn tells_connection(room: RoomStateModel, seat: Seat, connected: bool, now_ms: u64) -> spec_fn(
    ServerFrameModel,
) -> bool {
    |frame: ServerFrameModel|
        {
            let player = room.players_by_seat.at(seat)->0;
            &&& frame.event_seq == room.next_event_seq
            &&& frame.payload matches Some(ServerPayloadModel::PlayerConnectionChanged(change))
                && change.room_id == room.room_id && change.match_id == room.match_id
                && change.user_id == player.user_id && Seat::decode(change.seat) == Some(seat)
                && PlayerStatus::decode(change.status) == Some(player.status) && change.connected
                == connected && change.reconnect_deadline_unix_ms == if connected {
                0
            } else {
                now_ms + 30_000
            }
        }
}

/// Everybody at the table is told when a player comes or goes.
pub proof fn law_comings_and_goings_are_told(
    room: RoomStateModel,
    seat: Seat,
    connected: bool,
    now_ms: u64,
)
    requires
        room.players_by_seat.at(seat) is Some,
        now_ms + 30_000 <= u64::MAX,
    ensures
        everybody_is_told(
            room,
            room.connection_announced(seat, connected, now_ms),
            tells_connection(room, seat, connected, now_ms),
        ),
{
    let player = room.players_by_seat.at(seat)->0;
    law_seat_codes(seat, seat.code());
    law_player_status_codes(player.status, player.status.code());
    let frame = connection_changed_frame(
        room.next_event_seq,
        room.room_id,
        room.match_id,
        player.user_id,
        seat,
        player.status,
        connected,
        now_ms,
    );
    lemma_told(room, room.numbered(), frame, tells_connection(room, seat, connected, now_ms));
}

} // verus!
