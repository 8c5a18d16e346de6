//! What the table is told of actions, and what is stored of them.

use vstd::prelude::*;

use crate::collections::{group_seat_map, lemma_views_empty, lemma_views_push, views};
use crate::json::{json_text, no_members, Json, JsonModel, JsonObject};
use crate::proto::client::{
    ActionBroadcast, ActionBroadcastModel, ActionDetail, ActionDetailModel, ActionKind, ClaimKind,
    DeclareWinAction, DiscardAction, DiscardAdded, DiscardTile, DrawDetail, Meld, MeldAdded,
    MeldAddedModel, MeldModel, ResolvedClaim, ResolvedClaimModel, ResultingEffect,
    ResultingEffectModel, Seat, ServerFrame, ServerFrameModel, ServerPayload, ServerPayloadModel,
    SupplementalKongAction, Tile, TurnAdvanced, WinType,
};
use crate::room::convert::{claim_action, map_claim_kind_to_client_action};
use crate::room::payloads::{
    claim_action_kind_label, meld_json, meld_payload, opt_seat, opt_seat_json, tile_list,
    tiles_json,
};
use crate::room::basics::{goes_to, goes_to_somebody, lemma_sent_by_seat};
use crate::room::state::{RoomOutputModel, RoomState, RoomStateModel};
use crate::tiles::{codes_of, tile_codes};

verus! {

broadcast use group_seat_map;

impl RoomStateModel {
    /// The frame that announces an action at the table.
    pub open spec fn action_frame(
        self,
        event_seq: u64,
        actor_seat: Seat,
        action_kind: ActionKind,
        detail: ActionDetailModel,
        resulting_effects: Seq<ResultingEffectModel>,
        next_turn_seat: Seat,
        action_deadline_unix_ms: u64,
    ) -> ServerFrameModel {
        ServerFrameModel {
            event_seq,
            payload: Some(
                ServerPayloadModel::ActionBroadcast(
                    ActionBroadcastModel {
                        room_id: self.room_id,
                        match_id: self.match_id,
                        round_id: self.current_round_id(),
                        event_seq,
                        actor_seat: actor_seat.code(),
                        action_kind: action_kind.code(),
                        action_detail: Some(detail),
                        resulting_effects,
                        resulting_phase: self.phase.code(),
                        next_turn_seat: next_turn_seat.code(),
                        wall_tiles_remaining: self.wall_tiles_remaining,
                        action_deadline_unix_ms,
                    },
                ),
            ),
        }
    }

    /// The members that every stored action starts with.
    pub open spec fn action_members(self, event_seq: u64, actor_seat: Seat, action_kind: Seq<char>) -> Seq<
        (Seq<char>, JsonModel),
    > {
        no_members()
            .push(("room_id"@, json_text(self.room_id)))
            .push(("match_id"@, json_text(self.match_id)))
            .push(("round_id"@, json_text(self.current_round_id())))
            .push(("event_seq"@, JsonModel::Unsigned(event_seq)))
            .push(("actor_seat"@, json_text(actor_seat.name())))
            .push(("action_kind"@, json_text(action_kind)))
    }

    /// The latest discard of a seat.
    pub open spec fn last_discard(self, seat: Seat) -> Option<DiscardTile> {
        match self.player_round_state.at(seat) {
            Some(hand) => if hand.discards.len() > 0 {
                Some(hand.discards.last())
            } else {
                None
            },
            None => None,
        }
    }

    /// A discard, stored and announced.
    pub open spec fn discard_announced(self, seat: Seat, event_seq: u64, tile: Tile) -> RoomStateModel {
        let tsumogiri = match self.last_discard(seat) {
            Some(discard) => discard.drawn_and_discarded,
            None => false,
        };
        self.stored(
            "action_broadcast"@,
            event_seq,
            Some(seat),
            JsonModel::Object(
                self.action_members(event_seq, seat, "ACTION_KIND_DISCARD"@)
                    .push(("tile"@, json_text(tile.name())))
                    .push(("tsumogiri"@, JsonModel::Bool(tsumogiri)))
                    .push(("wall_tiles_remaining"@, JsonModel::Unsigned(self.wall_tiles_remaining as u64))),
            ),
        ).sent_to_all(
            self.action_frame(
                event_seq,
                seat,
                ActionKind::Discard,
                ActionDetailModel::Discard(DiscardAction { tile: tile.code(), tsumogiri }),
                match self.last_discard(seat) {
                    Some(discard) => seq![
                        ResultingEffectModel::DiscardAdded(
                            DiscardAdded { seat: seat.code(), discard: Some(discard) },
                        ),
                    ],
                    None => Seq::empty(),
                },
                self.current_turn_seat,
                0,
            ),
        )
    }

    /// The stored payload of a draw.
    pub open spec fn draw_payload(
        self,
        seat: Seat,
        event_seq: u64,
        tile: Tile,
        replacement_draw: bool,
    ) -> JsonModel {
        JsonModel::Object(
            self.action_members(event_seq, seat, "ACTION_KIND_DRAW"@)
                .push(("draw_tile"@, json_text(tile.name())))
                .push(("replacement_draw"@, JsonModel::Bool(replacement_draw)))
                .push(("wall_tiles_remaining"@, JsonModel::Unsigned(self.wall_tiles_remaining as u64))),
        )
    }

    /// A draw, stored.
    pub open spec fn draw_stored(
        self,
        seat: Seat,
        event_seq: u64,
        tile: Tile,
        replacement_draw: bool,
    ) -> RoomStateModel {
        self.stored(
            "action_broadcast"@,
            event_seq,
            Some(seat),
            self.draw_payload(seat, event_seq, tile, replacement_draw),
        )
    }

    /// The frame that announces a draw, with the drawn tile or without it.
    pub open spec fn draw_frame(
        self,
        seat: Seat,
        event_seq: u64,
        tile: Tile,
        visible_to_recipient: bool,
        replacement_draw: bool,
    ) -> ServerFrameModel {
        self.action_frame(
            event_seq,
            seat,
            ActionKind::Draw,
            ActionDetailModel::Draw(
                DrawDetail {
                    tile: if visible_to_recipient {
                        tile.code()
                    } else {
                        Tile::Unspecified.code()
                    },
                    visible_to_recipient,
                    replacement_draw,
                },
            ),
            seq![
                ResultingEffectModel::TurnAdvanced(
                    TurnAdvanced {
                        next_turn_seat: seat.code(),
                        resulting_phase: self.phase.code(),
                    },
                ),
            ],
            seat,
            match self.window() {
                Some(window) => window.deadline_unix_ms,
                None => 0,
            },
        )
    }

    /// A draw, stored and announced. Only the seat that drew is shown the tile.
    pub open spec fn draw_announced(
        self,
        seat: Seat,
        event_seq: u64,
        tile: Tile,
        replacement_draw: bool,
    ) -> RoomStateModel {
        self.draw_stored(seat, event_seq, tile, replacement_draw).sent_by_seat(
            seat,
            self.draw_frame(seat, event_seq, tile, true, replacement_draw),
            self.draw_frame(seat, event_seq, tile, false, replacement_draw),
        )
    }

    /// A claim that won its window, stored and announced.
    pub open spec fn claim_announced(
        self,
        seat: Seat,
        event_seq: u64,
        claim_kind: ClaimKind,
        target_tile: Tile,
        source_seat: Seat,
        consume_tiles: Seq<Tile>,
        meld: MeldModel,
    ) -> RoomStateModel {
        self.stored(
            "action_broadcast"@,
            event_seq,
            Some(seat),
            JsonModel::Object(
                self.action_members(event_seq, seat, claim_action(claim_kind).name())
                    .push(("target_tile"@, json_text(target_tile.name())))
                    .push(("source_seat"@, json_text(source_seat.name())))
                    .push(("consume_tiles"@, tile_list(consume_tiles)))
                    .push(("resulting_meld"@, meld_payload(meld))),
            ),
        ).sent_to_all(
            self.action_frame(
                event_seq,
                seat,
                claim_action(claim_kind),
                ActionDetailModel::Claim(
                    ResolvedClaimModel {
                        claim_kind: claim_kind.code(),
                        target_tile: target_tile.code(),
                        consume_tiles: tile_codes(consume_tiles),
                        source_seat: source_seat.code(),
                        resulting_meld: Some(meld),
                    },
                ),
                seq![
                    ResultingEffectModel::MeldAdded(
                        MeldAddedModel { seat: seat.code(), meld: Some(meld) },
                    ),
                ],
                self.current_turn_seat,
                0,
            ),
        )
    }

    /// A supplemental kong, stored and announced.
    pub open spec fn kong_announced(
        self,
        seat: Seat,
        event_seq: u64,
        tile: Tile,
        meld: MeldModel,
    ) -> RoomStateModel {
        self.stored(
            "action_broadcast"@,
            event_seq,
            Some(seat),
            JsonModel::Object(
                self.action_members(event_seq, seat, "ACTION_KIND_SUPPLEMENTAL_KONG"@)
                    .push(("tile"@, json_text(tile.name())))
                    .push(("source_event_seq"@, JsonModel::Unsigned(event_seq)))
                    .push(("resulting_meld"@, meld_payload(meld))),
            ),
        ).sent_to_all(
            self.action_frame(
                event_seq,
                seat,
                ActionKind::SupplementalKong,
                ActionDetailModel::SupplementalKong(SupplementalKongAction { tile: tile.code() }),
                seq![
                    ResultingEffectModel::MeldAdded(
                        MeldAddedModel { seat: seat.code(), meld: Some(meld) },
                    ),
                ],
                seat,
                0,
            ),
        )
    }

    /// A win, stored and announced.
    pub open spec fn win_announced(
        self,
        seat: Seat,
        event_seq: u64,
        win_type: WinType,
        winning_tile: Tile,
        discarder_seat: Option<Seat>,
        source_event_seq: u64,
    ) -> RoomStateModel {
        self.stored(
            "action_broadcast"@,
            event_seq,
            Some(seat),
            JsonModel::Object(
                self.action_members(event_seq, seat, "ACTION_KIND_DECLARE_WIN"@)
                    .push(("win_type"@, json_text(win_type.name())))
                    .push(("winning_tile"@, json_text(winning_tile.name())))
                    .push(("discarder_seat"@, opt_seat(discarder_seat)))
                    .push(("source_event_seq"@, JsonModel::Unsigned(source_event_seq))),
            ),
        ).sent_to_all(
            self.action_frame(
                event_seq,
                seat,
                ActionKind::DeclareWin,
                ActionDetailModel::DeclareWin(
                    DeclareWinAction {
                        win_type: win_type.code(),
                        winning_tile: winning_tile.code(),
                        source_seat: (match discarder_seat {
                            Some(discarder) => discarder,
                            None => seat,
                        }).code(),
                        source_event_seq,
                    },
                ),
                Seq::empty(),
                seat,
                0,
            ),
        )
    }
}

impl RoomState {
    fn build_action_frame(
        &self,
        event_seq: u64,
        actor_seat: Seat,
        action_kind: ActionKind,
        detail: ActionDetail,
        resulting_effects: Vec<ResultingEffect>,
        next_turn_seat: Seat,
        action_deadline_unix_ms: u64,
    ) -> (r: ServerFrame)
        ensures
            r@ == self@.action_frame(
                event_seq,
                actor_seat,
                action_kind,
                detail@,
                views(resulting_effects@),
                next_turn_seat,
                action_deadline_unix_ms,
            ),
    {
        ServerFrame {
            event_seq,
            payload: Some(
                ServerPayload::ActionBroadcast(
                    ActionBroadcast {
                        room_id: self.room_id.clone(),
                        match_id: self.match_id.clone(),
                        round_id: self.round_id(),
                        event_seq,
                        actor_seat: actor_seat.as_i32(),
                        action_kind: action_kind.as_i32(),
                        action_detail: Some(detail),
                        resulting_effects,
                        resulting_phase: self.phase.as_i32(),
                        next_turn_seat: next_turn_seat.as_i32(),
                        wall_tiles_remaining: self.wall_tiles_remaining,
                        action_deadline_unix_ms,
                    },
                ),
            ),
        }
    }

    fn action_object(&self, event_seq: u64, actor_seat: Seat, action_kind: &str) -> (r: JsonObject)
        ensures
            r@ == self@.action_members(event_seq, actor_seat, action_kind@),
    {
        JsonObject::new()
            .with("room_id", Json::text(self.room_id.as_str()))
            .with("match_id", Json::text(self.match_id.as_str()))
            .with("round_id", Json::text(self.round_id().as_str()))
            .with("event_seq", Json::unsigned(event_seq))
            .with("actor_seat", Json::text(actor_seat.as_str_name()))
            .with("action_kind", Json::text(action_kind))
    }

    fn last_discard_of(&self, seat: Seat) -> (r: Option<DiscardTile>)
        ensures
            r == self@.last_discard(seat),
    {
        match self.player_round_state.get(seat) {
            Some(hand) => {
                let count: usize = hand.discards.len();
                if count > 0 {
                    Some(hand.discards[count - 1])
                } else {
                    None
                }
            },
            None => None,
        }
    }

    pub fn broadcast_discard_action(&mut self, seat: Seat, event_seq: u64, tile: Tile)
        ensures
            final(self)@ == old(self)@.discard_announced(seat, event_seq, tile),
    {
        broadcast use {lemma_views_empty, lemma_views_push};

        let discard = self.last_discard_of(seat);
        let tsumogiri: bool = match discard {
            Some(discard) => discard.drawn_and_discarded,
            None => false,
        };
        let mut effects: Vec<ResultingEffect> = Vec::new();
        if let Some(discard) = discard {
            effects.push(
                ResultingEffect::DiscardAdded(
                    DiscardAdded { seat: seat.as_i32(), discard: Some(discard) },
                ),
            );
        }
        let payload = self.action_object(event_seq, seat, "ACTION_KIND_DISCARD")
            .with("tile", Json::text(tile.as_str_name()))
            .with("tsumogiri", Json::Bool(tsumogiri))
            .with("wall_tiles_remaining", Json::unsigned(self.wall_tiles_remaining as u64))
            .build();
        let next_turn_seat = self.current_turn_seat;
        let frame = self.build_action_frame(
            event_seq,
            seat,
            ActionKind::Discard,
            ActionDetail::Discard(DiscardAction { tile: tile.as_i32(), tsumogiri }),
            effects,
            next_turn_seat,
            0,
        );
        self.persist_match_event("action_broadcast", event_seq, Some(seat), payload);
        self.broadcast_action_frame(frame);
    }

    pub(crate) fn persist_draw(&mut self, seat: Seat, event_seq: u64, tile: Tile, replacement_draw: bool)
        ensures
            final(self)@ == old(self)@.draw_stored(seat, event_seq, tile, replacement_draw),
    {
        let payload = self.action_object(event_seq, seat, "ACTION_KIND_DRAW")
            .with("draw_tile", Json::text(tile.as_str_name()))
            .with("replacement_draw", Json::Bool(replacement_draw))
            .with("wall_tiles_remaining", Json::unsigned(self.wall_tiles_remaining as u64))
            .build();
        self.persist_match_event("action_broadcast", event_seq, Some(seat), payload);
    }

    fn build_draw_frame(
        &self,
        seat: Seat,
        event_seq: u64,
        tile: Tile,
        visible_to_recipient: bool,
        replacement_draw: bool,
    ) -> (r: ServerFrame)
        ensures
            r@ == self@.draw_frame(seat, event_seq, tile, visible_to_recipient, replacement_draw),
    {
        broadcast use {lemma_views_empty, lemma_views_push};

        let mut effects: Vec<ResultingEffect> = Vec::new();
        effects.push(
            ResultingEffect::TurnAdvanced(
                TurnAdvanced {
                    next_turn_seat: seat.as_i32(),
                    resulting_phase: self.phase.as_i32(),
                },
            ),
        );
        let deadline: u64 = match self.round_runtime.as_ref() {
            Some(runtime) => match runtime.active_claim_window.as_ref() {
                Some(window) => window.deadline_unix_ms,
                None => 0,
            },
            None => 0,
        };
        let shown = if visible_to_recipient {
            tile
        } else {
            Tile::Unspecified
        };
        self.build_action_frame(
            event_seq,
            seat,
            ActionKind::Draw,
            ActionDetail::Draw(
                DrawDetail { tile: shown.as_i32(), visible_to_recipient, replacement_draw },
            ),
            effects,
            seat,
            deadline,
        )
    }

    /// Stores a draw and announces it; the tile is shown to the seat that drew and to nobody else.
    pub fn broadcast_draw_action(
        &mut self,
        seat: Seat,
        event_seq: u64,
        tile: Tile,
        replacement_draw: bool,
    )
        ensures
            final(self)@ == old(self)@.draw_announced(seat, event_seq, tile, replacement_draw),
    {
        let own = self.build_draw_frame(seat, event_seq, tile, true, replacement_draw);
        let others = self.build_draw_frame(seat, event_seq, tile, false, replacement_draw);
        self.persist_draw(seat, event_seq, tile, replacement_draw);
        self.broadcast_by_seat(seat, own, others);
    }

    pub fn broadcast_claim_action(
        &mut self,
        seat: Seat,
        event_seq: u64,
        claim_kind: ClaimKind,
        target_tile: Tile,
        source_seat: Seat,
        consume_tiles: &Vec<Tile>,
        resulting_meld: Meld,
    )
        ensures
            final(self)@ == old(self)@.claim_announced(
                seat,
                event_seq,
                claim_kind,
                target_tile,
                source_seat,
                consume_tiles@,
                resulting_meld@,
            ),
    {
        broadcast use {lemma_views_empty, lemma_views_push};

        let payload = self.action_object(event_seq, seat, claim_action_kind_label(claim_kind))
            .with("target_tile", Json::text(target_tile.as_str_name()))
            .with("source_seat", Json::text(source_seat.as_str_name()))
            .with("consume_tiles", tiles_json(consume_tiles))
            .with("resulting_meld", meld_json(&resulting_meld))
            .build();
        let mut effects: Vec<ResultingEffect> = Vec::new();
        effects.push(
            ResultingEffect::MeldAdded(
                MeldAdded { seat: seat.as_i32(), meld: Some(resulting_meld.clone()) },
            ),
        );
        let next_turn_seat = self.current_turn_seat;
        let frame = self.build_action_frame(
            event_seq,
            seat,
            map_claim_kind_to_client_action(claim_kind),
            ActionDetail::Claim(
                ResolvedClaim {
                    claim_kind: claim_kind.as_i32(),
                    target_tile: target_tile.as_i32(),
                    consume_tiles: codes_of(consume_tiles),
                    source_seat: source_seat.as_i32(),
                    resulting_meld: Some(resulting_meld),
                },
            ),
            effects,
            next_turn_seat,
            0,
        );
        self.persist_match_event("action_broadcast", event_seq, Some(seat), payload);
        self.broadcast_action_frame(frame);
    }

    pub fn broadcast_supplemental_kong_action(
        &mut self,
        seat: Seat,
        event_seq: u64,
        tile: Tile,
        resulting_meld: Meld,
    )
        ensures
            final(self)@ == old(self)@.kong_announced(seat, event_seq, tile, resulting_meld@),
    {
        broadcast use {lemma_views_empty, lemma_views_push};

        let payload = self.action_object(event_seq, seat, "ACTION_KIND_SUPPLEMENTAL_KONG")
            .with("tile", Json::text(tile.as_str_name()))
            .with("source_event_seq", Json::unsigned(event_seq))
            .with("resulting_meld", meld_json(&resulting_meld))
            .build();
        let mut effects: Vec<ResultingEffect> = Vec::new();
        effects.push(
            ResultingEffect::MeldAdded(
                MeldAdded { seat: seat.as_i32(), meld: Some(resulting_meld) },
            ),
        );
        let frame = self.build_action_frame(
            event_seq,
            seat,
            ActionKind::SupplementalKong,
            ActionDetail::SupplementalKong(SupplementalKongAction { tile: tile.as_i32() }),
            effects,
            seat,
            0,
        );
        self.persist_match_event("action_broadcast", event_seq, Some(seat), payload);
        self.broadcast_action_frame(frame);
    }

    pub fn broadcast_win_action(
        &mut self,
        seat: Seat,
        event_seq: u64,
        win_type: WinType,
        winning_tile: Tile,
        discarder_seat: Option<Seat>,
        source_event_seq: u64,
    )
        ensures
            final(self)@ == old(self)@.win_announced(
                seat,
                event_seq,
                win_type,
                winning_tile,
                discarder_seat,
                source_event_seq,
            ),
    {
        broadcast use lemma_views_empty;

        let payload = self.action_object(event_seq, seat, "ACTION_KIND_DECLARE_WIN")
            .with("win_type", Json::text(win_type.as_str_name()))
            .with("winning_tile", Json::text(winning_tile.as_str_name()))
            .with("discarder_seat", opt_seat_json(discarder_seat))
            .with("source_event_seq", Json::unsigned(source_event_seq))
            .build();
        let source_seat = match discarder_seat {
            Some(discarder) => discarder,
            None => seat,
        };
        let frame = self.build_action_frame(
            event_seq,
            seat,
            ActionKind::DeclareWin,
            ActionDetail::DeclareWin(
                DeclareWinAction {
                    win_type: win_type.as_i32(),
                    winning_tile: winning_tile.as_i32(),
                    source_seat: source_seat.as_i32(),
                    source_event_seq,
                },
            ),
            Vec::new(),
            seat,
            0,
        );
        self.persist_match_event("action_broadcast", event_seq, Some(seat), payload);
        self.broadcast_action_frame(frame);
    }
}

/// Whether an output is the announcement of a draw to a recipient, on the recipient's connection:
/// with the tile for the seat that drew, and without it for everybody else.
pub open spec fn tells_draw(
    room: RoomStateModel,
    recipient: Seat,
    seat: Seat,
    event_seq: u64,
    tile: Tile,
    replacement_draw: bool,
    output: RoomOutputModel,
) -> bool {
    room.reachable(recipient) matches Some(connection_id) && output == RoomOutputModel::Send(
        connection_id,
        room.draw_frame(seat, event_seq, tile, recipient == seat, replacement_draw),
    )
}

/// A draw is announced to every player who can be reached, except in a load test, which sends
/// nothing; and nothing else is sent. What is sent to anybody but the seat that drew does not depend
/// on the tile.
pub proof fn law_draws_are_hidden(
    room: RoomStateModel,
    seat: Seat,
    event_seq: u64,
    tile: Tile,
    other_tile: Tile,
    replacement_draw: bool,
)
    ensures
        ({
            let after = room.draw_announced(seat, event_seq, tile, replacement_draw);
            &&& room.outbox.is_prefix_of(after.outbox)
            &&& forall|i: int|
                room.outbox.len() <= i < after.outbox.len() && (#[trigger] after.outbox[i]) is Send
                    ==> exists|recipient: Seat| #[trigger]
                    tells_draw(
                        room,
                        recipient,
                        seat,
                        event_seq,
                        tile,
                        replacement_draw,
                        after.outbox[i],
                    )
            &&& room.runtime_mode is Production ==> forall|recipient: Seat|
                #[trigger] room.reachable(recipient) is Some ==> exists|i: int|
                    room.outbox.len() <= i < after.outbox.len() && tells_draw(
                        room,
                        recipient,
                        seat,
                        event_seq,
                        tile,
                        replacement_draw,
                        #[trigger] after.outbox[i],
                    )
        }),
        forall|recipient: Seat, output: RoomOutputModel|
            recipient != seat ==> #[trigger] tells_draw(
                room,
                recipient,
                seat,
                event_seq,
                tile,
                replacement_draw,
                output,
            ) == tells_draw(
                room,
                recipient,
                seat,
                event_seq,
                other_tile,
                replacement_draw,
                output,
            ),
{
    let stored = room.draw_stored(seat, event_seq, tile, replacement_draw);
    let own = room.draw_frame(seat, event_seq, tile, true, replacement_draw);
    let others = room.draw_frame(seat, event_seq, tile, false, replacement_draw);
    let after = room.draw_announced(seat, event_seq, tile, replacement_draw);
    lemma_sent_by_seat(stored, seat, own, others);
    assert(room.outbox.is_prefix_of(stored.outbox));
    assert(room.outbox.is_prefix_of(after.outbox)) by {
        assert(after.outbox.subrange(0, room.outbox.len() as int) =~= room.outbox);
    }
    assert forall|i: int|
        room.outbox.len() <= i < after.outbox.len() && (
        #[trigger] after.outbox[i]) is Send implies exists|recipient: Seat| #[trigger]
        tells_draw(room, recipient, seat, event_seq, tile, replacement_draw, after.outbox[i]) by {
        if i < stored.outbox.len() {
            assert(after.outbox[i] == stored.outbox[i]);
        } else {
            assert(goes_to_somebody(stored, seat, own, others, after.outbox[i]));
            let recipient = choose|recipient: Seat| #[trigger]
                goes_to(stored, recipient, seat, own, others, after.outbox[i]);
            assert(tells_draw(
                room,
                recipient,
                seat,
                event_seq,
                tile,
                replacement_draw,
                after.outbox[i],
            ));
        }
    }
    if room.runtime_mode is Production {
        assert forall|recipient: Seat| #[trigger] room.reachable(recipient) is Some implies exists|
            i: int,
        |
            room.outbox.len() <= i < after.outbox.len() && tells_draw(
                room,
                recipient,
                seat,
                event_seq,
                tile,
                replacement_draw,
                #[trigger] after.outbox[i],
            ) by {
            assert(stored.reachable(recipient) is Some);
            let i = choose|i: int|
                stored.outbox.len() <= i < after.outbox.len() && goes_to(
                    stored,
                    recipient,
                    seat,
                    own,
                    others,
                    #[trigger] after.outbox[i],
                );
            assert(tells_draw(
                room,
                recipient,
                seat,
                event_seq,
                tile,
                replacement_draw,
                after.outbox[i],
            ));
        }
    }
}

} // verus!
