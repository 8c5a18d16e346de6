//! What is put on record of a hand, and what a replay makes of it.

use vstd::prelude::*;

use crate::collections::SeatMap;
use crate::db::digest::{
    digest_of, payload_flag, payload_items, payload_number, payload_small, payload_text,
    replay_kind, texts_of, EventDigestModel,
};
use crate::db::models::{MatchEventRecordModel, NewMatchEventRecordModel, ReplayEventKind};
use crate::json::{json_text, lemma_member_added, JsonModel};
use crate::proto::client::{
    ActionDetailModel, ActionKind, ClaimKind, DeclareWinAction, DiscardAction, DiscardAdded,
    GamePhase, MeldAddedModel, MeldModel, ResolvedClaimModel, ResultingEffectModel, Seat,
    ServerFrameModel, SettlementFlag, SupplementalKongAction, Tile, WinType,
};
use crate::room::basics::{goes_to_somebody, group_announcing_keeps, lemma_sent_by_seat};
use crate::room::convert::claim_action;
use crate::room::flow::DrawOutcome;
use crate::room::match_flow::{match_settlement_frame, standings_payload};
use crate::room::payloads::{
    meld_payload, opt_seat, options_payload, responses_payload, seat_list, tile_list,
};
use crate::room::rounds::draw_record;
use crate::room::settlement::{fans_payload, flag_names, results_payload, HandResultModel};
use crate::room::state::{
    ActiveClaimWindowStateModel, ClaimResponseModel, MatchSettlementSummaryModel, RoomOutputModel,
    RoomStateModel,
};
use crate::text::decimal;
use crate::tiles::tile_codes;

verus! {

broadcast use group_announcing_keeps;

// ---------------------------------------------------------------------------
// Kinds and keys
// ---------------------------------------------------------------------------

/// The kinds of events are all different.
proof fn lemma_kinds()
    ensures
        replay_kind("round_started"@) == ReplayEventKind::RoundStarted,
        replay_kind("action_broadcast"@) == ReplayEventKind::ActionBroadcast,
        replay_kind("claim_window_opened"@) == ReplayEventKind::ClaimWindowOpened,
        replay_kind("claim_window_resolved"@) == ReplayEventKind::ClaimWindowResolved,
        replay_kind("round_settlement"@) == ReplayEventKind::RoundSettlement,
        replay_kind("match_settlement"@) == ReplayEventKind::MatchSettlement,
{
    reveal_strlit("round_started");
    reveal_strlit("action_broadcast");
    reveal_strlit("claim_window_opened");
    reveal_strlit("claim_window_resolved");
    reveal_strlit("round_settlement");
    reveal_strlit("match_settlement");
    assert("round_started"@.len() == 13);
    assert("action_broadcast"@.len() == 16);
    assert("claim_window_opened"@.len() == 19);
    assert("claim_window_resolved"@.len() == 21);
    assert("round_settlement"@.len() == 16);
    assert("match_settlement"@.len() == 16);
    assert("action_broadcast"@[0] == 'a');
    assert("round_settlement"@[0] == 'r');
    assert("match_settlement"@[0] == 'm');
}

/// The keys under which actions are told are all different.
proof fn lemma_action_keys()
    ensures
        "type"@.len() == 4 && "type"@[1] == 'y',
        "action_kind"@.len() == 11 && "action_kind"@[0] == 'a',
        "tile"@.len() == 4 && "tile"@[1] == 'i',
        "draw_tile"@.len() == 9 && "draw_tile"@[0] == 'd',
        "replacement_draw"@.len() == 16 && "replacement_draw"@[0] == 'r',
        "target_tile"@.len() == 11 && "target_tile"@[0] == 't',
        "source_seat"@.len() == 11 && "source_seat"@[0] == 's',
        "discarder_seat"@.len() == 14 && "discarder_seat"@[0] == 'd',
        "win_type"@.len() == 8 && "win_type"@[0] == 'w',
        "source_event_seq"@.len() == 16 && "source_event_seq"@[0] == 's',
        "consume_tiles"@.len() == 13,
        "resulting_meld"@.len() == 14 && "resulting_meld"@[0] == 'r',
        "tsumogiri"@.len() == 9 && "tsumogiri"@[0] == 't',
        "wall_tiles_remaining"@.len() == 20,
        "winning_tile"@.len() == 12,
        "room_id"@.len() == 7,
        "match_id"@.len() == 8 && "match_id"@[0] == 'm',
        "round_id"@.len() == 8 && "round_id"@[0] == 'r',
        "event_seq"@.len() == 9 && "event_seq"@[0] == 'e',
        "actor_seat"@.len() == 10,
{
    reveal_strlit("type");
    reveal_strlit("action_kind");
    reveal_strlit("tile");
    reveal_strlit("draw_tile");
    reveal_strlit("replacement_draw");
    reveal_strlit("target_tile");
    reveal_strlit("source_seat");
    reveal_strlit("discarder_seat");
    reveal_strlit("win_type");
    reveal_strlit("source_event_seq");
    reveal_strlit("consume_tiles");
    reveal_strlit("resulting_meld");
    reveal_strlit("tsumogiri");
    reveal_strlit("wall_tiles_remaining");
    reveal_strlit("winning_tile");
    reveal_strlit("room_id");
    reveal_strlit("match_id");
    reveal_strlit("round_id");
    reveal_strlit("event_seq");
    reveal_strlit("actor_seat");
}

/// The keys under which windows are told are all different.
proof fn lemma_window_keys()
    ensures
        "type"@.len() == 4,
        "action_window_id"@.len() == 16 && "action_window_id"@[0] == 'a',
        "source_event_seq"@.len() == 16 && "source_event_seq"@[0] == 's',
        "source_seat"@.len() == 11 && "source_seat"@[0] == 's',
        "target_tile"@.len() == 11 && "target_tile"@[0] == 't',
        "trigger_action_kind"@.len() == 19,
        "eligible_seats"@.len() == 14,
        "options_by_seat"@.len() == 15 && "options_by_seat"@[0] == 'o',
        "deadline_unix_ms"@.len() == 16 && "deadline_unix_ms"@[0] == 'd',
        "resolution_kind"@.len() == 15 && "resolution_kind"@[0] == 'r',
        "winner_seat"@.len() == 11 && "winner_seat"@[0] == 'w',
        "responses"@.len() == 9 && "responses"@[0] == 'r',
        "room_id"@.len() == 7,
        "match_id"@.len() == 8 && "match_id"@[0] == 'm',
        "round_id"@.len() == 8 && "round_id"@[0] == 'r',
        "event_seq"@.len() == 9 && "event_seq"@[0] == 'e',
{
    reveal_strlit("type");
    reveal_strlit("action_window_id");
    reveal_strlit("source_event_seq");
    reveal_strlit("source_seat");
    reveal_strlit("target_tile");
    reveal_strlit("trigger_action_kind");
    reveal_strlit("eligible_seats");
    reveal_strlit("options_by_seat");
    reveal_strlit("deadline_unix_ms");
    reveal_strlit("resolution_kind");
    reveal_strlit("winner_seat");
    reveal_strlit("responses");
    reveal_strlit("room_id");
    reveal_strlit("match_id");
    reveal_strlit("round_id");
    reveal_strlit("event_seq");
}

/// The keys under which starts are told are all different.
proof fn lemma_start_keys()
    ensures
        "type"@.len() == 4,
        "phase"@.len() == 5,
        "prevailing_wind"@.len() == 15,
        "dealer_seat"@.len() == 11 && "dealer_seat"@[0] == 'd',
        "current_turn_seat"@.len() == 17,
        "hand_number"@.len() == 11 && "hand_number"@[0] == 'h',
        "dealer_streak"@.len() == 13,
        "wall_tiles_remaining"@.len() == 20,
        "dead_wall_tiles_remaining"@.len() == 25,
        "players"@.len() == 7 && "players"@[0] == 'p',
        "room_id"@.len() == 7 && "room_id"@[0] == 'r',
        "match_id"@.len() == 8 && "match_id"@[0] == 'm',
        "round_id"@.len() == 8 && "round_id"@[0] == 'r',
        "event_seq"@.len() == 9,
{
    reveal_strlit("type");
    reveal_strlit("phase");
    reveal_strlit("prevailing_wind");
    reveal_strlit("dealer_seat");
    reveal_strlit("current_turn_seat");
    reveal_strlit("hand_number");
    reveal_strlit("dealer_streak");
    reveal_strlit("wall_tiles_remaining");
    reveal_strlit("dead_wall_tiles_remaining");
    reveal_strlit("players");
    reveal_strlit("room_id");
    reveal_strlit("match_id");
    reveal_strlit("round_id");
    reveal_strlit("event_seq");
}

/// The keys under which settlements are told are all different.
proof fn lemma_settlement_keys()
    ensures
        "type"@.len() == 4,
        "winner_seat"@.len() == 11 && "winner_seat"@[0] == 'w',
        "discarder_seat"@.len() == 14 && "discarder_seat"@[0] == 'd',
        "win_type"@.len() == 8 && "win_type"@[0] == 'w',
        "winning_tile"@.len() == 12,
        "player_results"@.len() == 14 && "player_results"@[0] == 'p',
        "fan_details"@.len() == 11 && "fan_details"@[0] == 'f',
        "settlement_flags"@.len() == 16,
        "wall_tiles_remaining"@.len() == 20,
        "draw_game"@.len() == 9 && "draw_game"@[0] == 'd',
        "room_id"@.len() == 7,
        "match_id"@.len() == 8 && "match_id"@[0] == 'm',
        "round_id"@.len() == 8 && "round_id"@[0] == 'r',
        "event_seq"@.len() == 9 && "event_seq"@[0] == 'e',
{
    reveal_strlit("type");
    reveal_strlit("winner_seat");
    reveal_strlit("discarder_seat");
    reveal_strlit("win_type");
    reveal_strlit("winning_tile");
    reveal_strlit("player_results");
    reveal_strlit("fan_details");
    reveal_strlit("settlement_flags");
    reveal_strlit("wall_tiles_remaining");
    reveal_strlit("draw_game");
    reveal_strlit("room_id");
    reveal_strlit("match_id");
    reveal_strlit("round_id");
    reveal_strlit("event_seq");
}

/// The keys under which results are told are all different.
proof fn lemma_result_keys()
    ensures
        "type"@.len() == 4,
        "finished_at_unix_ms"@.len() == 19,
        "standings"@.len() == 9 && "standings"@[0] == 's',
        "final_result"@.len() == 12,
        "room_id"@.len() == 7,
        "match_id"@.len() == 8,
        "event_seq"@.len() == 9 && "event_seq"@[0] == 'e',
{
    reveal_strlit("type");
    reveal_strlit("finished_at_unix_ms");
    reveal_strlit("standings");
    reveal_strlit("final_result");
    reveal_strlit("room_id");
    reveal_strlit("match_id");
    reveal_strlit("event_seq");
}

// ---------------------------------------------------------------------------
// Records
// ---------------------------------------------------------------------------

/// Whether a stored event is what was put on record.
pub open spec fn is_read_back(
    event: NewMatchEventRecordModel,
    record: MatchEventRecordModel,
) -> bool {
    &&& record.match_id == event.match_id
    &&& record.round_id == event.round_id
    &&& record.event_seq == event.event_seq
    &&& record.event_type == event.event_type
    &&& record.actor_user_id == event.actor_user_id
    &&& record.actor_seat == event.actor_seat
    &&& record.event_payload == event.event_payload
}

/// Whether a replay of an event is free of remarks and tells something that has a property.
pub open spec fn is_retold(
    event: NewMatchEventRecordModel,
    kind: ReplayEventKind,
    told: spec_fn(EventDigestModel) -> bool,
) -> bool {
    forall|record: MatchEventRecordModel| #[trigger]
        is_read_back(event, record) ==> is_sound_digest(record, kind, told)
}

/// Whether the digest of an event is free of remarks and has a property.
pub open spec fn is_sound_digest(
    record: MatchEventRecordModel,
    kind: ReplayEventKind,
    told: spec_fn(EventDigestModel) -> bool,
) -> bool {
    &&& replay_kind(record.event_type) == kind
    &&& !digest_of(record).invalid_payload
    &&& digest_of(record).warning is None
    &&& told(digest_of(record))
}

/// Whether an event is put down for a hand, under its number and with whoever brought it about.
pub open spec fn is_put_down(
    room: RoomStateModel,
    event: NewMatchEventRecordModel,
    event_seq: u64,
    actor: Option<Seat>,
) -> bool {
    &&& event.match_id == room.match_id
    &&& event.round_id == Some("hand-"@ + decimal(room.hand_number as nat))
    &&& event_seq <= i64::MAX ==> event.event_seq == event_seq
    &&& match actor {
        Some(seat) => {
            &&& event.actor_seat == Some(seat.name())
            &&& match room.players_by_seat.at(seat) {
                Some(player) => event.actor_user_id == Some(player.user_id),
                None => event.actor_user_id is None,
            }
        },
        None => event.actor_seat is None && event.actor_user_id is None,
    }
}

/// Whether exactly one event is put on record on the way from one room to another, and a replay of
/// it tells something that has a property. A load test puts nothing on record.
pub open spec fn is_recorded(
    before: RoomStateModel,
    after: RoomStateModel,
    event_seq: u64,
    actor: Option<Seat>,
    kind: ReplayEventKind,
    told: spec_fn(EventDigestModel) -> bool,
) -> bool {
    let from = before.outbox.len() as int;
    &&& before.outbox.is_prefix_of(after.outbox)
    &&& if before.runtime_mode is Production {
        &&& from < after.outbox.len()
        &&& match after.outbox[from] {
            RoomOutputModel::Persist(event) => is_put_down(before, event, event_seq, actor)
                && is_retold(event, kind, told),
            _ => false,
        }
        &&& forall|i: int| from < i < after.outbox.len() ==> !((#[trigger] after.outbox[i]) is Persist)
    } else {
        forall|i: int| from <= i < after.outbox.len() ==> !((#[trigger] after.outbox[i]) is Persist)
    }
}

proof fn lemma_recorded(
    before: RoomStateModel,
    event_type: Seq<char>,
    event_seq: u64,
    actor: Option<Seat>,
    payload: JsonModel,
    kind: ReplayEventKind,
    told: spec_fn(EventDigestModel) -> bool,
)
    requires
        forall|record: MatchEventRecordModel|
            record.event_type == event_type && record.event_payload == payload ==> #[trigger]
                is_sound_digest(record, kind, told),
    ensures
        is_recorded(
            before,
            before.stored(event_type, event_seq, actor, payload),
            event_seq,
            actor,
            kind,
            told,
        ),
{
    let after = before.stored(event_type, event_seq, actor, payload);
    assert(after.outbox.subrange(0, before.outbox.len() as int) =~= before.outbox);
    if before.runtime_mode is Production {
        let event = before.event(event_type, event_seq, actor, payload);
        assert(after.outbox[before.outbox.len() as int] == RoomOutputModel::Persist(event));
        assert forall|record: MatchEventRecordModel| #[trigger]
            is_read_back(event, record) implies is_sound_digest(record, kind, told) by {}
    }
}

proof fn lemma_sending_records_nothing(
    before: RoomStateModel,
    stored: RoomStateModel,
    seat: Seat,
    own: ServerFrameModel,
    others: ServerFrameModel,
    event_seq: u64,
    actor: Option<Seat>,
    kind: ReplayEventKind,
    told: spec_fn(EventDigestModel) -> bool,
)
    requires
        is_recorded(before, stored, event_seq, actor, kind, told),
    ensures
        is_recorded(before, stored.sent_by_seat(seat, own, others), event_seq, actor, kind, told),
        is_recorded(before, stored.sent_to_all(own), event_seq, actor, kind, told),
{
    let after = stored.sent_by_seat(seat, own, others);
    lemma_sent_by_seat(stored, seat, own, others);
    assert(after.outbox.subrange(0, before.outbox.len() as int) =~= before.outbox);
    assert forall|i: int| stored.outbox.len() <= i < after.outbox.len() implies !((
    #[trigger] after.outbox[i]) is Persist) by {
        assert(goes_to_somebody(stored, seat, own, others, after.outbox[i]));
    }
    assert forall|i: int| 0 <= i < stored.outbox.len() implies #[trigger] after.outbox[i]
        == stored.outbox[i] by {
        assert(after.outbox.subrange(0, stored.outbox.len() as int)[i] == stored.outbox[i]);
    }
    let all = stored.sent_to_all(own);
    assert(all == stored.sent_by_seat(Seat::East, own, own)) by {
        reveal(RoomStateModel::sent_to_all);
        reveal(RoomStateModel::sent_by_seat);
    }
    lemma_sent_by_seat(stored, Seat::East, own, own);
    assert(all.outbox.subrange(0, before.outbox.len() as int) =~= before.outbox);
    assert forall|i: int| stored.outbox.len() <= i < all.outbox.len() implies !((
    #[trigger] all.outbox[i]) is Persist) by {
        assert(goes_to_somebody(stored, Seat::East, own, own, all.outbox[i]));
    }
    assert forall|i: int| 0 <= i < stored.outbox.len() implies #[trigger] all.outbox[i]
        == stored.outbox[i] by {
        assert(all.outbox.subrange(0, stored.outbox.len() as int)[i] == stored.outbox[i]);
    }
}

// ---------------------------------------------------------------------------
// Actions
// ---------------------------------------------------------------------------

/// Whether a digest tells of a discard: the tile, whether it was the one just drawn, and how many
/// tiles are left.
pub open spec fn retells_discard(tile: Tile, tsumogiri: bool, left: u32) -> spec_fn(
    EventDigestModel,
) -> bool {
    |digest: EventDigestModel|
        {
            &&& payload_text(digest.summary, "action_kind"@) == Some(ActionKind::Discard.name())
            &&& payload_text(digest.summary, "tile"@) == Some(tile.name())
            &&& payload_flag(digest.summary, "tsumogiri"@) == Some(tsumogiri)
            &&& payload_small(digest.summary, "wall_tiles_remaining"@) == Some(left)
        }
}

/// A discard goes on record once, and a replay tells which tile it was.
pub proof fn law_discards_are_recorded(room: RoomStateModel, seat: Seat, event_seq: u64, tile: Tile)
    requires
        room.player_round_state.at(seat) matches Some(hand) && hand.discards.len() > 0,
    ensures
        is_recorded(
            room,
            room.discard_announced(seat, event_seq, tile),
            event_seq,
            Some(seat),
            ReplayEventKind::ActionBroadcast,
            retells_discard(
                tile,
                room.player_round_state.at(seat)->0.discards.last().drawn_and_discarded,
                room.wall_tiles_remaining,
            ),
        ),
{
    let hand = room.player_round_state.at(seat)->0;
    let tsumogiri = hand.discards.last().drawn_and_discarded;
    let told = retells_discard(tile, tsumogiri, room.wall_tiles_remaining);
    let payload = JsonModel::Object(
        room.action_members(event_seq, seat, "ACTION_KIND_DISCARD"@)
            .push(("tile"@, JsonModel::Text(tile.name())))
            .push(("tsumogiri"@, JsonModel::Bool(tsumogiri)))
            .push(("wall_tiles_remaining"@, JsonModel::Unsigned(room.wall_tiles_remaining as u64))),
    );
    assert forall|record: MatchEventRecordModel|
        record.event_type == "action_broadcast"@ && record.event_payload
            == payload implies #[trigger] is_sound_digest(
        record,
        ReplayEventKind::ActionBroadcast,
        told,
    ) by {
        broadcast use lemma_member_added;

        lemma_action_keys();
        lemma_kinds();
    }
    lemma_recorded(
        room,
        "action_broadcast"@,
        event_seq,
        Some(seat),
        payload,
        ReplayEventKind::ActionBroadcast,
        told,
    );
    let stored = room.stored("action_broadcast"@, event_seq, Some(seat), payload);
    let frame = room.action_frame(
        event_seq,
        seat,
        ActionKind::Discard,
        ActionDetailModel::Discard(
            DiscardAction { tile: tile.code(), tsumogiri },
        ),
        seq![
            ResultingEffectModel::DiscardAdded(
                DiscardAdded {
                    seat: seat.code(),
                    discard: Some(hand.discards.last()),
                },
            ),
        ],
        room.current_turn_seat,
        0,
    );
    lemma_sending_records_nothing(
        room,
        stored,
        Seat::East,
        frame,
        frame,
        event_seq,
        Some(seat),
        ReplayEventKind::ActionBroadcast,
        told,
    );
}

/// Whether the list under a key holds some texts, in their order.
pub open spec fn is_list_of(summary: JsonModel, key: Seq<char>, texts: Seq<Seq<char>>) -> bool {
    let items = payload_items(summary, key);
    &&& items.len() == texts.len()
    &&& forall|i: int| 0 <= i < texts.len() ==> (#[trigger] items[i]).as_text() == Some(texts[i])
}

/// The names of some tiles.
pub open spec fn names_of_tiles(tiles: Seq<Tile>) -> Seq<Seq<char>> {
    tiles.map_values(|tile: Tile| tile.name())
}

/// The names of some seats.
pub open spec fn names_of_seats(seats: Seq<Seat>) -> Seq<Seq<char>> {
    seats.map_values(|seat: Seat| seat.name())
}

/// The names of some flags.
pub open spec fn names_of_flags(flags: Seq<SettlementFlag>) -> Seq<Seq<char>> {
    flags.map_values(|flag: SettlementFlag| flag.name())
}

/// The texts in a list of nothing but texts.
proof fn lemma_texts(items: Seq<JsonModel>, texts: Seq<Seq<char>>)
    requires
        items.len() == texts.len(),
        forall|i: int| 0 <= i < texts.len() ==> #[trigger] items[i] == JsonModel::Text(texts[i]),
    ensures
        texts_of(items) == texts,
    decreases items.len(),
{
    if items.len() > 0 {
        lemma_texts(items.drop_last(), texts.drop_last());
        assert(items.last() == JsonModel::Text(texts.last()));
        assert(texts =~= texts.drop_last().push(texts.last()));
    } else {
        assert(texts =~= Seq::empty());
    }
}

/// Whether a digest tells of a draw: the tile, and whether it replaces another.
pub open spec fn retells_draw(
    tile: Tile,
    replacement_draw: bool,
    left: u32) -> spec_fn(EventDigestModel,
) -> bool {
    |digest: EventDigestModel|
        {
            &&& payload_text(digest.summary, "action_kind"@) == Some(ActionKind::Draw.name())
            &&& payload_text(digest.summary, "draw_tile"@) == Some(tile.name())
            &&& payload_flag(digest.summary, "replacement_draw"@) == Some(replacement_draw)
            &&& payload_small(digest.summary, "wall_tiles_remaining"@) == Some(left)
        }
}

/// A draw goes on record once, and a replay tells which tile it was.
pub proof fn law_draws_are_recorded(
    room: RoomStateModel,
    seat: Seat,
    event_seq: u64,
    tile: Tile,
    replacement_draw: bool,
)
    ensures
        is_recorded(
            room,
            room.draw_announced(seat, event_seq, tile, replacement_draw),
            event_seq,
            Some(seat),
            ReplayEventKind::ActionBroadcast,
            retells_draw(tile, replacement_draw, room.wall_tiles_remaining),
        ),
{
    let told = retells_draw(tile, replacement_draw, room.wall_tiles_remaining);
    let base = room;
    let payload = room.draw_payload(seat, event_seq, tile, replacement_draw);
    assert forall|record: MatchEventRecordModel|
        record.event_type == "action_broadcast"@ && record.event_payload
            == payload implies #[trigger] is_sound_digest(
        record,
        ReplayEventKind::ActionBroadcast,
        told,
    ) by {
        broadcast use lemma_member_added;

        lemma_action_keys();
        lemma_kinds();
    }
    lemma_recorded(
        base,
        "action_broadcast"@,
        event_seq,
        Some(seat),
        payload,
        ReplayEventKind::ActionBroadcast,
        told,
    );
    let stored = base.stored("action_broadcast"@, event_seq, Some(seat), payload);
    lemma_sending_records_nothing(
        base,
        stored,
        seat,
        room.draw_frame(seat, event_seq, tile, true, replacement_draw),
        room.draw_frame(seat, event_seq, tile, false, replacement_draw),
        event_seq,
        Some(seat),
        ReplayEventKind::ActionBroadcast,
        told,
    );
}

/// Whether a digest tells of a claim: what was claimed from whom, with which tiles, and the meld.
pub open spec fn retells_claim(
    claim_kind: ClaimKind,
    target_tile: Tile,
    source_seat: Seat,
    consume_tiles: Seq<Tile>,
    meld: MeldModel) -> spec_fn(EventDigestModel,
) -> bool {
    |digest: EventDigestModel|
        {
            &&& payload_text(digest.summary, "action_kind"@) == Some(claim_action(claim_kind).name())
            &&& payload_text(digest.summary, "target_tile"@) == Some(target_tile.name())
            &&& payload_text(digest.summary, "source_seat"@) == Some(source_seat.name())
            &&& is_list_of(digest.summary, "consume_tiles"@, names_of_tiles(consume_tiles))
            &&& digest.summary.get("resulting_meld"@) == Some(meld_payload(meld))
        }
}

/// A claim goes on record once, and a replay tells what was laid down.
pub proof fn law_claims_are_recorded(
    room: RoomStateModel,
    seat: Seat,
    event_seq: u64,
    claim_kind: ClaimKind,
    target_tile: Tile,
    source_seat: Seat,
    consume_tiles: Seq<Tile>,
    meld: MeldModel,
)
    ensures
        is_recorded(
            room,
            room.claim_announced(seat, event_seq, claim_kind, target_tile, source_seat, consume_tiles, meld),
            event_seq,
            Some(seat),
            ReplayEventKind::ActionBroadcast,
            retells_claim(claim_kind, target_tile, source_seat, consume_tiles, meld),
        ),
{
    let told = retells_claim(claim_kind, target_tile, source_seat, consume_tiles, meld);
    let base = room;
    let payload = JsonModel::Object(
        room.action_members(event_seq, seat, claim_action(claim_kind).name())
            .push(("target_tile"@, json_text(target_tile.name())))
            .push(("source_seat"@, json_text(source_seat.name())))
            .push(("consume_tiles"@, tile_list(consume_tiles)))
            .push(("resulting_meld"@, meld_payload(meld))),
    );
    assert forall|record: MatchEventRecordModel|
        record.event_type == "action_broadcast"@ && record.event_payload
            == payload implies #[trigger] is_sound_digest(
        record,
        ReplayEventKind::ActionBroadcast,
        told,
    ) by {
        broadcast use lemma_member_added;

        lemma_action_keys();
        lemma_kinds();
        lemma_texts(tile_list(consume_tiles)->Array_0, names_of_tiles(consume_tiles));
    }
    lemma_recorded(
        base,
        "action_broadcast"@,
        event_seq,
        Some(seat),
        payload,
        ReplayEventKind::ActionBroadcast,
        told,
    );
    let stored = base.stored("action_broadcast"@, event_seq, Some(seat), payload);
    lemma_sending_records_nothing(
        base,
        stored,
        Seat::East,
        room.action_frame(
            event_seq,
            seat,
            claim_action(claim_kind),
            ActionDetailModel::Claim(
                ResolvedClaimModel {
                    claim_kind: claim_kind.code(),
                    target_tile: target_tile.code(),
                    consume_tiles: tile_codes(consume_tiles),
                    source_seat: source_seat.code(),
                    resulting_meld: Some(meld),
                },
            ),
            seq![
                ResultingEffectModel::MeldAdded(MeldAddedModel { seat: seat.code(), meld: Some(meld) }),
            ],
            room.current_turn_seat,
            0,
        ),
        room.action_frame(
            event_seq,
            seat,
            claim_action(claim_kind),
            ActionDetailModel::Claim(
                ResolvedClaimModel {
                    claim_kind: claim_kind.code(),
                    target_tile: target_tile.code(),
                    consume_tiles: tile_codes(consume_tiles),
                    source_seat: source_seat.code(),
                    resulting_meld: Some(meld),
                },
            ),
            seq![
                ResultingEffectModel::MeldAdded(MeldAddedModel { seat: seat.code(), meld: Some(meld) }),
            ],
            room.current_turn_seat,
            0,
        ),
        event_seq,
        Some(seat),
        ReplayEventKind::ActionBroadcast,
        told,
    );
}

/// Whether a digest tells of a supplemental kong: the tile, and the meld.
pub open spec fn retells_kong(
    tile: Tile,
    event_seq: u64,
    meld: MeldModel) -> spec_fn(EventDigestModel,
) -> bool {
    |digest: EventDigestModel|
        {
            &&& payload_text(digest.summary, "action_kind"@) == Some(ActionKind::SupplementalKong.name())
            &&& payload_text(digest.summary, "tile"@) == Some(tile.name())
            &&& payload_number(digest.summary, "source_event_seq"@) == Some(event_seq)
            &&& digest.summary.get("resulting_meld"@) == Some(meld_payload(meld))
        }
}

/// A supplemental kong goes on record once, and a replay tells which tile was added.
pub proof fn law_kongs_are_recorded(
    room: RoomStateModel,
    seat: Seat,
    event_seq: u64,
    tile: Tile,
    meld: MeldModel,
)
    ensures
        is_recorded(
            room,
            room.kong_announced(seat, event_seq, tile, meld),
            event_seq,
            Some(seat),
            ReplayEventKind::ActionBroadcast,
            retells_kong(tile, event_seq, meld),
        ),
{
    let told = retells_kong(tile, event_seq, meld);
    let base = room;
    let payload = JsonModel::Object(
        room.action_members(event_seq, seat, "ACTION_KIND_SUPPLEMENTAL_KONG"@)
            .push(("tile"@, json_text(tile.name())))
            .push(("source_event_seq"@, JsonModel::Unsigned(event_seq)))
            .push(("resulting_meld"@, meld_payload(meld))),
    );
    assert forall|record: MatchEventRecordModel|
        record.event_type == "action_broadcast"@ && record.event_payload
            == payload implies #[trigger] is_sound_digest(
        record,
        ReplayEventKind::ActionBroadcast,
        told,
    ) by {
        broadcast use lemma_member_added;

        lemma_action_keys();
        lemma_kinds();
    }
    lemma_recorded(
        base,
        "action_broadcast"@,
        event_seq,
        Some(seat),
        payload,
        ReplayEventKind::ActionBroadcast,
        told,
    );
    let stored = base.stored("action_broadcast"@, event_seq, Some(seat), payload);
    lemma_sending_records_nothing(
        base,
        stored,
        Seat::East,
        room.action_frame(
            event_seq,
            seat,
            ActionKind::SupplementalKong,
            ActionDetailModel::SupplementalKong(SupplementalKongAction { tile: tile.code() }),
            seq![
                ResultingEffectModel::MeldAdded(MeldAddedModel { seat: seat.code(), meld: Some(meld) }),
            ],
            seat,
            0,
        ),
        room.action_frame(
            event_seq,
            seat,
            ActionKind::SupplementalKong,
            ActionDetailModel::SupplementalKong(SupplementalKongAction { tile: tile.code() }),
            seq![
                ResultingEffectModel::MeldAdded(MeldAddedModel { seat: seat.code(), meld: Some(meld) }),
            ],
            seat,
            0,
        ),
        event_seq,
        Some(seat),
        ReplayEventKind::ActionBroadcast,
        told,
    );
}

/// Whether a digest tells of a win: how it was won, from whom, and by which event.
pub open spec fn retells_win(
    win_type: WinType,
    discarder_seat: Option<Seat>,
    source_event_seq: u64) -> spec_fn(EventDigestModel,
) -> bool {
    |digest: EventDigestModel|
        {
            &&& payload_text(digest.summary, "action_kind"@) == Some(ActionKind::DeclareWin.name())
            &&& payload_text(digest.summary, "win_type"@) == Some(win_type.name())
            &&& payload_number(digest.summary, "source_event_seq"@) == Some(source_event_seq)
            &&& payload_text(digest.summary, "discarder_seat"@) == match discarder_seat {
                Some(discarder) => Some(discarder.name()),
                None => None,
            }
        }
}

/// A win goes on record once, and a replay tells how it came about.
pub proof fn law_wins_are_recorded(
    room: RoomStateModel,
    seat: Seat,
    event_seq: u64,
    win_type: WinType,
    winning_tile: Tile,
    discarder_seat: Option<Seat>,
    source_event_seq: u64,
)
    ensures
        is_recorded(
            room,
            room.win_announced(seat, event_seq, win_type, winning_tile, discarder_seat, source_event_seq),
            event_seq,
            Some(seat),
            ReplayEventKind::ActionBroadcast,
            retells_win(win_type, discarder_seat, source_event_seq),
        ),
{
    let told = retells_win(win_type, discarder_seat, source_event_seq);
    let base = room;
    let payload = JsonModel::Object(
        room.action_members(event_seq, seat, "ACTION_KIND_DECLARE_WIN"@)
            .push(("win_type"@, json_text(win_type.name())))
            .push(("winning_tile"@, json_text(winning_tile.name())))
            .push(("discarder_seat"@, opt_seat(discarder_seat)))
            .push(("source_event_seq"@, JsonModel::Unsigned(source_event_seq))),
    );
    assert forall|record: MatchEventRecordModel|
        record.event_type == "action_broadcast"@ && record.event_payload
            == payload implies #[trigger] is_sound_digest(
        record,
        ReplayEventKind::ActionBroadcast,
        told,
    ) by {
        broadcast use lemma_member_added;

        lemma_action_keys();
        lemma_kinds();
    }
    lemma_recorded(
        base,
        "action_broadcast"@,
        event_seq,
        Some(seat),
        payload,
        ReplayEventKind::ActionBroadcast,
        told,
    );
    let stored = base.stored("action_broadcast"@, event_seq, Some(seat), payload);
    lemma_sending_records_nothing(
        base,
        stored,
        Seat::East,
        room.action_frame(
            event_seq,
            seat,
            ActionKind::DeclareWin,
            ActionDetailModel::DeclareWin(
                DeclareWinAction {
                    win_type: win_type.code(),
                    winning_tile: winning_tile.code(),
                    source_seat: (match discarder_seat {
                        Some(discarder) => discarder,
                        None => seat,
                    }).code(),
                    source_event_seq,
                },
            ),
            Seq::empty(),
            seat,
            0,
        ),
        room.action_frame(
            event_seq,
            seat,
            ActionKind::DeclareWin,
            ActionDetailModel::DeclareWin(
                DeclareWinAction {
                    win_type: win_type.code(),
                    winning_tile: winning_tile.code(),
                    source_seat: (match discarder_seat {
                        Some(discarder) => discarder,
                        None => seat,
                    }).code(),
                    source_event_seq,
                },
            ),
            Seq::empty(),
            seat,
            0,
        ),
        event_seq,
        Some(seat),
        ReplayEventKind::ActionBroadcast,
        told,
    );
}

// ---------------------------------------------------------------------------
// Windows
// ---------------------------------------------------------------------------

/// Whether a digest tells of an opened window: what may be claimed from whom, by whom, and until
/// when.
pub open spec fn retells_opening(
    window: ActiveClaimWindowStateModel) -> spec_fn(EventDigestModel,
) -> bool {
    |digest: EventDigestModel|
        {
            &&& payload_number(digest.summary, "action_window_id"@) == Some(window.action_window_id)
            &&& payload_number(digest.summary, "source_event_seq"@) == Some(window.source_event_seq)
            &&& payload_text(digest.summary, "source_seat"@) == Some(window.source_seat.name())
            &&& payload_text(digest.summary, "target_tile"@) == Some(window.target_tile.name())
            &&& payload_text(digest.summary, "trigger_action_kind"@) == Some(window.trigger_action_kind.name())
            &&& is_list_of(digest.summary, "eligible_seats"@, names_of_seats(window.eligible_seats))
            &&& digest.summary.get("options_by_seat"@) == Some(options_payload(window.options_by_seat))
            &&& payload_number(digest.summary, "deadline_unix_ms"@) == Some(window.deadline_unix_ms)
        }
}

/// An opened window goes on record once, under a number of its own, and a replay tells what it is
/// about.
pub proof fn law_opened_windows_are_recorded(room: RoomStateModel)
    requires
        room.window() is Some,
    ensures
        is_recorded(
            room,
            room.window_opening_stored(),
            room.next_event_seq,
            Some(room.window()->0.source_seat),
            ReplayEventKind::ClaimWindowOpened,
            retells_opening(room.window()->0),
        ),
{
    let window = room.window()->0;
    let told = retells_opening(room.window()->0);
    let base = room.numbered();
    let payload = base.window_opened_payload(room.next_event_seq, window);
    assert forall|record: MatchEventRecordModel|
        record.event_type == "claim_window_opened"@ && record.event_payload
            == payload implies #[trigger] is_sound_digest(
        record,
        ReplayEventKind::ClaimWindowOpened,
        told,
    ) by {
        broadcast use lemma_member_added;

        lemma_window_keys();
        lemma_kinds();
        lemma_texts(seat_list(window.eligible_seats)->Array_0, names_of_seats(window.eligible_seats));
    }
    lemma_recorded(
        base,
        "claim_window_opened"@,
        room.next_event_seq,
        Some(room.window()->0.source_seat),
        payload,
        ReplayEventKind::ClaimWindowOpened,
        told,
    );
}

/// Whether a digest tells of a settled window: which one it was, what came of it, and who had said
/// what.
pub open spec fn retells_closing(
    window: ActiveClaimWindowStateModel,
    responses: SeatMap<ClaimResponseModel>,
    winner_seat: Option<Seat>,
    resolution_kind: Seq<char>) -> spec_fn(EventDigestModel,
) -> bool {
    |digest: EventDigestModel|
        {
            &&& payload_number(digest.summary, "action_window_id"@) == Some(window.action_window_id)
            &&& payload_number(digest.summary, "source_event_seq"@) == Some(window.source_event_seq)
            &&& payload_text(digest.summary, "source_seat"@) == Some(window.source_seat.name())
            &&& payload_text(digest.summary, "target_tile"@) == Some(window.target_tile.name())
            &&& payload_text(digest.summary, "resolution_kind"@) == Some(resolution_kind)
            &&& payload_text(digest.summary, "winner_seat"@) == match winner_seat {
                Some(winner) => Some(winner.name()),
                None => None,
            }
            &&& digest.summary.get("responses"@) == Some(responses_payload(responses))
        }
}

/// A settled window goes on record once, under a number of its own, and a replay tells what came of
/// it.
pub proof fn law_settled_windows_are_recorded(
    room: RoomStateModel,
    window: ActiveClaimWindowStateModel,
    responses: SeatMap<ClaimResponseModel>,
    winner_seat: Option<Seat>,
    resolution_kind: Seq<char>,
)
    ensures
        is_recorded(
            room,
            room.window_resolution_stored(window, responses, winner_seat, resolution_kind),
            room.next_event_seq,
            Some(
                match winner_seat {
                    Some(winner) => winner,
                    None => window.source_seat,
                },
            ),
            ReplayEventKind::ClaimWindowResolved,
            retells_closing(window, responses, winner_seat, resolution_kind),
        ),
{
    reveal(RoomStateModel::window_resolution_stored);
    let told = retells_closing(window, responses, winner_seat, resolution_kind);
    let base = room.numbered();
    let payload = base.window_resolved_payload(
        room.next_event_seq,
        window,
        responses,
        winner_seat,
        resolution_kind,
    );
    assert forall|record: MatchEventRecordModel|
        record.event_type == "claim_window_resolved"@ && record.event_payload
            == payload implies #[trigger] is_sound_digest(
        record,
        ReplayEventKind::ClaimWindowResolved,
        told,
    ) by {
        broadcast use lemma_member_added;

        lemma_window_keys();
        lemma_kinds();
    }
    lemma_recorded(
        base,
        "claim_window_resolved"@,
        room.next_event_seq,
        Some(
                match winner_seat {
                    Some(winner) => winner,
                    None => window.source_seat,
                },
            ),
        payload,
        ReplayEventKind::ClaimWindowResolved,
        told,
    );
}

// ---------------------------------------------------------------------------
// Hands and matches
// ---------------------------------------------------------------------------

/// Whether a digest tells of the start of a hand: which hand it is, who deals, whose turn it is,
/// what is left of the walls, and what the players hold.
pub open spec fn retells_start(
    room: RoomStateModel,
    left: u32,
    dead: u32,
    players: Seq<JsonModel>) -> spec_fn(EventDigestModel,
) -> bool {
    |digest: EventDigestModel|
        {
            &&& payload_text(digest.summary, "phase"@) == Some(GamePhase::WaitingDiscard.name())
            &&& payload_text(digest.summary, "prevailing_wind"@) == Some(room.prevailing_wind.name())
            &&& payload_text(digest.summary, "dealer_seat"@) == Some(room.dealer_seat.name())
            &&& payload_text(digest.summary, "current_turn_seat"@) == Some(room.current_turn_seat.name())
            &&& payload_small(digest.summary, "hand_number"@) == Some(room.hand_number)
            &&& payload_small(digest.summary, "dealer_streak"@) == Some(room.dealer_streak)
            &&& payload_small(digest.summary, "wall_tiles_remaining"@) == Some(left)
            &&& payload_small(digest.summary, "dead_wall_tiles_remaining"@) == Some(dead)
            &&& digest.summary.get("players"@) == Some(JsonModel::Array(players))
            &&& digest.round_metadata matches Some(hand) && hand.hand_number == Some(room.hand_number)
                && hand.prevailing_wind == Some(room.prevailing_wind.name()) && hand.dealer_seat
                == Some(room.dealer_seat.name())
        }
}

proof fn lemma_start_retold(room: RoomStateModel, event_seq: u64, record: MatchEventRecordModel)
    requires
        room.phase == GamePhase::WaitingDiscard,
        record.event_type == "round_started"@,
        record.event_payload == room.round_started_payload(event_seq),
    ensures
        is_sound_digest(
            record,
            ReplayEventKind::RoundStarted,
            retells_start(
                room,
                room.wall_tiles_remaining,
                room.dead_wall_tiles_remaining,
                room.start_payload_at(Seat::East) + room.start_payload_at(Seat::South)
                    + room.start_payload_at(Seat::West) + room.start_payload_at(Seat::North),
            ),
        ),
{
    broadcast use lemma_member_added;

    lemma_start_keys();
    lemma_kinds();
}

/// The start of a hand goes on record once, and a replay tells of the hand, the dealer and what
/// everybody was dealt.
pub proof fn law_starts_are_recorded(room: RoomStateModel, outcome: DrawOutcome)
    ensures
        is_recorded(
            room,
            room.round_announced(outcome),
            room.next_event_seq,
            Some(room.dealer_seat),
            ReplayEventKind::RoundStarted,
            retells_start(
                room,
                room.round_announced(outcome).wall_tiles_remaining,
                room.round_announced(outcome).dead_wall_tiles_remaining,
                room.start_payload_at(Seat::East) + room.start_payload_at(Seat::South)
                    + room.start_payload_at(Seat::West) + room.start_payload_at(Seat::North),
            ),
        ),
{
    let base = room.in_phase(GamePhase::WaitingDiscard).numbered().with_last_action(
        draw_record(room.next_event_seq, room.dealer_seat, outcome),
    ).with_wall_counters();
    let payload = base.round_started_payload(room.next_event_seq);
    let players = room.start_payload_at(Seat::East) + room.start_payload_at(Seat::South)
        + room.start_payload_at(Seat::West) + room.start_payload_at(Seat::North);
    let told = retells_start(
        room,
        base.wall_tiles_remaining,
        base.dead_wall_tiles_remaining,
        players,
    );
    assert(players == base.start_payload_at(Seat::East) + base.start_payload_at(Seat::South)
        + base.start_payload_at(Seat::West) + base.start_payload_at(Seat::North));
    assert forall|record: MatchEventRecordModel|
        record.event_type == "round_started"@ && record.event_payload
            == payload implies #[trigger] is_sound_digest(
        record,
        ReplayEventKind::RoundStarted,
        told,
    ) by {
        lemma_start_retold(base, room.next_event_seq, record);
    }
    lemma_recorded(
        base,
        "round_started"@,
        room.next_event_seq,
        Some(room.dealer_seat),
        payload,
        ReplayEventKind::RoundStarted,
        told,
    );
}

/// Whether a digest tells of a settled hand: who won it, how and from whom, what everybody got, and
/// whether nobody won.
pub open spec fn retells_settlement(
    result: HandResultModel,
    left: u32) -> spec_fn(EventDigestModel,
) -> bool {
    |digest: EventDigestModel|
        {
            &&& payload_text(digest.summary, "winner_seat"@) == match result.winner_seat {
                Some(winner) => Some(winner.name()),
                None => None,
            }
            &&& payload_text(digest.summary, "discarder_seat"@) == match result.discarder_seat {
                Some(discarder) => Some(discarder.name()),
                None => None,
            }
            &&& payload_text(digest.summary, "win_type"@) == Some(result.win_type.name())
            &&& payload_text(digest.summary, "winning_tile"@) == Some(result.winning_tile.name())
            &&& digest.summary.get("player_results"@) == Some(results_payload(result.player_results))
            &&& digest.summary.get("fan_details"@) == Some(fans_payload(result.fan_details))
            &&& is_list_of(digest.summary, "settlement_flags"@, names_of_flags(result.settlement_flags))
            &&& payload_small(digest.summary, "wall_tiles_remaining"@) == Some(left)
            &&& payload_flag(digest.summary, "draw_game"@) == Some(result.settlement_flags.contains(SettlementFlag::DrawGame))
        }
}

/// Only one flag is told as a hand that nobody won.
proof fn lemma_draw_game(flags: Seq<SettlementFlag>)
    ensures
        names_of_flags(flags).contains("SETTLEMENT_FLAG_DRAW_GAME"@) == flags.contains(
            SettlementFlag::DrawGame,
        ),
{
    reveal_strlit("SETTLEMENT_FLAG_UNSPECIFIED");
    reveal_strlit("SETTLEMENT_FLAG_SELF_DRAW");
    reveal_strlit("SETTLEMENT_FLAG_DISCARD_WIN");
    reveal_strlit("SETTLEMENT_FLAG_ROB_KONG_WIN");
    reveal_strlit("SETTLEMENT_FLAG_KONG_DRAW_WIN");
    reveal_strlit("SETTLEMENT_FLAG_LAST_TILE_DRAW");
    reveal_strlit("SETTLEMENT_FLAG_LAST_TILE_CLAIM");
    reveal_strlit("SETTLEMENT_FLAG_DRAW_GAME");
    assert("SETTLEMENT_FLAG_SELF_DRAW"@[16] == 'S');
    assert("SETTLEMENT_FLAG_DRAW_GAME"@[16] == 'D');
    let names = names_of_flags(flags);
    let name = "SETTLEMENT_FLAG_DRAW_GAME"@;
    if names.contains(name) {
        let i = choose|i: int| 0 <= i < names.len() && names[i] == name;
        assert(flags[i].name() == name);
        assert(flags[i] == SettlementFlag::DrawGame);
    }
    if flags.contains(SettlementFlag::DrawGame) {
        let i = choose|i: int| 0 <= i < flags.len() && flags[i] == SettlementFlag::DrawGame;
        assert(names[i] == name);
    }
}

/// The settlement of a hand goes on record once, and a replay tells what came of the hand.
pub proof fn law_settlements_are_recorded(room: RoomStateModel, result: HandResultModel)
    ensures
        is_recorded(
            room,
            room.settlement_announced(result),
            room.next_event_seq,
            result.winner_seat,
            ReplayEventKind::RoundSettlement,
            retells_settlement(result, room.wall_tiles_remaining),
        ),
{
    let told = retells_settlement(result, room.wall_tiles_remaining);
    let base = room.numbered();
    let payload = base.settlement_payload(room.next_event_seq, result);
    assert forall|record: MatchEventRecordModel|
        record.event_type == "round_settlement"@ && record.event_payload
            == payload implies #[trigger] is_sound_digest(
        record,
        ReplayEventKind::RoundSettlement,
        told,
    ) by {
        broadcast use lemma_member_added;

        lemma_settlement_keys();
        lemma_kinds();
        lemma_texts(
            flag_names(result.settlement_flags)->Array_0,
            names_of_flags(result.settlement_flags),
        );
        lemma_draw_game(result.settlement_flags);
    }
    lemma_recorded(
        base,
        "round_settlement"@,
        room.next_event_seq,
        result.winner_seat,
        payload,
        ReplayEventKind::RoundSettlement,
        told,
    );
    let stored = base.stored("round_settlement"@, room.next_event_seq, result.winner_seat, payload);
    lemma_sending_records_nothing(
        base,
        stored,
        Seat::East,
        base.settlement_frame(room.next_event_seq, result),
        base.settlement_frame(room.next_event_seq, result),
        room.next_event_seq,
        result.winner_seat,
        ReplayEventKind::RoundSettlement,
        told,
    );
}

/// Whether a digest tells of the end of a match: when it was, and who came in which place.
pub open spec fn retells_result(
    summary: MatchSettlementSummaryModel) -> spec_fn(EventDigestModel,
) -> bool {
    |digest: EventDigestModel|
        {
            &&& payload_number(digest.summary, "finished_at_unix_ms"@) == Some(summary.finished_at_unix_ms)
            &&& digest.summary.get("standings"@) == Some(standings_payload(summary.standings))
        }
}

/// The end of a match goes on record once, and a replay tells who came in which place.
pub proof fn law_results_are_recorded(room: RoomStateModel, summary: MatchSettlementSummaryModel)
    ensures
        is_recorded(
            room,
            room.match_announced(summary),
            summary.event_seq,
            None,
            ReplayEventKind::MatchSettlement,
            retells_result(summary),
        ),
{
    let told = retells_result(summary);
    let base = room;
    let payload = room.match_payload(summary);
    assert forall|record: MatchEventRecordModel|
        record.event_type == "match_settlement"@ && record.event_payload
            == payload implies #[trigger] is_sound_digest(
        record,
        ReplayEventKind::MatchSettlement,
        told,
    ) by {
        broadcast use lemma_member_added;

        lemma_result_keys();
        lemma_kinds();
    }
    lemma_recorded(
        base,
        "match_settlement"@,
        summary.event_seq,
        None,
        payload,
        ReplayEventKind::MatchSettlement,
        told,
    );
    let stored = base.stored("match_settlement"@, summary.event_seq, None, payload);
    lemma_sending_records_nothing(
        base,
        stored,
        Seat::East,
        match_settlement_frame(room.room_id, room.match_id, summary),
        match_settlement_frame(room.room_id, room.match_id, summary),
        summary.event_seq,
        None,
        ReplayEventKind::MatchSettlement,
        told,
    );
}

} // verus!
