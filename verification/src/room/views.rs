//! What players are shown of the table.

use vstd::prelude::*;

use crate::collections::{group_seat_map, SeatMap};
use crate::proto::client::{
    law_game_phase_codes, law_player_status_codes, law_seat_codes, law_sync_reason_codes,
    law_tile_codes, ActionKind, GamePhase, GameSnapshotModel, PlayerStateModel, PlayerStatus, Seat,
    ServerFrameModel, ServerPayloadModel, SyncReason, Tile,
};
use crate::room::state::{RoomOutputModel, RoomStateModel};
use crate::text::decimal;

verus! {

broadcast use group_seat_map;

/// The snapshot that a frame carries.
pub open spec fn snapshot_in(frame: ServerFrameModel) -> GameSnapshotModel {
    frame.payload->0->SyncState_0.snapshot->0
}

/// Whether some numbers stand for some tiles, one for one.
pub open spec fn stand_for(codes: Seq<i32>, tiles: Seq<Tile>) -> bool {
    &&& codes.len() == tiles.len()
    &&& forall|i: int| 0 <= i < tiles.len() ==> Tile::decode(#[trigger] codes[i]) == Some(tiles[i])
}

/// Whether an entry of a snapshot shows the player of a seat: who it is and how they stand, and of
/// the hand everything that lies on the table, and how many tiles do not.
pub open spec fn shows_player(room: RoomStateModel, entry: PlayerStateModel, seat: Seat) -> bool {
    &&& room.players_by_seat.at(seat) matches Some(player) && {
        &&& entry.user_id == player.user_id
        &&& entry.display_name == player.display_name
        &&& Seat::decode(entry.seat) == Some(player.seat)
        &&& PlayerStatus::decode(entry.status) == Some(player.status)
        &&& entry.score == player.score
        &&& entry.is_dealer <==> player.seat == room.dealer_seat
        &&& entry.is_connected == player.connected
        &&& entry.auto_play_enabled == player.auto_play_enabled
    }
    &&& match room.player_round_state.at(seat) {
        Some(hand) => {
            &&& entry.melds == hand.melds
            &&& entry.discards == hand.discards
            &&& stand_for(entry.flowers, hand.flowers)
            &&& entry.replacement_draw_count == hand.replacement_draw_count
            &&& hand.concealed_tiles.len() < u32::MAX ==> entry.concealed_tile_count
                == hand.concealed_tiles.len() + (if hand.drawn_tile is Some {
                1int
            } else {
                0int
            })
        },
        None => entry.melds.len() == 0 && entry.discards.len() == 0 && entry.flowers.len() == 0
            && entry.concealed_tile_count == 0,
    }
}

/// Whether an entry of a snapshot shows some seated player.
pub open spec fn shows_somebody(room: RoomStateModel, entry: PlayerStateModel) -> bool {
    exists|seat: Seat| seat != Seat::Unspecified && #[trigger] shows_player(room, entry, seat)
}

proof fn lemma_shown(room: RoomStateModel, seat: Seat)
    ensures
        match room.players_by_seat.at(seat) {
            Some(_) => room.public_at(seat).len() == 1 && shows_player(
                room,
                room.public_at(seat)[0],
                seat,
            ),
            None => room.public_at(seat).len() == 0,
        },
{
    if let Some(player) = room.players_by_seat.at(seat) {
        law_seat_codes(player.seat, player.seat.code());
        law_player_status_codes(player.status, player.status.code());
        let entry = room.public_at(seat)[0];
        if let Some(hand) = room.player_round_state.at(seat) {
            assert forall|i: int| 0 <= i < hand.flowers.len() implies Tile::decode(
                #[trigger] entry.flowers[i],
            ) == Some(hand.flowers[i]) by {
                law_tile_codes(hand.flowers[i], hand.flowers[i].code());
            }
        }
    }
}

/// Whoever a snapshot is for, it shows every seated player, with the melds, discards and flowers of
/// their hand, and nobody else; how the match stands; and whose turn it is.
pub proof fn law_snapshot_shows_the_table(
    room: RoomStateModel,
    recipient: Seat,
    event_seq: u64,
    reason: SyncReason,
    now_ms: u64,
    seat: Seat,
)
    requires
        seat != Seat::Unspecified,
    ensures
        ({
            let frame = room.sync_frame(recipient, event_seq, reason, now_ms);
            let snapshot = snapshot_in(frame);
            &&& frame.payload matches Some(ServerPayloadModel::SyncState(sync))
                && sync.snapshot is Some && sync.room_id == room.room_id && sync.match_id
                == room.match_id && sync.round_id == "hand-"@ + decimal(room.hand_number as nat)
                && SyncReason::decode(sync.reason) == Some(reason) && sync.server_time_ms == now_ms
            &&& frame.event_seq == event_seq && snapshot.latest_event_seq == event_seq
            &&& room.players_by_seat.at(seat) is Some ==> exists|i: int|
                0 <= i < snapshot.players.len() && shows_player(
                    room,
                    #[trigger] snapshot.players[i],
                    seat,
                )
            &&& forall|i: int|
                0 <= i < snapshot.players.len() ==> shows_somebody(
                    room,
                    #[trigger] snapshot.players[i],
                )
            &&& snapshot.players.len() == crate::room::match_flow::seated_count(room)
            &&& snapshot.room_config == Some(room.room_config)
            &&& GamePhase::decode(snapshot.phase) == Some(room.phase)
            &&& Seat::decode(snapshot.self_seat) == Some(recipient)
            &&& Seat::decode(snapshot.prevailing_wind) == Some(room.prevailing_wind)
            &&& Seat::decode(snapshot.dealer_seat) == Some(room.dealer_seat)
            &&& Seat::decode(snapshot.current_turn_seat) == Some(room.current_turn_seat)
            &&& snapshot.hand_number == room.hand_number
            &&& snapshot.dealer_streak == room.dealer_streak
            &&& snapshot.wall_tiles_remaining == room.wall_tiles_remaining
            &&& snapshot.dead_wall_tiles_remaining == room.dead_wall_tiles_remaining
        }),
{
    law_game_phase_codes(room.phase, room.phase.code());
    law_sync_reason_codes(reason, reason.code());
    law_seat_codes(recipient, recipient.code());
    law_seat_codes(room.prevailing_wind, room.prevailing_wind.code());
    law_seat_codes(room.dealer_seat, room.dealer_seat.code());
    law_seat_codes(room.current_turn_seat, room.current_turn_seat.code());
    lemma_shown(room, Seat::East);
    lemma_shown(room, Seat::South);
    lemma_shown(room, Seat::West);
    lemma_shown(room, Seat::North);
    let snapshot = snapshot_in(room.sync_frame(recipient, event_seq, reason, now_ms));
    let players = snapshot.players;
    let east = room.public_at(Seat::East);
    let south = room.public_at(Seat::South);
    let west = room.public_at(Seat::West);
    let north = room.public_at(Seat::North);
    assert(players =~= east + south + west + north);
    assert forall|i: int| 0 <= i < players.len() implies shows_somebody(
        room,
        #[trigger] players[i],
    ) by {
        if i < east.len() {
            assert(shows_player(room, players[i], Seat::East));
        } else if i < east.len() + south.len() {
            assert(shows_player(room, players[i], Seat::South));
        } else if i < east.len() + south.len() + west.len() {
            assert(shows_player(room, players[i], Seat::West));
        } else {
            assert(shows_player(room, players[i], Seat::North));
        }
    }
    if room.players_by_seat.at(seat) is Some {
        let place = if seat == Seat::East {
            0int
        } else if seat == Seat::South {
            east.len() as int
        } else if seat == Seat::West {
            (east.len() + south.len()) as int
        } else {
            (east.len() + south.len() + west.len()) as int
        };
        assert(shows_player(room, players[place], seat));
    }
    assert(players.len() == crate::room::match_flow::seated_count(room)) by {
        reveal(SeatMap::at);
    }
}

/// A snapshot shows the open claim window, if there is one, to everybody: what it is about, who may
/// answer and until when. It offers its recipient their own options as long as they have not
/// answered, and nothing once they have.
pub proof fn law_snapshot_shows_the_window(
    room: RoomStateModel,
    recipient: Seat,
    event_seq: u64,
    reason: SyncReason,
    now_ms: u64,
)
    ensures
        ({
            let snapshot = snapshot_in(room.sync_frame(recipient, event_seq, reason, now_ms));
            match room.window() {
                None => snapshot.active_claim_window is None && snapshot.action_deadline_unix_ms == 0,
                Some(window) => snapshot.active_claim_window matches Some(shown) && {
                    &&& shown.action_window_id == window.action_window_id
                    &&& shown.source_event_seq == window.source_event_seq
                    &&& Seat::decode(shown.source_seat) == Some(window.source_seat)
                    &&& Tile::decode(shown.target_tile) == Some(window.target_tile)
                    &&& ActionKind::decode(shown.trigger_action_kind) == Some(
                        window.trigger_action_kind,
                    )
                    &&& shown.deadline_unix_ms == window.deadline_unix_ms
                    &&& snapshot.action_deadline_unix_ms == window.deadline_unix_ms
                    &&& shown.eligible_seats.len() == window.eligible_seats.len()
                    &&& forall|i: int|
                        0 <= i < window.eligible_seats.len() ==> Seat::decode(
                            #[trigger] shown.eligible_seats[i],
                        ) == Some(window.eligible_seats[i])
                    &&& window.responded_seats.at(recipient) is Some ==> shown.options.len() == 0
                    &&& window.responded_seats.at(recipient) is None ==> (
                    match window.options_by_seat.at(recipient) {
                        Some(options) => shown.options == options,
                        None => shown.options.len() == 0,
                    })
                },
            }
        }),
{
    if let Some(window) = room.window() {
        law_seat_codes(window.source_seat, window.source_seat.code());
        law_tile_codes(window.target_tile, window.target_tile.code());
        crate::proto::client::law_action_kind_codes(
            window.trigger_action_kind,
            window.trigger_action_kind.code(),
        );
        let shown = snapshot_in(
            room.sync_frame(recipient, event_seq, reason, now_ms),
        ).active_claim_window->0;
        assert forall|i: int| 0 <= i < window.eligible_seats.len() implies Seat::decode(
            #[trigger] shown.eligible_seats[i],
        ) == Some(window.eligible_seats[i]) by {
            law_seat_codes(window.eligible_seats[i], window.eligible_seats[i].code());
        }
    }
}

/// Whether an output is the snapshot for a seat, on the connection of its player.
pub open spec fn syncs(
    room: RoomStateModel,
    seat: Seat,
    reason: SyncReason,
    now_ms: u64,
    output: RoomOutputModel,
) -> bool {
    room.reachable(seat) matches Some(connection_id) && output == RoomOutputModel::Send(
        connection_id,
        room.sync_frame(seat, room.next_event_seq, reason, now_ms),
    )
}

/// Whether an output is the snapshot for some seat.
pub open spec fn syncs_somebody(
    room: RoomStateModel,
    reason: SyncReason,
    now_ms: u64,
    output: RoomOutputModel,
) -> bool {
    exists|seat: Seat| #[trigger] syncs(room, seat, reason, now_ms, output)
}

/// Whether a seat is among those that were sent their snapshot.
spec fn was_synced(
    room: RoomStateModel,
    after: RoomStateModel,
    seat: Seat,
    reason: SyncReason,
    now_ms: u64,
) -> bool {
    exists|i: int|
        room.outbox.len() <= i < after.outbox.len() && syncs(
            room,
            seat,
            reason,
            now_ms,
            #[trigger] after.outbox[i],
        )
}

/// Whether the room differs by its number and by snapshots in the outbox alone.
spec fn synced_so_far(room: RoomStateModel, before: RoomStateModel, reason: SyncReason, now_ms: u64) -> bool {
    &&& before == (RoomStateModel { outbox: before.outbox, ..room.numbered() })
    &&& room.outbox.is_prefix_of(before.outbox)
    &&& forall|i: int|
        room.outbox.len() <= i < before.outbox.len() ==> syncs_somebody(
            room,
            reason,
            now_ms,
            #[trigger] before.outbox[i],
        )
}

proof fn lemma_one_more_synced(
    room: RoomStateModel,
    before: RoomStateModel,
    seat: Seat,
    reason: SyncReason,
    now_ms: u64,
)
    requires
        synced_so_far(room, before, reason, now_ms),
    ensures
        ({
            let after = before.synced_seat(seat, room.next_event_seq, reason, now_ms);
            &&& synced_so_far(room, after, reason, now_ms)
            &&& forall|told: Seat|
                was_synced(room, before, told, reason, now_ms) ==> #[trigger] was_synced(
                    room,
                    after,
                    told,
                    reason,
                    now_ms,
                )
            &&& room.runtime_mode is Production && room.reachable(seat) is Some ==> was_synced(
                room,
                after,
                seat,
                reason,
                now_ms,
            )
        }),
{
    let after = before.synced_seat(seat, room.next_event_seq, reason, now_ms);
    assert(before.reachable(seat) == room.reachable(seat));
    let frame = before.sync_frame(seat, room.next_event_seq, reason, now_ms);
    assert(frame == room.sync_frame(seat, room.next_event_seq, reason, now_ms)) by {
        assert(before.public_at(Seat::East) == room.public_at(Seat::East));
        assert(before.public_at(Seat::South) == room.public_at(Seat::South));
        assert(before.public_at(Seat::West) == room.public_at(Seat::West));
        assert(before.public_at(Seat::North) == room.public_at(Seat::North));
    }
    assert forall|i: int| room.outbox.len() <= i < after.outbox.len() implies syncs_somebody(
        room,
        reason,
        now_ms,
        #[trigger] after.outbox[i],
    ) by {
        if i < before.outbox.len() {
            assert(after.outbox[i] == before.outbox[i]);
        } else {
            assert(syncs(room, seat, reason, now_ms, after.outbox[i]));
        }
    }
    assert forall|told: Seat|
        was_synced(room, before, told, reason, now_ms) implies #[trigger] was_synced(
        room,
        after,
        told,
        reason,
        now_ms,
    ) by {
        let i = choose|i: int|
            room.outbox.len() <= i < before.outbox.len() && syncs(
                room,
                told,
                reason,
                now_ms,
                #[trigger] before.outbox[i],
            );
        assert(after.outbox[i] == before.outbox[i]);
    }
    if room.runtime_mode is Production && room.reachable(seat) is Some {
        assert(syncs(room, seat, reason, now_ms, after.outbox[before.outbox.len() as int]));
    }
}

/// A round of snapshots sends every seated player who can be reached the snapshot for their own
/// seat, all under one event number, and sends nothing else; except in a load test, which sends
/// nothing.
pub proof fn law_snapshots_reach_everybody(
    room: RoomStateModel,
    reason: SyncReason,
    now_ms: u64,
    seat: Seat,
)
    requires
        seat != Seat::Unspecified,
    ensures
        ({
            let after = room.synced(reason, now_ms);
            &&& room.outbox.is_prefix_of(after.outbox)
            &&& forall|i: int|
                room.outbox.len() <= i < after.outbox.len() ==> syncs_somebody(
                    room,
                    reason,
                    now_ms,
                    #[trigger] after.outbox[i],
                )
            &&& room.runtime_mode is Production && room.reachable(seat) is Some ==> exists|i: int|
                room.outbox.len() <= i < after.outbox.len() && syncs(
                    room,
                    seat,
                    reason,
                    now_ms,
                    #[trigger] after.outbox[i],
                )
            &&& room.can_number(1) ==> after.next_event_seq == room.next_event_seq + 1
        }),
{
    reveal(RoomStateModel::synced);
    let event_seq = room.next_event_seq;
    let numbered = room.numbered();
    let a = numbered.synced_seat(Seat::East, event_seq, reason, now_ms);
    let b = a.synced_seat(Seat::South, event_seq, reason, now_ms);
    let c = b.synced_seat(Seat::West, event_seq, reason, now_ms);
    let d = c.synced_seat(Seat::North, event_seq, reason, now_ms);
    lemma_one_more_synced(room, numbered, Seat::East, reason, now_ms);
    lemma_one_more_synced(room, a, Seat::South, reason, now_ms);
    lemma_one_more_synced(room, b, Seat::West, reason, now_ms);
    lemma_one_more_synced(room, c, Seat::North, reason, now_ms);
    if room.runtime_mode is Production && room.reachable(seat) is Some {
        assert(was_synced(room, d, seat, reason, now_ms));
    }
}

} // verus!
