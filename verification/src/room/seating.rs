//! Who sits at a table, who is ready, and who comes and goes.

use vstd::prelude::*;

use crate::collections::{group_seat_map, SeatMap};
use crate::proto::client::{
    GamePhase, PlayerStatus, RejectCode, ResumeSessionRequestModel, Seat, ServerPayloadModel,
};
use crate::room::basics::group_announcing_keeps;
use crate::room::frames::lemma_synced_keeps;
use crate::room::handlers::lemma_sent_to_all_follows;
use crate::room::rounds::{lemma_next_wall_len, lemma_round_started_keeps};
use crate::room::state::{AuthorizedJoinModel, PlayerSlotModel, RoomOutputModel, RoomStateModel};
use crate::room::stock::{is_full_wall, law_full_walls_start_hands};

verus! {

broadcast use {group_announcing_keeps, lemma_synced_keeps, group_seat_map};

/// Whether nothing changed but what was said and how many numbers were used.
pub open spec fn nothing_changed(before: RoomStateModel, after: RoomStateModel) -> bool {
    after == (RoomStateModel {
        outbox: after.outbox,
        next_event_seq: after.next_event_seq,
        ..before
    })
}

// ---------------------------------------------------------------------------
// Joining
// ---------------------------------------------------------------------------

/// Whether an output answers a request to join, on a connection: granted or not, and why not, with
/// the seat and the token for coming back.
pub open spec fn answers_join(
    output: RoomOutputModel,
    connection_id: Seq<char>,
    request_id: Seq<char>,
    accepted: bool,
    reject_code: RejectCode,
    seat: Seat,
    resume_token: Seq<char>,
) -> bool {
    match output {
        RoomOutputModel::Send(told, frame) => told == connection_id && (match frame.payload {
            Some(ServerPayloadModel::JoinRoom(answer)) => {
                &&& answer.request_id == request_id
                &&& answer.accepted == accepted
                &&& answer.reject_code == reject_code.code()
                &&& answer.seat == seat.code()
                &&& answer.connection_id == connection_id
                &&& answer.resume_token == resume_token
            },
            _ => false,
        }),
        _ => false,
    }
}

/// A user who has no seat in the room yet gets the seat that they were let in for, if nobody sits
/// there: with a fresh score, on the connection that asked, and with an empty hand. Nobody else is
/// touched, and they are told their seat and a token for coming back. A user who has a seat, or whose
/// seat is taken, changes nothing and is told why.
pub proof fn law_joining_takes_a_free_seat(
    room: RoomStateModel,
    request_id: Seq<char>,
    connection_id: Seq<char>,
    join: AuthorizedJoinModel,
    now_ms: u64,
    other: Seat,
)
    ensures
        ({
            let after = room.join_requested(request_id, connection_id, join, now_ms);
            let known = room.user_to_seat.contains_key(join.user_id);
            let taken = room.players_by_seat.at(join.seat) is Some;
            let first = after.outbox[room.outbox.len() as int];
            &&& known ==> nothing_changed(room, after) && (room.runtime_mode is Production
                ==> after.outbox.len() == room.outbox.len() + 1 && answers_join(
                first,
                connection_id,
                request_id,
                false,
                RejectCode::AlreadyJoined,
                room.user_to_seat[join.user_id],
                Seq::empty(),
            ))
            &&& !known && taken ==> nothing_changed(room, after) && (room.runtime_mode is Production
                ==> after.outbox.len() == room.outbox.len() + 1 && answers_join(
                first,
                connection_id,
                request_id,
                false,
                RejectCode::SeatUnavailable,
                join.seat,
                Seq::empty(),
            ))
            &&& !known && !taken ==> {
                let player = after.players_by_seat.at(join.seat)->0;
                let hand = after.player_round_state.at(join.seat)->0;
                &&& after.players_by_seat.at(join.seat) is Some
                &&& player.user_id == join.user_id && player.display_name == join.display_name
                    && player.seat == join.seat
                &&& player.status == PlayerStatus::Joined && player.score == 25_000
                    && player.connected && !player.auto_play_enabled && player.connection_id == Some(
                    connection_id,
                )
                &&& after.user_to_seat.contains_key(join.user_id)
                    && after.user_to_seat[join.user_id] == join.seat
                &&& after.connection_to_user.contains_key(connection_id)
                    && after.connection_to_user[connection_id] == join.user_id
                &&& after.player_round_state.at(join.seat) is Some && hand.concealed_tiles.len() == 0
                    && hand.drawn_tile is None && hand.melds.len() == 0 && hand.discards.len() == 0
                    && hand.flowers.len() == 0
                &&& other != join.seat ==> after.players_by_seat.at(other)
                    == room.players_by_seat.at(other) && after.player_round_state.at(other)
                    == room.player_round_state.at(other)
                &&& after.phase == room.phase && after.round_runtime == room.round_runtime
                &&& room.runtime_mode is Production ==> after.outbox.len() > room.outbox.len()
                    && answers_join(
                    first,
                    connection_id,
                    request_id,
                    true,
                    RejectCode::Unspecified,
                    join.seat,
                    player.resume_token,
                )
            }
        }),
{
    reveal(RoomStateModel::join_requested);
    let known = room.user_to_seat.contains_key(join.user_id);
    let taken = room.players_by_seat.at(join.seat) is Some;
    if !known && !taken && room.runtime_mode is Production {
        let answered = room.with_player(join, connection_id).join_answered(
            request_id,
            connection_id,
            true,
            RejectCode::Unspecified,
            join.seat,
            crate::room::handlers::resume_token_of(room.room_id, join.user_id),
            "joined room task successfully"@,
        );
        let reason = crate::proto::client::SyncReason::ServerResync;
        crate::room::views::law_snapshots_reach_everybody(answered, reason, now_ms, Seat::East);
        let synced = answered.synced(reason, now_ms);
        let place = room.outbox.len() as int;
        assert(synced.outbox[place] == answered.outbox[place]);
        let player = synced.players_by_seat.at(join.seat)->0;
        lemma_sent_to_all_follows(
            synced.numbered(),
            crate::room::frames::connection_changed_frame(
                synced.next_event_seq,
                synced.room_id,
                synced.match_id,
                player.user_id,
                join.seat,
                player.status,
                true,
                now_ms,
            ),
            place,
        );
    }
}

// ---------------------------------------------------------------------------
// Getting ready
// ---------------------------------------------------------------------------

/// Whether a seat has a player who is ready, once the player of a seat has said whether they are.
pub open spec fn is_ready_after(room: RoomStateModel, seat: Seat, sender: Seat, ready: bool) -> bool {
    room.players_by_seat.at(seat) matches Some(player) && (if seat == sender {
        ready
    } else {
        player.status == PlayerStatus::Ready
    })
}

/// Whether all four seats have players who are ready, once one has said whether they are.
pub open spec fn all_ready_after(room: RoomStateModel, sender: Seat, ready: bool) -> bool {
    is_ready_after(room, Seat::East, sender, ready) && is_ready_after(
        room,
        Seat::South,
        sender,
        ready,
    ) && is_ready_after(room, Seat::West, sender, ready) && is_ready_after(
        room,
        Seat::North,
        sender,
        ready,
    )
}

/// A hand starts just when all four seats have players and all of them are ready: it is then the
/// dealer's turn, and everybody plays. Until then the room goes on waiting, a player's word changes
/// that player's mark alone, and no hand changes. A word from a connection without a seat changes
/// nothing.
pub proof fn law_hands_start_when_all_are_ready(
    room: RoomStateModel,
    request_id: Seq<char>,
    connection_id: Seq<char>,
    ready: bool,
    now_ms: u64,
    other: Seat,
)
    requires
        room.room_config.seat_count == 4,
        room.players_by_seat.at(Seat::Unspecified) is None,
        room.dealer_seat != Seat::Unspecified,
        room.wall_fits(),
        is_full_wall(room.next_wall(now_ms), room.room_config.enable_flower_tiles),
    ensures
        ({
            let after = room.ready_requested(request_id, connection_id, ready, now_ms);
            match crate::room::requests::sender_seat(room, connection_id) {
                None => after == room,
                Some(sender) => {
                    &&& all_ready_after(room, sender, ready) ==> {
                        &&& after.phase == GamePhase::WaitingDiscard
                        &&& after.current_turn_seat == room.dealer_seat
                        &&& after.round_runtime is Some
                        &&& other != Seat::Unspecified ==> (after.players_by_seat.at(
                            other,
                        ) matches Some(player) && player.status == PlayerStatus::Playing)
                    }
                    &&& !all_ready_after(room, sender, ready) ==> {
                        &&& after.phase == GamePhase::Lobby
                        &&& after.player_round_state == room.player_round_state
                        &&& after.round_runtime == room.round_runtime
                        &&& other != sender ==> after.players_by_seat.at(other)
                            == room.players_by_seat.at(other)
                        &&& room.players_by_seat.at(sender) matches Some(player) ==> (
                        after.players_by_seat.at(sender) matches Some(marked) && marked == (
                        PlayerSlotModel {
                            status: if ready {
                                PlayerStatus::Ready
                            } else {
                                PlayerStatus::Joined
                            },
                            ..player
                        }))
                    }
                },
            }
        }),
{
    reveal(RoomStateModel::ready_requested);
    if let Some(sender) = crate::room::requests::sender_seat(room, connection_id) {
        let marked = room.with_ready_mark(sender, ready);
        lemma_marked(room, sender, ready);
        if marked.all_ready() {
            let wall = marked.next_wall(now_ms);
            lemma_next_wall_len(marked, now_ms);
            lemma_round_started_keeps(marked, wall);
            law_full_walls_start_hands(marked, wall);
            if other != Seat::Unspecified {
                lemma_all_play(marked, other);
                assert(marked.players_by_seat.at(other) is Some);
            }
            lemma_wall_is_long(marked, wall);
        }
    }
}

proof fn lemma_wall_is_long(room: RoomStateModel, wall: Seq<crate::proto::client::Tile>)
    requires
        is_full_wall(wall, room.room_config.enable_flower_tiles),
    ensures
        wall.len() > crate::room::state::DEAD_WALL_TILE_COUNT,
{
    broadcast use vstd::seq_lib::group_to_multiset_ensures;
    assert(wall.len() == wall.to_multiset().len());
    let standard = crate::tiles::standard_wall(room.room_config.enable_flower_tiles);
    assert(standard.len() == standard.to_multiset().len());
}

proof fn lemma_marked(room: RoomStateModel, sender: Seat, ready: bool)
    requires
        room.room_config.seat_count == 4,
        room.players_by_seat.at(Seat::Unspecified) is None,
    ensures
        room.with_ready_mark(sender, ready).all_ready() <==> all_ready_after(room, sender, ready),
        all_ready_after(room, sender, ready) ==> forall|seat: Seat|
            seat != Seat::Unspecified ==> (#[trigger] room.with_ready_mark(
                sender,
                ready,
            ).players_by_seat.at(seat)) is Some,
{
    reveal(SeatMap::at);
    reveal(SeatMap::with);
}

proof fn lemma_all_play(room: RoomStateModel, seat: Seat)
    ensures
        crate::room::rounds::all_playing(room.players_by_seat).at(seat)
            == crate::room::rounds::playing(room.players_by_seat.at(seat)),
{
    reveal(SeatMap::at);
}

// ---------------------------------------------------------------------------
// Coming back and being let go
// ---------------------------------------------------------------------------

/// Whether an output tells a connection without a seat that its request was turned down, and why.
pub open spec fn turns_away(
    output: RoomOutputModel,
    connection_id: Seq<char>,
    request_id: Seq<char>,
    reject_code: RejectCode,
) -> bool {
    crate::room::requests::tells_refusal(output, connection_id, request_id, reject_code)
}

/// Whoever wants a seat back and has none in the room, or does not have the seat's token, changes
/// nothing and is told why.
pub proof fn law_seats_are_given_back_for_their_token(
    room: RoomStateModel,
    request_id: Seq<char>,
    connection_id: Seq<char>,
    request: ResumeSessionRequestModel,
    now_ms: u64,
)
    ensures
        ({
            let after = room.resume_requested(request_id, connection_id, request, now_ms);
            let known = room.user_to_seat.contains_key(request.user_id);
            let player = room.players_by_seat.at(room.user_to_seat[request.user_id]);
            &&& !known ==> nothing_changed(room, after) && (room.runtime_mode is Production
                ==> after.outbox.len() == room.outbox.len() + 1 && turns_away(
                after.outbox.last(),
                connection_id,
                request_id,
                RejectCode::NotInRoom,
            ))
            &&& known && (player matches Some(player) && player.resume_token
                != request.resume_token) ==> nothing_changed(room, after) && (room.runtime_mode
                is Production ==> after.outbox.len() == room.outbox.len() + 1 && turns_away(
                after.outbox.last(),
                connection_id,
                request_id,
                RejectCode::AuthFailed,
            ))
        }),
{
    reveal(RoomStateModel::resume_requested);
}

/// A player is let go while the room waits for its match, and at no other time: the seat, the hand and
/// the connection are free again, and nobody else is touched.
pub proof fn law_players_are_let_go_before_the_match(
    room: RoomStateModel,
    user_id: Seq<char>,
    now_ms: u64,
    other: Seat,
)
    ensures
        ({
            let after = room.removal_requested(user_id, now_ms);
            let seat = room.user_to_seat[user_id];
            let goes = room.phase == GamePhase::Lobby && room.user_to_seat.contains_key(user_id);
            &&& !goes ==> after == room
            &&& goes ==> {
                &&& after.players_by_seat.at(seat) is None
                &&& after.player_round_state.at(seat) is None
                &&& !after.user_to_seat.contains_key(user_id)
                &&& other != seat ==> after.players_by_seat.at(other) == room.players_by_seat.at(
                    other,
                ) && after.player_round_state.at(other) == room.player_round_state.at(other)
                &&& room.players_by_seat.at(seat) matches Some(player)
                    ==> player.connection_id matches Some(connection_id)
                    ==> !after.connection_to_user.contains_key(connection_id)
                &&& after.phase == GamePhase::Lobby
            }
        }),
{
    reveal(RoomStateModel::removal_requested);
}

/// A player who switches automatic play on or off changes their own switch and nothing else.
pub proof fn law_auto_play_is_ones_own(
    room: RoomStateModel,
    seat: Seat,
    enabled: bool,
    now_ms: u64,
    other: Seat,
)
    ensures
        ({
            let after = room.auto_play_requested(seat, enabled, now_ms);
            &&& room.players_by_seat.at(seat) matches Some(player) ==> after.players_by_seat.at(seat)
                == Some(PlayerSlotModel { auto_play_enabled: enabled, ..player })
            &&& other != seat ==> after.players_by_seat.at(other) == room.players_by_seat.at(other)
            &&& after.player_round_state == room.player_round_state && after.round_runtime
                == room.round_runtime && after.phase == room.phase && after.current_turn_seat
                == room.current_turn_seat && after.match_runtime == room.match_runtime
        }),
{
}

/// The time of a window that is not open, or not the open one, has no effect when it is over.
pub proof fn law_other_windows_do_not_time_out(room: RoomStateModel, action_window_id: u64, now_ms: u64)
    requires
        !(room.window() matches Some(window) && window.action_window_id == action_window_id),
    ensures
        room.window_timed_out(action_window_id, now_ms).0 == room,
        room.window_timed_out(action_window_id, now_ms).1 is None,
{
    reveal(RoomStateModel::window_timed_out);
}

/// The time of the open window is over for everybody who has not answered it: it is settled as if
/// they had passed.
pub proof fn law_windows_time_out(room: RoomStateModel, now_ms: u64)
    requires
        room.window() is Some,
    ensures
        room.window_timed_out(room.window()->0.action_window_id, now_ms)
            == room.window_settled_if_ready(true, now_ms),
{
    reveal(RoomStateModel::window_timed_out);
}

} // verus!
