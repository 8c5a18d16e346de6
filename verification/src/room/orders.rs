//! What a room does when it is told to.

use vstd::prelude::*;

use crate::collections::group_seat_map;
use crate::proto::client::{
    GamePhase, JoinRoomRequestModel, PlayerActionRequestModel, PlayerStatus, ReadyRequest,
    RejectCode, ResumeSessionRequestModel, Seat, ServerPayloadModel, SyncReason,
};
use crate::room::basics::group_announcing_keeps;
use crate::room::commands::RoomCommandModel;
use crate::room::frames::{connection_changed_frame, lemma_synced_keeps};
use crate::room::handlers::lemma_sent_to_all_follows;
use crate::room::load_test::LoadTestRoomSpecModel;
use crate::room::payoff::law_matches_end_with_the_last_hand;
use crate::room::requests::{law_actions_must_be_current, sender_seat, turned_down};
use crate::room::seating::{
    law_joining_takes_a_free_seat, law_players_are_let_go_before_the_match,
    law_seats_are_given_back_for_their_token, law_windows_time_out, turns_away,
};
use crate::room::state::{
    AuthorizedJoinModel, MatchSettlementSummaryModel, RoomOutputModel, RoomStateModel,
};

verus! {

broadcast use {group_announcing_keeps, group_seat_map, lemma_synced_keeps};

/// A room that is told to let somebody in seats them, where the seat is free and they have none; one that
/// is told to let a player go does, before the match. Neither asks the rule engine anything.
pub proof fn law_rooms_let_in_and_go(
    room: RoomStateModel,
    request_id: Seq<char>,
    connection_id: Seq<char>,
    request: JoinRoomRequestModel,
    authorized_join: AuthorizedJoinModel,
    user_id: Seq<char>,
    now_ms: u64,
)
    ensures
        ({
            let (joined, asked) = room.commanded(
                RoomCommandModel::Join { request_id, connection_id, request, authorized_join },
                now_ms,
            );
            &&& asked is None
            &&& !room.user_to_seat.contains_key(authorized_join.user_id)
                && room.players_by_seat.at(authorized_join.seat) is None
                ==> joined.user_to_seat.contains_key(authorized_join.user_id)
                && joined.user_to_seat[authorized_join.user_id] == authorized_join.seat
        }),
        ({
            let (left, asked) = room.commanded(RoomCommandModel::RemovePlayer { user_id }, now_ms);
            &&& asked is None
            &&& room.phase == GamePhase::Lobby ==> !left.user_to_seat.contains_key(user_id)
            &&& room.phase != GamePhase::Lobby ==> left == room
        }),
{
    law_joining_takes_a_free_seat(
        room,
        request_id,
        connection_id,
        authorized_join,
        now_ms,
        Seat::East,
    );
    law_players_are_let_go_before_the_match(room, user_id, now_ms, Seat::East);
}

/// A room that hears of a lost connection forgets the connection, and whoever sat there is no longer
/// connected.
pub proof fn law_rooms_forget_lost_connections(
    room: RoomStateModel,
    connection_id: Seq<char>,
    now_ms: u64,
)
    ensures
        ({
            let (after, asked) = room.commanded(
                RoomCommandModel::Disconnect { connection_id },
                now_ms,
            );
            let user_id = room.connection_to_user[connection_id];
            let seat = room.user_to_seat[user_id];
            &&& asked is None
            &&& !after.connection_to_user.contains_key(connection_id)
            &&& room.connection_to_user.contains_key(connection_id)
                && room.user_to_seat.contains_key(user_id) && room.players_by_seat.at(seat) is Some
                ==> (after.players_by_seat.at(seat) matches Some(player) && !player.connected)
        }),
{
    reveal(RoomStateModel::disconnected);
}

/// A player's ready mark is set or taken back by their request, while others are missing or not ready.
pub proof fn law_rooms_take_ready_marks(
    room: RoomStateModel,
    request_id: Seq<char>,
    connection_id: Seq<char>,
    request: ReadyRequest,
    seat: Seat,
    now_ms: u64,
)
    requires
        room.seat_of_connection(connection_id) == Some(seat),
        room.players_by_seat.at(seat) is Some,
        !room.with_ready_mark(seat, request.ready).all_ready(),
    ensures
        ({
            let (after, asked) = room.commanded(
                RoomCommandModel::Ready { request_id, connection_id, request },
                now_ms,
            );
            &&& asked is None
            &&& after.players_by_seat.at(seat) matches Some(player) && player.status == if request.ready {
                PlayerStatus::Ready
            } else {
                PlayerStatus::Joined
            }
            &&& after.phase == GamePhase::Lobby
        }),
{
    reveal(RoomStateModel::ready_requested);
}

/// A request to come back that does not fit is answered on the connection that it came by, and so is an
/// action that speaks of another match.
pub proof fn law_rooms_answer_what_does_not_fit(
    room: RoomStateModel,
    request_id: Seq<char>,
    connection_id: Seq<char>,
    resumption: ResumeSessionRequestModel,
    request: PlayerActionRequestModel,
    now_ms: u64,
)
    requires
        room.runtime_mode is Production,
    ensures
        ({
            let (after, asked) = room.commanded(
                RoomCommandModel::ResumeSession { request_id, connection_id, request: resumption },
                now_ms,
            );
            &&& asked is None
            &&& !room.user_to_seat.contains_key(resumption.user_id) ==> after.outbox.len()
                == room.outbox.len() + 1 && turns_away(
                after.outbox.last(),
                connection_id,
                request_id,
                RejectCode::NotInRoom,
            )
        }),
        sender_seat(room, connection_id) is Some && request.match_id != room.match_id ==> turned_down(
            room,
            room.commanded(
                RoomCommandModel::PlayerAction { request_id, connection_id, request },
                now_ms,
            ),
            connection_id,
            request_id,
            RejectCode::InvalidRequest,
        ),
{
    law_seats_are_given_back_for_their_token(room, request_id, connection_id, resumption, now_ms);
    law_actions_must_be_current(room, request_id, connection_id, request, now_ms);
}

/// Whether an output tells the outcome of a match on a connection.
pub open spec fn tells_outcome(
    output: RoomOutputModel,
    connection_id: Seq<char>,
    summary: MatchSettlementSummaryModel,
) -> bool {
    match output {
        RoomOutputModel::Send(told, frame) => told == connection_id && frame.event_seq
            == summary.event_seq && (frame.payload matches Some(
            ServerPayloadModel::MatchSettlement(outcome),
        ) && outcome.standings == summary.standings && outcome.finished_at_unix_ms
            == summary.finished_at_unix_ms),
        _ => false,
    }
}

/// A player who comes back after the match has ended is seated on the new connection and told the
/// outcome there.
pub proof fn law_late_returners_hear_the_outcome(
    room: RoomStateModel,
    request_id: Seq<char>,
    connection_id: Seq<char>,
    request: ResumeSessionRequestModel,
    now_ms: u64,
)
    requires
        room.runtime_mode is Production,
        room.user_to_seat.contains_key(request.user_id),
        room.players_by_seat.at(room.user_to_seat[request.user_id]) matches Some(player)
            && player.resume_token == request.resume_token,
        room.match_runtime.last_match_settlement is Some,
    ensures
        ({
            let after = room.commanded(
                RoomCommandModel::ResumeSession { request_id, connection_id, request },
                now_ms,
            ).0;
            let seat = room.user_to_seat[request.user_id];
            let summary = room.match_runtime.last_match_settlement->0;
            &&& after.connection_to_user.contains_key(connection_id)
            &&& after.connection_to_user[connection_id] == room.players_by_seat.at(seat)->0.user_id
            &&& after.players_by_seat.at(seat) matches Some(player) && player.connected
                && player.connection_id == Some(connection_id)
            &&& exists|i: int|
                room.outbox.len() <= i < after.outbox.len() && tells_outcome(
                    #[trigger] after.outbox[i],
                    connection_id,
                    summary,
                )
        }),
{
    reveal(RoomStateModel::resume_requested);
    let seat = room.user_to_seat[request.user_id];
    let player = room.players_by_seat.at(seat)->0;
    let summary = room.match_runtime.last_match_settlement->0;
    let back = room.reconnected(seat, player, connection_id).numbered();
    let told = back.sent(
        connection_id,
        back.sync_frame(seat, room.next_event_seq, SyncReason::Reconnect, now_ms),
    ).outcome_resent(connection_id);
    let after = room.resume_requested(request_id, connection_id, request, now_ms);
    let at = room.outbox.len() as int + 1;
    assert(told.outbox.len() == at + 1);
    assert(tells_outcome(told.outbox[at], connection_id, summary));
    let news = connection_changed_frame(
        told.next_event_seq,
        told.room_id,
        told.match_id,
        player.user_id,
        seat,
        player.status,
        true,
        now_ms,
    );
    lemma_sent_to_all_follows(told.numbered(), news, at);
    assert(after == told.numbered().sent_to_all(news));
    assert(after.outbox[at] == told.outbox[at]);
}

/// A room that is told that the time of its open window is over settles the window without waiting any
/// longer, and one that is told so after its last hand ends its match.
pub proof fn law_rooms_keep_time(room: RoomStateModel, now_ms: u64)
    ensures
        room.window() matches Some(window) ==> room.commanded(
            RoomCommandModel::ClaimWindowTimeout { action_window_id: window.action_window_id },
            now_ms,
        ) == room.window_settled_if_ready(true, now_ms),
        room.phase == GamePhase::RoundSettlement && room.hand_number
            >= room.match_runtime.total_hands ==> room.commanded(
            RoomCommandModel::AdvanceAfterRoundSettlement { settled_hand_number: room.hand_number },
            now_ms,
        ).0.phase == GamePhase::MatchSettlement,
{
    if room.window() is Some {
        law_windows_time_out(room, now_ms);
    }
    if room.phase == GamePhase::RoundSettlement && room.hand_number
        >= room.match_runtime.total_hands {
        law_matches_end_with_the_last_hand(room, now_ms, Seat::East);
    }
}

/// A load test ends with a report of its room, and the room shuts down. A room that is not made for load
/// tests says so, and plays nothing.
pub proof fn law_load_tests_end_with_a_report(
    room: RoomStateModel,
    spec: LoadTestRoomSpecModel,
    now_ms: u64,
)
    ensures
        ({
            let (after, asked) = room.commanded(RoomCommandModel::RunLoadTestRoom { spec }, now_ms);
            &&& asked is None
            &&& after.should_shutdown
            &&& after.outbox.len() > 0
            &&& after.outbox.last() matches RoomOutputModel::FinishLoadTest(report)
                && report.room_id == spec.room_id && (!(room.runtime_mode is LoadTest)
                ==> !report.success && report.hands_completed == 0)
            &&& !(room.runtime_mode is LoadTest) ==> after.player_round_state
                == room.player_round_state && after.players_by_seat == room.players_by_seat
                && after.outbox.drop_last() == room.outbox
        }),
{
    reveal(RoomStateModel::load_tested);
    let after = room.load_tested(spec, now_ms);
    if !(room.runtime_mode is LoadTest) {
        assert(after.outbox.drop_last() =~= room.outbox);
    }
}

} // verus!
