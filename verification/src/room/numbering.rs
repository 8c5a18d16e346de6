//! Event numbers only grow.

use vstd::prelude::*;

use crate::collections::{group_seat_map, SeatMap};
use crate::proto::client::{
    ActionKind, ClaimActionModel, DiscardAction, GamePhase, PlayerActionModel,
    PlayerActionRequestModel, ResumeSessionRequestModel, Seat, Tile,
};
use crate::proto::engine;
use crate::room::actions::{
    lemma_discard_landed_keeps, lemma_discarded_keeps, lemma_probed_numbers, verdict,
};
use crate::room::basics::group_announcing_keeps;
use crate::room::claims::winning_seat;
use crate::room::commands::RoomCommandModel;
use crate::room::frames::lemma_synced_keeps;
use crate::room::hand::seat_after;
use crate::room::outcomes::{lemma_scored_keeps, lemma_window_resolution_keeps, with_silent_passes};
use crate::room::plays::{
    lemma_claim_applied_numbers, lemma_kong_applied_numbers, lemma_turn_passed_on_numbers,
};
use crate::room::rounds::{lemma_next_wall_len, lemma_round_started_keeps};
use crate::room::soundness::{
    lemma_discard_keeps_table, lemma_keeps_sound, lemma_left_keeps, lemma_probed_keeps,
    lemma_sound_draws,
};
use crate::room::state::{
    ActiveClaimWindowStateModel, AuthorizedJoinModel, ClaimResponseModel, RoomStateModel,
};
use crate::room::steps::{
    PendingCallModel, PendingValidationModel, PendingWin, ProbeStepModel, RequestContextModel,
    ValidationPurposeModel, WinOriginModel,
};
use crate::room::windows::{fresh_probe, probe_with_answer};

verus! {

broadcast use {group_seat_map, group_announcing_keeps, lemma_synced_keeps};

/// Whether a step used at most so many event numbers, and gave none back.
pub open spec fn numbers_used(before: RoomStateModel, after: RoomStateModel, count: int) -> bool {
    before.next_event_seq <= after.next_event_seq <= before.next_event_seq + count
}

proof fn lemma_let_pass_numbers(
    room: RoomStateModel,
    window: ActiveClaimWindowStateModel,
    responses: SeatMap<ClaimResponseModel>,
    now_ms: u64,
)
    requires
        room.sound(),
        room.round_runtime is Some,
        room.can_number(4),
    ensures
        numbers_used(room, room.window_let_pass(window, responses, now_ms), 3),
{
    reveal(RoomStateModel::window_let_pass);
    broadcast use lemma_window_resolution_keeps;
    let stored = room.window_resolution_stored(window, responses, None, "PASS"@);
    lemma_left_keeps(room, stored);
    lemma_keeps_sound(room, stored);
    lemma_sound_draws(stored, window.source_seat);
    if window.trigger_action_kind == ActionKind::SupplementalKong {
        lemma_kong_applied_numbers(
            stored,
            window.source_seat,
            window.target_tile,
            window.source_event_seq,
        );
    } else {
        lemma_turn_passed_on_numbers(stored, window.source_seat);
    }
}

proof fn lemma_claimed_numbers(
    room: RoomStateModel,
    window: ActiveClaimWindowStateModel,
    responses: SeatMap<ClaimResponseModel>,
    winner: Seat,
    claim: ClaimActionModel,
    now_ms: u64,
)
    requires
        room.sound(),
        room.can_number(4),
    ensures
        numbers_used(room, room.window_claimed(window, responses, winner, claim, now_ms), 4),
{
    reveal(RoomStateModel::window_claimed);
    broadcast use lemma_window_resolution_keeps;
    let stored = room.window_resolution_stored(window, responses, Some(winner), "CLAIM"@);
    lemma_left_keeps(room, stored);
    lemma_keeps_sound(room, stored);
    lemma_sound_draws(stored, winner);
    lemma_claim_applied_numbers(stored, winner, claim);
}

proof fn lemma_window_settled_numbers(
    room: RoomStateModel,
    window: ActiveClaimWindowStateModel,
    responses: SeatMap<ClaimResponseModel>,
    now_ms: u64,
)
    requires
        room.sound(),
        room.round_runtime is Some,
        room.can_number(4),
    ensures
        numbers_used(room, room.window_settled(window, responses, now_ms).0, 4),
{
    match winning_seat(responses, window.source_seat) {
        None => {
            lemma_let_pass_numbers(room, window, responses, now_ms);
        },
        Some(winner) => match responses.at(winner) {
            Some(ClaimResponseModel::Claim(claim)) => {
                lemma_claimed_numbers(room, window, responses, winner, claim, now_ms);
            },
            Some(ClaimResponseModel::DeclareWin(win)) => {
                reveal(RoomStateModel::window_won);
                broadcast use lemma_window_resolution_keeps;
            },
            _ => {},
        },
    }
}

pub proof fn lemma_settled_if_ready_numbers(room: RoomStateModel, force: bool, now_ms: u64)
    requires
        room.sound(),
        room.can_number(4),
    ensures
        numbers_used(room, room.window_settled_if_ready(force, now_ms).0, 4),
{
    reveal(RoomStateModel::window_settled_if_ready);
    if let Some(window) = room.window() {
        if force || window.responded_seats.filled() == window.eligible_seats.len() {
            let closed = room.without_window();
            lemma_left_keeps(room, closed);
            lemma_keeps_sound(room, closed);
            let responses = with_silent_passes(window.responded_seats, window.eligible_seats);
            lemma_window_settled_numbers(closed, window, responses, now_ms);
        }
    }
}

pub proof fn lemma_answered_numbers(
    room: RoomStateModel,
    seat: Seat,
    response: ClaimResponseModel,
    now_ms: u64,
)
    requires
        room.sound(),
        room.can_number(4),
    ensures
        numbers_used(room, room.answered(seat, response, now_ms).0, 4),
{
    let noted = room.with_answer(seat, response);
    lemma_left_keeps(room, noted);
    lemma_keeps_sound(room, noted);
    lemma_settled_if_ready_numbers(noted, false, now_ms);
}

pub proof fn lemma_kong_finished_numbers(
    room: RoomStateModel,
    context: RequestContextModel,
    seat: Seat,
    tile: Tile,
    source_event_seq: u64,
    now_ms: u64,
)
    requires
        room.draws_fit(seat),
        room.can_number(2),
    ensures
        numbers_used(
            room,
            room.kong_finished(context, seat, tile, source_event_seq, now_ms),
            2,
        ),
{
    reveal(RoomStateModel::kong_finished);
    lemma_kong_applied_numbers(room, seat, tile, source_event_seq);
}

pub proof fn lemma_probe_followed_numbers(
    room: RoomStateModel,
    context: RequestContextModel,
    source_seat: Seat,
    tile: Tile,
    source_event_seq: u64,
    trigger: ActionKind,
    step: ProbeStepModel,
    now_ms: u64,
)
    requires
        room.draws_fit(source_seat),
        trigger == ActionKind::SupplementalKong || room.can_draw(seat_after(source_seat)),
        room.can_number(2),
    ensures
        numbers_used(
            room,
            room.probe_followed(
                context,
                source_seat,
                tile,
                source_event_seq,
                trigger,
                step,
                now_ms,
            ).0,
            2,
        ),
{
    reveal(RoomStateModel::probe_followed);
    if let ProbeStepModel::Settled(opened) = step {
        if !opened {
            if trigger == ActionKind::SupplementalKong {
                lemma_kong_finished_numbers(
                    room,
                    context,
                    source_seat,
                    tile,
                    source_event_seq,
                    now_ms,
                );
            } else {
                lemma_turn_passed_on_numbers(room, source_seat);
            }
        }
    }
}

pub proof fn lemma_window_begun_numbers(
    room: RoomStateModel,
    context: RequestContextModel,
    source_seat: Seat,
    tile: Tile,
    source_event_seq: u64,
    trigger: ActionKind,
    now_ms: u64,
)
    requires
        room.draws_fit(source_seat),
        trigger == ActionKind::SupplementalKong || room.can_draw(seat_after(source_seat)),
        room.can_number(4),
    ensures
        numbers_used(
            room,
            room.window_begun(context, source_seat, tile, source_event_seq, trigger, now_ms).0,
            4,
        ),
{
    reveal(RoomStateModel::window_begun);
    let probe = fresh_probe(source_seat, tile, source_event_seq, trigger);
    lemma_probed_keeps(room, probe, 0, now_ms);
    lemma_probed_numbers(room, probe, 0, now_ms);
    let (probed, step) = room.probed(probe, 0, now_ms);
    lemma_probe_followed_numbers(
        probed,
        context,
        source_seat,
        tile,
        source_event_seq,
        trigger,
        step,
        now_ms,
    );
}

proof fn lemma_discard_requested_numbers(
    room: RoomStateModel,
    context: RequestContextModel,
    seat: Seat,
    discard: DiscardAction,
    now_ms: u64,
)
    requires
        room.sound(),
        room.can_number(5),
    ensures
        numbers_used(room, room.discard_requested(context, seat, discard, now_ms).0, 5),
{
    if let Ok(tile) = room.discard_choice(seat, discard) {
        lemma_discard_keeps_table(room, seat, tile, discard.tsumogiri);
        let (after, result) = room.discarded(seat, tile, discard.tsumogiri);
        lemma_keeps_sound(room, after);
        lemma_sound_draws(room, seat);
        lemma_discarded_keeps(room, seat, tile, discard.tsumogiri, seat_after(seat));
        if result is Ok {
            let landed = after.discard_landed(seat, tile);
            lemma_keeps_sound(after, landed);
            lemma_sound_draws(landed, seat);
            lemma_discard_landed_keeps(after, seat, tile, seat_after(seat));
            lemma_window_begun_numbers(
                landed,
                context,
                seat,
                tile,
                after.next_event_seq,
                ActionKind::Discard,
                now_ms,
            );
        }
    }
}

/// Whatever the rule engine says, a room uses at most five event numbers before its next question
/// or the end of the command, and gives none back.
pub proof fn law_verdicts_use_few_numbers(
    room: RoomStateModel,
    pending: PendingValidationModel,
    reply: Result<engine::ValidateActionResponseModel, Seq<char>>,
    now_ms: u64,
)
    requires
        room.sound(),
        room.can_number(5),
        room.awaits(PendingCallModel::Validation(pending)),
    ensures
        numbers_used(
            room,
            room.judged(pending.context, pending.seat, pending.purpose, reply, now_ms).0,
            5,
        ),
{
    let context = pending.context;
    let seat = pending.seat;
    match pending.purpose {
        ValidationPurposeModel::Claim(claim) => {
            lemma_answered_numbers(room, seat, ClaimResponseModel::Claim(claim), now_ms);
        },
        ValidationPurposeModel::SupplementalKong(tile) => {
            if verdict(reply) is Ok {
                let numbered = room.numbered();
                lemma_left_keeps(room, numbered);
                lemma_keeps_sound(room, numbered);
                lemma_sound_draws(numbered, seat);
                lemma_window_begun_numbers(
                    numbered,
                    context,
                    seat,
                    tile,
                    room.next_event_seq,
                    ActionKind::SupplementalKong,
                    now_ms,
                );
                lemma_kong_finished_numbers(
                    numbered,
                    context,
                    seat,
                    tile,
                    room.next_event_seq,
                    now_ms,
                );
            }
        },
        ValidationPurposeModel::DeclareWin(win) => {
            lemma_answered_numbers(room, seat, ClaimResponseModel::DeclareWin(win), now_ms);
        },
        ValidationPurposeModel::ClaimWindow(probe) => {
            let (probed, step) = room.probe_answered(probe, reply, now_ms);
            if let Ok(response) = reply {
                let answered = probe_with_answer(probe, response.is_legal);
                lemma_probed_keeps(room, answered, probe.asked + 1, now_ms);
                lemma_probed_numbers(room, answered, probe.asked + 1, now_ms);
            }
            lemma_sound_draws(room, probe.source_seat);
            assert(probed.draws_fit(probe.source_seat) && (room.can_draw(
                seat_after(probe.source_seat),
            ) ==> probed.can_draw(seat_after(probe.source_seat))));
            lemma_probe_followed_numbers(
                probed,
                context,
                probe.source_seat,
                probe.tile,
                probe.source_event_seq,
                probe.trigger,
                step,
                now_ms,
            );
        },
    }
}

/// A score, or the lack of one, uses at most one event number.
pub proof fn law_scores_use_one_number(
    room: RoomStateModel,
    origin: WinOriginModel,
    win: PendingWin,
    reply: Result<engine::CalculateScoreResponseModel, Seq<char>>,
    now_ms: u64,
)
    requires
        room.can_number(1),
    ensures
        numbers_used(room, room.win_scored(origin, win, reply, now_ms), 1),
{
    if let Ok(response) = reply {
        let taken = match win.discarder_seat {
            Some(discarder) => room.with_discard_claimed(discarder, win.source_event_seq),
            None => room,
        };
        let ended = taken.without_window().in_phase(GamePhase::RoundSettlement).with_last_action(
            win.terminal_action,
        );
        lemma_scored_keeps(ended, response.score_delta_by_seat);
    }
}

proof fn lemma_started_numbers(room: RoomStateModel, now_ms: u64)
    requires
        room.sound(),
        room.can_number(1),
    ensures
        numbers_used(room, room.round_started(room.next_wall(now_ms)).0, 1),
{
    lemma_next_wall_len(room, now_ms);
    lemma_round_started_keeps(room, room.next_wall(now_ms));
}

proof fn lemma_ready_numbers(
    room: RoomStateModel,
    request_id: Seq<char>,
    connection_id: Seq<char>,
    ready: bool,
    now_ms: u64,
)
    requires
        room.sound(),
        room.can_number(2),
    ensures
        numbers_used(room, room.ready_requested(request_id, connection_id, ready, now_ms), 2),
{
    reveal(RoomStateModel::ready_requested);
    if let Some(seat) = room.seat_of_connection(connection_id) {
        let marked = room.with_ready_mark(seat, ready);
        lemma_left_keeps(room, marked);
        lemma_keeps_sound(room, marked);
        lemma_started_numbers(marked, now_ms);
    }
}

proof fn lemma_advance_numbers(room: RoomStateModel, settled_hand_number: u32, now_ms: u64)
    requires
        room.sound(),
        room.can_number(2),
    ensures
        numbers_used(room, room.advanced(settled_hand_number, now_ms), 2),
{
    reveal(RoomStateModel::advanced);
    let transition = room.transition(settled_hand_number);
    let next = room.with_completed(settled_hand_number).moved_on(transition);
    if room.phase == GamePhase::RoundSettlement && !transition.match_finished {
        lemma_next_wall_len(next, now_ms);
        lemma_round_started_keeps(next, next.next_wall(now_ms));
    }
}

proof fn lemma_join_numbers(
    room: RoomStateModel,
    request_id: Seq<char>,
    connection_id: Seq<char>,
    join: AuthorizedJoinModel,
    now_ms: u64,
)
    requires
        room.can_number(3),
    ensures
        numbers_used(room, room.join_requested(request_id, connection_id, join, now_ms), 3),
{
    reveal(RoomStateModel::join_requested);
}

proof fn lemma_resume_numbers(
    room: RoomStateModel,
    request_id: Seq<char>,
    connection_id: Seq<char>,
    request: ResumeSessionRequestModel,
    now_ms: u64,
)
    requires
        room.can_number(2),
    ensures
        numbers_used(room, room.resume_requested(request_id, connection_id, request, now_ms), 2),
{
    reveal(RoomStateModel::resume_requested);
}

proof fn lemma_disconnect_numbers(room: RoomStateModel, connection_id: Seq<char>, now_ms: u64)
    requires
        room.can_number(2),
    ensures
        numbers_used(room, room.disconnected(connection_id, now_ms), 2),
{
    reveal(RoomStateModel::disconnected);
}

proof fn lemma_removal_numbers(room: RoomStateModel, user_id: Seq<char>, now_ms: u64)
    requires
        room.can_number(2),
    ensures
        numbers_used(room, room.removal_requested(user_id, now_ms), 2),
{
    reveal(RoomStateModel::removal_requested);
}

proof fn lemma_timeout_numbers(room: RoomStateModel, action_window_id: u64, now_ms: u64)
    requires
        room.sound(),
        room.can_number(4),
    ensures
        numbers_used(room, room.window_timed_out(action_window_id, now_ms).0, 4),
{
    reveal(RoomStateModel::window_timed_out);
    lemma_settled_if_ready_numbers(room, true, now_ms);
}

proof fn lemma_action_numbers(
    room: RoomStateModel,
    request_id: Seq<char>,
    connection_id: Seq<char>,
    request: PlayerActionRequestModel,
    now_ms: u64,
)
    requires
        room.sound(),
        room.can_number(5),
    ensures
        numbers_used(room, room.action_requested(request_id, connection_id, request, now_ms).0, 5),
{
    reveal(RoomStateModel::action_requested);
    let context = room.action_context(request_id, connection_id, request);
    if let Some(seat) = room.seat_of_connection(connection_id) {
        match request.action {
            Some(PlayerActionModel::Discard(discard)) => {
                lemma_discard_requested_numbers(room, context, seat, discard, now_ms);
            },
            Some(PlayerActionModel::Pass(pass)) => {
                lemma_answered_numbers(room, seat, ClaimResponseModel::Pass, now_ms);
            },
            _ => {},
        }
    }
}

/// A command uses at most five event numbers before the first question that it leads to, and gives
/// none back; unless it starts a load test, which counts from the beginning.
pub proof fn law_commands_use_few_numbers(room: RoomStateModel, command: RoomCommandModel, now_ms: u64)
    requires
        room.sound(),
        room.can_number(5),
        !(command is RunLoadTestRoom),
    ensures
        numbers_used(room, room.commanded(command, now_ms).0, 5),
{
    match command {
        RoomCommandModel::Join { request_id, connection_id, request, authorized_join } => {
            lemma_join_numbers(room, request_id, connection_id, authorized_join, now_ms);
        },
        RoomCommandModel::Ready { request_id, connection_id, request } => {
            lemma_ready_numbers(room, request_id, connection_id, request.ready, now_ms);
        },
        RoomCommandModel::ResumeSession { request_id, connection_id, request } => {
            lemma_resume_numbers(room, request_id, connection_id, request, now_ms);
        },
        RoomCommandModel::PlayerAction { request_id, connection_id, request } => {
            lemma_action_numbers(room, request_id, connection_id, request, now_ms);
        },
        RoomCommandModel::ClaimWindowTimeout { action_window_id } => {
            lemma_timeout_numbers(room, action_window_id, now_ms);
        },
        RoomCommandModel::Disconnect { connection_id } => {
            lemma_disconnect_numbers(room, connection_id, now_ms);
        },
        RoomCommandModel::AdvanceAfterRoundSettlement { settled_hand_number } => {
            lemma_advance_numbers(room, settled_hand_number, now_ms);
        },
        RoomCommandModel::RemovePlayer { user_id } => {
            lemma_removal_numbers(room, user_id, now_ms);
        },
        RoomCommandModel::RunLoadTestRoom { spec } => {},
    }
}

} // verus!
