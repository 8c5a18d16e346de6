//! No command loses or doubles a tile.

use vstd::prelude::*;

use crate::collections::{group_seat_map, SeatMap};
use crate::proto::client::{
    ActionKind, ClaimActionModel, ClaimKind, DeclareWinAction, DiscardAction, DiscardTile,
    GamePhase, PlayerActionModel, PlayerActionRequestModel, RejectCode, Seat,
    SupplementalKongAction, SyncReason, Tile,
};
use crate::proto::engine;
use crate::room::actions::{lemma_prompted_seats_keeps, verdict, StepModel};
use crate::room::convert::{
    failure, parsed_claim_kind, parsed_tile, parsed_win_type, ActionValidationErrorModel,
};
use crate::room::hand::{seat_after, seat_order};
use crate::room::windows::{fresh_probe, offered_win_option, probe_with_answer, probed_options};
use crate::room::numbering::{
    law_commands_use_few_numbers, law_scores_use_one_number, law_verdicts_use_few_numbers,
    lemma_kong_finished_numbers, lemma_settled_if_ready_numbers, lemma_window_begun_numbers,
};
use crate::room::steps::{
    PendingCallModel, PendingValidationModel, PendingWin, WinOriginModel, ProbeStepModel,
    RequestContextModel, ValidationPurposeModel, WindowProbeModel,
};
use crate::room::basics::{group_announcing_keeps, new_room};
use crate::room::commands::RoomCommandModel;
use crate::room::claims::winning_seat;
use crate::room::frames::lemma_synced_keeps;
use crate::room::offers::{
    claim_fits, lemma_discard_options_held, lemma_fitting_claim, lemma_offered_claim_fits,
    offers_held, option_held, option_tiles, options_held, window_fits,
};
use crate::room::flow::first_claimed;
use crate::room::outcomes::{lemma_scored_keeps, lemma_window_resolution_keeps, with_silent_passes};
use crate::room::conservation::law_drawing_conserves_tiles;
use crate::room::rounds::{
    lemma_dealt_seats_keeps, lemma_drawn_keeps, lemma_next_wall_len, lemma_round_started_keeps,
};
use crate::room::soundness::{
    is_orderly, lemma_discard_keeps_table, lemma_keeps_sound, lemma_left_keeps,
    lemma_moved_on_sound, lemma_settled_if_ready_keeps, lemma_sound_draws,
};
use crate::room::state::{
    ActiveClaimWindowStateModel, AuthorizedJoinModel, ClaimResponseModel, DrawSource,
    RoomRuntimeMode, RoomStateModel, WallFactoryModel, DEAD_WALL_TILE_COUNT, STARTING_HAND_LEN,
};
use crate::room::table::{
    all_announced_before, announced_before, conserves, lemma_claim_plays_on, lemma_conserves_chain,
    lemma_discard_lands, lemma_kong_plays_on, lemma_plays_chain, lemma_told_plays_on,
    lemma_turn_passed_on_plays_on, lies, only_told, plays_on,
};

verus! {

broadcast use {group_seat_map, group_announcing_keeps, lemma_synced_keeps};

impl RoomStateModel {
    /// What holds of every room between two steps: discards were announced under numbers that were
    /// given out, four real seats are to be taken and are taken while a hand runs, a claim window
    /// fits the table, and none is open while a discard is awaited.
    #[verifier::opaque]
    pub open spec fn tidy(self) -> bool {
        &&& all_announced_before(self, self.next_event_seq as int)
        &&& self.room_config.seat_count == 4
        &&& self.players_by_seat.at(Seat::Unspecified) is None
        &&& self.is_full() || !self.is_on()
        &&& self.window() matches Some(window) ==> window_fits(self, window)
        &&& self.phase == GamePhase::WaitingDiscard ==> self.window() is None
    }

    /// Whether every real seat has a player.
    pub open spec fn is_full(self) -> bool {
        &&& self.players_by_seat.at(Seat::East) is Some
        &&& self.players_by_seat.at(Seat::South) is Some
        &&& self.players_by_seat.at(Seat::West) is Some
        &&& self.players_by_seat.at(Seat::North) is Some
    }

    /// Whether a hand is running or being settled.
    pub open spec fn is_on(self) -> bool {
        self.round_runtime is Some || self.phase == GamePhase::WaitingDiscard || self.phase
            == GamePhase::RoundSettlement
    }
}

/// Whether a step kept the tiles, and left no window that does not fit the table.
pub open spec fn plays_tidily(before: RoomStateModel, after: RoomStateModel) -> bool {
    &&& plays_on(before, after)
    &&& before.is_full() || after.phase == before.phase
    &&& after.window() matches Some(window) ==> window_fits(after, window) && after.phase
        != GamePhase::WaitingDiscard
}

pub proof fn lemma_plays_tidily(before: RoomStateModel, after: RoomStateModel)
    requires
        before.tidy(),
        plays_tidily(before, after),
        before.next_event_seq <= after.next_event_seq,
    ensures
        after.tidy(),
        conserves(before, after),
        before.is_full() ==> after.is_full(),
{
    reveal(RoomStateModel::tidy);
    reveal(plays_on);
    assert(all_announced_before(after, before.next_event_seq as int));
    assert forall|seat: Seat| #[trigger] after.players_by_seat.at(seat) is Some
        == before.players_by_seat.at(seat) is Some by {}
    assert(after.players_by_seat.at(Seat::Unspecified) is None);
    assert(after.is_full() == before.is_full());
}

/// Whether a step changed nothing at the table but what was said about it.
pub open spec fn calm(before: RoomStateModel, after: RoomStateModel) -> bool {
    &&& only_told(before, after)
    &&& after.window() == before.window()
    &&& after.phase == before.phase
}

pub proof fn lemma_calm(before: RoomStateModel, after: RoomStateModel)
    requires
        before.tidy(),
        calm(before, after),
    ensures
        plays_tidily(before, after),
{
    reveal(RoomStateModel::tidy);
    lemma_told_plays_on(before, after);
    if let Some(window) = after.window() {
        assert(window_fits(after, window));
    }
}

// ---------------------------------------------------------------------------
// Settling a window
// ---------------------------------------------------------------------------

/// Silence adds no claim.
proof fn lemma_silence_claims_nothing(
    responses: SeatMap<ClaimResponseModel>,
    eligible: Seq<Seat>,
    seat: Seat,
)
    requires
        with_silent_passes(responses, eligible).at(seat) matches Some(ClaimResponseModel::Claim(_)),
    ensures
        responses.at(seat) == with_silent_passes(responses, eligible).at(seat),
    decreases eligible.len(),
{
    if eligible.len() > 0 {
        lemma_silence_claims_nothing(responses, eligible.drop_last(), seat);
    }
}

proof fn lemma_let_pass(
    room: RoomStateModel,
    window: ActiveClaimWindowStateModel,
    responses: SeatMap<ClaimResponseModel>,
    now_ms: u64,
)
    requires
        room.sound(),
        room.round_runtime is Some,
        room.window() is None,
    ensures
        plays_on(room, room.window_let_pass(window, responses, now_ms)),
        room.window_let_pass(window, responses, now_ms).window() is None,
{
    reveal(RoomStateModel::window_let_pass);
    broadcast use lemma_window_resolution_keeps;
    let stored = room.window_resolution_stored(window, responses, None, "PASS"@);
    lemma_told_plays_on(room, stored);
    lemma_sound_draws(room, window.source_seat);
    assert(stored.draws_fit(window.source_seat));
    let moved = if window.trigger_action_kind == ActionKind::SupplementalKong {
        lemma_kong_plays_on(
            stored,
            window.source_seat,
            window.target_tile,
            window.source_event_seq,
        );
        stored.kong_applied(window.source_seat, window.target_tile, window.source_event_seq).0
    } else {
        lemma_turn_passed_on_plays_on(stored, window.source_seat);
        stored.turn_passed_on(window.source_seat)
    };
    lemma_plays_chain(room, stored, moved);
    let after = moved.synced(SyncReason::ServerResync, now_ms);
    lemma_told_plays_on(moved, after);
    lemma_plays_chain(room, moved, after);
}

proof fn lemma_claimed(
    room: RoomStateModel,
    window: ActiveClaimWindowStateModel,
    responses: SeatMap<ClaimResponseModel>,
    winner: Seat,
    claim: ClaimActionModel,
    now_ms: u64,
)
    requires
        room.sound(),
        room.window() is None,
        claim_fits(room, window, winner, claim),
        lies(room, window.source_seat, window.target_tile, window.source_event_seq),
    ensures
        plays_on(room, room.window_claimed(window, responses, winner, claim, now_ms)),
        room.window_claimed(window, responses, winner, claim, now_ms).window() is None,
{
    reveal(RoomStateModel::window_claimed);
    broadcast use lemma_window_resolution_keeps;
    let stored = room.window_resolution_stored(window, responses, Some(winner), "CLAIM"@);
    lemma_told_plays_on(room, stored);
    lemma_sound_draws(room, winner);
    assert(stored.draws_fit(winner));
    assert(claim_fits(stored, window, winner, claim));
    lemma_fitting_claim(stored, window, winner, claim);
    lemma_claim_plays_on(stored, winner, claim);
    let moved = stored.claim_applied(winner, claim).0;
    lemma_plays_chain(room, stored, moved);
    let after = moved.synced(SyncReason::ServerResync, now_ms);
    lemma_told_plays_on(moved, after);
    lemma_plays_chain(room, moved, after);
}

proof fn lemma_settled_if_ready(room: RoomStateModel, force: bool, now_ms: u64)
    requires
        room.sound(),
        room.tidy(),
    ensures
        plays_tidily(room, room.window_settled_if_ready(force, now_ms).0),
        room.window_settled_if_ready(force, now_ms).1 is Some ==> room.is_full(),
{
    reveal(RoomStateModel::window_settled_if_ready);
    reveal(RoomStateModel::tidy);
    lemma_calm(room, room.synced(SyncReason::ServerResync, now_ms));
    if let Some(window) = room.window() {
        if force || window.responded_seats.filled() == window.eligible_seats.len() {
            let closed = room.without_window();
            lemma_told_plays_on(room, closed);
            assert(closed.sound());
            let responses = with_silent_passes(window.responded_seats, window.eligible_seats);
            let after = closed.window_settled(window, responses, now_ms).0;
            lemma_told_plays_on(closed, closed);
            match winning_seat(responses, window.source_seat) {
                None => {
                    lemma_let_pass(closed, window, responses, now_ms);
                },
                Some(winner) => match responses.at(winner) {
                    Some(ClaimResponseModel::Claim(claim)) => {
                        lemma_silence_claims_nothing(
                            window.responded_seats,
                            window.eligible_seats,
                            winner,
                        );
                        assert(claim_fits(room, window, winner, claim));
                        assert(claim_fits(closed, window, winner, claim));
                        lemma_claimed(closed, window, responses, winner, claim, now_ms);
                    },
                    Some(ClaimResponseModel::DeclareWin(win)) => {
                        reveal(RoomStateModel::window_won);
                        broadcast use lemma_window_resolution_keeps;
                        lemma_told_plays_on(closed, after);
                    },
                    _ => {},
                },
            }
            lemma_plays_chain(room, closed, after);
        }
    }
}

// ---------------------------------------------------------------------------
// Answers and questions
// ---------------------------------------------------------------------------

/// Whether a window in the making fits the table so far.
pub open spec fn probe_fits(room: RoomStateModel, probe: WindowProbeModel) -> bool {
    &&& probe.trigger == ActionKind::Discard || probe.trigger == ActionKind::SupplementalKong
    &&& probe.trigger == ActionKind::Discard ==> lies(
        room,
        probe.source_seat,
        probe.tile,
        probe.source_event_seq,
    )
    &&& offers_held(room, probe.options_by_seat, probe.trigger)
}

/// Whether the seat that a window in the making asks about can do what it is to be offered.
pub open spec fn question_fits(room: RoomStateModel, probe: WindowProbeModel) -> bool {
    &&& probe.asked < 4
    &&& options_held(room, seat_order()[probe.asked as int], probe.local_options, probe.trigger)
}

/// Whether a claim is one to rob a kong.
pub open spec fn robs_kong(claim: ClaimActionModel) -> bool {
    parsed_claim_kind(claim.claim_kind) matches Ok(kind) && kind == ClaimKind::RobKongWin
}

impl RoomStateModel {
    /// Whether a question of the room fits the table at which it was asked.
    pub open spec fn awaits_tidily(self, call: PendingCallModel) -> bool {
        match call {
            PendingCallModel::Validation(pending) => match pending.purpose {
                ValidationPurposeModel::ClaimWindow(probe) => self.is_full() && self.window() is None
                    && probe_fits(self, probe) && question_fits(self, probe),
                ValidationPurposeModel::Claim(claim) => !robs_kong(claim) && (
                self.window() matches Some(window) ==> claim.source_event_seq
                    == window.source_event_seq),
                ValidationPurposeModel::SupplementalKong(_) => self.is_full()
                    && self.window() is None,
                ValidationPurposeModel::DeclareWin(_) => true,
            },
            PendingCallModel::Score(_) => self.is_full(),
        }
    }
}

/// Whether a step left a tidy room with the tiles that it had, and its question, if it has one, fits
/// the table.
pub open spec fn steps_tidily(before: RoomStateModel, step: StepModel) -> bool {
    &&& step.0.tidy()
    &&& conserves(before, step.0)
    &&& step.1 matches Some(call) ==> step.0.awaits_tidily(call)
}

proof fn lemma_calm_step(before: RoomStateModel, after: RoomStateModel)
    requires
        before.tidy(),
        calm(before, after),
        before.next_event_seq <= after.next_event_seq,
    ensures
        steps_tidily(before, (after, None)),
        before.is_full() ==> after.is_full(),
{
    lemma_calm(before, after);
    lemma_plays_tidily(before, after);
}

proof fn lemma_rejected(
    room: RoomStateModel,
    context: RequestContextModel,
    error: ActionValidationErrorModel,
)
    requires
        room.tidy(),
        room.can_number(1),
    ensures
        steps_tidily(room, (room.rejected_in(context, error), None)),
{
    lemma_calm_step(room, room.rejected_in(context, error));
}

proof fn lemma_answered(
    room: RoomStateModel,
    seat: Seat,
    response: ClaimResponseModel,
    now_ms: u64,
)
    requires
        room.sound(),
        room.tidy(),
        room.can_number(4),
        room.window() matches Some(window) ==> (response matches ClaimResponseModel::Claim(claim)
            ==> claim_fits(room, window, seat, claim)),
    ensures
        steps_tidily(room, room.answered(seat, response, now_ms)),
{
    let noted = room.with_answer(seat, response);
    lemma_left_keeps(room, noted);
    lemma_keeps_sound(room, noted);
    lemma_told_plays_on(room, noted);
    assert(noted.tidy() && conserves(room, noted)) by {
        reveal(RoomStateModel::tidy);
        reveal(plays_on);
        if let Some(window) = room.window() {
            let answered = noted.window()->0;
            assert forall|other: Seat|
                (#[trigger] answered.responded_seats.at(
                    other,
                )) is Some && answered.responded_seats.at(other)->0 is Claim implies claim_fits(
                noted,
                answered,
                other,
                answered.responded_seats.at(other)->0->Claim_0,
            ) by {
                if other != seat {
                    assert(answered.responded_seats.at(other) == window.responded_seats.at(other));
                    assert(claim_fits(
                        room,
                        window,
                        other,
                        window.responded_seats.at(other)->0->Claim_0,
                    ));
                }
            }
            assert(offers_held(noted, answered.options_by_seat, answered.trigger_action_kind)) by {
                assert(offers_held(room, window.options_by_seat, window.trigger_action_kind));
            }
            assert(window_fits(noted, answered));
        }
    }
    lemma_settled_if_ready(noted, false, now_ms);
    lemma_settled_if_ready_numbers(noted, false, now_ms);
    let (after, next) = noted.window_settled_if_ready(false, now_ms);
    lemma_plays_tidily(noted, after);
    lemma_conserves_chain(room, noted, after);
    lemma_settled_if_ready_keeps(noted, false, now_ms);
}

// ---------------------------------------------------------------------------
// Windows in the making
// ---------------------------------------------------------------------------

/// What the offer of a win adds can be done: it takes nothing out of the hand.
proof fn lemma_answer_fits(room: RoomStateModel, probe: WindowProbeModel, is_legal: bool)
    requires
        probe_fits(room, probe),
        question_fits(room, probe),
    ensures
        probe_fits(room, probe_with_answer(probe, is_legal)),
{
    broadcast use vstd::seq_lib::group_to_multiset_ensures;
    let seat = seat_order()[probe.asked as int];
    let options = probed_options(probe, seat, is_legal);
    let win = offered_win_option(probe, seat);
    assert(option_tiles(win) =~= Seq::<Tile>::empty());
    assert(option_held(room, seat, win, probe.trigger));
    assert(options_held(room, seat, options, probe.trigger)) by {
        assert forall|i: int| 0 <= i < options.len() implies option_held(
            room,
            seat,
            #[trigger] options[i],
            probe.trigger,
        ) by {
            if i < probe.local_options.len() {
                assert(options[i] == probe.local_options[i]);
            }
        }
    }
    let after = probe_with_answer(probe, is_legal);
    assert forall|other: Seat|
        #[trigger] after.options_by_seat.at(other) is Some implies options_held(
        room,
        other,
        after.options_by_seat.at(other)->0,
        probe.trigger,
    ) by {
        if other != seat {
            assert(after.options_by_seat.at(other) == probe.options_by_seat.at(other));
        }
    }
}

/// What a window in the making leaves behind.
pub open spec fn probes_tidily(
    before: RoomStateModel,
    after: RoomStateModel,
    step: ProbeStepModel,
    trigger: ActionKind,
) -> bool {
    &&& only_told(before, after)
    &&& !(step matches ProbeStepModel::Settled(true)) ==> after == before
    &&& after.window() matches Some(window) ==> window_fits(after, window)
        && window.trigger_action_kind == trigger && step == ProbeStepModel::Settled(true)
    &&& after.phase == before.phase || after.phase == GamePhase::WaitingClaim
    &&& trigger == ActionKind::Discard && step == ProbeStepModel::Settled(true) ==> after.phase
        == GamePhase::WaitingClaim
    &&& step matches ProbeStepModel::Ask(probe, _) ==> probe_fits(after, probe) && question_fits(
        after,
        probe,
    )
}

proof fn lemma_opened(room: RoomStateModel, window: ActiveClaimWindowStateModel)
    requires
        window_fits(room, window),
    ensures
        probes_tidily(
            room,
            room.window_opened(window),
            ProbeStepModel::Settled(true),
            window.trigger_action_kind,
        ),
        room.window_opened(window).round_runtime is None ==> room.window_opened(window).window() is None,
{
    let phase = if window.trigger_action_kind == ActionKind::Discard {
        GamePhase::WaitingClaim
    } else {
        room.phase
    };
    let stored = RoomStateModel {
        next_action_window_id: (room.next_action_window_id + 1) as u64,
        ..room
    }.with_window(window).window_opening_stored().in_phase(phase);
    lemma_prompted_seats_keeps(
        stored.numbered(),
        stored.next_event_seq,
        window.eligible_seats,
        window.action_window_id,
        window.deadline_unix_ms,
    );
    let after = room.window_opened(window);
    assert(window_fits(after, window));
}

proof fn lemma_probed(room: RoomStateModel, probe: WindowProbeModel, from: int, now_ms: u64)
    requires
        probe_fits(room, probe),
        room.window() is None,
        0 <= from,
    ensures
        ({
            let (after, step) = room.probed(probe, from, now_ms);
            probes_tidily(room, after, step, probe.trigger)
        }),
    decreases 4 - from,
{
    if from >= 4 {
        if probe.eligible_seats.len() > 0 {
            let window = room.new_window(
                probe.source_seat,
                probe.tile,
                probe.source_event_seq,
                probe.trigger,
                probe.eligible_seats,
                probe.options_by_seat,
                now_ms,
            );
            assert(window_fits(room, window));
            lemma_opened(room, window);
        }
    } else {
        let seat = seat_order()[from];
        if seat == probe.source_seat {
            lemma_probed(room, probe, from + 1, now_ms);
        } else {
            lemma_discard_options_held(
                room,
                seat,
                probe.source_seat,
                probe.tile,
                probe.source_event_seq,
            );
        }
    }
}

proof fn lemma_kong_finished(
    room: RoomStateModel,
    context: RequestContextModel,
    seat: Seat,
    tile: Tile,
    source_event_seq: u64,
    now_ms: u64,
)
    requires
        room.player_round_state.at(Seat::Unspecified) is None,
        room.draws_fit(seat),
        room.window() is None,
    ensures
        plays_on(room, room.kong_finished(context, seat, tile, source_event_seq, now_ms)),
        room.kong_finished(context, seat, tile, source_event_seq, now_ms).window() is None,
{
    reveal(RoomStateModel::kong_finished);
    lemma_kong_plays_on(room, seat, tile, source_event_seq);
    let moved = room.kong_applied(seat, tile, source_event_seq).0;
    let after = room.kong_finished(context, seat, tile, source_event_seq, now_ms);
    lemma_told_plays_on(moved, after);
    lemma_plays_chain(room, moved, after);
}

/// What follows a window in the making keeps the tiles, and leaves no window that does not fit.
proof fn lemma_followed(
    room: RoomStateModel,
    probed: RoomStateModel,
    context: RequestContextModel,
    source_seat: Seat,
    tile: Tile,
    source_event_seq: u64,
    trigger: ActionKind,
    step: ProbeStepModel,
    now_ms: u64,
)
    requires
        room.sound(),
        room.tidy(),
        room.is_full(),
        room.window() is None,
        trigger == ActionKind::SupplementalKong || room.can_draw(seat_after(source_seat)),
        trigger == ActionKind::SupplementalKong || trigger == ActionKind::Discard,
        probes_tidily(room, probed, step, trigger),
    ensures
        ({
            let (after, next) = probed.probe_followed(
                context,
                source_seat,
                tile,
                source_event_seq,
                trigger,
                step,
                now_ms,
            );
            &&& plays_tidily(room, after)
            &&& next matches Some(call) ==> after.awaits_tidily(call)
        }),
{
    reveal(RoomStateModel::probe_followed);
    lemma_told_plays_on(room, probed);
    lemma_sound_draws(room, source_seat);
    let after = probed.probe_followed(
        context,
        source_seat,
        tile,
        source_event_seq,
        trigger,
        step,
        now_ms,
    ).0;
    match step {
        ProbeStepModel::Ask(probe, _) => {},
        ProbeStepModel::Failed(error) => {
            lemma_told_plays_on(room, after);
        },
        ProbeStepModel::Settled(opened) => {
            if opened {
                lemma_told_plays_on(room, after);
                if let Some(window) = after.window() {
                    assert(probed.window() == Some(window));
                    assert(window_fits(probed, window));
                    assert(window_fits(after, window));
                }
            } else if trigger == ActionKind::SupplementalKong {
                lemma_kong_finished(probed, context, source_seat, tile, source_event_seq, now_ms);
            } else {
                lemma_turn_passed_on_plays_on(probed, source_seat);
                let moved = probed.turn_passed_on(source_seat);
                lemma_told_plays_on(moved, after);
                lemma_plays_chain(room, moved, after);
            }
        },
    }
}

proof fn lemma_window_begun(
    room: RoomStateModel,
    context: RequestContextModel,
    source_seat: Seat,
    tile: Tile,
    source_event_seq: u64,
    trigger: ActionKind,
    now_ms: u64,
)
    requires
        room.sound(),
        room.tidy(),
        room.is_full(),
        room.window() is None,
        room.can_number(4),
        trigger == ActionKind::SupplementalKong || (trigger == ActionKind::Discard && room.can_draw(
            seat_after(source_seat),
        ) && lies(room, source_seat, tile, source_event_seq)),
    ensures
        steps_tidily(
            room,
            room.window_begun(context, source_seat, tile, source_event_seq, trigger, now_ms),
        ),
{
    lemma_sound_draws(room, source_seat);
    lemma_window_begun_numbers(room, context, source_seat, tile, source_event_seq, trigger, now_ms);
    reveal(RoomStateModel::window_begun);
    let probe = fresh_probe(source_seat, tile, source_event_seq, trigger);
    assert(probe_fits(room, probe));
    lemma_probed(room, probe, 0, now_ms);
    let (probed, step) = room.probed(probe, 0, now_ms);
    lemma_followed(
        room,
        probed,
        context,
        source_seat,
        tile,
        source_event_seq,
        trigger,
        step,
        now_ms,
    );
    lemma_plays_tidily(
        room,
        room.window_begun(context, source_seat, tile, source_event_seq, trigger, now_ms).0,
    );
}

// ---------------------------------------------------------------------------
// Requests
// ---------------------------------------------------------------------------

proof fn lemma_discard_requested(
    room: RoomStateModel,
    context: RequestContextModel,
    seat: Seat,
    discard: DiscardAction,
    now_ms: u64,
)
    requires
        room.sound(),
        room.tidy(),
        room.can_number(5),
    ensures
        steps_tidily(room, room.discard_requested(context, seat, discard, now_ms)),
{
    match room.discard_choice(seat, discard) {
        Err(error) => {
            lemma_rejected(room, context, error);
        },
        Ok(tile) => {
            let (after, result) = room.discarded(seat, tile, discard.tsumogiri);
            match result {
                Err(error) => {
                    assert(after == room) by {
                        reveal(RoomStateModel::discarded);
                    }
                    lemma_rejected(room, context, error);
                },
                Ok(_) => {
                    let landed = after.discard_landed(seat, tile);
                    lemma_discard_lands(room, seat, tile, discard.tsumogiri);
                    lemma_discard_keeps_table(room, seat, tile, discard.tsumogiri);
                    lemma_keeps_sound(room, after);
                    lemma_keeps_sound(after, landed);
                    assert(landed.tidy() && landed.is_full() && landed.window() is None && lies(
                        landed,
                        seat,
                        tile,
                        after.next_event_seq,
                    )) by {
                        reveal(RoomStateModel::tidy);
                    }
                    lemma_sound_draws(landed, seat);
                    lemma_window_begun(
                        landed,
                        context,
                        seat,
                        tile,
                        after.next_event_seq,
                        ActionKind::Discard,
                        now_ms,
                    );
                    lemma_conserves_chain(
                        room,
                        landed,
                        room.discard_requested(context, seat, discard, now_ms).0,
                    );
                },
            }
        },
    }
}

proof fn lemma_asked(
    room: RoomStateModel,
    context: RequestContextModel,
    seat: Seat,
    request: PlayerActionRequestModel,
    purpose: ValidationPurposeModel,
)
    requires
        room.tidy(),
        room.can_number(1),
        match purpose {
            ValidationPurposeModel::ClaimWindow(_) => false,
            ValidationPurposeModel::Claim(claim) => !robs_kong(claim) && (
            room.window() matches Some(window) ==> claim.source_event_seq
                == window.source_event_seq),
            ValidationPurposeModel::SupplementalKong(_) => room.is_full() && room.window() is None,
            ValidationPurposeModel::DeclareWin(_) => true,
        },
    ensures
        steps_tidily(room, room.validation_begun(context, seat, request, purpose)),
{
    lemma_calm_step(room, room);
    if let Err(error) = room.validation_request(seat, request) {
        lemma_rejected(room, context, error);
    }
}

proof fn lemma_kong_requested(
    room: RoomStateModel,
    context: RequestContextModel,
    seat: Seat,
    request: PlayerActionRequestModel,
    kong: SupplementalKongAction,
)
    requires
        room.tidy(),
        room.can_number(1),
    ensures
        steps_tidily(room, room.kong_requested(context, seat, request, kong)),
{
    if room.phase != GamePhase::WaitingDiscard {
        lemma_rejected(
            room,
            context,
            failure(
                RejectCode::PhaseMismatch,
                "supplemental kong is only available during WaitingDiscard"@,
            ),
        );
    } else if seat != room.current_turn_seat {
        lemma_rejected(
            room,
            context,
            failure(
                RejectCode::NotYourTurn,
                "only the current turn seat may declare a supplemental kong"@,
            ),
        );
    } else {
        match parsed_tile(kong.tile) {
            Err(error) => {
                lemma_rejected(room, context, error);
            },
            Ok(tile) => match room.kong_choice(seat, tile) {
                Err(error) => {
                    lemma_rejected(room, context, error);
                },
                Ok(_) => {
                    assert(room.is_full() && room.window() is None) by {
                        reveal(RoomStateModel::tidy);
                    }
                    lemma_asked(
                        room,
                        context,
                        seat,
                        request,
                        ValidationPurposeModel::SupplementalKong(tile),
                    );
                },
            },
        }
    }
}

/// Whether an action is a claim to rob a kong. A kong is robbed by declaring the win.
pub open spec fn claims_kong(request: PlayerActionRequestModel) -> bool {
    request.action matches Some(PlayerActionModel::Claim(claim)) && robs_kong(claim)
}

proof fn lemma_action_requested(
    room: RoomStateModel,
    request_id: Seq<char>,
    connection_id: Seq<char>,
    request: PlayerActionRequestModel,
    now_ms: u64,
)
    requires
        room.sound(),
        room.tidy(),
        room.can_number(5),
        !claims_kong(request),
    ensures
        steps_tidily(room, room.action_requested(request_id, connection_id, request, now_ms)),
{
    reveal(RoomStateModel::action_requested);
    lemma_calm_step(room, room);
    let context = room.action_context(request_id, connection_id, request);
    if let Some(seat) = room.seat_of_connection(connection_id) {
        if let Some(error) = room.staleness(request) {
            lemma_rejected(room, context, error);
        } else {
            match request.action {
                None => {
                    lemma_rejected(
                        room,
                        context,
                        failure(
                            RejectCode::InvalidRequest,
                            "player action payload must be set"@,
                        ),
                    );
                },
                Some(PlayerActionModel::AutoPlayToggle(toggle)) => {
                    lemma_calm_step(room, room.auto_play_requested(seat, toggle.enabled, now_ms));
                },
                Some(PlayerActionModel::Discard(discard)) => {
                    lemma_discard_requested(room, context, seat, discard, now_ms);
                },
                Some(PlayerActionModel::Claim(claim)) => {
                    match room.window_submission(
                        seat,
                        context.action_window_id,
                        claim.source_event_seq,
                        "claim source_event_seq does not match the active claim window"@,
                    ) {
                        Err(error) => {
                            lemma_rejected(room, context, error);
                        },
                        Ok(_) => {
                            lemma_asked(
                                room,
                                context,
                                seat,
                                request,
                                ValidationPurposeModel::Claim(claim),
                            );
                        },
                    }
                },
                Some(PlayerActionModel::DeclareWin(win)) => {
                    lemma_asked(
                        room,
                        context,
                        seat,
                        request,
                        ValidationPurposeModel::DeclareWin(win),
                    );
                },
                Some(PlayerActionModel::SupplementalKong(kong)) => {
                    lemma_kong_requested(room, context, seat, request, kong);
                },
                Some(PlayerActionModel::Pass(pass)) => {
                    match room.window_submission(
                        seat,
                        context.action_window_id,
                        pass.source_event_seq,
                        "pass source_event_seq does not match the active claim window"@,
                    ) {
                        Err(error) => {
                            lemma_rejected(room, context, error);
                        },
                        Ok(_) => {
                            lemma_answered(room, seat, ClaimResponseModel::Pass, now_ms);
                        },
                    }
                },
            }
        }
    }
}

// ---------------------------------------------------------------------------
// Verdicts
// ---------------------------------------------------------------------------

proof fn lemma_claim_judged(
    room: RoomStateModel,
    context: RequestContextModel,
    seat: Seat,
    claim: ClaimActionModel,
    reply: Result<engine::ValidateActionResponseModel, Seq<char>>,
    now_ms: u64,
)
    requires
        room.sound(),
        room.tidy(),
        room.can_number(5),
        !robs_kong(claim),
        room.window() matches Some(window) ==> claim.source_event_seq == window.source_event_seq,
    ensures
        steps_tidily(room, room.claim_judged(context, seat, claim, reply, now_ms)),
{
    match verdict(reply) {
        Err(error) => {
            lemma_rejected(room, context, error);
        },
        Ok(_) => match room.claim_choice(seat, claim) {
            Err(error) => {
                lemma_rejected(room, context, error);
            },
            Ok(_) => {
                let window = room.window()->0;
                assert(window_fits(room, window)) by {
                    reveal(RoomStateModel::tidy);
                }
                lemma_offered_claim_fits(room, window, seat, claim);
                lemma_answered(room, seat, ClaimResponseModel::Claim(claim), now_ms);
            },
        },
    }
}

proof fn lemma_kong_judged(
    room: RoomStateModel,
    context: RequestContextModel,
    seat: Seat,
    tile: Tile,
    reply: Result<engine::ValidateActionResponseModel, Seq<char>>,
    now_ms: u64,
)
    requires
        room.sound(),
        room.tidy(),
        room.is_full(),
        room.window() is None,
        room.can_number(5),
    ensures
        steps_tidily(room, room.kong_judged(context, seat, tile, reply, now_ms)),
{
    match verdict(reply) {
        Err(error) => {
            lemma_rejected(room, context, error);
        },
        Ok(_) => {
            let event_seq = room.next_event_seq;
            let numbered = room.numbered();
            lemma_left_keeps(room, numbered);
            lemma_keeps_sound(room, numbered);
            lemma_calm_step(room, numbered);
            lemma_sound_draws(numbered, seat);
            let after = room.kong_judged(context, seat, tile, reply, now_ms).0;
            if room.room_config.enable_robbing_kong {
                lemma_window_begun(
                    numbered,
                    context,
                    seat,
                    tile,
                    event_seq,
                    ActionKind::SupplementalKong,
                    now_ms,
                );
            } else {
                lemma_kong_finished(numbered, context, seat, tile, event_seq, now_ms);
                lemma_kong_finished_numbers(numbered, context, seat, tile, event_seq, now_ms);
                lemma_plays_tidily(numbered, after);
            }
            lemma_conserves_chain(room, numbered, after);
        },
    }
}

proof fn lemma_win_judged(
    room: RoomStateModel,
    context: RequestContextModel,
    seat: Seat,
    win: DeclareWinAction,
    reply: Result<engine::ValidateActionResponseModel, Seq<char>>,
    now_ms: u64,
)
    requires
        room.sound(),
        room.tidy(),
        room.can_number(5),
    ensures
        steps_tidily(room, room.win_judged(context, seat, win, reply, now_ms)),
{
    match verdict(reply) {
        Err(error) => {
            lemma_rejected(room, context, error);
        },
        Ok(_) => match parsed_win_type(win.win_type) {
            Err(error) => {
                lemma_rejected(room, context, error);
            },
            Ok(win_type) => match parsed_tile(win.winning_tile) {
                Err(error) => {
                    lemma_rejected(room, context, error);
                },
                Ok(winning_tile) => match room.win_context(
                    seat,
                    context.action_window_id,
                    win,
                    win_type,
                    winning_tile,
                ) {
                    Err(error) => {
                        lemma_rejected(room, context, error);
                    },
                    Ok(Some(_)) => {
                        lemma_answered(room, seat, ClaimResponseModel::DeclareWin(win), now_ms);
                    },
                    Ok(None) => {
                        lemma_calm_step(room, room.numbered());
                        assert(room.is_full()) by {
                            reveal(RoomStateModel::tidy);
                        }
                    },
                },
            },
        },
    }
}

/// Whatever the rule engine says, the table holds the tiles that it held, and the room stays tidy.
pub proof fn law_verdicts_conserve_tiles(
    room: RoomStateModel,
    pending: PendingValidationModel,
    reply: Result<engine::ValidateActionResponseModel, Seq<char>>,
    now_ms: u64,
)
    requires
        room.sound(),
        room.tidy(),
        room.can_number(5),
        room.awaits(PendingCallModel::Validation(pending)),
        room.awaits_tidily(PendingCallModel::Validation(pending)),
    ensures
        steps_tidily(
            room,
            room.judged(pending.context, pending.seat, pending.purpose, reply, now_ms),
        ),
{
    let context = pending.context;
    let seat = pending.seat;
    match pending.purpose {
        ValidationPurposeModel::Claim(claim) => {
            lemma_claim_judged(room, context, seat, claim, reply, now_ms);
        },
        ValidationPurposeModel::SupplementalKong(tile) => {
            lemma_kong_judged(room, context, seat, tile, reply, now_ms);
        },
        ValidationPurposeModel::DeclareWin(win) => {
            lemma_win_judged(room, context, seat, win, reply, now_ms);
        },
        ValidationPurposeModel::ClaimWindow(probe) => {
            law_verdicts_use_few_numbers(room, pending, reply, now_ms);
            let (probed, step) = room.probe_answered(probe, reply, now_ms);
            if let Ok(response) = reply {
                lemma_answer_fits(room, probe, response.is_legal);
                lemma_probed(
                    room,
                    probe_with_answer(probe, response.is_legal),
                    probe.asked + 1,
                    now_ms,
                );
            }
            lemma_followed(
                room,
                probed,
                context,
                probe.source_seat,
                probe.tile,
                probe.source_event_seq,
                probe.trigger,
                step,
                now_ms,
            );
            lemma_plays_tidily(
                room,
                room.judged(context, seat, pending.purpose, reply, now_ms).0,
            );
        },
    }
}

// ---------------------------------------------------------------------------
// Hands that start
// ---------------------------------------------------------------------------

/// Whether two rooms have the same discards.
pub open spec fn same_discards(before: RoomStateModel, after: RoomStateModel) -> bool {
    forall|seat: Seat|
        (#[trigger] after.player_round_state.at(seat)) matches Some(hand) ==> (
        before.player_round_state.at(seat) matches Some(old_hand) && hand.discards
            == old_hand.discards)
}

proof fn lemma_dealt_replacement_discards(room: RoomStateModel, seat: Seat)
    ensures
        same_discards(room, room.dealt_replacement(seat).0),
    decreases room.dead_len(),
{
    let (after, tile) = room.popped(DrawSource::DeadWall);
    if let Some(tile) = tile {
        if after.lays_aside(tile) {
            let aside = after.with_flower(seat, tile);
            lemma_dealt_replacement_discards(aside, seat);
            assert(same_discards(room, aside));
            let last = aside.dealt_replacement(seat).0;
            assert forall|other: Seat|
                (#[trigger] last.player_round_state.at(other)) is Some implies (
            room.player_round_state.at(other) matches Some(old_hand)
                && last.player_round_state.at(other)->0.discards == old_hand.discards) by {
                assert(aside.player_round_state.at(other) is Some);
            }
        }
    }
}

proof fn lemma_dealt_many_discards(room: RoomStateModel, seat: Seat, count: nat)
    ensures
        same_discards(room, room.dealt_many(seat, count).0),
    decreases count,
{
    if count > 0 {
        let last = room.dealt_many(seat, count).0;
        lemma_dealt_many_discards(room, seat, (count - 1) as nat);
        let before = room.dealt_many(seat, (count - 1) as nat).0;
        let (after, tile) = before.popped(DrawSource::LiveWall);
        if let Some(tile) = tile {
            let aside = after.with_flower(seat, tile);
            assert(same_discards(before, aside));
            lemma_dealt_replacement_discards(aside, seat);
        }
        assert forall|other: Seat|
            (#[trigger] last.player_round_state.at(other)) is Some implies (
        room.player_round_state.at(other) matches Some(old_hand) && last.player_round_state.at(
            other,
        )->0.discards == old_hand.discards) by {
            if let Some(tile) = tile {
                if after.lays_aside(tile) {
                    assert(after.with_flower(seat, tile).player_round_state.at(other) is Some
                        || room.dealt_many(seat, (count - 1) as nat).1 is Err);
                }
            }
            assert(before.player_round_state.at(other) is Some);
        }
    }
}

proof fn lemma_dealt_seats_discards(room: RoomStateModel, seats: nat)
    ensures
        same_discards(room, room.dealt_seats(seats).0),
    decreases seats,
{
    if seats > 0 {
        let last = room.dealt_seats(seats).0;
        lemma_dealt_seats_discards(room, (seats - 1) as nat);
        let before = room.dealt_seats((seats - 1) as nat).0;
        lemma_dealt_many_discards(before, seat_order()[seats - 1], STARTING_HAND_LEN as nat);
        assert forall|other: Seat|
            (#[trigger] last.player_round_state.at(other)) is Some implies (
        room.player_round_state.at(other) matches Some(old_hand) && last.player_round_state.at(
            other,
        )->0.discards == old_hand.discards) by {
            assert(before.player_round_state.at(other) is Some);
        }
    }
}

/// A hand that starts, well or not, leaves a tidy room.
proof fn lemma_round_started(room: RoomStateModel, now_ms: u64)
    requires
        room.sound(),
        room.tidy(),
        room.is_full(),
        room.can_number(1),
    ensures
        room.round_started(room.next_wall(now_ms)).0.tidy(),
        room.round_started(room.next_wall(now_ms)).0.is_full(),
        room.round_started(room.next_wall(now_ms)).0.window() matches Some(window)
            ==> room.round_started(room.next_wall(now_ms)).0 == room,
{
    let wall = room.next_wall(now_ms);
    lemma_next_wall_len(room, now_ms);
    lemma_round_started_keeps(room, wall);
    let (after, result) = room.round_started(wall);
    if wall.len() > DEAD_WALL_TILE_COUNT {
        let set = room.table_set(wall);
        assert(set.all_can_draw() && set.player_round_state.at(Seat::Unspecified) is None) by {
            reveal(SeatMap::at);
        }
        lemma_dealt_seats_keeps(set, 4);
        lemma_dealt_seats_discards(set, 4);
        let (dealt, dealing) = set.dealt_seats(4);
        assert forall|seat: Seat|
            (#[trigger] dealt.player_round_state.at(seat)) is Some implies dealt.player_round_state.at(
            seat,
        )->0.discards.len() == 0 by {
            reveal(SeatMap::at);
            assert(set.player_round_state.at(seat) is Some);
        }
        if dealing is Ok {
            let dealer = room.dealer_seat;
            assert(set.can_draw(dealer));
            assert(dealt.can_draw(dealer));
            lemma_drawn_keeps(dealt, dealer, DrawSource::LiveWall);
            law_drawing_conserves_tiles(dealt, dealer, DrawSource::LiveWall);
            let drawn = dealt.drawn(dealer, DrawSource::LiveWall).0;
            assert forall|seat: Seat|
                (#[trigger] drawn.player_round_state.at(seat)) is Some implies drawn.player_round_state.at(
                seat,
            )->0.discards.len() == 0 by {
                assert(dealt.player_round_state.at(seat) is Some);
            }
        }
        assert(forall|seat: Seat|
            (#[trigger] after.player_round_state.at(seat)) is Some ==> after.player_round_state.at(
                seat,
            )->0.discards.len() == 0);
        assert(after.window() is None);
        assert(after.is_full() && after.players_by_seat.at(Seat::Unspecified) is None) by {
            reveal(RoomStateModel::tidy);
            reveal(SeatMap::at);
        }
        assert(after.tidy()) by {
            reveal(RoomStateModel::tidy);
        }
    }
}

// ---------------------------------------------------------------------------
// Commands
// ---------------------------------------------------------------------------

/// A new room is tidy.
pub proof fn law_new_rooms_are_tidy(
    room_id: Seq<char>,
    wall_factory: WallFactoryModel,
    runtime_mode: RoomRuntimeMode,
)
    ensures
        new_room(room_id, wall_factory, runtime_mode).tidy(),
{
    reveal(RoomStateModel::tidy);
    reveal(SeatMap::at);
}

proof fn lemma_joined(
    room: RoomStateModel,
    request_id: Seq<char>,
    connection_id: Seq<char>,
    join: AuthorizedJoinModel,
    now_ms: u64,
)
    requires
        room.tidy(),
        room.can_number(5),
        join.seat != Seat::Unspecified,
    ensures
        room.join_requested(request_id, connection_id, join, now_ms).tidy(),
        room.is_full() ==> conserves(
            room,
            room.join_requested(request_id, connection_id, join, now_ms),
        ),
{
    reveal(RoomStateModel::join_requested);
    let after = room.join_requested(request_id, connection_id, join, now_ms);
    if room.user_to_seat.contains_key(join.user_id) || room.players_by_seat.at(
        join.seat,
    ) is Some {
        lemma_calm_step(room, after);
    } else {
        let seated = room.with_player(join, connection_id);
        assert(!room.is_full());
        assert(seated.tidy()) by {
            reveal(RoomStateModel::tidy);
            assert forall|seat: Seat|
                (#[trigger] seated.player_round_state.at(seat)) is Some implies announced_before(
                seated.player_round_state.at(seat)->0.discards,
                seated.next_event_seq as int,
            ) by {
                if seat != join.seat {
                    assert(seated.player_round_state.at(seat) == room.player_round_state.at(seat));
                }
            }
            assert(seated.players_by_seat.at(Seat::Unspecified) is None);
        }
        lemma_calm_step(seated, after);
    }
}

proof fn lemma_readied(
    room: RoomStateModel,
    request_id: Seq<char>,
    connection_id: Seq<char>,
    ready: bool,
    now_ms: u64,
)
    requires
        room.sound(),
        room.tidy(),
        room.can_number(5),
    ensures
        room.ready_requested(request_id, connection_id, ready, now_ms).tidy(),
{
    reveal(RoomStateModel::ready_requested);
    let after = room.ready_requested(request_id, connection_id, ready, now_ms);
    if let Some(seat) = room.seat_of_connection(connection_id) {
        let marked = room.with_ready_mark(seat, ready);
        lemma_calm_step(room, marked);
        lemma_left_keeps(room, marked);
        lemma_keeps_sound(room, marked);
        if marked.all_ready() {
            assert(marked.is_full()) by {
                reveal(RoomStateModel::tidy);
                reveal(SeatMap::at);
            }
            lemma_round_started(marked, now_ms);
            lemma_next_wall_len(marked, now_ms);
            lemma_round_started_keeps(marked, marked.next_wall(now_ms));
            let started = marked.round_started(marked.next_wall(now_ms)).0;
            lemma_calm_step(started, after);
        } else {
            let lobby = marked.in_phase(GamePhase::Lobby);
            assert(lobby.tidy()) by {
                reveal(RoomStateModel::tidy);
                if let Some(window) = lobby.window() {
                    assert(window_fits(marked, window));
                    assert(window_fits(lobby, window));
                }
            }
            lemma_calm_step(lobby, after);
        }
    }
}

proof fn lemma_advanced(room: RoomStateModel, settled_hand_number: u32, now_ms: u64)
    requires
        room.sound(),
        room.tidy(),
        room.can_number(5),
    ensures
        room.advanced(settled_hand_number, now_ms).tidy(),
{
    reveal(RoomStateModel::advanced);
    let after = room.advanced(settled_hand_number, now_ms);
    if room.phase == GamePhase::RoundSettlement && room.hand_number == settled_hand_number {
        let transition = room.transition(settled_hand_number);
        let counted = room.with_completed(settled_hand_number);
        if transition.match_finished {
            assert(only_told(room, after));
            lemma_told_plays_on(room, after);
            assert(plays_tidily(room, after)) by {
                reveal(RoomStateModel::tidy);
                if let Some(window) = after.window() {
                    assert(window_fits(room, window));
                    assert(window_fits(after, window));
                }
            }
            lemma_plays_tidily(room, after);
        } else {
            let next = counted.moved_on(transition);
            lemma_calm_step(room, next);
            lemma_moved_on_sound(room, settled_hand_number);
            assert(next.is_full()) by {
                reveal(RoomStateModel::tidy);
            }
            lemma_round_started(next, now_ms);
            lemma_next_wall_len(next, now_ms);
            lemma_round_started_keeps(next, next.next_wall(now_ms));
            let (started, result) = next.round_started(next.next_wall(now_ms));
            if result is Ok {
                lemma_calm_step(started, after);
            } else {
                assert(after.tidy()) by {
                    reveal(RoomStateModel::tidy);
                    if let Some(window) = after.window() {
                        assert(window_fits(started, window));
                        assert(window_fits(after, window));
                    }
                }
            }
        }
    }
}

proof fn lemma_removed(room: RoomStateModel, user_id: Seq<char>, now_ms: u64)
    requires
        room.tidy(),
        room.can_number(5),
        room.round_runtime is None,
    ensures
        room.removal_requested(user_id, now_ms).tidy(),
{
    reveal(RoomStateModel::removal_requested);
    let after = room.removal_requested(user_id, now_ms);
    if room.phase == GamePhase::Lobby && room.user_to_seat.contains_key(user_id) {
        let seat = room.user_to_seat[user_id];
        let gone = room.without_player(user_id, seat);
        assert(gone.tidy()) by {
            reveal(RoomStateModel::tidy);
            assert forall|other: Seat|
                (#[trigger] gone.player_round_state.at(other)) is Some implies announced_before(
                gone.player_round_state.at(other)->0.discards,
                gone.next_event_seq as int,
            ) by {
                assert(gone.player_round_state.at(other) == room.player_round_state.at(other));
            }
            assert(gone.players_by_seat.at(Seat::Unspecified) is None);
        }
        lemma_calm_step(gone, after);
    }
}

/// Whether a command deals, or may deal, a new hand.
pub open spec fn may_deal(command: RoomCommandModel) -> bool {
    command is Ready || command is AdvanceAfterRoundSettlement
}

/// While a hand runs no command loses or doubles a tile, unless it deals the next hand; and whatever
/// the command, the room stays tidy. The lobby hands out real seats only and lets go of nobody once
/// a hand was dealt, and a kong is robbed by declaring the win.
pub proof fn law_commands_conserve_tiles(room: RoomStateModel, command: RoomCommandModel, now_ms: u64)
    requires
        room.sound(),
        room.tidy(),
        room.can_number(5),
        is_orderly(room, command),
        !(command is RunLoadTestRoom),
        command matches RoomCommandModel::PlayerAction { request_id, connection_id, request }
            ==> !claims_kong(request),
    ensures
        ({
            let (after, next) = room.commanded(command, now_ms);
            &&& after.tidy()
            &&& next matches Some(call) ==> after.awaits_tidily(call)
            &&& room.round_runtime is Some && !may_deal(command) ==> conserves(room, after)
        }),
{
    law_commands_use_few_numbers(room, command, now_ms);
    let after = room.commanded(command, now_ms).0;
    match command {
        RoomCommandModel::Join { request_id, connection_id, request, authorized_join } => {
            lemma_joined(room, request_id, connection_id, authorized_join, now_ms);
            assert(room.round_runtime is Some ==> room.is_full()) by {
                reveal(RoomStateModel::tidy);
            }
        },
        RoomCommandModel::Ready { request_id, connection_id, request } => {
            lemma_readied(room, request_id, connection_id, request.ready, now_ms);
        },
        RoomCommandModel::ResumeSession { request_id, connection_id, request } => {
            assert(calm(room, after)) by {
                reveal(RoomStateModel::resume_requested);
            }
            lemma_calm_step(room, after);
        },
        RoomCommandModel::PlayerAction { request_id, connection_id, request } => {
            lemma_action_requested(room, request_id, connection_id, request, now_ms);
        },
        RoomCommandModel::ClaimWindowTimeout { action_window_id } => {
            reveal(RoomStateModel::window_timed_out);
            lemma_calm_step(room, room);
            lemma_settled_if_ready(room, true, now_ms);
            lemma_settled_if_ready_keeps(room, true, now_ms);
            lemma_settled_if_ready_numbers(room, true, now_ms);
            lemma_plays_tidily(room, room.window_settled_if_ready(true, now_ms).0);
        },
        RoomCommandModel::Disconnect { connection_id } => {
            assert(calm(room, after)) by {
                reveal(RoomStateModel::disconnected);
            }
            lemma_calm_step(room, after);
        },
        RoomCommandModel::AdvanceAfterRoundSettlement { settled_hand_number } => {
            lemma_advanced(room, settled_hand_number, now_ms);
        },
        RoomCommandModel::RemovePlayer { user_id } => {
            lemma_removed(room, user_id, now_ms);
        },
        RoomCommandModel::RunLoadTestRoom { spec } => {},
    }
}

// ---------------------------------------------------------------------------
// Scores
// ---------------------------------------------------------------------------

/// Scores bring nobody to the table and send nobody away.
proof fn lemma_scored_players(room: RoomStateModel, deltas: Seq<engine::SeatScoreDelta>)
    ensures
        forall|seat: Seat|
            (#[trigger] room.scored(deltas).players_by_seat.at(seat) is Some)
                == (room.players_by_seat.at(seat) is Some),
    decreases deltas.len(),
{
    if deltas.len() > 0 {
        let before = room.scored(deltas.drop_last());
        lemma_scored_players(room, deltas.drop_last());
        assert forall|seat: Seat|
            (#[trigger] room.scored(deltas).players_by_seat.at(seat) is Some)
                == (room.players_by_seat.at(seat) is Some) by {
            assert((before.players_by_seat.at(seat) is Some) == (room.players_by_seat.at(
                seat,
            ) is Some));
        }
    }
}

proof fn lemma_first_claimed_bound(discards: Seq<DiscardTile>, source_event_seq: u64, bound: int)
    requires
        announced_before(discards, bound),
    ensures
        announced_before(first_claimed(discards, source_event_seq), bound),
    decreases discards.len(),
{
    if discards.len() > 0 && discards[0].source_event_seq != source_event_seq {
        let rest = discards.drop_first();
        assert forall|i: int| 0 <= i < rest.len() implies (
        #[trigger] rest[i]).source_event_seq < bound by {
            assert(discards[i + 1].source_event_seq < bound);
        }
        lemma_first_claimed_bound(rest, source_event_seq, bound);
        let after = first_claimed(discards, source_event_seq);
        let tail = first_claimed(rest, source_event_seq);
        assert forall|i: int| 0 <= i < after.len() implies (
        #[trigger] after[i]).source_event_seq < bound by {
            if i > 0 {
                assert(after[i] == tail[i - 1]);
            } else {
                assert(discards[0].source_event_seq < bound);
            }
        }
    }
}

/// A score moves no tile: at most it marks the discard that the win took. A score that does not come
/// does not even do that. The room stays tidy either way.
pub proof fn law_scores_move_no_tile(
    room: RoomStateModel,
    origin: WinOriginModel,
    win: PendingWin,
    reply: Result<engine::CalculateScoreResponseModel, Seq<char>>,
    now_ms: u64,
)
    requires
        room.tidy(),
        room.is_full(),
        room.can_number(1),
    ensures
        ({
            let after = room.win_scored(origin, win, reply, now_ms);
            &&& after.tidy()
            &&& after.unplayed() == room.unplayed()
            &&& reply is Err ==> conserves(room, after)
            &&& forall|seat: Seat|
                match #[trigger] room.player_round_state.at(seat) {
                    Some(hand) => after.player_round_state.at(seat) matches Some(next) && next.melds
                        == hand.melds && next.discards == (if reply is Ok && win.discarder_seat
                        == Some(seat) {
                        first_claimed(hand.discards, win.source_event_seq)
                    } else {
                        hand.discards
                    }),
                    None => after.player_round_state.at(seat) is None,
                }
        }),
{
    let after = room.win_scored(origin, win, reply, now_ms);
    law_scores_use_one_number(room, origin, win, reply, now_ms);
    match reply {
        Ok(response) => {
            let taken = match win.discarder_seat {
                Some(discarder) => room.with_discard_claimed(discarder, win.source_event_seq),
                None => room,
            };
            let ended = taken.without_window().in_phase(
                GamePhase::RoundSettlement,
            ).with_last_action(win.terminal_action);
            lemma_scored_keeps(ended, response.score_delta_by_seat);
            lemma_scored_players(ended, response.score_delta_by_seat);
            let scored = ended.scored(response.score_delta_by_seat);
            assert(after.player_round_state == taken.player_round_state);
            assert(after.players_by_seat == scored.players_by_seat);
            assert(after.unplayed() =~= room.unplayed()) by {
                reveal(RoomStateModel::unplayed);
            }
            assert(after.tidy()) by {
                reveal(RoomStateModel::tidy);
                assert forall|seat: Seat|
                    (#[trigger] after.player_round_state.at(seat)) is Some implies announced_before(
                    after.player_round_state.at(seat)->0.discards,
                    after.next_event_seq as int,
                ) by {
                    let hand = room.player_round_state.at(seat)->0;
                    assert(announced_before(hand.discards, room.next_event_seq as int));
                    lemma_first_claimed_bound(
                        hand.discards,
                        win.source_event_seq,
                        room.next_event_seq as int,
                    );
                }
                assert(forall|seat: Seat|
                    (#[trigger] after.players_by_seat.at(seat) is Some) == (
                    scored.players_by_seat.at(seat) is Some));
            }
        },
        Err(_) => {
            lemma_calm_step(room, after);
            assert(after.unplayed() =~= room.unplayed()) by {
                reveal(RoomStateModel::unplayed);
            }
        },
    }
}

} // verus!
