//! What players may ask for during a hand, and how the rule engine's answers are taken.

use vstd::prelude::*;

use crate::collections::{group_seat_map, opt_view};
use crate::proto::client::{
    ActionKind, ClaimAction, ClaimActionModel, DeclareWinAction, DiscardAction, GamePhase,
    PassAction, PlayerActionRequest, PlayerActionRequestModel, RejectCode, Seat,
    SupplementalKongAction, SyncReason, Tile,
};
use crate::proto::engine;
use crate::room::basics::{group_announcing_keeps, only_outbox_differs};
use crate::room::convert::{
    failure, map_validation_reject_code, parse_client_tile, parse_client_win_type, parsed_tile,
    parsed_win_type, plain_result, validation_reject_code, ActionValidationError,
    ActionValidationErrorModel,
};
use crate::room::frames::{clock_in_range, lemma_synced_keeps};
use crate::room::hand::seat_after;
use crate::room::plays::{lemma_kong_applied_numbers, lemma_turn_passed_on_numbers};
use crate::room::state::{
    ActiveClaimWindowStateModel, ClaimResponse, ClaimResponseModel, ResolvedActionRecord, RoomState,
    RoomStateModel,
};
use crate::room::steps::{
    reply_view, PendingCall, PendingCallModel, PendingValidation, PendingValidationModel, ProbeStep,
    ProbeStepModel, RequestContext, RequestContextModel, ValidationPurpose, ValidationPurposeModel,
    WindowProbe, WindowProbeModel, WinOrigin, WinOriginModel,
};
use crate::room::windows::fresh_probe;
use crate::text::concat;

verus! {

broadcast use {group_announcing_keeps, lemma_synced_keeps, group_seat_map};

/// A room and what it waits for.
pub type StepModel = (RoomStateModel, Option<PendingCallModel>);

/// The error for a rule engine that did not answer.
pub open spec fn validation_failure(reason: Seq<char>) -> ActionValidationErrorModel {
    failure(RejectCode::InternalError, "rule engine validation RPC failed: "@ + reason)
}

/// What the rule engine's verdict says against an action, if it says anything.
pub open spec fn verdict(reply: Result<engine::ValidateActionResponseModel, Seq<char>>) -> Result<
    (),
    ActionValidationErrorModel,
> {
    match reply {
        Err(reason) => Err(validation_failure(reason)),
        Ok(response) => if response.is_legal {
            Ok(())
        } else {
            Err(failure(validation_reject_code(response.reject_code), response.explanation))
        },
    }
}

fn take_verdict(reply: Result<engine::ValidateActionResponse, String>) -> (r: Result<
    (),
    ActionValidationError,
>)
    ensures
        plain_result(r) == verdict(reply_view(reply)),
{
    match reply {
        Err(reason) => Err(
            ActionValidationError {
                reject_code: RejectCode::InternalError,
                message: concat("rule engine validation RPC failed: ", reason.as_str()),
            },
        ),
        Ok(response) => {
            if response.is_legal {
                Ok(())
            } else {
                Err(
                    ActionValidationError {
                        reject_code: map_validation_reject_code(response.reject_code),
                        message: response.explanation,
                    },
                )
            }
        },
    }
}

impl RoomStateModel {
    /// Whether the counters of the room and the clock leave room for one more step, and every seat
    /// that may come to act has a hand.
    pub open spec fn ready(self, now_ms: u64) -> bool {
        &&& self.can_number(8)
        &&& self.next_action_window_id < u64::MAX
        &&& clock_in_range(now_ms)
        &&& self.draws_ready()
        &&& self.round_runtime matches Some(runtime) ==> runtime.turn_index < u32::MAX
        &&& self.phase == GamePhase::WaitingDiscard ==> self.player_round_state.at(
            self.current_turn_seat,
        ) is Some
        &&& self.wall_fits()
        &&& self.dealer_seat != Seat::Unspecified
        &&& self.dealer_streak < u32::MAX
        &&& self.can_tally(Some(Seat::Unspecified))
        &&& self.can_tally(Some(Seat::East))
        &&& self.can_tally(Some(Seat::South))
        &&& self.can_tally(Some(Seat::West))
        &&& self.can_tally(Some(Seat::North))
    }

    /// A discarded tile, bound to its event, on record and announced.
    #[verifier::opaque]
    pub open spec fn discard_landed(self, seat: Seat, tile: Tile) -> RoomStateModel {
        let event_seq = self.next_event_seq;
        self.numbered().with_discard_bound(seat, event_seq).with_last_action(
            ResolvedActionRecord {
                event_seq,
                actor_seat: seat,
                action_kind: ActionKind::Discard,
                tile: Some(tile),
                replacement_draw: false,
                rob_kong_candidate: false,
            },
        ).discard_announced(seat, event_seq, tile)
    }

    /// A supplemental kong that nobody may rob.
    #[verifier::opaque]
    pub open spec fn kong_finished(
        self,
        context: RequestContextModel,
        seat: Seat,
        tile: Tile,
        source_event_seq: u64,
        now_ms: u64,
    ) -> RoomStateModel {
        let (after, result) = self.kong_applied(seat, tile, source_event_seq);
        match result {
            Err(error) => after.rejected_in(context, error),
            Ok(_) => after.synced(SyncReason::ServerResync, now_ms),
        }
    }

    /// What follows once a claim window in the making has come as far as it can.
    #[verifier::opaque]
    pub open spec fn probe_followed(
        self,
        context: RequestContextModel,
        source_seat: Seat,
        tile: Tile,
        source_event_seq: u64,
        trigger: ActionKind,
        step: ProbeStepModel,
        now_ms: u64,
    ) -> StepModel {
        match step {
            ProbeStepModel::Ask(probe, request) => (
                self,
                Some(
                    PendingCallModel::Validation(
                        PendingValidationModel {
                            request,
                            context,
                            seat: source_seat,
                            purpose: ValidationPurposeModel::ClaimWindow(probe),
                        },
                    ),
                ),
            ),
            ProbeStepModel::Failed(error) => (self.rejected_in(context, error), None),
            ProbeStepModel::Settled(opened) => (
                if trigger == ActionKind::SupplementalKong {
                    if opened {
                        self.in_phase(GamePhase::ResolvingKong).synced(
                            SyncReason::ServerResync,
                            now_ms,
                        )
                    } else {
                        self.kong_finished(context, source_seat, tile, source_event_seq, now_ms)
                    }
                } else {
                    if opened {
                        self.synced(SyncReason::ServerResync, now_ms)
                    } else {
                        self.turn_passed_on(source_seat).synced(SyncReason::ServerResync, now_ms)
                    }
                },
                None,
            ),
        }
    }

    /// A claim window from its first seat on, and what follows.
    #[verifier::opaque]
    pub open spec fn window_begun(
        self,
        context: RequestContextModel,
        source_seat: Seat,
        tile: Tile,
        source_event_seq: u64,
        trigger: ActionKind,
        now_ms: u64,
    ) -> StepModel {
        let (probed, step) = self.probed(
            fresh_probe(source_seat, tile, source_event_seq, trigger),
            0,
            now_ms,
        );
        probed.probe_followed(context, source_seat, tile, source_event_seq, trigger, step, now_ms)
    }

    /// The tile that a seat may try to discard now, or why it may not.
    pub open spec fn discard_choice(self, seat: Seat, discard: DiscardAction) -> Result<
        Tile,
        ActionValidationErrorModel,
    > {
        if self.phase != GamePhase::WaitingDiscard {
            Err(
                failure(
                    RejectCode::PhaseMismatch,
                    "discard is only available during WaitingDiscard"@,
                ),
            )
        } else if seat != self.current_turn_seat {
            Err(failure(RejectCode::NotYourTurn, "only the current turn seat may discard"@))
        } else {
            parsed_tile(discard.tile)
        }
    }

    /// A request to discard.
    pub open spec fn discard_requested(
        self,
        context: RequestContextModel,
        seat: Seat,
        discard: DiscardAction,
        now_ms: u64,
    ) -> StepModel {
        match self.discard_choice(seat, discard) {
            Err(error) => (self.rejected_in(context, error), None),
            Ok(tile) => {
                let (after, result) = self.discarded(seat, tile, discard.tsumogiri);
                match result {
                    Err(error) => (after.rejected_in(context, error), None),
                    Ok(_) => after.discard_landed(seat, tile).window_begun(
                        context,
                        seat,
                        tile,
                        after.next_event_seq,
                        ActionKind::Discard,
                        now_ms,
                    ),
                }
            },
        }
    }

    /// The room with a seat's answer to the open window.
    pub open spec fn with_answer(self, seat: Seat, response: ClaimResponseModel) -> RoomStateModel {
        match self.window() {
            Some(window) => self.with_window(
                ActiveClaimWindowStateModel {
                    responded_seats: window.responded_seats.with(seat, Some(response)),
                    ..window
                },
            ),
            None => self,
        }
    }

    /// A seat's answer, and the settlement of the window if it was the last one missing.
    pub open spec fn answered(self, seat: Seat, response: ClaimResponseModel, now_ms: u64) -> StepModel {
        self.with_answer(seat, response).window_settled_if_ready(false, now_ms)
    }

    /// A request to let the tile of the open window pass.
    pub open spec fn pass_requested(
        self,
        context: RequestContextModel,
        seat: Seat,
        pass: PassAction,
        now_ms: u64,
    ) -> StepModel {
        match self.window_submission(
            seat,
            context.action_window_id,
            pass.source_event_seq,
            "pass source_event_seq does not match the active claim window"@,
        ) {
            Err(error) => (self.rejected_in(context, error), None),
            Ok(_) => self.answered(seat, ClaimResponseModel::Pass, now_ms),
        }
    }

    /// The question to the rule engine about a request, or its rejection.
    pub open spec fn validation_begun(
        self,
        context: RequestContextModel,
        seat: Seat,
        request: PlayerActionRequestModel,
        purpose: ValidationPurposeModel,
    ) -> StepModel {
        match self.validation_request(seat, request) {
            Err(error) => (self.rejected_in(context, error), None),
            Ok(question) => (
                self,
                Some(
                    PendingCallModel::Validation(
                        PendingValidationModel { request: question, context, seat, purpose },
                    ),
                ),
            ),
        }
    }

    /// A request to claim the tile of the open window.
    pub open spec fn claim_requested(
        self,
        context: RequestContextModel,
        seat: Seat,
        request: PlayerActionRequestModel,
        claim: ClaimActionModel,
    ) -> StepModel {
        match self.window_submission(
            seat,
            context.action_window_id,
            claim.source_event_seq,
            "claim source_event_seq does not match the active claim window"@,
        ) {
            Err(error) => (self.rejected_in(context, error), None),
            Ok(_) => self.validation_begun(
                context,
                seat,
                request,
                ValidationPurposeModel::Claim(claim),
            ),
        }
    }

    /// A claim that the rule engine has judged.
    pub open spec fn claim_judged(
        self,
        context: RequestContextModel,
        seat: Seat,
        claim: ClaimActionModel,
        reply: Result<engine::ValidateActionResponseModel, Seq<char>>,
        now_ms: u64,
    ) -> StepModel {
        match verdict(reply) {
            Err(error) => (self.rejected_in(context, error), None),
            Ok(_) => match self.claim_choice(seat, claim) {
                Err(error) => (self.rejected_in(context, error), None),
                Ok(_) => self.answered(seat, ClaimResponseModel::Claim(claim), now_ms),
            },
        }
    }

    /// A request to add a tile to a triplet.
    pub open spec fn kong_requested(
        self,
        context: RequestContextModel,
        seat: Seat,
        request: PlayerActionRequestModel,
        kong: SupplementalKongAction,
    ) -> StepModel {
        if self.phase != GamePhase::WaitingDiscard {
            (
                self.rejected_in(
                    context,
                    failure(
                        RejectCode::PhaseMismatch,
                        "supplemental kong is only available during WaitingDiscard"@,
                    ),
                ),
                None,
            )
        } else if seat != self.current_turn_seat {
            (
                self.rejected_in(
                    context,
                    failure(
                        RejectCode::NotYourTurn,
                        "only the current turn seat may declare a supplemental kong"@,
                    ),
                ),
                None,
            )
        } else {
            match parsed_tile(kong.tile) {
                Err(error) => (self.rejected_in(context, error), None),
                Ok(tile) => match self.kong_choice(seat, tile) {
                    Err(error) => (self.rejected_in(context, error), None),
                    Ok(_) => self.validation_begun(
                        context,
                        seat,
                        request,
                        ValidationPurposeModel::SupplementalKong(tile),
                    ),
                },
            }
        }
    }

    /// A supplemental kong that the rule engine has judged: the others may rob it first, where that
    /// is allowed.
    pub open spec fn kong_judged(
        self,
        context: RequestContextModel,
        seat: Seat,
        tile: Tile,
        reply: Result<engine::ValidateActionResponseModel, Seq<char>>,
        now_ms: u64,
    ) -> StepModel {
        match verdict(reply) {
            Err(error) => (self.rejected_in(context, error), None),
            Ok(_) => {
                let event_seq = self.next_event_seq;
                if self.room_config.enable_robbing_kong {
                    self.numbered().window_begun(
                        context,
                        seat,
                        tile,
                        event_seq,
                        ActionKind::SupplementalKong,
                        now_ms,
                    )
                } else {
                    (self.numbered().kong_finished(context, seat, tile, event_seq, now_ms), None)
                }
            },
        }
    }

    /// A win that the rule engine has judged: on a drawn tile it is scored, on a claimed one it is an
    /// answer to the window.
    pub open spec fn win_judged(
        self,
        context: RequestContextModel,
        seat: Seat,
        win: DeclareWinAction,
        reply: Result<engine::ValidateActionResponseModel, Seq<char>>,
        now_ms: u64,
    ) -> StepModel {
        match verdict(reply) {
            Err(error) => (self.rejected_in(context, error), None),
            Ok(_) => match parsed_win_type(win.win_type) {
                Err(error) => (self.rejected_in(context, error), None),
                Ok(win_type) => match parsed_tile(win.winning_tile) {
                    Err(error) => (self.rejected_in(context, error), None),
                    Ok(winning_tile) => match self.win_context(
                        seat,
                        context.action_window_id,
                        win,
                        win_type,
                        winning_tile,
                    ) {
                        Err(error) => (self.rejected_in(context, error), None),
                        Ok(Some(_)) => self.answered(
                            seat,
                            ClaimResponseModel::DeclareWin(win),
                            now_ms,
                        ),
                        Ok(None) => self.win_begun(
                            WinOriginModel::Declared(context),
                            seat,
                            None,
                            win_type,
                            winning_tile,
                            win.source_event_seq,
                        ),
                    },
                },
            },
        }
    }

    /// What follows once the rule engine has given a verdict.
    pub open spec fn judged(
        self,
        context: RequestContextModel,
        seat: Seat,
        purpose: ValidationPurposeModel,
        reply: Result<engine::ValidateActionResponseModel, Seq<char>>,
        now_ms: u64,
    ) -> StepModel {
        match purpose {
            ValidationPurposeModel::Claim(claim) => self.claim_judged(
                context,
                seat,
                claim,
                reply,
                now_ms,
            ),
            ValidationPurposeModel::SupplementalKong(tile) => self.kong_judged(
                context,
                seat,
                tile,
                reply,
                now_ms,
            ),
            ValidationPurposeModel::DeclareWin(win) => self.win_judged(
                context,
                seat,
                win,
                reply,
                now_ms,
            ),
            ValidationPurposeModel::ClaimWindow(probe) => {
                let (probed, step) = self.probe_answered(probe, reply, now_ms);
                probed.probe_followed(
                    context,
                    probe.source_seat,
                    probe.tile,
                    probe.source_event_seq,
                    probe.trigger,
                    step,
                    now_ms,
                )
            },
        }
    }
}

// ---------------------------------------------------------------------------
// How many event numbers the steps use
// ---------------------------------------------------------------------------

/// Asking seats to answer a window changes nothing but the outbox.
pub proof fn lemma_prompted_seats_keeps(
    room: RoomStateModel,
    event_seq: u64,
    seats: Seq<Seat>,
    action_window_id: u64,
    deadline_unix_ms: u64,
)
    ensures
        only_outbox_differs(
            room,
            room.prompted_seats(event_seq, seats, action_window_id, deadline_unix_ms),
        ),
    decreases seats.len(),
{
    if seats.len() > 0 {
        lemma_prompted_seats_keeps(
            room,
            event_seq,
            seats.drop_last(),
            action_window_id,
            deadline_unix_ms,
        );
    }
}

/// Opening a window uses at most two event numbers.
pub proof fn lemma_window_opened_numbers(room: RoomStateModel, window: ActiveClaimWindowStateModel)
    requires
        room.can_number(2),
    ensures
        room.next_event_seq <= room.window_opened(window).next_event_seq <= room.next_event_seq + 2,
{
    let phase = if window.trigger_action_kind == ActionKind::Discard {
        GamePhase::WaitingClaim
    } else {
        room.phase
    };
    let stored = RoomStateModel {
        next_action_window_id: (room.next_action_window_id + 1) as u64,
        ..room
    }.with_window(window).window_opening_stored().in_phase(phase);
    lemma_prompted_seats_keeps(
        stored.numbered(),
        stored.next_event_seq,
        window.eligible_seats,
        window.action_window_id,
        window.deadline_unix_ms,
    );
}

/// A window in the making uses at most two event numbers, and none unless it opens.
pub proof fn lemma_probed_numbers(room: RoomStateModel, probe: WindowProbeModel, from: int, now_ms: u64)
    requires
        room.can_number(2),
    ensures
        room.next_event_seq <= room.probed(probe, from, now_ms).0.next_event_seq
            <= room.next_event_seq + 2,
        room.probed(probe, from, now_ms).1 != ProbeStepModel::Settled(true) ==> room.probed(
            probe,
            from,
            now_ms,
        ).0 == room,
    decreases 4 - from,
{
    if from >= 4 {
        lemma_window_opened_numbers(
            room,
            room.new_window(
                probe.source_seat,
                probe.tile,
                probe.source_event_seq,
                probe.trigger,
                probe.eligible_seats,
                probe.options_by_seat,
                now_ms,
            ),
        );
    } else {
        lemma_probed_numbers(room, probe, from + 1, now_ms);
    }
}

/// A discard that landed uses one event number and lets everybody draw as before.
pub proof fn lemma_discard_landed_keeps(room: RoomStateModel, seat: Seat, tile: Tile, next: Seat)
    ensures
        room.discard_landed(seat, tile).next_event_seq == (room.next_event_seq + 1) as u64,
        room.discard_landed(seat, tile).next_action_window_id == room.next_action_window_id,
        room.can_draw(next) ==> room.discard_landed(seat, tile).can_draw(next),
{
    reveal(RoomStateModel::discard_landed);
}

/// Discarding uses no event number and lets everybody draw as before.
pub proof fn lemma_discarded_keeps(room: RoomStateModel, seat: Seat, tile: Tile, tsumogiri: bool, other: Seat)
    ensures
        room.discarded(seat, tile, tsumogiri).0.next_event_seq == room.next_event_seq,
        room.discarded(seat, tile, tsumogiri).0.next_action_window_id == room.next_action_window_id,
        room.can_draw(other) ==> room.discarded(seat, tile, tsumogiri).0.can_draw(other),
{
    reveal(RoomStateModel::discarded);
}

/// While a discard is awaited, the seat whose turn it is and the one after it can draw.
proof fn lemma_ready_to_discard(room: RoomStateModel, seat: Seat, now_ms: u64)
    requires
        room.ready(now_ms),
        room.phase == GamePhase::WaitingDiscard,
        seat == room.current_turn_seat,
    ensures
        room.can_draw(seat),
        room.can_draw(seat_after(seat)),
        room.player_round_state.at(seat) is Some,
        room.round_runtime matches Some(runtime) ==> runtime.turn_index < u32::MAX,
{
}

impl RoomState {
    fn land_discard(&mut self, seat: Seat, tile: Tile) -> (r: u64)
        requires
            old(self)@.can_number(1),
        ensures
            r == old(self)@.next_event_seq,
            final(self)@ == old(self)@.discard_landed(seat, tile),
    {
        reveal(RoomStateModel::discard_landed);
        let event_seq: u64 = self.allocate_event_seq();
        self.set_last_discard_source_event_seq(seat, event_seq);
        self.record_last_action(
            ResolvedActionRecord {
                event_seq,
                actor_seat: seat,
                action_kind: ActionKind::Discard,
                tile: Some(tile),
                replacement_draw: false,
                rob_kong_candidate: false,
            },
        );
        self.broadcast_discard_action(seat, event_seq, tile);
        event_seq
    }

    fn finish_kong(
        &mut self,
        context: &RequestContext,
        seat: Seat,
        tile: Tile,
        source_event_seq: u64,
        now_ms: u64,
    )
        requires
            old(self)@.can_number(2),
            old(self)@.draws_fit(seat),
        ensures
            final(self)@ == old(self)@.kong_finished(context@, seat, tile, source_event_seq, now_ms),
    {
        reveal(RoomStateModel::kong_finished);
        proof {
            lemma_kong_applied_numbers(self@, seat, tile, source_event_seq);
        }
        match self.apply_supplemental_kong(seat, tile, source_event_seq) {
            Err(error) => {
                self.reject_request(context, &error);
            },
            Ok(_) => {
                self.broadcast_sync_state(SyncReason::ServerResync, now_ms);
            },
        }
    }

    fn follow_probe(
        &mut self,
        context: RequestContext,
        source_seat: Seat,
        tile: Tile,
        source_event_seq: u64,
        trigger: ActionKind,
        step: ProbeStep,
        now_ms: u64,
    ) -> (r: Option<PendingCall>)
        requires
            old(self)@.can_number(2),
            step@ == ProbeStepModel::Settled(false) ==> old(self)@.draws_fit(source_seat),
            step@ == ProbeStepModel::Settled(false) && trigger != ActionKind::SupplementalKong
                ==> old(self)@.can_draw(seat_after(source_seat)),
        ensures
            (final(self)@, opt_view(r)) == old(self)@.probe_followed(
                context@,
                source_seat,
                tile,
                source_event_seq,
                trigger,
                step@,
                now_ms,
            ),
    {
        reveal(RoomStateModel::probe_followed);
        match step {
            ProbeStep::Ask(probe, request) => Some(
                PendingCall::Validation(
                    PendingValidation {
                        request,
                        context,
                        seat: source_seat,
                        purpose: ValidationPurpose::ClaimWindow(probe),
                    },
                ),
            ),
            ProbeStep::Failed(error) => {
                self.reject_request(&context, &error);
                None
            },
            ProbeStep::Settled(opened) => {
                if trigger == ActionKind::SupplementalKong {
                    if opened {
                        self.phase = GamePhase::ResolvingKong;
                        self.broadcast_sync_state(SyncReason::ServerResync, now_ms);
                    } else {
                        self.finish_kong(&context, source_seat, tile, source_event_seq, now_ms);
                    }
                } else {
                    if !opened {
                        proof {
                            lemma_turn_passed_on_numbers(self@, source_seat);
                        }
                        self.advance_turn_after_passes(source_seat);
                    }
                    self.broadcast_sync_state(SyncReason::ServerResync, now_ms);
                }
                None
            },
        }
    }

    fn begin_window(
        &mut self,
        context: RequestContext,
        source_seat: Seat,
        tile: Tile,
        source_event_seq: u64,
        trigger: ActionKind,
        now_ms: u64,
    ) -> (r: Option<PendingCall>)
        requires
            old(self)@.can_number(4),
            old(self)@.next_action_window_id < u64::MAX,
            clock_in_range(now_ms),
            old(self)@.draws_fit(source_seat),
            trigger != ActionKind::SupplementalKong ==> old(self)@.can_draw(
                seat_after(source_seat),
            ),
        ensures
            (final(self)@, opt_view(r)) == old(self)@.window_begun(
                context@,
                source_seat,
                tile,
                source_event_seq,
                trigger,
                now_ms,
            ),
    {
        reveal(RoomStateModel::window_begun);
        let probe = WindowProbe::new(source_seat, tile, source_event_seq, trigger);
        proof {
            lemma_probed_numbers(self@, probe@, 0, now_ms);
        }
        let step = self.probe_claim_window(probe, 0, now_ms);
        self.follow_probe(context, source_seat, tile, source_event_seq, trigger, step, now_ms)
    }

    fn check_discard(&self, seat: Seat, discard: &DiscardAction) -> (r: Result<
        Tile,
        ActionValidationError,
    >)
        ensures
            plain_result(r) == self@.discard_choice(seat, *discard),
    {
        if self.phase != GamePhase::WaitingDiscard {
            return Err(
                ActionValidationError::new(
                    RejectCode::PhaseMismatch,
                    "discard is only available during WaitingDiscard",
                ),
            );
        }
        if seat != self.current_turn_seat {
            return Err(
                ActionValidationError::new(
                    RejectCode::NotYourTurn,
                    "only the current turn seat may discard",
                ),
            );
        }
        parse_client_tile(discard.tile)
    }

    pub fn handle_discard_action(
        &mut self,
        context: RequestContext,
        seat: Seat,
        discard: &DiscardAction,
        now_ms: u64,
    ) -> (r: Option<PendingCall>)
        requires
            old(self)@.ready(now_ms),
        ensures
            (final(self)@, opt_view(r)) == old(self)@.discard_requested(
                context@,
                seat,
                *discard,
                now_ms,
            ),
    {
        let tile = match self.check_discard(seat, discard) {
            Err(error) => {
                self.reject_request(&context, &error);
                return None;
            },
            Ok(tile) => tile,
        };
        proof {
            lemma_ready_to_discard(self@, seat, now_ms);
            lemma_discarded_keeps(self@, seat, tile, discard.tsumogiri, seat_after(seat));
            lemma_discarded_keeps(self@, seat, tile, discard.tsumogiri, seat);
        }
        match self.discard_tile_from_hand(seat, tile, discard.tsumogiri) {
            Err(error) => {
                self.reject_request(&context, &error);
                None
            },
            Ok(_) => {
                proof {
                    lemma_discard_landed_keeps(self@, seat, tile, seat_after(seat));
                    lemma_discard_landed_keeps(self@, seat, tile, seat);
                }
                let event_seq: u64 = self.land_discard(seat, tile);
                self.begin_window(context, seat, tile, event_seq, ActionKind::Discard, now_ms)
            },
        }
    }

    fn record_answer(&mut self, seat: Seat, response: ClaimResponse)
        ensures
            final(self)@ == old(self)@.with_answer(seat, response@),
    {
        if let Some(runtime) = self.round_runtime.as_mut() {
            if let Some(window) = runtime.active_claim_window.as_mut() {
                window.responded_seats.set(seat, Some(response));
            }
        }
    }

    fn take_answer(&mut self, seat: Seat, response: ClaimResponse, now_ms: u64) -> (r: Option<
        PendingCall,
    >)
        requires
            old(self)@.can_number(4),
            old(self)@.draws_ready(),
        ensures
            (final(self)@, opt_view(r)) == old(self)@.answered(seat, response@, now_ms),
    {
        self.record_answer(seat, response);
        self.resolve_claim_window_if_ready(false, now_ms)
    }

    pub fn handle_pass_action(
        &mut self,
        context: RequestContext,
        seat: Seat,
        pass: &PassAction,
        now_ms: u64,
    ) -> (r: Option<PendingCall>)
        requires
            old(self)@.ready(now_ms),
        ensures
            (final(self)@, opt_view(r)) == old(self)@.pass_requested(
                context@,
                seat,
                *pass,
                now_ms,
            ),
    {
        match self.validate_claim_window_submission(
            seat,
            context.action_window_id,
            pass.source_event_seq,
            "pass source_event_seq does not match the active claim window",
        ) {
            Err(error) => {
                self.reject_request(&context, &error);
                None
            },
            Ok(_) => self.take_answer(seat, ClaimResponse::Pass, now_ms),
        }
    }

    fn begin_validation(
        &mut self,
        context: RequestContext,
        seat: Seat,
        request: &PlayerActionRequest,
        purpose: ValidationPurpose,
    ) -> (r: Option<PendingCall>)
        requires
            old(self)@.can_number(1),
        ensures
            (final(self)@, opt_view(r)) == old(self)@.validation_begun(
                context@,
                seat,
                request@,
                purpose@,
            ),
    {
        match self.build_validate_action_request(seat, request) {
            Err(error) => {
                self.reject_request(&context, &error);
                None
            },
            Ok(question) => Some(
                PendingCall::Validation(
                    PendingValidation { request: question, context, seat, purpose },
                ),
            ),
        }
    }

    pub fn handle_claim_action(
        &mut self,
        context: RequestContext,
        seat: Seat,
        request: &PlayerActionRequest,
        claim: &ClaimAction,
    ) -> (r: Option<PendingCall>)
        requires
            old(self)@.can_number(1),
        ensures
            (final(self)@, opt_view(r)) == old(self)@.claim_requested(
                context@,
                seat,
                request@,
                claim@,
            ),
    {
        match self.validate_claim_window_submission(
            seat,
            context.action_window_id,
            claim.source_event_seq,
            "claim source_event_seq does not match the active claim window",
        ) {
            Err(error) => {
                self.reject_request(&context, &error);
                None
            },
            Ok(_) => self.begin_validation(
                context,
                seat,
                request,
                ValidationPurpose::Claim(claim.clone()),
            ),
        }
    }

    fn judge_claim(
        &mut self,
        context: RequestContext,
        seat: Seat,
        claim: ClaimAction,
        reply: Result<engine::ValidateActionResponse, String>,
        now_ms: u64,
    ) -> (r: Option<PendingCall>)
        requires
            old(self)@.ready(now_ms),
        ensures
            (final(self)@, opt_view(r)) == old(self)@.claim_judged(
                context@,
                seat,
                claim@,
                reply_view(reply),
                now_ms,
            ),
    {
        match take_verdict(reply) {
            Err(error) => {
                self.reject_request(&context, &error);
                None
            },
            Ok(_) => match self.validate_claim_choice(seat, &claim) {
                Err(error) => {
                    self.reject_request(&context, &error);
                    None
                },
                Ok(_) => self.take_answer(seat, ClaimResponse::Claim(claim), now_ms),
            },
        }
    }

    pub fn handle_supplemental_kong_action(
        &mut self,
        context: RequestContext,
        seat: Seat,
        request: &PlayerActionRequest,
        kong: &SupplementalKongAction,
    ) -> (r: Option<PendingCall>)
        requires
            old(self)@.can_number(1),
        ensures
            (final(self)@, opt_view(r)) == old(self)@.kong_requested(
                context@,
                seat,
                request@,
                *kong,
            ),
    {
        if self.phase != GamePhase::WaitingDiscard {
            self.reject_request(
                &context,
                &ActionValidationError::new(
                    RejectCode::PhaseMismatch,
                    "supplemental kong is only available during WaitingDiscard",
                ),
            );
            return None;
        }
        if seat != self.current_turn_seat {
            self.reject_request(
                &context,
                &ActionValidationError::new(
                    RejectCode::NotYourTurn,
                    "only the current turn seat may declare a supplemental kong",
                ),
            );
            return None;
        }
        let tile = match parse_client_tile(kong.tile) {
            Err(error) => {
                self.reject_request(&context, &error);
                return None;
            },
            Ok(tile) => tile,
        };
        match self.validate_supplemental_kong_choice(seat, tile) {
            Err(error) => {
                self.reject_request(&context, &error);
                None
            },
            Ok(_) => self.begin_validation(
                context,
                seat,
                request,
                ValidationPurpose::SupplementalKong(tile),
            ),
        }
    }

    fn judge_kong(
        &mut self,
        context: RequestContext,
        seat: Seat,
        tile: Tile,
        reply: Result<engine::ValidateActionResponse, String>,
        now_ms: u64,
    ) -> (r: Option<PendingCall>)
        requires
            old(self)@.ready(now_ms),
        ensures
            (final(self)@, opt_view(r)) == old(self)@.kong_judged(
                context@,
                seat,
                tile,
                reply_view(reply),
                now_ms,
            ),
    {
        match take_verdict(reply) {
            Err(error) => {
                self.reject_request(&context, &error);
                None
            },
            Ok(_) => {
                let event_seq: u64 = self.allocate_event_seq();
                assert(self@.draws_fit(seat));
                if self.room_config.enable_robbing_kong {
                    self.begin_window(
                        context,
                        seat,
                        tile,
                        event_seq,
                        ActionKind::SupplementalKong,
                        now_ms,
                    )
                } else {
                    self.finish_kong(&context, seat, tile, event_seq, now_ms);
                    None
                }
            },
        }
    }

    pub fn handle_declare_win_action(
        &mut self,
        context: RequestContext,
        seat: Seat,
        request: &PlayerActionRequest,
        declare_win: &DeclareWinAction,
    ) -> (r: Option<PendingCall>)
        requires
            old(self)@.can_number(1),
        ensures
            (final(self)@, opt_view(r)) == old(self)@.validation_begun(
                context@,
                seat,
                request@,
                ValidationPurposeModel::DeclareWin(*declare_win),
            ),
    {
        self.begin_validation(context, seat, request, ValidationPurpose::DeclareWin(*declare_win))
    }

    fn judge_win(
        &mut self,
        context: RequestContext,
        seat: Seat,
        declare_win: DeclareWinAction,
        reply: Result<engine::ValidateActionResponse, String>,
        now_ms: u64,
    ) -> (r: Option<PendingCall>)
        requires
            old(self)@.ready(now_ms),
        ensures
            (final(self)@, opt_view(r)) == old(self)@.win_judged(
                context@,
                seat,
                declare_win,
                reply_view(reply),
                now_ms,
            ),
    {
        match take_verdict(reply) {
            Err(error) => {
                self.reject_request(&context, &error);
                return None;
            },
            Ok(_) => {},
        }
        let win_type = match parse_client_win_type(declare_win.win_type) {
            Err(error) => {
                self.reject_request(&context, &error);
                return None;
            },
            Ok(win_type) => win_type,
        };
        let winning_tile = match parse_client_tile(declare_win.winning_tile) {
            Err(error) => {
                self.reject_request(&context, &error);
                return None;
            },
            Ok(winning_tile) => winning_tile,
        };
        match self.resolve_declare_win_context(
            seat,
            context.action_window_id,
            &declare_win,
            win_type,
            winning_tile,
        ) {
            Err(error) => {
                self.reject_request(&context, &error);
                None
            },
            Ok(Some(_)) => self.take_answer(seat, ClaimResponse::DeclareWin(declare_win), now_ms),
            Ok(None) => self.begin_win(
                WinOrigin::Declared(context),
                seat,
                None,
                win_type,
                winning_tile,
                declare_win.source_event_seq,
            ),
        }
    }

    fn judge_probe(
        &mut self,
        context: RequestContext,
        probe: WindowProbe,
        reply: Result<engine::ValidateActionResponse, String>,
        now_ms: u64,
    ) -> (r: Option<PendingCall>)
        requires
            old(self)@.ready(now_ms),
            probe@.asked < 4,
            probe@.trigger == ActionKind::SupplementalKong || old(self)@.can_draw(
                seat_after(probe@.source_seat),
            ),
        ensures
            (final(self)@, opt_view(r)) == ({
                let (probed, step) = old(self)@.probe_answered(probe@, reply_view(reply), now_ms);
                probed.probe_followed(
                    context@,
                    probe@.source_seat,
                    probe@.tile,
                    probe@.source_event_seq,
                    probe@.trigger,
                    step,
                    now_ms,
                )
            }),
    {
        let source_seat = probe.source_seat;
        let tile = probe.tile;
        let source_event_seq: u64 = probe.source_event_seq;
        let trigger = probe.trigger;
        proof {
            if let Ok(response) = reply_view(reply) {
                lemma_probed_numbers(
                    self@,
                    crate::room::windows::probe_with_answer(probe@, response.is_legal),
                    probe@.asked + 1,
                    now_ms,
                );
            }
            assert(self@.draws_fit(source_seat));
        }
        let step = self.answer_claim_window_probe(probe, reply, now_ms);
        self.follow_probe(
            context,
            source_seat,
            tile,
            source_event_seq,
            trigger,
            step,
            now_ms,
        )
    }

    /// Takes the verdict that a pending question was about, and goes on.
    #[verifier::spinoff_prover]
    pub fn resume_validation(
        &mut self,
        context: RequestContext,
        seat: Seat,
        purpose: ValidationPurpose,
        reply: Result<engine::ValidateActionResponse, String>,
        now_ms: u64,
    ) -> (r: Option<PendingCall>)
        requires
            old(self)@.ready(now_ms),
            purpose@ matches ValidationPurposeModel::ClaimWindow(probe) ==> probe.asked < 4 && (
            probe.trigger == ActionKind::SupplementalKong || old(self)@.can_draw(
                seat_after(probe.source_seat),
            )),
        ensures
            (final(self)@, opt_view(r)) == old(self)@.judged(
                context@,
                seat,
                purpose@,
                reply_view(reply),
                now_ms,
            ),
    {
        match purpose {
            ValidationPurpose::Claim(claim) => self.judge_claim(
                context,
                seat,
                claim,
                reply,
                now_ms,
            ),
            ValidationPurpose::SupplementalKong(tile) => self.judge_kong(
                context,
                seat,
                tile,
                reply,
                now_ms,
            ),
            ValidationPurpose::DeclareWin(win) => self.judge_win(context, seat, win, reply, now_ms),
            ValidationPurpose::ClaimWindow(probe) => self.judge_probe(
                context,
                probe,
                reply,
                now_ms,
            ),
        }
    }
}

} // verus!
