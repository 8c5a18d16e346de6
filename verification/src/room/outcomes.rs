//! Wins, and how a claim window is settled.

use vstd::prelude::*;

use crate::collections::{group_seat_map, SeatMap};
use crate::json::{json_text, no_members, Json, JsonModel, JsonObject};
use crate::proto::client::{
    ActionKind, ClaimAction, ClaimActionModel, DeclareWinAction, GamePhase, RejectCode, Seat,
    SyncReason, Tile, WinType,
};
use crate::proto::engine;
use crate::room::basics::{group_announcing_keeps, only_outbox_differs};
use crate::room::claims::{select_highest_priority_claim_response, winning_seat};
use crate::room::convert::{
    failure, parse_client_tile, parse_client_win_type, parsed_tile, parsed_win_type,
    ActionValidationError, ActionValidationErrorModel,
};
use crate::room::frames::lemma_synced_keeps;
use crate::room::hand::seat_after;
use crate::room::payloads::{opt_seat, opt_seat_json, responses_json, responses_payload};
use crate::room::plays::{
    lemma_claim_applied_numbers, lemma_kong_applied_numbers, lemma_turn_passed_on_numbers,
};
use crate::room::settlement::scored_result;
use crate::room::state::{
    ActiveClaimWindowState, ActiveClaimWindowStateModel, ClaimResponse, ClaimResponseModel,
    ResolvedActionRecord, RoomState, RoomStateModel,
};
use crate::room::steps::{
    reply_view, PendingCall, PendingCallModel, PendingScore, PendingScoreModel, PendingWin,
    WinOrigin, WinOriginModel,
};
use crate::text::concat;

verus! {

broadcast use {group_announcing_keeps, lemma_synced_keeps, group_seat_map};

/// A win, as it is put on record.
pub open spec fn win_record(event_seq: u64, seat: Seat, win_type: WinType, tile: Tile) -> ResolvedActionRecord {
    ResolvedActionRecord {
        event_seq,
        actor_seat: seat,
        action_kind: ActionKind::DeclareWin,
        tile: Some(tile),
        replacement_draw: win_type == WinType::KongDraw,
        rob_kong_candidate: win_type == WinType::RobKong,
    }
}

/// The error for a rule engine that did not score a win.
pub open spec fn scoring_failure(reason: Seq<char>) -> ActionValidationErrorModel {
    failure(RejectCode::InternalError, "rule engine calculate_score RPC failed: "@ + reason)
}

/// The answers to a window in which every seat of a list that kept silent is taken to pass.
pub open spec fn with_silent_passes(responses: SeatMap<ClaimResponseModel>, eligible: Seq<Seat>) -> SeatMap<
    ClaimResponseModel,
>
    decreases eligible.len(),
{
    if eligible.len() == 0 {
        responses
    } else {
        let before = with_silent_passes(responses, eligible.drop_last());
        if before.at(eligible.last()) is Some {
            before
        } else {
            before.with(eligible.last(), Some(ClaimResponseModel::Pass))
        }
    }
}

impl RoomStateModel {
    /// The room that waits for the score of a win. The win has its event number already.
    pub open spec fn win_begun(
        self,
        origin: WinOriginModel,
        winner_seat: Seat,
        discarder_seat: Option<Seat>,
        win_type: WinType,
        winning_tile: Tile,
        source_event_seq: u64,
    ) -> (RoomStateModel, Option<PendingCallModel>) {
        let terminal_action = win_record(self.next_event_seq, winner_seat, win_type, winning_tile);
        (
            self.numbered(),
            Some(
                PendingCallModel::Score(
                    PendingScoreModel {
                        request: self.numbered().scoring_request(
                            winner_seat,
                            discarder_seat,
                            win_type,
                            winning_tile,
                            terminal_action,
                        ),
                        origin,
                        win: PendingWin {
                            winner_seat,
                            discarder_seat,
                            win_type,
                            winning_tile,
                            source_event_seq,
                            terminal_action,
                        },
                    },
                ),
            ),
        )
    }

    /// The room after a win was scored: scores changed, win and settlement announced, the tally kept
    /// and the next hand scheduled. A win that nobody pays for in particular counts as self-drawn.
    pub open spec fn win_settled(self, win: PendingWin, response: engine::CalculateScoreResponseModel) -> RoomStateModel {
        let taken = match win.discarder_seat {
            Some(discarder) => self.with_discard_claimed(discarder, win.source_event_seq),
            None => self,
        };
        taken.without_window().in_phase(GamePhase::RoundSettlement).with_last_action(
            win.terminal_action,
        ).scored(response.score_delta_by_seat).with_outcome(
            Some(win.winner_seat),
            win.discarder_seat is None,
        ).win_announced(
            win.winner_seat,
            win.terminal_action.event_seq,
            win.win_type,
            win.winning_tile,
            win.discarder_seat,
            win.source_event_seq,
        ).settlement_announced(
            scored_result(
                win.winner_seat,
                win.discarder_seat,
                win.win_type,
                win.winning_tile,
                response,
            ),
        ).with_transition_scheduled()
    }

    /// The room after the rule engine has scored a win, or has failed to.
    pub open spec fn win_scored(
        self,
        origin: WinOriginModel,
        win: PendingWin,
        reply: Result<engine::CalculateScoreResponseModel, Seq<char>>,
        now_ms: u64,
    ) -> RoomStateModel {
        match reply {
            Ok(response) => self.win_settled(win, response),
            Err(reason) => match origin {
                WinOriginModel::Declared(context) => self.rejected_in(
                    context,
                    scoring_failure(reason),
                ),
                WinOriginModel::ClaimWindow => self.synced(SyncReason::ServerResync, now_ms),
            },
        }
    }

    /// The stored payload of a settled window.
    pub open spec fn window_resolved_payload(
        self,
        event_seq: u64,
        window: ActiveClaimWindowStateModel,
        responses: SeatMap<ClaimResponseModel>,
        winner_seat: Option<Seat>,
        resolution_kind: Seq<char>,
    ) -> JsonModel {
        JsonModel::Object(
            no_members()
                .push(("room_id"@, json_text(self.room_id)))
                .push(("match_id"@, json_text(self.match_id)))
                .push(("round_id"@, json_text(self.current_round_id())))
                .push(("event_seq"@, JsonModel::Unsigned(event_seq)))
                .push(("action_window_id"@, JsonModel::Unsigned(window.action_window_id)))
                .push(("source_event_seq"@, JsonModel::Unsigned(window.source_event_seq)))
                .push(("source_seat"@, json_text(window.source_seat.name())))
                .push(("target_tile"@, json_text(window.target_tile.name())))
                .push(("resolution_kind"@, json_text(resolution_kind)))
                .push(("winner_seat"@, opt_seat(winner_seat)))
                .push(("responses"@, responses_payload(responses))),
        )
    }

    /// The settlement of a window, stored under a number of its own.
    #[verifier::opaque]
    pub open spec fn window_resolution_stored(
        self,
        window: ActiveClaimWindowStateModel,
        responses: SeatMap<ClaimResponseModel>,
        winner_seat: Option<Seat>,
        resolution_kind: Seq<char>,
    ) -> RoomStateModel {
        let event_seq = self.next_event_seq;
        let numbered = self.numbered();
        numbered.stored(
            "claim_window_resolved"@,
            event_seq,
            Some(
                match winner_seat {
                    Some(winner) => winner,
                    None => window.source_seat,
                },
            ),
            numbered.window_resolved_payload(
                event_seq,
                window,
                responses,
                winner_seat,
                resolution_kind,
            ),
        )
    }

    /// The room after a window that nobody took: a kong goes through, after a discard the turn moves
    /// on.
    pub open spec fn window_passed(self, window: ActiveClaimWindowStateModel, now_ms: u64) -> RoomStateModel {
        if window.trigger_action_kind == ActionKind::SupplementalKong {
            self.kong_applied(
                window.source_seat,
                window.target_tile,
                window.source_event_seq,
            ).0.synced(SyncReason::ServerResync, now_ms)
        } else {
            self.turn_passed_on(window.source_seat).synced(SyncReason::ServerResync, now_ms)
        }
    }

    /// The room after a window that nobody took, with that on record.
    #[verifier::opaque]
    pub open spec fn window_let_pass(
        self,
        window: ActiveClaimWindowStateModel,
        responses: SeatMap<ClaimResponseModel>,
        now_ms: u64,
    ) -> RoomStateModel {
        self.window_resolution_stored(window, responses, None, "PASS"@).window_passed(
            window,
            now_ms,
        )
    }

    /// The room after a claim won a window, with that on record. A claim that turns out to be
    /// impossible leaves the table as it then is.
    #[verifier::opaque]
    pub open spec fn window_claimed(
        self,
        window: ActiveClaimWindowStateModel,
        responses: SeatMap<ClaimResponseModel>,
        winner: Seat,
        claim: ClaimActionModel,
        now_ms: u64,
    ) -> RoomStateModel {
        self.window_resolution_stored(window, responses, Some(winner), "CLAIM"@).claim_applied(
            winner,
            claim,
        ).0.synced(SyncReason::ServerResync, now_ms)
    }

    /// The room after a declared win won a window, with that on record: it waits for the score.
    #[verifier::opaque]
    pub open spec fn window_won(
        self,
        window: ActiveClaimWindowStateModel,
        responses: SeatMap<ClaimResponseModel>,
        winner: Seat,
        win: DeclareWinAction,
    ) -> (RoomStateModel, Option<PendingCallModel>) {
        self.window_resolution_stored(window, responses, Some(winner), "DECLARE_WIN"@).win_begun(
            WinOriginModel::ClaimWindow,
            winner,
            Some(window.source_seat),
            match parsed_win_type(win.win_type) {
                Ok(win_type) => win_type,
                Err(_) => WinType::Discard,
            },
            match parsed_tile(win.winning_tile) {
                Ok(tile) => tile,
                Err(_) => window.target_tile,
            },
            win.source_event_seq,
        )
    }

    /// The room after a window was settled on its answers.
    pub open spec fn window_settled(
        self,
        window: ActiveClaimWindowStateModel,
        responses: SeatMap<ClaimResponseModel>,
        now_ms: u64,
    ) -> (RoomStateModel, Option<PendingCallModel>) {
        match winning_seat(responses, window.source_seat) {
            None => (self.window_let_pass(window, responses, now_ms), None),
            Some(winner) => match responses.at(winner) {
                Some(ClaimResponseModel::Claim(claim)) => (
                    self.window_claimed(window, responses, winner, claim, now_ms),
                    None,
                ),
                Some(ClaimResponseModel::DeclareWin(win)) => self.window_won(
                    window,
                    responses,
                    winner,
                    win,
                ),
                _ => (self, None),
            },
        }
    }

    /// The room after an answer to its window: the window is settled once every eligible seat has
    /// answered or it is forced to; until then everybody is sent a snapshot.
    #[verifier::opaque]
    pub open spec fn window_settled_if_ready(self, force: bool, now_ms: u64) -> (
        RoomStateModel,
        Option<PendingCallModel>,
    ) {
        match self.window() {
            Some(window) => if force || window.responded_seats.filled()
                == window.eligible_seats.len() {
                self.without_window().window_settled(
                    window,
                    with_silent_passes(window.responded_seats, window.eligible_seats),
                    now_ms,
                )
            } else {
                (self.synced(SyncReason::ServerResync, now_ms), None)
            },
            None => (self.synced(SyncReason::ServerResync, now_ms), None),
        }
    }

    /// Whether every seat that may come to draw next can.
    pub open spec fn draws_ready(self) -> bool {
        &&& self.draws_fit(Seat::Unspecified)
        &&& self.draws_fit(Seat::East)
        &&& self.draws_fit(Seat::South)
        &&& self.draws_fit(Seat::West)
        &&& self.draws_fit(Seat::North)
        &&& self.round_runtime is Some || self.phase == GamePhase::WaitingDiscard
            ==> self.all_can_draw()
    }
}

/// Storing the settlement of a window uses one event number and changes nothing else but the outbox.
pub broadcast proof fn lemma_window_resolution_keeps(
    room: RoomStateModel,
    window: ActiveClaimWindowStateModel,
    responses: SeatMap<ClaimResponseModel>,
    winner_seat: Option<Seat>,
    resolution_kind: Seq<char>,
)
    ensures
        only_outbox_differs(
            room.numbered(),
            #[trigger] room.window_resolution_stored(
                window,
                responses,
                winner_seat,
                resolution_kind,
            ),
        ),
{
    reveal(RoomStateModel::window_resolution_stored);
}

proof fn lemma_draws_ready_at(room: RoomStateModel, seat: Seat)
    requires
        room.draws_ready(),
    ensures
        room.draws_fit(seat),
        room.round_runtime is Some ==> room.can_draw(seat_after(seat)),
{
}

fn fill_silent_passes(responses: &mut SeatMap<ClaimResponse>, eligible: &Vec<Seat>)
    ensures
        final(responses)@ == with_silent_passes(old(responses)@, eligible@),
{
    let ghost before = responses@;
    let mut i: usize = 0;
    while i < eligible.len()
        invariant
            i <= eligible.len(),
            responses@ == with_silent_passes(before, eligible@.take(i as int)),
        decreases eligible.len() - i,
    {
        assert(eligible@.take(i + 1).drop_last() =~= eligible@.take(i as int));
        let seat = eligible[i];
        if responses.get(seat).is_none() {
            responses.set(seat, Some(ClaimResponse::Pass));
        }
        i = i + 1;
    }
    assert(eligible@.take(i as int) =~= eligible@);
}

impl RoomState {
    /// Numbers a win and asks for its score.
    pub(crate) fn begin_win(
        &mut self,
        origin: WinOrigin,
        winner_seat: Seat,
        discarder_seat: Option<Seat>,
        win_type: WinType,
        winning_tile: Tile,
        source_event_seq: u64,
    ) -> (r: Option<PendingCall>)
        requires
            old(self)@.can_number(1),
        ensures
            (final(self)@, crate::collections::opt_view(r)) == old(self)@.win_begun(
                origin@,
                winner_seat,
                discarder_seat,
                win_type,
                winning_tile,
                source_event_seq,
            ),
    {
        let terminal_action = ResolvedActionRecord {
            event_seq: self.allocate_event_seq(),
            actor_seat: winner_seat,
            action_kind: ActionKind::DeclareWin,
            tile: Some(winning_tile),
            replacement_draw: win_type == WinType::KongDraw,
            rob_kong_candidate: win_type == WinType::RobKong,
        };
        let request = self.build_calculate_score_request(
            winner_seat,
            discarder_seat,
            win_type,
            winning_tile,
            &terminal_action,
        );
        Some(
            PendingCall::Score(
                PendingScore {
                    request,
                    origin,
                    win: PendingWin {
                        winner_seat,
                        discarder_seat,
                        win_type,
                        winning_tile,
                        source_event_seq,
                        terminal_action,
                    },
                },
            ),
        )
    }

    /// Carries out a win that was scored.
    pub fn finalize_winning_action(&mut self, win: PendingWin, response: &engine::CalculateScoreResponse)
        requires
            old(self)@.can_number(1),
            old(self)@.can_tally(Some(win.winner_seat)),
        ensures
            final(self)@ == old(self)@.win_settled(win, response@),
    {
        if let Some(discarder) = win.discarder_seat {
            self.mark_discard_claimed(discarder, win.source_event_seq);
        }
        self.close_claim_window();
        self.phase = GamePhase::RoundSettlement;
        self.record_last_action(win.terminal_action);
        proof {
            lemma_scored_keeps(self@, response@.score_delta_by_seat);
        }
        self.apply_score_deltas(&response.score_delta_by_seat);
        self.record_round_outcome(Some(win.winner_seat), win.discarder_seat.is_none());
        self.broadcast_win_action(
            win.winner_seat,
            win.terminal_action.event_seq,
            win.win_type,
            win.winning_tile,
            win.discarder_seat,
            win.source_event_seq,
        );
        self.broadcast_round_settlement(
            win.winner_seat,
            win.discarder_seat,
            win.win_type,
            win.winning_tile,
            response,
        );
        self.schedule_post_round_transition();
    }

    /// Takes the score of a win, or the reason why there is none.
    pub fn resume_score(
        &mut self,
        origin: WinOrigin,
        win: PendingWin,
        reply: Result<engine::CalculateScoreResponse, String>,
        now_ms: u64,
    )
        requires
            old(self)@.can_number(1),
            old(self)@.can_tally(Some(win.winner_seat)),
        ensures
            final(self)@ == old(self)@.win_scored(origin@, win, reply_view(reply), now_ms),
    {
        match reply {
            Ok(response) => {
                self.finalize_winning_action(win, &response);
            },
            Err(reason) => match origin {
                WinOrigin::Declared(context) => {
                    let error = ActionValidationError {
                        reject_code: RejectCode::InternalError,
                        message: concat(
                            "rule engine calculate_score RPC failed: ",
                            reason.as_str(),
                        ),
                    };
                    self.reject_request(&context, &error);
                },
                WinOrigin::ClaimWindow => {
                    self.broadcast_sync_state(SyncReason::ServerResync, now_ms);
                },
            },
        }
    }

    pub fn persist_claim_window_resolved_event(
        &mut self,
        window: &ActiveClaimWindowState,
        responded_seats: &SeatMap<ClaimResponse>,
        winner_seat: Option<Seat>,
        resolution_kind: &str,
    )
        requires
            old(self)@.can_number(1),
        ensures
            final(self)@ == old(self)@.window_resolution_stored(
                window@,
                responded_seats@,
                winner_seat,
                resolution_kind@,
            ),
    {
        reveal(RoomStateModel::window_resolution_stored);
        let event_seq: u64 = self.allocate_event_seq();
        let payload = JsonObject::new()
            .with("room_id", Json::text(self.room_id.as_str()))
            .with("match_id", Json::text(self.match_id.as_str()))
            .with("round_id", Json::text(self.round_id().as_str()))
            .with("event_seq", Json::unsigned(event_seq))
            .with("action_window_id", Json::unsigned(window.action_window_id))
            .with("source_event_seq", Json::unsigned(window.source_event_seq))
            .with("source_seat", Json::text(window.source_seat.as_str_name()))
            .with("target_tile", Json::text(window.target_tile.as_str_name()))
            .with("resolution_kind", Json::text(resolution_kind))
            .with("winner_seat", opt_seat_json(winner_seat))
            .with("responses", responses_json(responded_seats))
            .build();
        let actor = match winner_seat {
            Some(winner) => winner,
            None => window.source_seat,
        };
        self.persist_match_event("claim_window_resolved", event_seq, Some(actor), payload);
    }

    fn pass_window(&mut self, window: &ActiveClaimWindowState, now_ms: u64)
        requires
            old(self)@.can_number(2),
            old(self)@.draws_fit(window@.source_seat),
            window@.trigger_action_kind != ActionKind::SupplementalKong ==> old(self)@.can_draw(
                seat_after(window@.source_seat),
            ),
        ensures
            final(self)@ == old(self)@.window_passed(window@, now_ms),
    {
        if window.trigger_action_kind == ActionKind::SupplementalKong {
            proof {
                lemma_kong_applied_numbers(
                    self@,
                    window.source_seat,
                    window.target_tile,
                    window.source_event_seq,
                );
            }
            let _ = self.apply_supplemental_kong(
                window.source_seat,
                window.target_tile,
                window.source_event_seq,
            );
        } else {
            proof {
                lemma_turn_passed_on_numbers(self@, window.source_seat);
            }
            self.advance_turn_after_passes(window.source_seat);
        }
        self.broadcast_sync_state(SyncReason::ServerResync, now_ms);
    }

    fn let_window_pass(
        &mut self,
        window: &ActiveClaimWindowState,
        responses: &SeatMap<ClaimResponse>,
        now_ms: u64,
    )
        requires
            old(self)@.can_number(3),
            old(self)@.draws_fit(window@.source_seat),
            old(self)@.can_draw(seat_after(window@.source_seat)),
        ensures
            final(self)@ == old(self)@.window_let_pass(window@, responses@, now_ms),
    {
        broadcast use lemma_window_resolution_keeps;

        reveal(RoomStateModel::window_let_pass);
        self.persist_claim_window_resolved_event(window, responses, None, "PASS");
        self.pass_window(window, now_ms);
    }

    fn settle_claim(
        &mut self,
        window: &ActiveClaimWindowState,
        responses: &SeatMap<ClaimResponse>,
        winner: Seat,
        claim: &ClaimAction,
        now_ms: u64,
    )
        requires
            old(self)@.can_number(4),
            old(self)@.draws_fit(winner),
        ensures
            final(self)@ == old(self)@.window_claimed(
                window@,
                responses@,
                winner,
                claim@,
                now_ms,
            ),
    {
        broadcast use lemma_window_resolution_keeps;

        reveal(RoomStateModel::window_claimed);
        self.persist_claim_window_resolved_event(window, responses, Some(winner), "CLAIM");
        proof {
            lemma_claim_applied_numbers(self@, winner, claim@);
        }
        let _ = self.apply_resolved_claim_action(winner, claim);
        self.broadcast_sync_state(SyncReason::ServerResync, now_ms);
    }

    fn settle_win(
        &mut self,
        window: &ActiveClaimWindowState,
        responses: &SeatMap<ClaimResponse>,
        winner: Seat,
        win: &DeclareWinAction,
    ) -> (r: Option<PendingCall>)
        requires
            old(self)@.can_number(2),
        ensures
            (final(self)@, crate::collections::opt_view(r)) == old(self)@.window_won(
                window@,
                responses@,
                winner,
                *win,
            ),
    {
        broadcast use lemma_window_resolution_keeps;

        reveal(RoomStateModel::window_won);
        self.persist_claim_window_resolved_event(window, responses, Some(winner), "DECLARE_WIN");
        let win_type = match parse_client_win_type(win.win_type) {
            Ok(win_type) => win_type,
            Err(_) => WinType::Discard,
        };
        let winning_tile = match parse_client_tile(win.winning_tile) {
            Ok(tile) => tile,
            Err(_) => window.target_tile,
        };
        self.begin_win(
            WinOrigin::ClaimWindow,
            winner,
            Some(window.source_seat),
            win_type,
            winning_tile,
            win.source_event_seq,
        )
    }

    fn settle_window(
        &mut self,
        window: ActiveClaimWindowState,
        responses: SeatMap<ClaimResponse>,
        now_ms: u64,
    ) -> (r: Option<PendingCall>)
        requires
            old(self)@.can_number(4),
            old(self)@.draws_ready(),
            old(self)@.round_runtime is Some,
        ensures
            (final(self)@, crate::collections::opt_view(r)) == old(self)@.window_settled(
                window@,
                responses@,
                now_ms,
            ),
    {
        match select_highest_priority_claim_response(window.source_seat, &responses) {
            None => {
                proof {
                    lemma_draws_ready_at(self@, window@.source_seat);
                }
                self.let_window_pass(&window, &responses, now_ms);
                None
            },
            Some(winner) => match responses.get(winner) {
                Some(ClaimResponse::Claim(claim)) => {
                    proof {
                        lemma_draws_ready_at(self@, winner);
                    }
                    self.settle_claim(&window, &responses, winner, claim, now_ms);
                    None
                },
                Some(ClaimResponse::DeclareWin(win)) => self.settle_win(
                    &window,
                    &responses,
                    winner,
                    win,
                ),
                _ => None,
            },
        }
    }

    /// Takes the claim window out of the room, if it is to be settled now.
    fn take_settled_window(&mut self, force_resolve: bool) -> (r: Option<ActiveClaimWindowState>)
        ensures
            match old(self)@.window() {
                Some(window) => if force_resolve || window.responded_seats.filled()
                    == window.eligible_seats.len() {
                    r matches Some(taken) && taken@ == window && final(self)@ == old(self)@.without_window()
                } else {
                    r is None && final(self)@ == old(self)@
                },
                None => r is None && final(self)@ == old(self)@,
            },
    {
        match self.round_runtime.as_mut() {
            None => None,
            Some(runtime) => {
                let settled: bool = match runtime.active_claim_window.as_ref() {
                    Some(window) => force_resolve || window.responded_seats.len()
                        == window.eligible_seats.len(),
                    None => false,
                };
                if settled {
                    runtime.active_claim_window.take()
                } else {
                    None
                }
            },
        }
    }

    /// Settles the claim window once every eligible seat has answered, or when forced to.
    pub fn resolve_claim_window_if_ready(&mut self, force_resolve: bool, now_ms: u64) -> (r: Option<
        PendingCall,
    >)
        requires
            old(self)@.can_number(4),
            old(self)@.draws_ready(),
        ensures
            (final(self)@, crate::collections::opt_view(r))
                == old(self)@.window_settled_if_ready(force_resolve, now_ms),
    {
        reveal(RoomStateModel::window_settled_if_ready);
        match self.take_settled_window(force_resolve) {
            None => {
                self.broadcast_sync_state(SyncReason::ServerResync, now_ms);
                None
            },
            Some(window) => {
                let mut window = window;
                let mut responses: SeatMap<ClaimResponse> = SeatMap::new();
                let ghost whole = window@;
                std::mem::swap(&mut responses, &mut window.responded_seats);
                fill_silent_passes(&mut responses, &window.eligible_seats);
                proof {
                    lemma_settled_ignores_answers(self@, whole, window@, responses@, now_ms);
                }
                self.settle_window(window, responses, now_ms)
            },
        }
    }
}

/// Once its answers are known apart, a window's own record of them plays no part in its settlement.
proof fn lemma_settled_ignores_answers(
    room: RoomStateModel,
    a: ActiveClaimWindowStateModel,
    b: ActiveClaimWindowStateModel,
    responses: SeatMap<ClaimResponseModel>,
    now_ms: u64,
)
    requires
        a == (ActiveClaimWindowStateModel { responded_seats: a.responded_seats, ..b }),
    ensures
        room.window_settled(a, responses, now_ms) == room.window_settled(b, responses, now_ms),
{
    reveal(RoomStateModel::window_resolution_stored);
    reveal(RoomStateModel::window_let_pass);
    reveal(RoomStateModel::window_claimed);
    reveal(RoomStateModel::window_won);
}

/// Scores change nothing but the players' scores.
pub proof fn lemma_scored_keeps(room: RoomStateModel, deltas: Seq<engine::SeatScoreDelta>)
    ensures
        room.scored(deltas) == (RoomStateModel {
            players_by_seat: room.scored(deltas).players_by_seat,
            ..room
        }),
    decreases deltas.len(),
{
    if deltas.len() > 0 {
        lemma_scored_keeps(room, deltas.drop_last());
    }
}

} // verus!
