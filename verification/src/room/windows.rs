//! Claim windows from the first question to the last consequence.

use vstd::prelude::*;

use crate::collections::{group_seat_map, lemma_views_empty, lemma_views_push, SeatMap};
use crate::proto::client::{
    ActionKind, ClaimKind, DeclareWinAction, PlayerAction, PlayerActionModel, PromptOption,
    PromptOptionModel, RejectCode, Seat, Tile, WinType,
};
use crate::proto::engine;
use crate::room::basics::group_announcing_keeps;
use crate::room::claims::{build_win_option, win_option};
use crate::room::convert::{
    engine_seat, engine_tile, failure, map_seat_to_engine, map_tile_to_engine, message_result,
    ActionValidationError, ActionValidationErrorModel,
};
use crate::room::frames::{clock_in_range, lemma_synced_keeps};
use crate::room::hand::{seat_at, seat_order};
use crate::room::state::{PromptOptions, RoomState, RoomStateModel};
use crate::room::steps::{
    reply_view, ProbeStep, ProbeStepModel, RequestContext, RequestContextModel, WindowProbe,
    WindowProbeModel,
};
use crate::text::concat;

verus! {

broadcast use {group_announcing_keeps, lemma_synced_keeps, group_seat_map};

/// A claim window of which no seat has been asked about.
pub open spec fn fresh_probe(source_seat: Seat, tile: Tile, source_event_seq: u64, trigger: ActionKind) -> WindowProbeModel {
    WindowProbeModel {
        source_seat,
        tile,
        source_event_seq,
        trigger,
        asked: 0,
        local_options: Seq::empty(),
        eligible_seats: Seq::empty(),
        options_by_seat: SeatMap::empty_map(),
    }
}

impl WindowProbe {
    pub fn new(source_seat: Seat, tile: Tile, source_event_seq: u64, trigger: ActionKind) -> (r:
        WindowProbe)
        ensures
            r@ == fresh_probe(source_seat, tile, source_event_seq, trigger),
    {
        broadcast use lemma_views_empty;

        WindowProbe {
            source_seat,
            tile,
            source_event_seq,
            trigger,
            asked: 0,
            local_options: Vec::new(),
            eligible_seats: Vec::new(),
            options_by_seat: SeatMap::new(),
        }
    }
}

/// The win that a window may offer: on a discard, or by robbing a kong.
pub open spec fn offered_win(probe: WindowProbeModel) -> DeclareWinAction {
    DeclareWinAction {
        win_type: (if probe.trigger == ActionKind::SupplementalKong {
            WinType::RobKong
        } else {
            WinType::Discard
        }).code(),
        winning_tile: probe.tile.code(),
        source_seat: probe.source_seat.code(),
        source_event_seq: probe.source_event_seq,
    }
}

/// The option to take the win that a window offers.
pub open spec fn offered_win_option(probe: WindowProbeModel, seat: Seat) -> PromptOptionModel {
    if probe.trigger == ActionKind::SupplementalKong {
        win_option(
            "rob-kong-win-"@,
            seat,
            probe.tile,
            probe.source_event_seq,
            ClaimKind::RobKongWin,
            WinType::RobKong,
        )
    } else {
        win_option(
            "discard-win-"@,
            seat,
            probe.tile,
            probe.source_event_seq,
            ClaimKind::DiscardWin,
            WinType::Discard,
        )
    }
}

/// What a seat may do, given the rule engine's verdict on a win.
pub open spec fn probed_options(probe: WindowProbeModel, seat: Seat, is_legal: bool) -> Seq<PromptOptionModel> {
    if is_legal {
        probe.local_options.push(offered_win_option(probe, seat))
    } else {
        probe.local_options
    }
}

/// A window in the making, once the seat that was asked about has its options. A seat without any
/// is left out.
pub open spec fn probe_with_answer(probe: WindowProbeModel, is_legal: bool) -> WindowProbeModel {
    let seat = seat_order()[probe.asked as int];
    let options = probed_options(probe, seat, is_legal);
    if options.len() == 0 {
        probe
    } else {
        WindowProbeModel {
            eligible_seats: probe.eligible_seats.push(seat),
            options_by_seat: probe.options_by_seat.with(seat, Some(options)),
            ..probe
        }
    }
}

/// The error for a rule engine that did not answer about a window.
pub open spec fn probe_failure(probe: WindowProbeModel, reason: Seq<char>) -> ActionValidationErrorModel {
    failure(
        RejectCode::InternalError,
        if probe.trigger == ActionKind::SupplementalKong {
            "rule engine validation RPC failed while building rob-kong window: "@ + reason
        } else {
            "rule engine validation RPC failed while building claim window: "@ + reason
        },
    )
}

impl RoomStateModel {
    /// The room with the sender of a request told why it was turned down.
    pub open spec fn rejected_in(self, context: RequestContextModel, error: ActionValidationErrorModel) -> RoomStateModel {
        self.rejected(
            context.connection_id,
            context.request_id,
            error.reject_code,
            error.message,
            context.expected_event_seq,
            context.action_window_id,
        )
    }

    /// The question whether a seat could win on the tile of a window in the making. A kong that may
    /// be robbed counts as the latest action.
    pub open spec fn probe_request(self, probe: WindowProbeModel, seat: Seat) -> Result<
        engine::ValidateActionRequestModel,
        ActionValidationErrorModel,
    > {
        match self.judging_request(seat, PlayerActionModel::DeclareWin(offered_win(probe)), None) {
            Err(error) => Err(error),
            Ok(request) => Ok(
                if probe.trigger == ActionKind::SupplementalKong {
                    engine::ValidateActionRequestModel {
                        recent_action: Some(
                            engine::RecentActionContext {
                                source_event_seq: probe.source_event_seq,
                                source_seat: engine_seat(probe.source_seat).code(),
                                source_action_kind: engine::ActionKind::SupplementalKong.code(),
                                source_tile: engine_tile(probe.tile).code(),
                                replacement_draw: false,
                                rob_kong_candidate: true,
                            },
                        ),
                        ..request
                    }
                } else {
                    request
                },
            ),
        }
    }

    /// A window in the making, from a place in the order of play on: the next seat other than the
    /// source is asked about; when there is none left the window opens, if anybody may do anything.
    pub open spec fn probed(self, probe: WindowProbeModel, from: int, now_ms: u64) -> (
        RoomStateModel,
        ProbeStepModel,
    )
        decreases 4 - from,
    {
        if from >= 4 {
            if probe.eligible_seats.len() == 0 {
                (self, ProbeStepModel::Settled(false))
            } else {
                (
                    self.window_opened(
                        self.new_window(
                            probe.source_seat,
                            probe.tile,
                            probe.source_event_seq,
                            probe.trigger,
                            probe.eligible_seats,
                            probe.options_by_seat,
                            now_ms,
                        ),
                    ),
                    ProbeStepModel::Settled(true),
                )
            }
        } else {
            let seat = seat_order()[from];
            if seat == probe.source_seat {
                self.probed(probe, from + 1, now_ms)
            } else {
                let asking = WindowProbeModel {
                    asked: from as usize,
                    local_options: if probe.trigger == ActionKind::SupplementalKong {
                        Seq::empty()
                    } else {
                        self.discard_options_at(
                            seat,
                            probe.source_seat,
                            probe.tile,
                            probe.source_event_seq,
                        )
                    },
                    ..probe
                };
                match self.probe_request(asking, seat) {
                    Err(error) => (self, ProbeStepModel::Failed(error)),
                    Ok(request) => (self, ProbeStepModel::Ask(asking, request)),
                }
            }
        }
    }

    /// A window in the making, once the rule engine has answered.
    pub open spec fn probe_answered(
        self,
        probe: WindowProbeModel,
        reply: Result<engine::ValidateActionResponseModel, Seq<char>>,
        now_ms: u64,
    ) -> (RoomStateModel, ProbeStepModel) {
        match reply {
            Err(reason) => (self, ProbeStepModel::Failed(probe_failure(probe, reason))),
            Ok(response) => self.probed(
                probe_with_answer(probe, response.is_legal),
                probe.asked + 1,
                now_ms,
            ),
        }
    }
}

fn win_option_of(probe: &WindowProbe, seat: Seat) -> (r: PromptOption)
    ensures
        r@ == offered_win_option(probe@, seat),
{
    if probe.trigger == ActionKind::SupplementalKong {
        build_win_option(
            "rob-kong-win-",
            seat,
            probe.tile,
            probe.source_event_seq,
            ClaimKind::RobKongWin,
            WinType::RobKong,
        )
    } else {
        build_win_option(
            "discard-win-",
            seat,
            probe.tile,
            probe.source_event_seq,
            ClaimKind::DiscardWin,
            WinType::Discard,
        )
    }
}

fn answer_probe(probe: WindowProbe, is_legal: bool) -> (r: WindowProbe)
    requires
        probe@.asked < 4,
    ensures
        r@.eligible_seats == probe_with_answer(probe@, is_legal).eligible_seats,
        r@.options_by_seat == probe_with_answer(probe@, is_legal).options_by_seat,
        r@.source_seat == probe@.source_seat,
        r@.tile == probe@.tile,
        r@.source_event_seq == probe@.source_event_seq,
        r@.trigger == probe@.trigger,
{
    broadcast use {lemma_views_empty, lemma_views_push};

    let seat = seat_at(probe.asked);
    let mut options: Vec<PromptOption> = Vec::new();
    let win = win_option_of(&probe, seat);
    let mut probe = probe;
    std::mem::swap(&mut options, &mut probe.local_options);
    if is_legal {
        options.push(win);
    }
    if options.len() > 0 {
        probe.eligible_seats.push(seat);
        probe.options_by_seat.set(seat, Some(PromptOptions { items: options }));
    }
    probe
}

impl RoomState {
    pub(crate) fn reject_request(&mut self, context: &RequestContext, error: &ActionValidationError)
        requires
            old(self)@.can_number(1),
        ensures
            final(self)@ == old(self)@.rejected_in(context@, error@),
    {
        self.send_reject_to_connection(
            context.connection_id.as_str(),
            context.request_id.as_str(),
            error.reject_code,
            error.message.as_str(),
            context.expected_event_seq,
            context.action_window_id,
        );
    }

    /// The question whether a seat could win on the tile of a window in the making.
    pub fn build_probe_request(&self, probe: &WindowProbe, seat: Seat) -> (r: Result<
        engine::ValidateActionRequest,
        ActionValidationError,
    >)
        ensures
            message_result(r) == self@.probe_request(probe@, seat),
    {
        let robbing: bool = probe.trigger == ActionKind::SupplementalKong;
        let win_type = if robbing {
            WinType::RobKong
        } else {
            WinType::Discard
        };
        let action = PlayerAction::DeclareWin(
            DeclareWinAction {
                win_type: win_type.as_i32(),
                winning_tile: probe.tile.as_i32(),
                source_seat: probe.source_seat.as_i32(),
                source_event_seq: probe.source_event_seq,
            },
        );
        match self.build_validate_action_request_for_action(seat, &action) {
            Err(error) => Err(error),
            Ok(request) => {
                let mut request = request;
                if robbing {
                    request.recent_action =
                    Some(
                        engine::RecentActionContext {
                            source_event_seq: probe.source_event_seq,
                            source_seat: map_seat_to_engine(probe.source_seat).as_i32(),
                            source_action_kind: engine::ActionKind::SupplementalKong.as_i32(),
                            source_tile: map_tile_to_engine(probe.tile).as_i32(),
                            replacement_draw: false,
                            rob_kong_candidate: true,
                        },
                    );
                }
                Ok(request)
            },
        }
    }

    /// Goes on with a window in the making from a place in the order of play.
    pub fn probe_claim_window(&mut self, probe: WindowProbe, from: usize, now_ms: u64) -> (r: ProbeStep)
        requires
            old(self)@.can_number(2),
            old(self)@.next_action_window_id < u64::MAX,
            clock_in_range(now_ms),
        ensures
            (final(self)@, r@) == old(self)@.probed(probe@, from as int, now_ms),
        decreases 4 - from,
    {
        broadcast use lemma_views_empty;

        if from >= 4 {
            if probe.eligible_seats.len() == 0 {
                return ProbeStep::Settled(false);
            }
            self.open_window(
                probe.source_seat,
                probe.tile,
                probe.source_event_seq,
                probe.trigger,
                probe.eligible_seats,
                probe.options_by_seat,
                now_ms,
            );
            return ProbeStep::Settled(true);
        }
        let seat = seat_at(from);
        if seat == probe.source_seat {
            return self.probe_claim_window(probe, from + 1, now_ms);
        }
        let mut asking = probe;
        asking.asked = from;
        asking.local_options =
        if asking.trigger == ActionKind::SupplementalKong {
            Vec::new()
        } else {
            self.build_local_discard_claim_options(
                seat,
                asking.source_seat,
                asking.tile,
                asking.source_event_seq,
            )
        };
        match self.build_probe_request(&asking, seat) {
            Err(error) => ProbeStep::Failed(error),
            Ok(request) => ProbeStep::Ask(asking, request),
        }
    }

    /// Takes the rule engine's answer about one seat and goes on with the window in the making.
    pub fn answer_claim_window_probe(
        &mut self,
        probe: WindowProbe,
        reply: Result<engine::ValidateActionResponse, String>,
        now_ms: u64,
    ) -> (r: ProbeStep)
        requires
            probe@.asked < 4,
            old(self)@.can_number(2),
            old(self)@.next_action_window_id < u64::MAX,
            clock_in_range(now_ms),
        ensures
            (final(self)@, r@) == old(self)@.probe_answered(probe@, reply_view(reply), now_ms),
    {
        match reply {
            Err(reason) => {
                let message = if probe.trigger == ActionKind::SupplementalKong {
                    concat(
                        "rule engine validation RPC failed while building rob-kong window: ",
                        reason.as_str(),
                    )
                } else {
                    concat(
                        "rule engine validation RPC failed while building claim window: ",
                        reason.as_str(),
                    )
                };
                ProbeStep::Failed(
                    ActionValidationError { reject_code: RejectCode::InternalError, message },
                )
            },
            Ok(response) => {
                let next: usize = probe.asked + 1;
                let ghost before = probe@;
                let answered = answer_probe(probe, response.is_legal);
                proof {
                    lemma_probed_ignores_scratch(
                        self@,
                        answered@,
                        probe_with_answer(before, response@.is_legal),
                        next as int,
                        now_ms,
                    );
                }
                self.probe_claim_window(answered, next, now_ms)
            },
        }
    }
}

/// What was noted about the seat asked about before plays no part in what follows.
proof fn lemma_probed_ignores_scratch(
    room: RoomStateModel,
    a: WindowProbeModel,
    b: WindowProbeModel,
    from: int,
    now_ms: u64,
)
    requires
        a == (WindowProbeModel { asked: a.asked, local_options: a.local_options, ..b }),
    ensures
        room.probed(a, from, now_ms) == room.probed(b, from, now_ms),
    decreases 4 - from,
{
    if from < 4 && seat_order()[from] == a.source_seat {
        lemma_probed_ignores_scratch(room, a, b, from + 1, now_ms);
    }
}

} // verus!
