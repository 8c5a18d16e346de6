//! What a room waits for between two steps.

use vstd::prelude::*;

use crate::collections::{views, SeatMap};
use crate::proto::client::{
    ActionKind, ClaimAction, ClaimActionModel, DeclareWinAction, PromptOption, PromptOptionModel,
    Seat, Tile, WinType,
};
use crate::proto::engine;
use crate::room::convert::{ActionValidationError, ActionValidationErrorModel};
use crate::room::state::{PromptOptions, ResolvedActionRecord};

verus! {

/// Whom to tell when a request cannot be met, and what to refer to.
pub struct RequestContext {
    pub request_id: String,
    pub connection_id: String,
    pub expected_event_seq: u64,
    pub action_window_id: u64,
}

/// The contents of a [`RequestContext`].
#[verifier::ext_equal]
pub struct RequestContextModel {
    pub request_id: Seq<char>,
    pub connection_id: Seq<char>,
    pub expected_event_seq: u64,
    pub action_window_id: u64,
}

impl View for RequestContext {
    type V = RequestContextModel;

    open spec fn view(&self) -> RequestContextModel {
        RequestContextModel {
            request_id: self.request_id@,
            connection_id: self.connection_id@,
            expected_event_seq: self.expected_event_seq,
            action_window_id: self.action_window_id,
        }
    }
}


/// A claim window in the making: which seats have been asked about so far, and what they may do. The seat at place `asked` in the order of play is being asked about.
pub struct WindowProbe {
    pub source_seat: Seat,
    pub tile: Tile,
    pub source_event_seq: u64,
    pub trigger: ActionKind,
    pub asked: usize,
    pub local_options: Vec<PromptOption>,
    pub eligible_seats: Vec<Seat>,
    pub options_by_seat: SeatMap<PromptOptions>,
}

/// The contents of a [`WindowProbe`].
#[verifier::ext_equal]
pub struct WindowProbeModel {
    pub source_seat: Seat,
    pub tile: Tile,
    pub source_event_seq: u64,
    pub trigger: ActionKind,
    pub asked: usize,
    pub local_options: Seq<PromptOptionModel>,
    pub eligible_seats: Seq<Seat>,
    pub options_by_seat: SeatMap<Seq<PromptOptionModel>>,
}

impl View for WindowProbe {
    type V = WindowProbeModel;

    open spec fn view(&self) -> WindowProbeModel {
        WindowProbeModel {
            source_seat: self.source_seat,
            tile: self.tile,
            source_event_seq: self.source_event_seq,
            trigger: self.trigger,
            asked: self.asked,
            local_options: views(self.local_options@),
            eligible_seats: self.eligible_seats@,
            options_by_seat: self.options_by_seat@,
        }
    }
}


/// A win that waits for its score.
#[derive(Clone, Copy, Debug, PartialEq, Eq, Structural)]
pub struct PendingWin {
    pub winner_seat: Seat,
    pub discarder_seat: Option<Seat>,
    pub win_type: WinType,
    pub winning_tile: Tile,
    pub source_event_seq: u64,
    pub terminal_action: ResolvedActionRecord,
}

/// How a win came about: by a request of its own, or by winning a claim window.
pub enum WinOrigin {
    Declared(RequestContext),
    ClaimWindow,
}

/// The contents of a [`WinOrigin`].
#[verifier::ext_equal]
pub enum WinOriginModel {
    Declared(RequestContextModel),
    ClaimWindow,
}

impl View for WinOrigin {
    type V = WinOriginModel;

    open spec fn view(&self) -> WinOriginModel {
        match self {
            WinOrigin::Declared(value) => WinOriginModel::Declared(value@),
            WinOrigin::ClaimWindow => WinOriginModel::ClaimWindow,
        }
    }
}


/// What a verdict of the rule engine is wanted for.
pub enum ValidationPurpose {
    Claim(ClaimAction),
    SupplementalKong(Tile),
    DeclareWin(DeclareWinAction),
    ClaimWindow(WindowProbe),
}

/// The contents of a [`ValidationPurpose`].
#[verifier::ext_equal]
pub enum ValidationPurposeModel {
    Claim(ClaimActionModel),
    SupplementalKong(Tile),
    DeclareWin(DeclareWinAction),
    ClaimWindow(WindowProbeModel),
}

impl View for ValidationPurpose {
    type V = ValidationPurposeModel;

    open spec fn view(&self) -> ValidationPurposeModel {
        match self {
            ValidationPurpose::Claim(value) => ValidationPurposeModel::Claim(value@),
            ValidationPurpose::SupplementalKong(value) => ValidationPurposeModel::SupplementalKong(*value),
            ValidationPurpose::DeclareWin(value) => ValidationPurposeModel::DeclareWin(*value),
            ValidationPurpose::ClaimWindow(value) => ValidationPurposeModel::ClaimWindow(value@),
        }
    }
}


/// A question to the rule engine whether an action is legal.
pub struct PendingValidation {
    pub request: engine::ValidateActionRequest,
    pub context: RequestContext,
    pub seat: Seat,
    pub purpose: ValidationPurpose,
}

/// The contents of a [`PendingValidation`].
#[verifier::ext_equal]
pub struct PendingValidationModel {
    pub request: engine::ValidateActionRequestModel,
    pub context: RequestContextModel,
    pub seat: Seat,
    pub purpose: ValidationPurposeModel,
}

impl View for PendingValidation {
    type V = PendingValidationModel;

    open spec fn view(&self) -> PendingValidationModel {
        PendingValidationModel {
            request: self.request@,
            context: self.context@,
            seat: self.seat,
            purpose: self.purpose@,
        }
    }
}


/// A question to the rule engine what a win is worth.
pub struct PendingScore {
    pub request: engine::CalculateScoreRequest,
    pub origin: WinOrigin,
    pub win: PendingWin,
}

/// The contents of a [`PendingScore`].
#[verifier::ext_equal]
pub struct PendingScoreModel {
    pub request: engine::CalculateScoreRequestModel,
    pub origin: WinOriginModel,
    pub win: PendingWin,
}

impl View for PendingScore {
    type V = PendingScoreModel;

    open spec fn view(&self) -> PendingScoreModel {
        PendingScoreModel {
            request: self.request@,
            origin: self.origin@,
            win: self.win,
        }
    }
}


/// What a room needs to know from the rule engine before it can go on.
pub enum PendingCall {
    Validation(PendingValidation),
    Score(PendingScore),
}

/// The contents of a [`PendingCall`].
#[verifier::ext_equal]
pub enum PendingCallModel {
    Validation(PendingValidationModel),
    Score(PendingScoreModel),
}

impl View for PendingCall {
    type V = PendingCallModel;

    open spec fn view(&self) -> PendingCallModel {
        match self {
            PendingCall::Validation(value) => PendingCallModel::Validation(value@),
            PendingCall::Score(value) => PendingCallModel::Score(value@),
        }
    }
}

/// How far a claim window in the making has come.
pub enum ProbeStep {
    /// The rule engine has to be asked about the next seat.
    Ask(WindowProbe, engine::ValidateActionRequest),
    /// Every seat has been asked about; tells whether a window was opened.
    Settled(bool),
    /// A seat could not be asked about.
    Failed(ActionValidationError),
}

/// The contents of a [`ProbeStep`].
#[verifier::ext_equal]
pub enum ProbeStepModel {
    Ask(WindowProbeModel, engine::ValidateActionRequestModel),
    Settled(bool),
    Failed(ActionValidationErrorModel),
}

impl View for ProbeStep {
    type V = ProbeStepModel;

    open spec fn view(&self) -> ProbeStepModel {
        match self {
            ProbeStep::Ask(probe, request) => ProbeStepModel::Ask(probe@, request@),
            ProbeStep::Settled(opened) => ProbeStepModel::Settled(*opened),
            ProbeStep::Failed(error) => ProbeStepModel::Failed(error@),
        }
    }
}

/// The view of the rule engine's reply, or of the reason why there is none.
pub open spec fn reply_view<T: View>(reply: Result<T, String>) -> Result<T::V, Seq<char>> {
    match reply {
        Ok(response) => Ok(response@),
        Err(reason) => Err(reason@),
    }
}

} // verus!
