//! Rule engines that live inside the process.

use vstd::prelude::*;

use crate::collections::{lemma_views_empty, lemma_views_push, views};
use crate::proto::engine::{
    ActionKind, CalculateScoreRequest, CalculateScoreRequestModel, CalculateScoreResponse,
    CalculateScoreResponseModel, ValidateActionRequest, ValidateActionRequestModel,
    ValidateActionResponse, ValidateActionResponseModel, ValidationRejectCode,
};
use crate::room::steps::reply_view;

verus! {

broadcast use {lemma_views_empty, lemma_views_push};

/// Where the rule engine listens unless told otherwise.
pub const DEFAULT_RULE_ENGINE_ENDPOINT: &'static str = "http://127.0.0.1:50051";

/// Something that judges actions and scores wins. Each engine says of itself which replies it may
/// give to a request, and what becomes of it; one that says nothing may give any. A reply may also
/// be the reason why there is none.
pub trait RuleEngine: Sized {
    /// Whether an engine may judge a request so, and be such afterwards.
    open spec fn judges(
        before: Self,
        request: ValidateActionRequestModel,
        reply: Result<ValidateActionResponseModel, Seq<char>>,
        after: Self,
    ) -> bool {
        true
    }

    /// Whether an engine may score a request so, and be such afterwards.
    open spec fn scores(
        before: Self,
        request: CalculateScoreRequestModel,
        reply: Result<CalculateScoreResponseModel, Seq<char>>,
        after: Self,
    ) -> bool {
        true
    }

    /// Judges whether an action is legal.
    fn validate_action(&mut self, request: &ValidateActionRequest) -> (r: Result<
        ValidateActionResponse,
        String,
    >)
        ensures
            Self::judges(*old(self), request@, reply_view(r), *final(self)),
    ;

    /// Scores a winning hand.
    fn calculate_score(&mut self, request: &CalculateScoreRequest) -> (r: Result<
        CalculateScoreResponse,
        String,
    >)
        ensures
            Self::scores(*old(self), request@, reply_view(r), *final(self)),
    ;
}

/// A holder of a rule engine, through which a room's questions are put.
pub struct RuleEngineHandle<E> {
    pub inner: E,
}

impl<E: RuleEngine> RuleEngineHandle<E> {
    pub fn new(rule_engine: E) -> (r: RuleEngineHandle<E>)
        ensures
            r.inner == rule_engine,
    {
        RuleEngineHandle { inner: rule_engine }
    }

    pub fn validate_action(&mut self, request: &ValidateActionRequest) -> (r: Result<
        ValidateActionResponse,
        String,
    >)
        ensures
            E::judges(old(self).inner, request@, reply_view(r), final(self).inner),
    {
        self.inner.validate_action(request)
    }

    pub fn calculate_score(&mut self, request: &CalculateScoreRequest) -> (r: Result<
        CalculateScoreResponse,
        String,
    >)
        ensures
            E::scores(old(self).inner, request@, reply_view(r), final(self).inner),
    {
        self.inner.calculate_score(request)
    }
}

impl RuleEngineHandle<NoopRuleEngine> {
    /// A holder of an engine that finds everything legal.
    pub fn noop() -> (r: RuleEngineHandle<NoopRuleEngine>)
        ensures
            r.inner == NoopRuleEngine,
    {
        RuleEngineHandle::new(NoopRuleEngine)
    }
}

/// An engine that finds everything legal and nothing worth a point.
#[derive(Clone, Copy, Debug, PartialEq, Eq, Structural)]
pub struct NoopRuleEngine;

/// What an engine that finds everything legal says.
pub open spec fn noop_verdict() -> ValidateActionResponseModel {
    ValidateActionResponseModel {
        is_legal: true,
        reject_code: ValidationRejectCode::Unspecified.code(),
        derived_action_type: ActionKind::Unspecified.code(),
        meld_result: None,
        winning_context: None,
        suggested_follow_ups: Seq::empty(),
        explanation: "noop rule engine accepted action"@,
    }
}

/// A score of nothing.
pub open spec fn empty_score() -> CalculateScoreResponseModel {
    CalculateScoreResponseModel {
        total_fan: 0,
        fan_details: Seq::empty(),
        score_delta_by_seat: Seq::empty(),
        settlement_flags: Seq::empty(),
    }
}

fn score_of_nothing() -> (r: CalculateScoreResponse)
    ensures
        r@ == empty_score(),
{
    CalculateScoreResponse {
        total_fan: 0,
        fan_details: Vec::new(),
        score_delta_by_seat: Vec::new(),
        settlement_flags: Vec::new(),
    }
}

impl RuleEngine for NoopRuleEngine {
    open spec fn judges(
        before: Self,
        request: ValidateActionRequestModel,
        reply: Result<ValidateActionResponseModel, Seq<char>>,
        after: Self,
    ) -> bool {
        reply == Ok::<ValidateActionResponseModel, Seq<char>>(noop_verdict())
    }

    open spec fn scores(
        before: Self,
        request: CalculateScoreRequestModel,
        reply: Result<CalculateScoreResponseModel, Seq<char>>,
        after: Self,
    ) -> bool {
        reply == Ok::<CalculateScoreResponseModel, Seq<char>>(empty_score())
    }

    fn validate_action(&mut self, request: &ValidateActionRequest) -> (r: Result<
        ValidateActionResponse,
        String,
    >) {
        let response = ValidateActionResponse {
            is_legal: true,
            reject_code: ValidationRejectCode::Unspecified.as_i32(),
            derived_action_type: ActionKind::Unspecified.as_i32(),
            meld_result: None,
            winning_context: None,
            suggested_follow_ups: Vec::new(),
            explanation: String::from_str("noop rule engine accepted action"),
        };
        assert(response@ =~= noop_verdict());
        Ok(response)
    }

    fn calculate_score(&mut self, request: &CalculateScoreRequest) -> (r: Result<
        CalculateScoreResponse,
        String,
    >) {
        Ok(score_of_nothing())
    }
}

/// An engine that always gives the same replies and remembers what it was asked.
pub struct MockRuleEngine {
    pub validate_response: ValidateActionResponse,
    pub calculate_response: CalculateScoreResponse,
    pub asked_validations: Vec<ValidateActionRequest>,
    pub asked_scores: Vec<CalculateScoreRequest>,
}

/// The contents of a [`MockRuleEngine`].
#[verifier::ext_equal]
pub struct MockRuleEngineModel {
    pub validate_response: ValidateActionResponseModel,
    pub calculate_response: CalculateScoreResponseModel,
    pub asked_validations: Seq<ValidateActionRequestModel>,
    pub asked_scores: Seq<CalculateScoreRequestModel>,
}

impl View for MockRuleEngine {
    type V = MockRuleEngineModel;

    open spec fn view(&self) -> MockRuleEngineModel {
        MockRuleEngineModel {
            validate_response: self.validate_response@,
            calculate_response: self.calculate_response@,
            asked_validations: views(self.asked_validations@),
            asked_scores: views(self.asked_scores@),
        }
    }
}

impl MockRuleEngine {
    pub fn new(validate_response: ValidateActionResponse) -> (r: MockRuleEngine)
        ensures
            r@ == (MockRuleEngineModel {
                validate_response: validate_response@,
                calculate_response: empty_score(),
                asked_validations: Seq::empty(),
                asked_scores: Seq::empty(),
            }),
    {
        MockRuleEngine {
            validate_response,
            calculate_response: score_of_nothing(),
            asked_validations: Vec::new(),
            asked_scores: Vec::new(),
        }
    }

    pub fn with_calculate_response(self, calculate_response: CalculateScoreResponse) -> (r:
        MockRuleEngine)
        ensures
            r@ == (MockRuleEngineModel { calculate_response: calculate_response@, ..self@ }),
    {
        MockRuleEngine {
            validate_response: self.validate_response,
            calculate_response,
            asked_validations: self.asked_validations,
            asked_scores: self.asked_scores,
        }
    }

    /// A copy of the requests that were judged, oldest first.
    pub fn validate_requests(&self) -> (r: Vec<ValidateActionRequest>)
        ensures
            views(r@) == self@.asked_validations,
    {
        let copy = self.asked_validations.clone();
        assert(views(copy@) =~= views(self.asked_validations@));
        copy
    }

    /// A copy of the requests that were scored, oldest first.
    pub fn calculate_requests(&self) -> (r: Vec<CalculateScoreRequest>)
        ensures
            views(r@) == self@.asked_scores,
    {
        let copy = self.asked_scores.clone();
        assert(views(copy@) =~= views(self.asked_scores@));
        copy
    }
}

impl RuleEngine for MockRuleEngine {
    open spec fn judges(
        before: Self,
        request: ValidateActionRequestModel,
        reply: Result<ValidateActionResponseModel, Seq<char>>,
        after: Self,
    ) -> bool {
        &&& reply == Ok::<ValidateActionResponseModel, Seq<char>>(before@.validate_response)
        &&& after@ == (MockRuleEngineModel {
            asked_validations: before@.asked_validations.push(request),
            ..before@
        })
    }

    open spec fn scores(
        before: Self,
        request: CalculateScoreRequestModel,
        reply: Result<CalculateScoreResponseModel, Seq<char>>,
        after: Self,
    ) -> bool {
        &&& reply == Ok::<CalculateScoreResponseModel, Seq<char>>(before@.calculate_response)
        &&& after@ == (MockRuleEngineModel {
            asked_scores: before@.asked_scores.push(request),
            ..before@
        })
    }

    fn validate_action(&mut self, request: &ValidateActionRequest) -> (r: Result<
        ValidateActionResponse,
        String,
    >) {
        self.asked_validations.push(request.clone());
        Ok(self.validate_response.clone())
    }

    fn calculate_score(&mut self, request: &CalculateScoreRequest) -> (r: Result<
        CalculateScoreResponse,
        String,
    >) {
        self.asked_scores.push(request.clone());
        Ok(self.calculate_response.clone())
    }
}

} // verus!
