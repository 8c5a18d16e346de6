//! A room together with its rule engine.

use vstd::prelude::*;

use crate::collections::opt_view;
use crate::engine::{RuleEngine, RuleEngineHandle};
use crate::proto::client::{ActionKind, Seat, Tile};
use crate::proto::engine::{CalculateScoreResponseModel, ValidateActionResponseModel};
use crate::room::commands::{RoomCommand, RoomCommandModel};
use crate::room::convert::{plain_result, ActionValidationError, ActionValidationErrorModel};
use crate::room::frames::clock_in_range;
use crate::room::soundness::{
    is_orderly, law_commands_keep_rooms_sound, lemma_commanded_sound, law_scores_keep_rooms_sound,
    law_sound_rooms_are_ready, law_verdicts_keep_rooms_sound, lemma_probed_keeps, questions_left,
};
use crate::room::state::{RoomState, RoomStateModel};
use crate::room::steps::{
    reply_view, PendingCall, PendingCallModel, ProbeStep, ProbeStepModel, WindowProbe,
};
use crate::room::windows::{fresh_probe, probe_with_answer};

verus! {

/// Whether a room may come from one question to the next with some engine's answer.
pub open spec fn answered_once<E: RuleEngine>(
    room: RoomStateModel,
    call: PendingCallModel,
    engine: E,
    now_ms: u64,
    after: RoomStateModel,
    next: Option<PendingCallModel>,
    engine_after: E,
) -> bool {
    match call {
        PendingCallModel::Validation(pending) => exists|
            reply: Result<ValidateActionResponseModel, Seq<char>>,
        |
            #[trigger] E::judges(engine, pending.request, reply, engine_after) && (after, next)
                == room.judged(pending.context, pending.seat, pending.purpose, reply, now_ms),
        PendingCallModel::Score(pending) => exists|
            reply: Result<CalculateScoreResponseModel, Seq<char>>,
        |
            #[trigger] E::scores(engine, pending.request, reply, engine_after) && (after, next) == (
                room.win_scored(pending.origin, pending.win, reply, now_ms),
                None::<PendingCallModel>,
            ),
    }
}

/// Whether a room may come to an end from a question with the answers of an engine, so many of
/// them.
pub open spec fn played_out<E: RuleEngine>(
    room: RoomStateModel,
    call: Option<PendingCallModel>,
    engine: E,
    now_ms: u64,
    answers: nat,
    end: RoomStateModel,
    left: Option<PendingCallModel>,
    engine_end: E,
) -> bool
    decreases answers,
{
    if answers == 0 {
        end == room && left == call && engine_end == engine
    } else {
        call matches Some(call) && exists|
            after: RoomStateModel,
            next: Option<PendingCallModel>,
            engine_after: E,
        |
            #[trigger] answered_once(room, call, engine, now_ms, after, next, engine_after)
                && played_out(
                after,
                next,
                engine_after,
                now_ms,
                (answers - 1) as nat,
                end,
                left,
                engine_end,
            )
    }
}

impl RoomState {
    /// Puts a question to an engine and goes on with its answer.
    fn ask_once<E: RuleEngine>(
        &mut self,
        call: PendingCall,
        engine: &mut RuleEngineHandle<E>,
        now_ms: u64,
    ) -> (r: Option<PendingCall>)
        requires
            old(self)@.sound(),
            old(self)@.ready(now_ms),
            old(self)@.awaits(call@),
        ensures
            answered_once(
                old(self)@,
                call@,
                old(engine).inner,
                now_ms,
                final(self)@,
                opt_view(r),
                final(engine).inner,
            ),
            final(self)@.sound(),
            r matches Some(next) ==> final(self)@.awaits(next@) && questions_left(next@)
                < questions_left(call@),
    {
        let ghost before = self@;
        match call {
            PendingCall::Validation(pending) => {
                let ghost asker = engine.inner;
                let ghost question = pending@;
                let reply = engine.validate_action(&pending.request);
                let ghost told = reply_view(reply);
                assert(E::judges(asker, question.request, told, engine.inner));
                proof {
                    law_verdicts_keep_rooms_sound(before, question, told, now_ms);
                }
                self.resume_validation(
                    pending.context,
                    pending.seat,
                    pending.purpose,
                    reply,
                    now_ms,
                )
            },
            PendingCall::Score(pending) => {
                let ghost asker = engine.inner;
                let ghost question = pending@;
                let reply = engine.calculate_score(&pending.request);
                let ghost told = reply_view(reply);
                assert(E::scores(asker, question.request, told, engine.inner));
                proof {
                    law_scores_keep_rooms_sound(
                        before,
                        question.origin,
                        question.win,
                        told,
                        now_ms,
                    );
                    lemma_any_seat_can_tally(before, question.win.winner_seat, now_ms);
                }
                self.resume_score(pending.origin, pending.win, reply, now_ms);
                None
            },
        }
    }

    /// Puts questions to an engine until the room has none left, or has no room left in its
    /// counters for an answer.
    pub fn settle<E: RuleEngine>(
        &mut self,
        call: Option<PendingCall>,
        engine: &mut RuleEngineHandle<E>,
        now_ms: u64,
    ) -> (r: Option<PendingCall>)
        requires
            old(self)@.sound(),
            call matches Some(question) ==> old(self)@.awaits(question@),
        ensures
            final(self)@.sound(),
            exists|answers: nat|
                #[trigger] played_out(
                    old(self)@,
                    opt_view(call),
                    old(engine).inner,
                    now_ms,
                    answers,
                    final(self)@,
                    opt_view(r),
                    final(engine).inner,
                ),
            r is Some ==> !final(self)@.has_room(now_ms),
        decreases
                (if call is Some {
                    questions_left(call->0@) + 1
                } else {
                    0
                }),
    {
        let ghost room = self@;
        let ghost asker = engine.inner;
        match call {
            None => {
                assert(played_out(room, None, asker, now_ms, 0, self@, None, engine.inner));
                None
            },
            Some(question) => {
                if !self.is_ready(now_ms) {
                    proof {
                        if room.has_room(now_ms) {
                            law_sound_rooms_are_ready(room, now_ms);
                        }
                        assert(played_out(
                            room,
                            Some(question@),
                            asker,
                            now_ms,
                            0,
                            self@,
                            Some(question@),
                            engine.inner,
                        ));
                    }
                    return Some(question);
                }
                let ghost call_view = question@;
                let next = self.ask_once(question, engine, now_ms);
                let ghost middle = self@;
                let ghost middle_engine = engine.inner;
                let ghost next_view = opt_view(next);
                let left = self.settle(next, engine, now_ms);
                proof {
                    let answers = choose|answers: nat|
                        #[trigger] played_out(
                            middle,
                            next_view,
                            middle_engine,
                            now_ms,
                            answers,
                            self@,
                            opt_view(left),
                            engine.inner,
                        );
                    assert(answered_once(
                        room,
                        call_view,
                        asker,
                        now_ms,
                        middle,
                        next_view,
                        middle_engine,
                    ));
                    assert(played_out(
                        room,
                        Some(call_view),
                        asker,
                        now_ms,
                        answers + 1,
                        self@,
                        opt_view(left),
                        engine.inner,
                    ));
                }
                left
            },
        }
    }

    /// Carries out a command together with whatever has to be asked of an engine on the way.
    pub fn run_command<E: RuleEngine>(
        &mut self,
        command: RoomCommand,
        engine: &mut RuleEngineHandle<E>,
        now_ms: u64,
    ) -> (r: Option<PendingCall>)
        requires
            old(self)@.sound(),
            old(self)@.can_take(command@, now_ms),
            is_orderly(old(self)@, command@),
        ensures
            final(self)@.sound() || final(self)@.should_shutdown,
            exists|answers: nat|
                #[trigger] played_out(
                    old(self)@.commanded(command@, now_ms).0,
                    old(self)@.commanded(command@, now_ms).1,
                    old(engine).inner,
                    now_ms,
                    answers,
                    final(self)@,
                    opt_view(r),
                    final(engine).inner,
                ),
            r is Some ==> !final(self)@.has_room(now_ms),
    {
        let ghost room = self@;
        let ghost order = command@;
        proof {
            law_commands_keep_rooms_sound(room, order, now_ms);
        }
        let call = self.handle_command(command, now_ms);
        match call {
            None => {
                assert(played_out(
                    self@,
                    None,
                    engine.inner,
                    now_ms,
                    0,
                    self@,
                    None,
                    engine.inner,
                ));
                None
            },
            Some(question) => {
                proof {
                    lemma_questions_leave_rooms_sound(room, order, now_ms);
                }
                self.settle(Some(question), engine, now_ms)
            },
        }
    }
}

/// Where a room has room in its counters, whoever wins can be counted.
proof fn lemma_any_seat_can_tally(room: RoomStateModel, seat: Seat, now_ms: u64)
    requires
        room.ready(now_ms),
    ensures
        room.can_tally(Some(seat)),
{
    match seat {
        Seat::Unspecified => {},
        Seat::East => {},
        Seat::South => {},
        Seat::West => {},
        Seat::North => {},
    }
}

/// A command that leaves a question does not end the room.
proof fn lemma_questions_leave_rooms_sound(room: RoomStateModel, command: RoomCommandModel, now_ms: u64)
    requires
        room.sound(),
        is_orderly(room, command),
        room.commanded(command, now_ms).1 is Some,
    ensures
        room.commanded(command, now_ms).0.sound(),
{
    lemma_commanded_sound(room, command, now_ms);
}

/// Whether a window in the making may come to an end from a step with the answers of an engine, so
/// many of them.
pub open spec fn probe_played<E: RuleEngine>(
    room: RoomStateModel,
    step: ProbeStepModel,
    engine: E,
    now_ms: u64,
    answers: nat,
    end: RoomStateModel,
    result: Result<bool, ActionValidationErrorModel>,
    engine_end: E,
) -> bool
    decreases answers,
{
    if answers == 0 {
        &&& end == room
        &&& engine_end == engine
        &&& match step {
            ProbeStepModel::Settled(opened) => result == Ok::<bool, ActionValidationErrorModel>(
                opened,
            ),
            ProbeStepModel::Failed(error) => result == Err::<bool, ActionValidationErrorModel>(
                error,
            ),
            ProbeStepModel::Ask(_, _) => false,
        }
    } else {
        step matches ProbeStepModel::Ask(probe, request) && exists|
            reply: Result<ValidateActionResponseModel, Seq<char>>,
            engine_after: E,
        |
            #[trigger] E::judges(engine, request, reply, engine_after) && probe_played(
                room.probe_answered(probe, reply, now_ms).0,
                room.probe_answered(probe, reply, now_ms).1,
                engine_after,
                now_ms,
                (answers - 1) as nat,
                end,
                result,
                engine_end,
            )
    }
}

/// Whether a room has room for another window.
pub open spec fn can_open_window(room: RoomStateModel, now_ms: u64) -> bool {
    room.can_number(2) && room.next_action_window_id < u64::MAX && clock_in_range(now_ms)
}

impl RoomState {
    fn play_probe<E: RuleEngine>(
        &mut self,
        step: ProbeStep,
        engine: &mut RuleEngineHandle<E>,
        now_ms: u64,
    ) -> (r: Result<bool, ActionValidationError>)
        requires
            step is Ask ==> can_open_window(old(self)@, now_ms),
            step matches ProbeStep::Ask(probe, _) ==> probe.asked < 4,
        ensures
            exists|answers: nat|
                #[trigger] probe_played(
                    old(self)@,
                    step@,
                    old(engine).inner,
                    now_ms,
                    answers,
                    final(self)@,
                    plain_result(r),
                    final(engine).inner,
                ),
        decreases
                (match step {
                    ProbeStep::Ask(probe, _) => 4 - probe.asked,
                    _ => 0,
                }),
    {
        let ghost room = self@;
        let ghost asker = engine.inner;
        let ghost from = step@;
        match step {
            ProbeStep::Settled(opened) => {
                assert(probe_played(
                    room,
                    from,
                    asker,
                    now_ms,
                    0,
                    self@,
                    Ok(opened),
                    engine.inner,
                ));
                Ok(opened)
            },
            ProbeStep::Failed(error) => {
                assert(probe_played(
                    room,
                    from,
                    asker,
                    now_ms,
                    0,
                    self@,
                    Err(error@),
                    engine.inner,
                ));
                Err(error)
            },
            ProbeStep::Ask(probe, request) => {
                let ghost seen = probe@;
                let reply = engine.validate_action(&request);
                let ghost told = reply_view(reply);
                let ghost middle_engine = engine.inner;
                assert(E::judges(asker, request@, told, middle_engine));
                proof {
                    if let Ok(response) = told {
                        lemma_probed_keeps(
                            room,
                            probe_with_answer(seen, response.is_legal),
                            seen.asked + 1,
                            now_ms,
                        );
                    }
                }
                let next = self.answer_claim_window_probe(probe, reply, now_ms);
                let ghost middle = self@;
                let ghost next_view = next@;
                let result = self.play_probe(next, engine, now_ms);
                proof {
                    let answers = choose|answers: nat|
                        #[trigger] probe_played(
                            middle,
                            next_view,
                            middle_engine,
                            now_ms,
                            answers,
                            self@,
                            plain_result(result),
                            engine.inner,
                        );
                    assert(probe_played(
                        room,
                        from,
                        asker,
                        now_ms,
                        answers + 1,
                        self@,
                        plain_result(result),
                        engine.inner,
                    ));
                }
                result
            },
        }
    }

    /// Opens a window for a discard, where anybody may claim it; tells whether it did.
    pub fn open_discard_claim_window<E: RuleEngine>(
        &mut self,
        source_seat: Seat,
        tile: Tile,
        source_event_seq: u64,
        engine: &mut RuleEngineHandle<E>,
        now_ms: u64,
    ) -> (r: Result<bool, ActionValidationError>)
        requires
            can_open_window(old(self)@, now_ms),
        ensures
            ({
                let (probed, step) = old(self)@.probed(
                    fresh_probe(source_seat, tile, source_event_seq, ActionKind::Discard),
                    0,
                    now_ms,
                );
                exists|answers: nat|
                    #[trigger] probe_played(
                        probed,
                        step,
                        old(engine).inner,
                        now_ms,
                        answers,
                        final(self)@,
                        plain_result(r),
                        final(engine).inner,
                    )
            }),
    {
        let probe = WindowProbe::new(source_seat, tile, source_event_seq, ActionKind::Discard);
        proof {
            lemma_probed_keeps(self@, probe@, 0, now_ms);
        }
        let step = self.probe_claim_window(probe, 0, now_ms);
        self.play_probe(step, engine, now_ms)
    }

    /// Opens a window for a kong, where anybody may rob it; tells whether it did.
    pub fn open_rob_kong_claim_window<E: RuleEngine>(
        &mut self,
        source_seat: Seat,
        tile: Tile,
        source_event_seq: u64,
        engine: &mut RuleEngineHandle<E>,
        now_ms: u64,
    ) -> (r: Result<bool, ActionValidationError>)
        requires
            can_open_window(old(self)@, now_ms),
        ensures
            ({
                let (probed, step) = old(self)@.probed(
                    fresh_probe(source_seat, tile, source_event_seq, ActionKind::SupplementalKong),
                    0,
                    now_ms,
                );
                exists|answers: nat|
                    #[trigger] probe_played(
                        probed,
                        step,
                        old(engine).inner,
                        now_ms,
                        answers,
                        final(self)@,
                        plain_result(r),
                        final(engine).inner,
                    )
            }),
    {
        let probe = WindowProbe::new(
            source_seat,
            tile,
            source_event_seq,
            ActionKind::SupplementalKong,
        );
        proof {
            lemma_probed_keeps(self@, probe@, 0, now_ms);
        }
        let step = self.probe_claim_window(probe, 0, now_ms);
        self.play_probe(step, engine, now_ms)
    }
}

} // verus!
