//! What every step of a room keeps.

use vstd::prelude::*;

use crate::collections::{group_seat_map, SeatMap};
use crate::proto::client::{
    ActionKind, ClaimActionModel, ClaimKind, DeclareWinAction, DiscardAction, GamePhase, PassAction,
    PlayerActionModel, PlayerActionRequestModel, RejectCode, Seat, SupplementalKongAction,
    SyncReason, Tile,
};
use crate::proto::engine;
use crate::room::actions::{lemma_prompted_seats_keeps, verdict, StepModel};
use crate::room::basics::{group_announcing_keeps, new_room, only_outbox_differs};
use crate::room::claims::winning_seat;
use crate::room::commands::{RoomCommand, RoomCommandModel};
use crate::room::convert::{
    failure, parsed_claim_kind, parsed_seat, parsed_tile, parsed_tiles, parsed_win_type,
    ActionValidationErrorModel,
};
use crate::room::flow::walls_len;
use crate::room::frames::{clock_in_range, lemma_synced_keeps};
use crate::room::hand::{after_kong_tile, next_seat, seat_after, seat_order};
use crate::room::load_test::LoadTestRoomSpec;
use crate::room::outcomes::{lemma_scored_keeps, lemma_window_resolution_keeps, with_silent_passes};
use crate::room::plays::peng_place;
use crate::room::rounds::{
    draws_kept, lemma_dealt_seats_keeps, lemma_drawn_keeps, lemma_next_wall_len,
    lemma_round_started_keeps,
};
use crate::room::state::{
    ActiveClaimWindowStateModel, AuthorizedJoinModel, ClaimResponseModel, DrawSource,
    RoomRuntimeMode, RoomState, RoomStateModel, WallFactory, WallFactoryModel, DEAD_WALL_TILE_COUNT,
    STARTING_HAND_LEN,
};
use crate::room::steps::{
    PendingCall, PendingCallModel, PendingValidationModel, PendingWin, ProbeStepModel,
    RequestContextModel, ValidationPurpose, ValidationPurposeModel, WinOriginModel,
    WindowProbeModel,
};
use crate::room::windows::{fresh_probe, probe_with_answer};
use crate::tiles::sorted_tiles;

verus! {

broadcast use {group_seat_map, group_announcing_keeps, lemma_synced_keeps};

impl RoomStateModel {
    /// What holds of every room between two steps: walls fit the counters, the dealer and everybody
    /// in play have real seats, everybody in play can draw while a hand runs, and whoever has to
    /// discard has a hand.
    pub open spec fn sound(self) -> bool {
        &&& self.wall_fits()
        &&& self.dealer_seat != Seat::Unspecified
        &&& self.draws_ready()
        &&& self.player_round_state.at(Seat::Unspecified) is None
        &&& self.phase == GamePhase::WaitingDiscard ==> self.player_round_state.at(
            self.current_turn_seat,
        ) is Some
    }

    /// Whether the counters of a room have room for another step at this time.
    pub open spec fn has_room(self, now_ms: u64) -> bool {
        &&& self.can_number(8)
        &&& self.next_action_window_id < u64::MAX
        &&& clock_in_range(now_ms)
        &&& self.round_runtime matches Some(runtime) ==> runtime.turn_index < u32::MAX
        &&& self.dealer_streak < u32::MAX
        &&& self.can_tally(Some(Seat::Unspecified))
        &&& self.can_tally(Some(Seat::East))
        &&& self.can_tally(Some(Seat::South))
        &&& self.can_tally(Some(Seat::West))
        &&& self.can_tally(Some(Seat::North))
    }

    /// Whether the room is in the state in which it asked a question.
    pub open spec fn awaits(self, call: PendingCallModel) -> bool {
        match call {
            PendingCallModel::Validation(pending) => match pending.purpose {
                ValidationPurposeModel::ClaimWindow(probe) => probe.asked < 4 && (probe.trigger
                    == ActionKind::SupplementalKong || self.can_draw(
                    seat_after(probe.source_seat),
                )),
                _ => true,
            },
            PendingCallModel::Score(_) => true,
        }
    }
}

/// How many more questions at most may follow a question.
pub open spec fn questions_left(call: PendingCallModel) -> nat {
    match call {
        PendingCallModel::Validation(pending) => match pending.purpose {
            ValidationPurposeModel::ClaimWindow(probe) => if probe.asked < 4 {
                (4 - probe.asked) as nat
            } else {
                0
            },
            _ => 5,
        },
        PendingCallModel::Score(_) => 0,
    }
}

/// A sound room whose counters have room can take any step.
pub proof fn law_sound_rooms_are_ready(room: RoomStateModel, now_ms: u64)
    requires
        room.sound(),
        room.has_room(now_ms),
    ensures
        room.ready(now_ms),
{
}

/// Whether a step took nobody into or out of the hand, and nobody the ability to draw.
#[verifier::opaque]
pub open spec fn keeps_table(before: RoomStateModel, after: RoomStateModel) -> bool {
    &&& after.wall_factory == before.wall_factory
    &&& after.dealer_seat == before.dealer_seat
    &&& after.round_runtime is Some ==> before.round_runtime is Some
    &&& draws_kept(before, after)
    &&& forall|seat: Seat|
        (#[trigger] after.player_round_state.at(seat) is Some) == (before.player_round_state.at(
            seat,
        ) is Some)
    &&& after.phase == GamePhase::WaitingDiscard ==> {
        &&& before.phase == GamePhase::WaitingDiscard || before.round_runtime is Some
        &&& after.player_round_state.at(after.current_turn_seat) is Some || (before.phase
            == GamePhase::WaitingDiscard && after.current_turn_seat == before.current_turn_seat)
    }
}

pub proof fn lemma_keeps_sound(before: RoomStateModel, after: RoomStateModel)
    requires
        before.sound(),
        keeps_table(before, after),
    ensures
        after.sound(),
{
    reveal(keeps_table);
    assert forall|seat: Seat| #[trigger] after.draws_fit(seat) by {
        if after.player_round_state.at(seat) is Some {
            assert(before.player_round_state.at(seat) is Some);
            assert(before.draws_fit(seat)) by {
                match seat {
                    Seat::Unspecified => {},
                    Seat::East => {},
                    Seat::South => {},
                    Seat::West => {},
                    Seat::North => {},
                }
            }
            assert(before.can_draw(seat));
            assert(after.can_draw(seat));
        }
    }
    assert(after.draws_fit(Seat::Unspecified) && after.draws_fit(Seat::East) && after.draws_fit(
        Seat::South,
    ) && after.draws_fit(Seat::West) && after.draws_fit(Seat::North));
    if after.round_runtime is Some || after.phase == GamePhase::WaitingDiscard {
        assert(before.can_draw(Seat::East) && before.can_draw(Seat::South) && before.can_draw(
            Seat::West,
        ) && before.can_draw(Seat::North));
        assert(after.can_draw(Seat::East) && after.can_draw(Seat::South) && after.can_draw(
            Seat::West,
        ) && after.can_draw(Seat::North));
    }
    assert((after.player_round_state.at(Seat::Unspecified) is Some) == (
    before.player_round_state.at(Seat::Unspecified) is Some));
    if after.phase == GamePhase::WaitingDiscard {
        let seat = after.current_turn_seat;
        assert(after.player_round_state.at(seat) is Some || before.player_round_state.at(
            seat,
        ) is Some);
        assert((after.player_round_state.at(seat) is Some) == (before.player_round_state.at(
            seat,
        ) is Some));
    }
}

proof fn lemma_keeps_chain(a: RoomStateModel, b: RoomStateModel, c: RoomStateModel)
    requires
        keeps_table(a, b),
        keeps_table(b, c),
    ensures
        keeps_table(a, c),
{
    reveal(keeps_table);
    assert forall|seat: Seat| a.can_draw(seat) implies #[trigger] c.can_draw(seat) by {
        assert(b.can_draw(seat));
    }
    assert forall|seat: Seat|
        (#[trigger] c.player_round_state.at(seat) is Some) == (a.player_round_state.at(
            seat,
        ) is Some) by {
        assert((b.player_round_state.at(seat) is Some) == (a.player_round_state.at(seat) is Some));
    }
    if c.phase == GamePhase::WaitingDiscard && !(c.player_round_state.at(
        c.current_turn_seat,
    ) is Some) {
        assert((c.player_round_state.at(c.current_turn_seat) is Some) == (b.player_round_state.at(
            c.current_turn_seat,
        ) is Some));
    }
}

/// Whether a step changed neither the hands, nor the walls, nor whose turn it is; and where it
/// changed the phase, not to one in which a discard is awaited.
pub open spec fn leaves_table(before: RoomStateModel, after: RoomStateModel) -> bool {
    &&& after.wall_factory == before.wall_factory
    &&& after.dealer_seat == before.dealer_seat
    &&& after.player_round_state == before.player_round_state
    &&& after.current_turn_seat == before.current_turn_seat
    &&& after.round_runtime is Some == before.round_runtime is Some
    &&& walls_len(after.round_runtime) == walls_len(before.round_runtime)
    &&& after.phase == before.phase || after.phase != GamePhase::WaitingDiscard
}

pub proof fn lemma_left_keeps(before: RoomStateModel, after: RoomStateModel)
    requires
        leaves_table(before, after),
    ensures
        keeps_table(before, after),
{
    reveal(keeps_table);
}

/// Drawing keeps who is in the hand.
proof fn lemma_drawn_from_domain(
    room: RoomStateModel,
    seat: Seat,
    source: DrawSource,
    replacement_draw: bool,
)
    ensures
        forall|other: Seat|
            (#[trigger] room.drawn_from(seat, source, replacement_draw).0.player_round_state.at(
                other,
            ) is Some) == (room.player_round_state.at(other) is Some),
    decreases (if source is LiveWall {
        1nat
    } else {
        0nat
    }), room.dead_len(),
{
    let (after, tile) = room.popped(source);
    if let Some(tile) = tile {
        if after.lays_aside(tile) {
            let aside = after.with_flower(seat, tile).with_replacement_pending(true);
            lemma_drawn_from_domain(aside, seat, DrawSource::DeadWall, true);
        }
    }
}

proof fn lemma_drawn_keeps_table(room: RoomStateModel, seat: Seat, source: DrawSource)
    requires
        room.draws_fit(seat),
    ensures
        keeps_table(room, room.drawn(seat, source).0),
        room.drawn(seat, source).0.phase == room.phase,
        room.drawn(seat, source).0.current_turn_seat == room.current_turn_seat,
        room.drawn(seat, source).0.round_runtime is Some == room.round_runtime is Some,
        room.drawn(seat, source).1 matches Ok(Some(_)) ==> room.round_runtime is Some
            && room.drawn(seat, source).0.player_round_state.at(seat) is Some,
{
    reveal(keeps_table);
    if room.player_round_state.at(seat) is Some {
        lemma_drawn_keeps(room, seat, source);
        lemma_drawn_from_domain(room, seat, source, source is DeadWall);
        let after = room.drawn(seat, source).0;
        assert((after.player_round_state.at(seat) is Some) == (room.player_round_state.at(
            seat,
        ) is Some));
    } else {
        lemma_left_keeps(room, room);
    }
}

/// Passing the turn on keeps the table.
proof fn lemma_turn_passed_on_keeps_table(room: RoomStateModel, source_seat: Seat)
    requires
        room.can_draw(seat_after(source_seat)),
    ensures
        keeps_table(room, room.turn_passed_on(source_seat)),
{
    reveal(RoomStateModel::turn_passed_on);
    let next = seat_after(source_seat);
    let turned = RoomStateModel { current_turn_seat: next, ..room }.without_window();
    assert(keeps_table(room, turned)) by {
        reveal(keeps_table);
        assert(turned.player_round_state.at(next) is Some);
    }
    lemma_drawn_keeps_table(turned, next, DrawSource::LiveWall);
    let (drawn, outcome) = turned.drawn(next, DrawSource::LiveWall);
    lemma_keeps_chain(room, turned, drawn);
    let after = room.turn_passed_on(source_seat);
    match outcome {
        Err(_) => {},
        Ok(None) => {
            assert(leaves_table(drawn, after));
            lemma_left_keeps(drawn, after);
            lemma_keeps_chain(room, drawn, after);
        },
        Ok(Some(_)) => {
            assert(keeps_table(drawn, after)) by {
                reveal(keeps_table);
            }
            lemma_keeps_chain(room, drawn, after);
        },
    }
}

/// A supplemental kong keeps the table.
proof fn lemma_kong_keeps_table(room: RoomStateModel, seat: Seat, tile: Tile, source_event_seq: u64)
    requires
        room.draws_fit(seat),
    ensures
        keeps_table(room, room.kong_applied(seat, tile, source_event_seq).0),
{
    reveal(RoomStateModel::kong_applied);
    let after = room.kong_applied(seat, tile, source_event_seq).0;
    lemma_left_keeps(room, room);
    if let Some(hand) = room.player_round_state.at(seat) {
        if let Some(place) = peng_place(hand.melds, tile) {
            if let Some(rest) = after_kong_tile(hand, tile) {
                let laid = room.kong_laid(seat, tile, source_event_seq, rest, place);
                assert(keeps_table(room, laid) && laid.can_draw(seat)) by {
                    reveal(RoomStateModel::kong_laid);
                    reveal(keeps_table);
                    assert(rest.replacement_draw_count == hand.replacement_draw_count);
                }
                lemma_drawn_keeps_table(laid, seat, DrawSource::DeadWall);
                let (drawn, outcome) = laid.drawn(seat, DrawSource::DeadWall);
                lemma_keeps_chain(room, laid, drawn);
                if let Ok(Some(outcome)) = outcome {
                    assert(laid.current_turn_seat == seat) by {
                        reveal(RoomStateModel::kong_laid);
                    }
                    assert(keeps_table(drawn, after)) by {
                        reveal(RoomStateModel::replacement_recorded);
                        reveal(keeps_table);
                    }
                    lemma_keeps_chain(room, drawn, after);
                }
            }
        }
    }
}

proof fn lemma_taken_keeps_table(room: RoomStateModel, seat: Seat, consume: Seq<Tile>)
    requires
        room.draws_fit(seat),
    ensures
        keeps_table(room, room.with_tiles_taken(seat, consume)),
        room.with_tiles_taken(seat, consume).draws_fit(seat),
        room.with_tiles_taken(seat, consume).round_runtime == room.round_runtime,
        (room.with_tiles_taken(seat, consume).player_round_state.at(seat) is Some)
            == (room.player_round_state.at(seat) is Some),
{
    reveal(keeps_table);
}

proof fn lemma_claim_laid_keeps_table(
    room: RoomStateModel,
    seat: Seat,
    kind: ClaimKind,
    target: Tile,
    source_seat: Seat,
    consume: Seq<Tile>,
    source_event_seq: u64,
)
    requires
        room.can_draw(seat),
        room.round_runtime is Some,
    ensures
        keeps_table(
            room,
            room.claim_laid(seat, kind, target, source_seat, consume, source_event_seq),
        ),
        room.claim_laid(seat, kind, target, source_seat, consume, source_event_seq).can_draw(seat),
{
    reveal(RoomStateModel::claim_laid);
    reveal(keeps_table);
}

proof fn lemma_claim_completed_keeps_table(room: RoomStateModel, seat: Seat, kind: ClaimKind)
    requires
        room.draws_fit(seat),
    ensures
        keeps_table(room, room.claim_completed(seat, kind).0),
{
    lemma_left_keeps(room, room);
    lemma_drawn_keeps_table(room, seat, DrawSource::DeadWall);
    let (drawn, outcome) = room.drawn(seat, DrawSource::DeadWall);
    if let Ok(Some(outcome)) = outcome {
        let noted = drawn.replacement_recorded(seat, outcome.tile);
        assert(leaves_table(drawn, noted)) by {
            reveal(RoomStateModel::replacement_recorded);
        }
        lemma_left_keeps(drawn, noted);
        lemma_keeps_chain(room, drawn, noted);
    }
}

/// A claim that takes effect keeps the table.
proof fn lemma_claim_keeps_table(room: RoomStateModel, seat: Seat, claim: ClaimActionModel)
    requires
        room.draws_fit(seat),
        room.round_runtime is Some,
    ensures
        keeps_table(room, room.claim_applied(seat, claim).0),
{
    reveal(RoomStateModel::claim_applied);
    lemma_left_keeps(room, room);
    if let (Ok(kind), Ok(target), Ok(source_seat), Ok(named)) = (
        parsed_claim_kind(claim.claim_kind),
        parsed_tile(claim.target_tile),
        parsed_seat(claim.source_seat),
        parsed_tiles(claim.consume_tiles),
    ) {
        let consume = sorted_tiles(named);
        if room.player_round_state.at(seat) is Some {
            lemma_taken_keeps_table(room, seat, consume);
            let taken = room.with_tiles_taken(seat, consume);
            lemma_claim_laid_keeps_table(
                taken,
                seat,
                kind,
                target,
                source_seat,
                consume,
                claim.source_event_seq,
            );
            let laid = taken.claim_laid(
                seat,
                kind,
                target,
                source_seat,
                consume,
                claim.source_event_seq,
            );
            lemma_keeps_chain(room, taken, laid);
            lemma_claim_completed_keeps_table(laid, seat, kind);
            lemma_keeps_chain(room, laid, laid.claim_completed(seat, kind).0);
        }
    }
}

/// In a sound room everybody in the hand can draw, and while a hand runs the next seat is in it.
pub proof fn lemma_sound_draws(room: RoomStateModel, seat: Seat)
    requires
        room.sound(),
    ensures
        room.draws_fit(seat),
        room.round_runtime is Some || room.phase == GamePhase::WaitingDiscard ==> room.can_draw(
            seat_after(seat),
        ),
{
    match seat {
        Seat::Unspecified => {},
        Seat::East => {},
        Seat::South => {},
        Seat::West => {},
        Seat::North => {},
    }
}

proof fn lemma_rejected_keeps(
    room: RoomStateModel,
    context: RequestContextModel,
    error: ActionValidationErrorModel,
)
    ensures
        keeps_table(room, room.rejected_in(context, error)),
{
    lemma_left_keeps(room, room.rejected_in(context, error));
}

proof fn lemma_synced_keeps_table(room: RoomStateModel, reason: SyncReason, now_ms: u64)
    ensures
        keeps_table(room, room.synced(reason, now_ms)),
{
    lemma_left_keeps(room, room.synced(reason, now_ms));
}

/// A window that nobody took keeps the table.
proof fn lemma_let_pass_keeps(
    room: RoomStateModel,
    window: ActiveClaimWindowStateModel,
    responses: SeatMap<ClaimResponseModel>,
    now_ms: u64,
)
    requires
        room.sound(),
        room.round_runtime is Some,
    ensures
        keeps_table(room, room.window_let_pass(window, responses, now_ms)),
{
    reveal(RoomStateModel::window_let_pass);
    broadcast use lemma_window_resolution_keeps;
    let stored = room.window_resolution_stored(window, responses, None, "PASS"@);
    lemma_left_keeps(room, stored);
    lemma_keeps_sound(room, stored);
    lemma_sound_draws(stored, window.source_seat);
    let moved = if window.trigger_action_kind == ActionKind::SupplementalKong {
        lemma_kong_keeps_table(
            stored,
            window.source_seat,
            window.target_tile,
            window.source_event_seq,
        );
        stored.kong_applied(window.source_seat, window.target_tile, window.source_event_seq).0
    } else {
        lemma_turn_passed_on_keeps_table(stored, window.source_seat);
        stored.turn_passed_on(window.source_seat)
    };
    lemma_keeps_chain(room, stored, moved);
    lemma_synced_keeps_table(moved, SyncReason::ServerResync, now_ms);
    lemma_keeps_chain(room, moved, moved.synced(SyncReason::ServerResync, now_ms));
}

/// A window that a claim won keeps the table.
proof fn lemma_claimed_keeps(
    room: RoomStateModel,
    window: ActiveClaimWindowStateModel,
    responses: SeatMap<ClaimResponseModel>,
    winner: Seat,
    claim: ClaimActionModel,
    now_ms: u64,
)
    requires
        room.sound(),
        room.round_runtime is Some,
    ensures
        keeps_table(room, room.window_claimed(window, responses, winner, claim, now_ms)),
{
    reveal(RoomStateModel::window_claimed);
    broadcast use lemma_window_resolution_keeps;
    let stored = room.window_resolution_stored(window, responses, Some(winner), "CLAIM"@);
    lemma_left_keeps(room, stored);
    lemma_keeps_sound(room, stored);
    lemma_sound_draws(stored, winner);
    lemma_claim_keeps_table(stored, winner, claim);
    let moved = stored.claim_applied(winner, claim).0;
    lemma_keeps_chain(room, stored, moved);
    lemma_synced_keeps_table(moved, SyncReason::ServerResync, now_ms);
    lemma_keeps_chain(room, moved, moved.synced(SyncReason::ServerResync, now_ms));
}

/// A window that a win won keeps the table.
proof fn lemma_won_keeps(
    room: RoomStateModel,
    window: ActiveClaimWindowStateModel,
    responses: SeatMap<ClaimResponseModel>,
    winner: Seat,
    win: DeclareWinAction,
)
    ensures
        keeps_table(room, room.window_won(window, responses, winner, win).0),
        room.window_won(window, responses, winner, win).1 matches Some(PendingCallModel::Score(_)),
{
    reveal(RoomStateModel::window_won);
    broadcast use lemma_window_resolution_keeps;
    lemma_left_keeps(room, room.window_won(window, responses, winner, win).0);
}

/// Whether a step kept the table, and asks nothing that the room is not ready to hear the answer
/// of.
pub open spec fn step_keeps(before: RoomStateModel, step: StepModel) -> bool {
    &&& keeps_table(before, step.0)
    &&& step.1 matches Some(call) ==> step.0.awaits(call)
}

/// Settling a window keeps the table.
pub proof fn lemma_settled_if_ready_keeps(room: RoomStateModel, force: bool, now_ms: u64)
    requires
        room.sound(),
    ensures
        step_keeps(room, room.window_settled_if_ready(force, now_ms)),
        room.window_settled_if_ready(force, now_ms).1 matches Some(call) ==> call is Score,
{
    reveal(RoomStateModel::window_settled_if_ready);
    lemma_synced_keeps_table(room, SyncReason::ServerResync, now_ms);
    if let Some(window) = room.window() {
        if force || window.responded_seats.filled() == window.eligible_seats.len() {
            let closed = room.without_window();
            lemma_left_keeps(room, closed);
            lemma_keeps_sound(room, closed);
            let responses = with_silent_passes(window.responded_seats, window.eligible_seats);
            lemma_window_settled_keeps(closed, window, responses, now_ms);
            lemma_keeps_chain(room, closed, closed.window_settled(window, responses, now_ms).0);
        }
    }
}

proof fn lemma_window_settled_keeps(
    room: RoomStateModel,
    window: ActiveClaimWindowStateModel,
    responses: SeatMap<ClaimResponseModel>,
    now_ms: u64,
)
    requires
        room.sound(),
        room.round_runtime is Some,
    ensures
        step_keeps(room, room.window_settled(window, responses, now_ms)),
        room.window_settled(window, responses, now_ms).1 matches Some(call) ==> call is Score,
{
    lemma_left_keeps(room, room);
    match winning_seat(responses, window.source_seat) {
        None => {
            lemma_let_pass_keeps(room, window, responses, now_ms);
        },
        Some(winner) => match responses.at(winner) {
            Some(ClaimResponseModel::Claim(claim)) => {
                lemma_claimed_keeps(room, window, responses, winner, claim, now_ms);
            },
            Some(ClaimResponseModel::DeclareWin(win)) => {
                lemma_won_keeps(room, window, responses, winner, win);
            },
            _ => {},
        },
    }
}

/// A window in the making keeps the table, whether it opens or not.
pub proof fn lemma_probed_keeps(room: RoomStateModel, probe: WindowProbeModel, from: int, now_ms: u64)
    requires
        0 <= from,
    ensures
        leaves_table(room, room.probed(probe, from, now_ms).0),
        room.probed(probe, from, now_ms).1 matches ProbeStepModel::Ask(next, _) ==> room.probed(
            probe,
            from,
            now_ms,
        ).0 == room && from <= next.asked < 4 && next.trigger == probe.trigger && next.source_seat
            == probe.source_seat,
    decreases 4 - from,
{
    if from >= 4 {
        let window = room.new_window(
            probe.source_seat,
            probe.tile,
            probe.source_event_seq,
            probe.trigger,
            probe.eligible_seats,
            probe.options_by_seat,
            now_ms,
        );
        lemma_window_opened_leaves(room, window);
    } else if seat_order()[from] == probe.source_seat {
        lemma_probed_keeps(room, probe, from + 1, now_ms);
    }
}

proof fn lemma_window_opened_leaves(room: RoomStateModel, window: ActiveClaimWindowStateModel)
    ensures
        leaves_table(room, room.window_opened(window)),
{
    let phase = if window.trigger_action_kind == ActionKind::Discard {
        GamePhase::WaitingClaim
    } else {
        room.phase
    };
    let stored = RoomStateModel {
        next_action_window_id: (room.next_action_window_id + 1) as u64,
        ..room
    }.with_window(window).window_opening_stored().in_phase(phase);
    lemma_prompted_seats_keeps(
        stored.numbered(),
        stored.next_event_seq,
        window.eligible_seats,
        window.action_window_id,
        window.deadline_unix_ms,
    );
}

/// What follows a window in the making keeps the table.
proof fn lemma_probe_followed_keeps(
    room: RoomStateModel,
    context: RequestContextModel,
    source_seat: Seat,
    tile: Tile,
    source_event_seq: u64,
    trigger: ActionKind,
    step: ProbeStepModel,
    now_ms: u64,
)
    requires
        room.draws_fit(source_seat),
        trigger == ActionKind::SupplementalKong || room.can_draw(seat_after(source_seat)),
        step matches ProbeStepModel::Ask(probe, _) ==> probe.asked < 4 && probe.trigger == trigger
            && probe.source_seat == source_seat,
    ensures
        step_keeps(
            room,
            room.probe_followed(context, source_seat, tile, source_event_seq, trigger, step, now_ms),
        ),
        room.probe_followed(
            context,
            source_seat,
            tile,
            source_event_seq,
            trigger,
            step,
            now_ms,
        ).1 matches Some(call) ==> (step matches ProbeStepModel::Ask(probe, _) && questions_left(
            call,
        ) == 4 - probe.asked),
{
    reveal(RoomStateModel::probe_followed);
    lemma_left_keeps(room, room);
    match step {
        ProbeStepModel::Ask(_, _) => {},
        ProbeStepModel::Failed(error) => {
            lemma_rejected_keeps(room, context, error);
        },
        ProbeStepModel::Settled(opened) => {
            if opened {
                lemma_synced_keeps_table(room, SyncReason::ServerResync, now_ms);
                let resolving = room.in_phase(GamePhase::ResolvingKong);
                lemma_left_keeps(room, resolving);
                lemma_synced_keeps_table(resolving, SyncReason::ServerResync, now_ms);
                lemma_keeps_chain(
                    room,
                    resolving,
                    resolving.synced(SyncReason::ServerResync, now_ms),
                );
            } else if trigger == ActionKind::SupplementalKong {
                lemma_kong_finished_keeps(
                    room,
                    context,
                    source_seat,
                    tile,
                    source_event_seq,
                    now_ms,
                );
            } else {
                lemma_turn_passed_on_keeps_table(room, source_seat);
                let moved = room.turn_passed_on(source_seat);
                lemma_synced_keeps_table(moved, SyncReason::ServerResync, now_ms);
                lemma_keeps_chain(room, moved, moved.synced(SyncReason::ServerResync, now_ms));
            }
        },
    }
}

proof fn lemma_kong_finished_keeps(
    room: RoomStateModel,
    context: RequestContextModel,
    seat: Seat,
    tile: Tile,
    source_event_seq: u64,
    now_ms: u64,
)
    requires
        room.draws_fit(seat),
    ensures
        keeps_table(room, room.kong_finished(context, seat, tile, source_event_seq, now_ms)),
{
    reveal(RoomStateModel::kong_finished);
    lemma_kong_keeps_table(room, seat, tile, source_event_seq);
    let (after, result) = room.kong_applied(seat, tile, source_event_seq);
    match result {
        Err(error) => {
            lemma_rejected_keeps(after, context, error);
            lemma_keeps_chain(room, after, after.rejected_in(context, error));
        },
        Ok(_) => {
            lemma_synced_keeps_table(after, SyncReason::ServerResync, now_ms);
            lemma_keeps_chain(room, after, after.synced(SyncReason::ServerResync, now_ms));
        },
    }
}

/// A window from its first seat on keeps the table.
proof fn lemma_window_begun_keeps(
    room: RoomStateModel,
    context: RequestContextModel,
    source_seat: Seat,
    tile: Tile,
    source_event_seq: u64,
    trigger: ActionKind,
    now_ms: u64,
)
    requires
        room.draws_fit(source_seat),
        trigger == ActionKind::SupplementalKong || room.can_draw(seat_after(source_seat)),
    ensures
        step_keeps(
            room,
            room.window_begun(context, source_seat, tile, source_event_seq, trigger, now_ms),
        ),
        room.window_begun(
            context,
            source_seat,
            tile,
            source_event_seq,
            trigger,
            now_ms,
        ).1 matches Some(call) ==> questions_left(call) < 5,
{
    reveal(RoomStateModel::window_begun);
    let probe = fresh_probe(source_seat, tile, source_event_seq, trigger);
    lemma_probed_keeps(room, probe, 0, now_ms);
    let (probed, step) = room.probed(probe, 0, now_ms);
    lemma_left_keeps(room, probed);
    lemma_probe_followed_keeps(
        probed,
        context,
        source_seat,
        tile,
        source_event_seq,
        trigger,
        step,
        now_ms,
    );
    lemma_keeps_chain(
        room,
        probed,
        probed.probe_followed(context, source_seat, tile, source_event_seq, trigger, step, now_ms).0,
    );
}

/// A discard keeps the table.
pub proof fn lemma_discard_keeps_table(room: RoomStateModel, seat: Seat, tile: Tile, tsumogiri: bool)
    requires
        room.player_round_state.at(seat) is Some,
    ensures
        keeps_table(room, room.discarded(seat, tile, tsumogiri).0),
        keeps_table(
            room.discarded(seat, tile, tsumogiri).0,
            room.discarded(seat, tile, tsumogiri).0.discard_landed(seat, tile),
        ),
{
    reveal(RoomStateModel::discarded);
    reveal(RoomStateModel::discard_landed);
    reveal(keeps_table);
}

proof fn lemma_discard_requested_keeps(
    room: RoomStateModel,
    context: RequestContextModel,
    seat: Seat,
    discard: DiscardAction,
    now_ms: u64,
)
    requires
        room.sound(),
    ensures
        step_keeps(room, room.discard_requested(context, seat, discard, now_ms)),
{
    match room.discard_choice(seat, discard) {
        Err(error) => {
            lemma_rejected_keeps(room, context, error);
        },
        Ok(tile) => {
            lemma_discard_keeps_table(room, seat, tile, discard.tsumogiri);
            let (after, result) = room.discarded(seat, tile, discard.tsumogiri);
            lemma_keeps_sound(room, after);
            match result {
                Err(error) => {
                    lemma_rejected_keeps(after, context, error);
                    lemma_keeps_chain(room, after, after.rejected_in(context, error));
                },
                Ok(_) => {
                    let landed = after.discard_landed(seat, tile);
                    lemma_keeps_chain(room, after, landed);
                    lemma_keeps_sound(after, landed);
                    lemma_sound_draws(room, seat);
                    lemma_sound_draws(landed, seat);
                    assert(landed.can_draw(seat_after(seat))) by {
                        reveal(keeps_table);
                        assert(room.can_draw(seat_after(seat)));
                    }
                    lemma_window_begun_keeps(
                        landed,
                        context,
                        seat,
                        tile,
                        after.next_event_seq,
                        ActionKind::Discard,
                        now_ms,
                    );
                    lemma_keeps_chain(
                        room,
                        landed,
                        landed.window_begun(
                            context,
                            seat,
                            tile,
                            after.next_event_seq,
                            ActionKind::Discard,
                            now_ms,
                        ).0,
                    );
                },
            }
        },
    }
}

proof fn lemma_answered_keeps(
    room: RoomStateModel,
    seat: Seat,
    response: ClaimResponseModel,
    now_ms: u64,
)
    requires
        room.sound(),
    ensures
        step_keeps(room, room.answered(seat, response, now_ms)),
        room.answered(seat, response, now_ms).1 matches Some(call) ==> call is Score,
{
    let noted = room.with_answer(seat, response);
    lemma_left_keeps(room, noted);
    lemma_keeps_sound(room, noted);
    lemma_settled_if_ready_keeps(noted, false, now_ms);
    lemma_keeps_chain(room, noted, noted.window_settled_if_ready(false, now_ms).0);
}

proof fn lemma_pass_requested_keeps(
    room: RoomStateModel,
    context: RequestContextModel,
    seat: Seat,
    pass: PassAction,
    now_ms: u64,
)
    requires
        room.sound(),
    ensures
        step_keeps(room, room.pass_requested(context, seat, pass, now_ms)),
{
    match room.window_submission(
        seat,
        context.action_window_id,
        pass.source_event_seq,
        "pass source_event_seq does not match the active claim window"@,
    ) {
        Err(error) => {
            lemma_rejected_keeps(room, context, error);
        },
        Ok(_) => {
            lemma_answered_keeps(room, seat, ClaimResponseModel::Pass, now_ms);
        },
    }
}

proof fn lemma_validation_begun_keeps(
    room: RoomStateModel,
    context: RequestContextModel,
    seat: Seat,
    request: PlayerActionRequestModel,
    purpose: ValidationPurposeModel,
)
    requires
        !(purpose is ClaimWindow),
    ensures
        step_keeps(room, room.validation_begun(context, seat, request, purpose)),
{
    lemma_left_keeps(room, room);
    if let Err(error) = room.validation_request(seat, request) {
        lemma_rejected_keeps(room, context, error);
    }
}

proof fn lemma_claim_requested_keeps(
    room: RoomStateModel,
    context: RequestContextModel,
    seat: Seat,
    request: PlayerActionRequestModel,
    claim: ClaimActionModel,
)
    ensures
        step_keeps(room, room.claim_requested(context, seat, request, claim)),
{
    lemma_validation_begun_keeps(
        room,
        context,
        seat,
        request,
        ValidationPurposeModel::Claim(claim),
    );
    if let Err(error) = room.window_submission(
        seat,
        context.action_window_id,
        claim.source_event_seq,
        "claim source_event_seq does not match the active claim window"@,
    ) {
        lemma_rejected_keeps(room, context, error);
    }
}

proof fn lemma_kong_requested_keeps(
    room: RoomStateModel,
    context: RequestContextModel,
    seat: Seat,
    request: PlayerActionRequestModel,
    kong: SupplementalKongAction,
)
    ensures
        step_keeps(room, room.kong_requested(context, seat, request, kong)),
{
    lemma_rejected_keeps(
        room,
        context,
        failure(
            RejectCode::PhaseMismatch,
            "supplemental kong is only available during WaitingDiscard"@,
        ),
    );
    lemma_rejected_keeps(
        room,
        context,
        failure(
            RejectCode::NotYourTurn,
            "only the current turn seat may declare a supplemental kong"@,
        ),
    );
    match parsed_tile(kong.tile) {
        Err(error) => {
            lemma_rejected_keeps(room, context, error);
        },
        Ok(tile) => {
            if let Err(error) = room.kong_choice(seat, tile) {
                lemma_rejected_keeps(room, context, error);
            }
            lemma_validation_begun_keeps(
                room,
                context,
                seat,
                request,
                ValidationPurposeModel::SupplementalKong(tile),
            );
        },
    }
}

proof fn lemma_action_requested_keeps(
    room: RoomStateModel,
    request_id: Seq<char>,
    connection_id: Seq<char>,
    request: PlayerActionRequestModel,
    now_ms: u64,
)
    requires
        room.sound(),
    ensures
        step_keeps(room, room.action_requested(request_id, connection_id, request, now_ms)),
{
    reveal(RoomStateModel::action_requested);
    lemma_left_keeps(room, room);
    let context = room.action_context(request_id, connection_id, request);
    if let Some(seat) = room.seat_of_connection(connection_id) {
        if let Some(error) = room.staleness(request) {
            lemma_rejected_keeps(room, context, error);
        } else {
            match request.action {
                None => {
                    lemma_rejected_keeps(
                        room,
                        context,
                        failure(
                            RejectCode::InvalidRequest,
                            "player action payload must be set"@,
                        ),
                    );
                },
                Some(PlayerActionModel::AutoPlayToggle(toggle)) => {
                    lemma_left_keeps(room, room.auto_play_requested(seat, toggle.enabled, now_ms));
                },
                Some(PlayerActionModel::Discard(discard)) => {
                    lemma_discard_requested_keeps(room, context, seat, discard, now_ms);
                },
                Some(PlayerActionModel::Claim(claim)) => {
                    lemma_claim_requested_keeps(room, context, seat, request, claim);
                },
                Some(PlayerActionModel::DeclareWin(win)) => {
                    lemma_validation_begun_keeps(
                        room,
                        context,
                        seat,
                        request,
                        ValidationPurposeModel::DeclareWin(win),
                    );
                },
                Some(PlayerActionModel::SupplementalKong(kong)) => {
                    lemma_kong_requested_keeps(room, context, seat, request, kong);
                },
                Some(PlayerActionModel::Pass(pass)) => {
                    lemma_pass_requested_keeps(room, context, seat, pass, now_ms);
                },
            }
        }
    }
}

proof fn lemma_claim_judged_keeps(
    room: RoomStateModel,
    context: RequestContextModel,
    seat: Seat,
    claim: ClaimActionModel,
    reply: Result<engine::ValidateActionResponseModel, Seq<char>>,
    now_ms: u64,
)
    requires
        room.sound(),
    ensures
        step_keeps(room, room.claim_judged(context, seat, claim, reply, now_ms)),
        room.claim_judged(context, seat, claim, reply, now_ms).1 matches Some(call) ==> questions_left(call)
            < 5,
{
    lemma_answered_keeps(room, seat, ClaimResponseModel::Claim(claim), now_ms);
    match verdict(reply) {
        Err(error) => {
            lemma_rejected_keeps(room, context, error);
        },
        Ok(_) => {
            if let Err(error) = room.claim_choice(seat, claim) {
                lemma_rejected_keeps(room, context, error);
            }
        },
    }
}

proof fn lemma_kong_judged_keeps(
    room: RoomStateModel,
    context: RequestContextModel,
    seat: Seat,
    tile: Tile,
    reply: Result<engine::ValidateActionResponseModel, Seq<char>>,
    now_ms: u64,
)
    requires
        room.sound(),
    ensures
        step_keeps(room, room.kong_judged(context, seat, tile, reply, now_ms)),
        room.kong_judged(context, seat, tile, reply, now_ms).1 matches Some(call) ==> questions_left(call)
            < 5,
{
    match verdict(reply) {
        Err(error) => {
            lemma_rejected_keeps(room, context, error);
        },
        Ok(_) => {
            let event_seq = room.next_event_seq;
            let numbered = room.numbered();
            lemma_left_keeps(room, numbered);
            lemma_keeps_sound(room, numbered);
            lemma_sound_draws(numbered, seat);
            lemma_window_begun_keeps(
                numbered,
                context,
                seat,
                tile,
                event_seq,
                ActionKind::SupplementalKong,
                now_ms,
            );
            lemma_keeps_chain(
                room,
                numbered,
                numbered.window_begun(
                    context,
                    seat,
                    tile,
                    event_seq,
                    ActionKind::SupplementalKong,
                    now_ms,
                ).0,
            );
            lemma_kong_finished_keeps(numbered, context, seat, tile, event_seq, now_ms);
            lemma_keeps_chain(
                room,
                numbered,
                numbered.kong_finished(context, seat, tile, event_seq, now_ms),
            );
        },
    }
}

proof fn lemma_win_judged_keeps(
    room: RoomStateModel,
    context: RequestContextModel,
    seat: Seat,
    win: DeclareWinAction,
    reply: Result<engine::ValidateActionResponseModel, Seq<char>>,
    now_ms: u64,
)
    requires
        room.sound(),
    ensures
        step_keeps(room, room.win_judged(context, seat, win, reply, now_ms)),
        room.win_judged(context, seat, win, reply, now_ms).1 matches Some(call) ==> questions_left(call)
            < 5,
{
    lemma_answered_keeps(room, seat, ClaimResponseModel::DeclareWin(win), now_ms);
    lemma_left_keeps(room, room.numbered());
    match verdict(reply) {
        Err(error) => {
            lemma_rejected_keeps(room, context, error);
        },
        Ok(_) => match parsed_win_type(win.win_type) {
            Err(error) => {
                lemma_rejected_keeps(room, context, error);
            },
            Ok(win_type) => match parsed_tile(win.winning_tile) {
                Err(error) => {
                    lemma_rejected_keeps(room, context, error);
                },
                Ok(winning_tile) => {
                    if let Err(error) = room.win_context(
                        seat,
                        context.action_window_id,
                        win,
                        win_type,
                        winning_tile,
                    ) {
                        lemma_rejected_keeps(room, context, error);
                    }
                },
            },
        },
    }
}

/// A room that asked the rule engine for a verdict stays sound, whatever the verdict is or whether
/// it comes at all; and if it has another question then, it is ready for the answer, and nearer to
/// its last question.
pub proof fn law_verdicts_keep_rooms_sound(
    room: RoomStateModel,
    pending: PendingValidationModel,
    reply: Result<engine::ValidateActionResponseModel, Seq<char>>,
    now_ms: u64,
)
    requires
        room.sound(),
        room.awaits(PendingCallModel::Validation(pending)),
    ensures
        ({
            let (after, next) = room.judged(
                pending.context,
                pending.seat,
                pending.purpose,
                reply,
                now_ms,
            );
            after.sound() && (next matches Some(call) ==> after.awaits(call) && questions_left(call)
                < questions_left(PendingCallModel::Validation(pending)))
        }),
{
    let context = pending.context;
    let seat = pending.seat;
    let purpose = pending.purpose;
    match purpose {
        ValidationPurposeModel::Claim(claim) => {
            lemma_claim_judged_keeps(room, context, seat, claim, reply, now_ms);
        },
        ValidationPurposeModel::SupplementalKong(tile) => {
            lemma_kong_judged_keeps(room, context, seat, tile, reply, now_ms);
        },
        ValidationPurposeModel::DeclareWin(win) => {
            lemma_win_judged_keeps(room, context, seat, win, reply, now_ms);
        },
        ValidationPurposeModel::ClaimWindow(probe) => {
            let (probed, step) = room.probe_answered(probe, reply, now_ms);
            lemma_left_keeps(room, room);
            if let Ok(response) = reply {
                lemma_probed_keeps(
                    room,
                    probe_with_answer(probe, response.is_legal),
                    probe.asked + 1,
                    now_ms,
                );
                lemma_left_keeps(room, probed);
            }
            lemma_sound_draws(room, probe.source_seat);
            assert(probed.draws_fit(probe.source_seat) && (room.can_draw(
                seat_after(probe.source_seat),
            ) ==> probed.can_draw(seat_after(probe.source_seat))));
            lemma_probe_followed_keeps(
                probed,
                context,
                probe.source_seat,
                probe.tile,
                probe.source_event_seq,
                probe.trigger,
                step,
                now_ms,
            );
            lemma_keeps_chain(
                room,
                probed,
                room.judged(context, seat, purpose, reply, now_ms).0,
            );
        },
    }
    lemma_keeps_sound(room, room.judged(context, seat, purpose, reply, now_ms).0);
}

/// A room that asked the rule engine for a score stays sound, whatever the score is or whether it
/// comes at all.
pub proof fn law_scores_keep_rooms_sound(
    room: RoomStateModel,
    origin: WinOriginModel,
    win: PendingWin,
    reply: Result<engine::CalculateScoreResponseModel, Seq<char>>,
    now_ms: u64,
)
    requires
        room.sound(),
    ensures
        room.win_scored(origin, win, reply, now_ms).sound(),
{
    let after = room.win_scored(origin, win, reply, now_ms);
    match reply {
        Ok(response) => {
            let taken = match win.discarder_seat {
                Some(discarder) => room.with_discard_claimed(discarder, win.source_event_seq),
                None => room,
            };
            assert(keeps_table(room, taken)) by {
                reveal(keeps_table);
            }
            let ended = taken.without_window().in_phase(
                GamePhase::RoundSettlement,
            ).with_last_action(win.terminal_action);
            lemma_scored_keeps(ended, response.score_delta_by_seat);
            assert(leaves_table(taken, after));
            lemma_left_keeps(taken, after);
            lemma_keeps_chain(room, taken, after);
        },
        Err(_) => {
            lemma_left_keeps(room, after);
        },
    }
    lemma_keeps_sound(room, after);
}

/// The start of a hand leaves a sound room sound, whether it succeeds or not.
proof fn lemma_round_started_sound(room: RoomStateModel, now_ms: u64)
    requires
        room.sound(),
    ensures
        room.round_started(room.next_wall(now_ms)).0.sound(),
        room.round_started(room.next_wall(now_ms)).0.round_runtime is Some ==> room.round_started(
            room.next_wall(now_ms),
        ).0.all_can_draw(),
{
    let wall = room.next_wall(now_ms);
    lemma_next_wall_len(room, now_ms);
    lemma_round_started_keeps(room, wall);
    let (after, result) = room.round_started(wall);
    if wall.len() > DEAD_WALL_TILE_COUNT {
        let set = room.table_set(wall);
        assert(set.all_can_draw() && set.player_round_state.at(Seat::Unspecified) is None) by {
            reveal(SeatMap::at);
        }
        lemma_dealt_seats_keeps(set, 4);
        let (dealt, dealing) = set.dealt_seats(4);
        assert(dealt.can_draw(Seat::East) && dealt.can_draw(Seat::South) && dealt.can_draw(
            Seat::West,
        ) && dealt.can_draw(Seat::North)) by {
            assert(set.can_draw(Seat::East) && set.can_draw(Seat::South) && set.can_draw(Seat::West)
                && set.can_draw(Seat::North));
        }
        lemma_dealt_seats_domain(set, 4);
        if dealing is Ok {
            lemma_drawn_keeps(dealt, room.dealer_seat, DrawSource::LiveWall);
            lemma_drawn_from_domain(dealt, room.dealer_seat, DrawSource::LiveWall, false);
            let drawn = dealt.drawn(room.dealer_seat, DrawSource::LiveWall).0;
            assert((drawn.player_round_state.at(Seat::Unspecified) is Some) == (
            dealt.player_round_state.at(Seat::Unspecified) is Some));
            assert(drawn.can_draw(Seat::East) && drawn.can_draw(Seat::South) && drawn.can_draw(
                Seat::West,
            ) && drawn.can_draw(Seat::North));
        }
    }
}

proof fn lemma_dealt_replacement_domain(room: RoomStateModel, seat: Seat)
    ensures
        (room.dealt_replacement(seat).0.player_round_state.at(Seat::Unspecified) is Some) == (
        room.player_round_state.at(Seat::Unspecified) is Some),
    decreases room.dead_len(),
{
    let (after, tile) = room.popped(DrawSource::DeadWall);
    if let Some(tile) = tile {
        if after.lays_aside(tile) {
            lemma_dealt_replacement_domain(after.with_flower(seat, tile), seat);
        }
    }
}

proof fn lemma_dealt_many_domain(room: RoomStateModel, seat: Seat, count: nat)
    ensures
        (room.dealt_many(seat, count).0.player_round_state.at(Seat::Unspecified) is Some) == (
        room.player_round_state.at(Seat::Unspecified) is Some),
    decreases count,
{
    if count > 0 {
        lemma_dealt_many_domain(room, seat, (count - 1) as nat);
        let before = room.dealt_many(seat, (count - 1) as nat).0;
        let (after, tile) = before.popped(DrawSource::LiveWall);
        if let Some(tile) = tile {
            lemma_dealt_replacement_domain(after.with_flower(seat, tile), seat);
        }
    }
}

proof fn lemma_dealt_seats_domain(room: RoomStateModel, seats: nat)
    ensures
        (room.dealt_seats(seats).0.player_round_state.at(Seat::Unspecified) is Some) == (
        room.player_round_state.at(Seat::Unspecified) is Some),
    decreases seats,
{
    if seats > 0 {
        lemma_dealt_seats_domain(room, (seats - 1) as nat);
        lemma_dealt_many_domain(
            room.dealt_seats((seats - 1) as nat).0,
            seat_order()[seats - 1],
            STARTING_HAND_LEN as nat,
        );
    }
}

/// A new room is sound.
pub proof fn law_new_rooms_are_sound(
    room_id: Seq<char>,
    wall_factory: WallFactoryModel,
    runtime_mode: RoomRuntimeMode,
)
    requires
        wall_factory matches WallFactoryModel::Fixed(tiles) ==> tiles.len() <= u32::MAX,
    ensures
        new_room(room_id, wall_factory, runtime_mode).sound(),
{
    reveal(SeatMap::at);
}

proof fn lemma_join_sound(
    room: RoomStateModel,
    request_id: Seq<char>,
    connection_id: Seq<char>,
    join: AuthorizedJoinModel,
    now_ms: u64,
)
    requires
        room.sound(),
        join.seat != Seat::Unspecified,
    ensures
        room.join_requested(request_id, connection_id, join, now_ms).sound(),
{
    reveal(RoomStateModel::join_requested);
    let after = room.join_requested(request_id, connection_id, join, now_ms);
    if room.user_to_seat.contains_key(join.user_id) || room.players_by_seat.at(
        join.seat,
    ) is Some {
        lemma_left_keeps(room, after);
        lemma_keeps_sound(room, after);
    } else {
        let seated = room.with_player(join, connection_id);
        assert(room.round_runtime is Some ==> room.can_draw(Seat::East));
        assert forall|seat: Seat| room.draws_fit(seat) implies #[trigger] seated.draws_fit(seat) by {
            if seat == join.seat {
                assert(seated.can_draw(seat));
            }
        }
        assert(room.draws_fit(Seat::Unspecified) && room.draws_fit(Seat::East) && room.draws_fit(
            Seat::South,
        ) && room.draws_fit(Seat::West) && room.draws_fit(Seat::North));
        assert(seated.draws_fit(Seat::Unspecified) && seated.draws_fit(Seat::East)
            && seated.draws_fit(Seat::South) && seated.draws_fit(Seat::West) && seated.draws_fit(
            Seat::North,
        ));
        assert(seated.sound());
        lemma_left_keeps(seated, after);
        lemma_keeps_sound(seated, after);
    }
}

proof fn lemma_ready_sound(
    room: RoomStateModel,
    request_id: Seq<char>,
    connection_id: Seq<char>,
    ready: bool,
    now_ms: u64,
)
    requires
        room.sound(),
    ensures
        room.ready_requested(request_id, connection_id, ready, now_ms).sound(),
{
    reveal(RoomStateModel::ready_requested);
    let after = room.ready_requested(request_id, connection_id, ready, now_ms);
    if let Some(seat) = room.seat_of_connection(connection_id) {
        let marked = room.with_ready_mark(seat, ready);
        lemma_left_keeps(room, marked);
        lemma_keeps_sound(room, marked);
        if marked.all_ready() {
            lemma_round_started_sound(marked, now_ms);
            let started = marked.round_started(marked.next_wall(now_ms)).0;
            lemma_left_keeps(started, after);
            lemma_keeps_sound(started, after);
        } else {
            lemma_left_keeps(marked, after);
            lemma_keeps_sound(marked, after);
        }
    }
}

/// A sound room is sound when it is set up for the next hand.
pub proof fn lemma_moved_on_sound(room: RoomStateModel, settled_hand_number: u32)
    requires
        room.sound(),
    ensures
        room.with_completed(settled_hand_number).moved_on(
            room.transition(settled_hand_number),
        ).sound(),
{
    let next = room.with_completed(settled_hand_number).moved_on(
        room.transition(settled_hand_number),
    );
    assert(next.draws_fit(Seat::Unspecified) == room.draws_fit(Seat::Unspecified));
    assert(next.draws_fit(Seat::East) == room.draws_fit(Seat::East));
    assert(next.draws_fit(Seat::South) == room.draws_fit(Seat::South));
    assert(next.draws_fit(Seat::West) == room.draws_fit(Seat::West));
    assert(next.draws_fit(Seat::North) == room.draws_fit(Seat::North));
}

proof fn lemma_advance_sound(room: RoomStateModel, settled_hand_number: u32, now_ms: u64)
    requires
        room.sound(),
    ensures
        room.advanced(settled_hand_number, now_ms).sound(),
{
    reveal(RoomStateModel::advanced);
    let after = room.advanced(settled_hand_number, now_ms);
    if room.phase == GamePhase::RoundSettlement && room.hand_number == settled_hand_number {
        let transition = room.transition(settled_hand_number);
        let counted = room.with_completed(settled_hand_number);
        if transition.match_finished {
            lemma_left_keeps(room, after);
            lemma_keeps_sound(room, after);
        } else {
            let next = counted.moved_on(transition);
            lemma_moved_on_sound(room, settled_hand_number);
            lemma_round_started_sound(next, now_ms);
            let started = next.round_started(next.next_wall(now_ms)).0;
            lemma_left_keeps(started, after);
            lemma_keeps_sound(started, after);
        }
    }
}

proof fn lemma_removal_sound(room: RoomStateModel, user_id: Seq<char>, now_ms: u64)
    requires
        room.sound(),
        room.round_runtime is None,
    ensures
        room.removal_requested(user_id, now_ms).sound(),
{
    reveal(RoomStateModel::removal_requested);
    let after = room.removal_requested(user_id, now_ms);
    if room.phase == GamePhase::Lobby && room.user_to_seat.contains_key(user_id) {
        let gone = room.without_player(user_id, room.user_to_seat[user_id]);
        assert(room.draws_fit(Seat::Unspecified) && room.draws_fit(Seat::East) && room.draws_fit(
            Seat::South,
        ) && room.draws_fit(Seat::West) && room.draws_fit(Seat::North));
        assert forall|seat: Seat| room.draws_fit(seat) implies #[trigger] gone.draws_fit(seat) by {}
        assert(gone.draws_fit(Seat::Unspecified) && gone.draws_fit(Seat::East) && gone.draws_fit(
            Seat::South,
        ) && gone.draws_fit(Seat::West) && gone.draws_fit(Seat::North));
        lemma_left_keeps(gone, after);
        lemma_keeps_sound(gone, after);
    }
}

/// Whether a command is one that the lobby and the gateway hand to a room: seats are real, and
/// nobody is let go once a hand was dealt.
pub open spec fn is_orderly(room: RoomStateModel, command: RoomCommandModel) -> bool {
    &&& command matches RoomCommandModel::Join {
        request_id,
        connection_id,
        request,
        authorized_join,
    } ==> authorized_join.seat != Seat::Unspecified
    &&& command is RemovePlayer ==> room.round_runtime is None
}

/// A command that does not start a load test leaves a sound room sound, and if the room has a
/// question then, it is ready for the answer.
pub proof fn lemma_commanded_sound(room: RoomStateModel, command: RoomCommandModel, now_ms: u64)
    requires
        room.sound(),
        is_orderly(room, command),
    ensures
        !(command is RunLoadTestRoom) ==> room.commanded(command, now_ms).0.sound(),
        command is RunLoadTestRoom ==> room.commanded(command, now_ms).1 is None,
        ({
            let (after, next) = room.commanded(command, now_ms);
            &&& after.sound() || after.should_shutdown
            &&& next matches Some(call) ==> after.awaits(call)
        }),
{
    let after = room.commanded(command, now_ms).0;
    match command {
        RoomCommandModel::Join { request_id, connection_id, request, authorized_join } => {
            lemma_join_sound(room, request_id, connection_id, authorized_join, now_ms);
        },
        RoomCommandModel::Ready { request_id, connection_id, request } => {
            lemma_ready_sound(room, request_id, connection_id, request.ready, now_ms);
        },
        RoomCommandModel::ResumeSession { request_id, connection_id, request } => {
            reveal(RoomStateModel::resume_requested);
            lemma_left_keeps(room, after);
            lemma_keeps_sound(room, after);
        },
        RoomCommandModel::PlayerAction { request_id, connection_id, request } => {
            lemma_action_requested_keeps(room, request_id, connection_id, request, now_ms);
            lemma_keeps_sound(room, after);
        },
        RoomCommandModel::ClaimWindowTimeout { action_window_id } => {
            reveal(RoomStateModel::window_timed_out);
            lemma_settled_if_ready_keeps(room, true, now_ms);
            lemma_left_keeps(room, room);
            lemma_keeps_sound(room, after);
        },
        RoomCommandModel::Disconnect { connection_id } => {
            reveal(RoomStateModel::disconnected);
            lemma_left_keeps(room, after);
            lemma_keeps_sound(room, after);
        },
        RoomCommandModel::AdvanceAfterRoundSettlement { settled_hand_number } => {
            lemma_advance_sound(room, settled_hand_number, now_ms);
        },
        RoomCommandModel::RemovePlayer { user_id } => {
            lemma_removal_sound(room, user_id, now_ms);
        },
        RoomCommandModel::RunLoadTestRoom { spec } => {
            reveal(RoomStateModel::load_tested);
        },
    }
}

/// A command leaves a sound room sound, and if the room has a question then, it is ready for the
/// answer; unless the command ends the room. The lobby hands out real seats only, and lets go of
/// nobody once a hand was dealt.
pub proof fn law_commands_keep_rooms_sound(room: RoomStateModel, command: RoomCommandModel, now_ms: u64)
    requires
        room.sound(),
        is_orderly(room, command),
    ensures
        ({
            let (after, next) = room.commanded(command, now_ms);
            &&& after.sound() || after.should_shutdown
            &&& next matches Some(call) ==> after.awaits(call)
        }),
{
    lemma_commanded_sound(room, command, now_ms);
}

/// A player who acts on another match, another hand or an old state changes nothing at the table:
/// the room uses at most one event number, to say so to that player.
pub proof fn law_stale_actions_change_nothing(
    room: RoomStateModel,
    request_id: Seq<char>,
    connection_id: Seq<char>,
    request: PlayerActionRequestModel,
    now_ms: u64,
)
    requires
        room.staleness(request) is Some,
    ensures
        ({
            let (after, next) = room.action_requested(request_id, connection_id, request, now_ms);
            &&& next is None
            &&& only_outbox_differs(room, after) || only_outbox_differs(room.numbered(), after)
        }),
{
    reveal(RoomStateModel::action_requested);
}

impl RoomState {
    fn seat_can_tally(&self, seat: Seat) -> (r: bool)
        ensures
            r == self@.can_tally(Some(seat)),
    {
        match self.match_runtime.player_stats.get(seat) {
            Some(stats) => stats.rounds_won < u32::MAX && stats.self_draw_wins < u32::MAX,
            None => true,
        }
    }

    fn tiles_in_walls(&self) -> (r: u64)
        ensures
            r == walls_len(self@.round_runtime) || (r == u64::MAX && walls_len(self@.round_runtime)
                > u64::MAX),
    {
        match self.round_runtime.as_ref() {
            Some(runtime) => (runtime.live_wall.len() as u64).saturating_add(
                runtime.dead_wall.len() as u64,
            ),
            None => 0,
        }
    }

    fn seat_can_draw(&self, seat: Seat) -> (r: bool)
        ensures
            r == self@.can_draw(seat),
    {
        match self.player_round_state.get(seat) {
            Some(hand) => {
                let tiles: u64 = self.tiles_in_walls();
                tiles <= u32::MAX as u64 && hand.replacement_draw_count as u64 + tiles
                    <= u32::MAX as u64
            },
            None => false,
        }
    }

    fn seat_draws_fit(&self, seat: Seat) -> (r: bool)
        ensures
            r == self@.draws_fit(seat),
    {
        match self.player_round_state.get(seat) {
            Some(_) => self.seat_can_draw(seat),
            None => true,
        }
    }

    fn draws_are_ready(&self) -> (r: bool)
        ensures
            r == self@.draws_ready(),
    {
        self.seat_draws_fit(Seat::Unspecified) && self.seat_draws_fit(Seat::East)
            && self.seat_draws_fit(Seat::South) && self.seat_draws_fit(Seat::West)
            && self.seat_draws_fit(Seat::North) && ((self.round_runtime.is_none() && self.phase
            != GamePhase::WaitingDiscard) || (self.seat_can_draw(Seat::East) && self.seat_can_draw(
            Seat::South,
        ) && self.seat_can_draw(Seat::West) && self.seat_can_draw(Seat::North)))
    }

    fn wall_has_room(&self) -> (r: bool)
        ensures
            r == self@.wall_fits(),
    {
        match &self.wall_factory {
            WallFactory::Fixed(tiles) => tiles.len() as u64 <= u32::MAX as u64,
            _ => true,
        }
    }

    fn counters_have_room(&self, now_ms: u64) -> (r: bool)
        ensures
            r == self@.has_room(now_ms),
    {
        let turns_left: bool = match self.round_runtime.as_ref() {
            Some(runtime) => runtime.turn_index < u32::MAX,
            None => true,
        };
        turns_left && self.next_event_seq <= u64::MAX - 8 && self.next_action_window_id < u64::MAX
            && now_ms <= u64::MAX - u32::MAX as u64 && self.dealer_streak < u32::MAX
            && self.seat_can_tally(Seat::Unspecified) && self.seat_can_tally(Seat::East)
            && self.seat_can_tally(Seat::South) && self.seat_can_tally(Seat::West)
            && self.seat_can_tally(Seat::North)
    }

    /// Tells whether the room can take a step now.
    pub fn is_ready(&self, now_ms: u64) -> (r: bool)
        ensures
            r == self@.ready(now_ms),
    {
        let turn_has_hand: bool = self.phase != GamePhase::WaitingDiscard
            || self.player_round_state.get(self.current_turn_seat).is_some();
        turn_has_hand && self.counters_have_room(now_ms) && self.draws_are_ready()
            && self.wall_has_room() && self.dealer_seat != Seat::Unspecified
    }

    /// Tells whether the room can take a command now.
    pub fn can_take_command(&self, command: &RoomCommand, now_ms: u64) -> (r: bool)
        ensures
            r == self@.can_take(command@, now_ms),
    {
        if !self.is_ready(now_ms) {
            return false;
        }
        match command {
            RoomCommand::RunLoadTestRoom { spec } => self.runtime_mode != RoomRuntimeMode::LoadTest
                || self.can_run_load_test(spec),
            _ => true,
        }
    }

    /// Tells whether the room can hear the answer to its question now.
    pub fn can_resume(&self, call: &PendingCall, now_ms: u64) -> (r: bool)
        ensures
            r == (self@.ready(now_ms) && self@.awaits(call@)),
    {
        if !self.is_ready(now_ms) {
            return false;
        }
        match call {
            PendingCall::Validation(pending) => match &pending.purpose {
                ValidationPurpose::ClaimWindow(probe) => probe.asked < 4 && (probe.trigger
                    == ActionKind::SupplementalKong || self.seat_can_draw(
                    next_seat(probe.source_seat),
                )),
                _ => true,
            },
            PendingCall::Score(_) => true,
        }
    }

    fn can_run_load_test(&self, spec: &LoadTestRoomSpec) -> (r: bool)
        ensures
            r == self@.can_simulate(spec@),
    {
        let limit: u64 = match &self.wall_factory {
            WallFactory::Fixed(tiles) => tiles.len() as u64,
            _ => if self.room_config.enable_flower_tiles {
                144
            } else {
                136
            },
        };
        let per_hand: u64 = if spec.max_actions as u64 <= limit {
            spec.max_actions as u64
        } else {
            limit
        };
        let hands: u64 = if spec.hands_per_match == 0 {
            1
        } else {
            spec.hands_per_match as u64
        };
        assert(per_hand <= u32::MAX && hands <= u32::MAX ==> hands * per_hand <= u64::MAX)
            by (nonlinear_arith);
        self.wall_has_room() && spec.player_base_index <= u64::MAX - 3 && hands * per_hand
            <= u32::MAX as u64
    }
}

} // verus!
