//! Which requests a room grants, and how it answers those that it does not.

use vstd::multiset::Multiset;
use vstd::prelude::*;

use crate::collections::group_seat_map;
use crate::proto::client::{
    law_tile_codes, ActionKind, ClaimActionModel, ClaimKind, DeclareWinAction, DiscardAction,
    GamePhase, MeldKind, PassAction, PlayerActionRequestModel, PromptOptionModel, RejectCode, Seat,
    ServerPayloadModel, SupplementalKongAction, Tile, WinType,
};
use crate::proto::engine;
use crate::room::actions::{verdict, StepModel};
use crate::room::basics::group_announcing_keeps;
use crate::room::convert::{
    claim_action, failure, parsed_tile, parsed_tiles, parsed_win_type, ActionValidationErrorModel,
};
use crate::room::frames::lemma_synced_keeps;
use crate::room::hand::{
    first_place, hand_after_discard, lemma_first_place, seat_order, PlayerRoundStateModel,
};
use crate::room::offers::option_tiles;
use crate::room::plays::{offered, option_matches, peng_place};
use crate::room::state::{ClaimResponseModel, PlayerSlotModel, RoomOutputModel, RoomStateModel};
use crate::room::steps::{PendingCallModel, RequestContextModel, ValidationPurposeModel};
use crate::text::decimal;
use crate::tiles::lemma_same_tiles_laid_out;

verus! {

broadcast use {group_announcing_keeps, lemma_synced_keeps, group_seat_map};

// ---------------------------------------------------------------------------
// Turning down
// ---------------------------------------------------------------------------

/// The seat of whoever uses a connection.
pub open spec fn sender_seat(room: RoomStateModel, connection_id: Seq<char>) -> Option<Seat> {
    if room.connection_to_user.contains_key(connection_id) && room.user_to_seat.contains_key(
        room.connection_to_user[connection_id],
    ) {
        Some(room.user_to_seat[room.connection_to_user[connection_id]])
    } else {
        None
    }
}

/// Whether an output tells a connection that a request was turned down for a reason.
pub open spec fn tells_refusal(
    output: RoomOutputModel,
    target: Seq<char>,
    request_id: Seq<char>,
    reject_code: RejectCode,
) -> bool {
    match output {
        RoomOutputModel::Send(told, frame) => told == target && (match frame.payload {
            Some(ServerPayloadModel::ActionRejected(rejected)) => rejected.request_id == request_id
                && rejected.reject_code == reject_code.code(),
            _ => false,
        }),
        _ => false,
    }
}

/// Whether a request was turned down for a reason: nothing at the table changed and nothing is asked
/// of the rule engine, and the player whose connection it came from is told so, and the reason, and
/// nobody else is told anything.
pub open spec fn turned_down(
    before: RoomStateModel,
    step: StepModel,
    connection_id: Seq<char>,
    request_id: Seq<char>,
    reject_code: RejectCode,
) -> bool {
    let after = step.0;
    &&& step.1 is None
    &&& after == (RoomStateModel {
        outbox: after.outbox,
        next_event_seq: after.next_event_seq,
        ..before
    })
    &&& match sender_seat(before, connection_id) {
        Some(seat) => match before.players_by_seat.at(seat) {
            Some(PlayerSlotModel { connection_id: Some(target), .. }) => before.runtime_mode
                is Production ==> {
                &&& after.outbox.len() == before.outbox.len() + 1
                &&& after.outbox.drop_last() == before.outbox
                &&& tells_refusal(after.outbox.last(), target, request_id, reject_code)
            },
            _ => after.outbox == before.outbox,
        },
        None => after.outbox == before.outbox,
    }
}

proof fn lemma_rejected_in(
    room: RoomStateModel,
    context: RequestContextModel,
    error: ActionValidationErrorModel,
)
    ensures
        turned_down(
            room,
            (room.rejected_in(context, error), None),
            context.connection_id,
            context.request_id,
            error.reject_code,
        ),
{
    let after = room.rejected_in(context, error);
    if after.outbox.len() > room.outbox.len() {
        assert(after.outbox.drop_last() =~= room.outbox);
    }
}

/// An action from a connection that nobody is seated with is ignored. One that speaks of another
/// match or another hand, or of another state of the table than the latest, is turned down, and so is
/// one that says nothing.
pub proof fn law_actions_must_be_current(
    room: RoomStateModel,
    request_id: Seq<char>,
    connection_id: Seq<char>,
    request: PlayerActionRequestModel,
    now_ms: u64,
)
    ensures
        ({
            let step = room.action_requested(request_id, connection_id, request, now_ms);
            let current = request.match_id == room.match_id && request.round_id == "hand-"@
                + decimal(room.hand_number as nat);
            &&& sender_seat(room, connection_id) is None ==> step == (
                room,
                None::<PendingCallModel>,
            )
            &&& sender_seat(room, connection_id) is Some && !current ==> turned_down(
                room,
                step,
                connection_id,
                request_id,
                RejectCode::InvalidRequest,
            )
            &&& sender_seat(room, connection_id) is Some && current && room.next_event_seq > 0
                && request.expected_event_seq + 1 != room.next_event_seq ==> turned_down(
                room,
                step,
                connection_id,
                request_id,
                RejectCode::StaleEventSeq,
            )
            &&& sender_seat(room, connection_id) is Some && current && request.expected_event_seq + 1
                == room.next_event_seq && request.action is None ==> turned_down(
                room,
                step,
                connection_id,
                request_id,
                RejectCode::InvalidRequest,
            )
        }),
{
    reveal(RoomStateModel::action_requested);
    let context = room.action_context(request_id, connection_id, request);
    if let Some(error) = room.staleness(request) {
        lemma_rejected_in(room, context, error);
    }
    lemma_rejected_in(
        room,
        context,
        failure(RejectCode::InvalidRequest, "player action payload must be set"@),
    );
}

// ---------------------------------------------------------------------------
// Discards
// ---------------------------------------------------------------------------

/// Whether a hand can discard a tile: the tile just drawn, where that is asked for; any that it holds
/// otherwise.
pub open spec fn can_discard(hand: PlayerRoundStateModel, tile: Tile, tsumogiri: bool) -> bool {
    hand.drawn_tile == Some(tile) || (!tsumogiri && hand.concealed_tiles.contains(tile))
}

/// The tiles of a hand that nobody else sees.
pub open spec fn private_multiset(hand: PlayerRoundStateModel) -> Multiset<Tile> {
    match hand.drawn_tile {
        Some(tile) => hand.concealed_tiles.to_multiset().insert(tile),
        None => hand.concealed_tiles.to_multiset(),
    }
}

proof fn lemma_can_discard(hand: PlayerRoundStateModel, tile: Tile, tsumogiri: bool)
    ensures
        hand_after_discard(hand, tile, tsumogiri) is Ok <==> can_discard(hand, tile, tsumogiri),
        hand_after_discard(hand, tile, tsumogiri) matches Err(error) ==> error.reject_code
            == RejectCode::InvalidTile,
        hand_after_discard(hand, tile, tsumogiri) matches Ok((rest, drawn)) ==> (drawn <==> tsumogiri
            || !hand.concealed_tiles.contains(tile)) && private_multiset(hand) == private_multiset(
            rest,
        ).insert(tile) && rest.drawn_tile is None && rest.melds == hand.melds && rest.flowers
            == hand.flowers && rest.discards == hand.discards,
{
    broadcast use vstd::seq_lib::group_to_multiset_ensures;
    lemma_first_place(hand.concealed_tiles, tile);
    if let Some(place) = first_place(hand.concealed_tiles, tile) {
        assert(hand.concealed_tiles[place] == tile);
        assert(hand.concealed_tiles.contains(tile));
        let left = hand.concealed_tiles.remove(place);
        assert(hand.concealed_tiles.to_multiset() =~= left.to_multiset().insert(tile));
        if let Some(drawn) = hand.drawn_tile {
            crate::tiles::lemma_sorted_tiles_keeps_tiles(left.push(drawn));
            assert(left.push(drawn).to_multiset() =~= left.to_multiset().insert(drawn));
        }
    }
    if let Ok((rest, drawn)) = hand_after_discard(hand, tile, tsumogiri) {
        assert(private_multiset(hand) =~= private_multiset(rest).insert(tile));
    }
}

/// Only the player whose turn it is discards, only when a discard is awaited, and only a tile that
/// they hold; everything else is turned down.
pub proof fn law_discards_need_a_turn_and_a_tile(
    room: RoomStateModel,
    context: RequestContextModel,
    seat: Seat,
    discard: DiscardAction,
    now_ms: u64,
)
    requires
        room.player_round_state.at(seat) is Some,
    ensures
        ({
            let step = room.discard_requested(context, seat, discard, now_ms);
            &&& room.phase != GamePhase::WaitingDiscard ==> turned_down(
                room,
                step,
                context.connection_id,
                context.request_id,
                RejectCode::PhaseMismatch,
            )
            &&& room.phase == GamePhase::WaitingDiscard && seat != room.current_turn_seat
                ==> turned_down(
                room,
                step,
                context.connection_id,
                context.request_id,
                RejectCode::NotYourTurn,
            )
            &&& room.phase == GamePhase::WaitingDiscard && seat == room.current_turn_seat && !(
            Tile::decode(discard.tile) matches Some(tile) && can_discard(
                room.player_round_state.at(seat)->0,
                tile,
                discard.tsumogiri,
            )) ==> turned_down(
                room,
                step,
                context.connection_id,
                context.request_id,
                RejectCode::InvalidTile,
            )
        }),
{
    match room.discard_choice(seat, discard) {
        Err(error) => {
            lemma_rejected_in(room, context, error);
        },
        Ok(tile) => {
            lemma_can_discard(room.player_round_state.at(seat)->0, tile, discard.tsumogiri);
            let (after, result) = room.discarded(seat, tile, discard.tsumogiri);
            assert((result is Err <==> !can_discard(
                room.player_round_state.at(seat)->0,
                tile,
                discard.tsumogiri,
            )) && (result matches Err(error) ==> after == room && error.reject_code
                == RejectCode::InvalidTile)) by {
                reveal(RoomStateModel::discarded);
            }
            if let Err(error) = result {
                lemma_rejected_in(room, context, error);
            }
        },
    }
}

/// A discard that is granted leaves the hand and lies as the latest of the seat's discards, untaken,
/// under the number of its event, and marked as the tile just drawn just where that was asked for or
/// the rest of the hand does not hold it. No other hand changes. Where the turn counter has room it
/// counts one more.
pub proof fn law_granted_discards_land(
    room: RoomStateModel,
    context: RequestContextModel,
    seat: Seat,
    discard: DiscardAction,
    now_ms: u64,
    other: Seat,
)
    requires
        seat != Seat::Unspecified,
        room.phase == GamePhase::WaitingDiscard,
        seat == room.current_turn_seat,
        room.can_number(5),
        room.player_round_state.at(seat) matches Some(hand) && Tile::decode(discard.tile) matches Some(
            tile,
        ) && can_discard(hand, tile, discard.tsumogiri),
        room.round_runtime matches Some(runtime) && runtime.turn_index < u32::MAX,
    ensures
        ({
            let tile = Tile::decode(discard.tile)->0;
            let before = room.player_round_state.at(seat)->0;
            let after = room.discard_requested(context, seat, discard, now_ms).0;
            let hand = after.player_round_state.at(seat)->0;
            let lying = hand.discards.last();
            &&& after.player_round_state.at(seat) is Some
            &&& private_multiset(before) == private_multiset(hand).insert(tile)
            &&& hand.drawn_tile is None
            &&& hand.melds == before.melds && hand.flowers == before.flowers
            &&& hand.discards.len() == before.discards.len() + 1
            &&& hand.discards.drop_last() == before.discards
            &&& lying.tile == tile.code() && !lying.claimed && lying.source_event_seq
                == room.next_event_seq
            &&& lying.turn_index == room.round_runtime->0.turn_index + 1
            &&& lying.drawn_and_discarded <==> discard.tsumogiri || !before.concealed_tiles.contains(
                tile,
            )
            &&& other != seat ==> after.player_round_state.at(other) == room.player_round_state.at(
                other,
            )
            &&& after.current_turn_seat == seat
            &&& after.players_by_seat == room.players_by_seat
        }),
{
    let tile = Tile::decode(discard.tile)->0;
    let before = room.player_round_state.at(seat)->0;
    law_tile_codes(tile, discard.tile);
    lemma_can_discard(before, tile, discard.tsumogiri);
    let (dropped, result) = room.discarded(seat, tile, discard.tsumogiri);
    let landed = dropped.discard_landed(seat, tile);
    let (rest, drawn) = hand_after_discard(before, tile, discard.tsumogiri)->Ok_0;
    assert(result is Ok) by {
        reveal(RoomStateModel::discarded);
    }
    assert(dropped.player_round_state.at(seat) is Some && dropped.next_event_seq
        == room.next_event_seq && dropped.current_turn_seat == room.current_turn_seat
        && dropped.players_by_seat == room.players_by_seat && (other != seat
        ==> dropped.player_round_state.at(other) == room.player_round_state.at(other))) by {
        reveal(RoomStateModel::discarded);
    }
    let thrown = dropped.player_round_state.at(seat)->0;
    assert(thrown.concealed_tiles == rest.concealed_tiles && thrown.drawn_tile is None
        && thrown.melds == before.melds && thrown.flowers == before.flowers && thrown.discards.len()
        == before.discards.len() + 1 && thrown.discards.drop_last() =~= before.discards
        && thrown.discards.last().tile == tile.code() && !thrown.discards.last().claimed
        && thrown.discards.last().turn_index == room.round_runtime->0.turn_index + 1
        && thrown.discards.last().drawn_and_discarded == drawn) by {
        reveal(RoomStateModel::discarded);
    }
    assert(landed.player_round_state.at(seat) is Some && landed.current_turn_seat
        == room.current_turn_seat && landed.players_by_seat == room.players_by_seat && (other != seat
        ==> landed.player_round_state.at(other) == room.player_round_state.at(other))) by {
        reveal(RoomStateModel::discard_landed);
    }
    let lying = landed.player_round_state.at(seat)->0;
    assert(lying == (PlayerRoundStateModel { discards: lying.discards, ..thrown })
        && lying.discards.len() == thrown.discards.len() && lying.discards.drop_last()
        =~= thrown.discards.drop_last() && lying.discards.last() == (
    crate::proto::client::DiscardTile {
        source_event_seq: room.next_event_seq,
        ..thrown.discards.last()
    })) by {
        reveal(RoomStateModel::discard_landed);
    }
    lemma_first_question_moves_nothing(
        landed,
        context,
        seat,
        tile,
        room.next_event_seq,
        now_ms,
    );
}

/// The first question about a window, or the failure to ask it, leaves the table as it is.
proof fn lemma_first_question_moves_nothing(
    room: RoomStateModel,
    context: RequestContextModel,
    seat: Seat,
    tile: Tile,
    source_event_seq: u64,
    now_ms: u64,
)
    ensures
        ({
            let after = room.window_begun(
                context,
                seat,
                tile,
                source_event_seq,
                ActionKind::Discard,
                now_ms,
            ).0;
            after == (RoomStateModel {
                outbox: after.outbox,
                next_event_seq: after.next_event_seq,
                ..room
            })
        }),
{
    reveal(RoomStateModel::window_begun);
    reveal(RoomStateModel::probe_followed);
    reveal_with_fuel(RoomStateModel::probed, 3);
    assert(seat_order()[0] != seat_order()[1]);
}

// ---------------------------------------------------------------------------
// Answers to a window
// ---------------------------------------------------------------------------

/// What speaks against an answer to the open claim window, if anything does: there must be a hand and
/// a window, the answer must be to that window and that event, and from a seat that may answer.
pub open spec fn window_refusal(
    room: RoomStateModel,
    seat: Seat,
    action_window_id: u64,
    source_event_seq: u64,
) -> Option<RejectCode> {
    if room.round_runtime is None {
        Some(RejectCode::PhaseMismatch)
    } else if room.window() is None || room.window()->0.action_window_id != action_window_id {
        Some(RejectCode::ActionWindowClosed)
    } else if room.window()->0.source_event_seq != source_event_seq {
        Some(RejectCode::InvalidRequest)
    } else if !room.window()->0.eligible_seats.contains(seat) {
        Some(RejectCode::ActionNotAvailable)
    } else {
        None
    }
}

/// A pass or a claim that does not answer the open window, from a seat that may answer it, is turned
/// down before the rule engine hears of it.
pub proof fn law_answers_need_the_open_window(
    room: RoomStateModel,
    context: RequestContextModel,
    seat: Seat,
    request: PlayerActionRequestModel,
    pass: PassAction,
    claim: ClaimActionModel,
    now_ms: u64,
)
    ensures
        window_refusal(room, seat, context.action_window_id, pass.source_event_seq) matches Some(
            code,
        ) ==> turned_down(
            room,
            room.pass_requested(context, seat, pass, now_ms),
            context.connection_id,
            context.request_id,
            code,
        ),
        window_refusal(room, seat, context.action_window_id, claim.source_event_seq) matches Some(
            code,
        ) ==> turned_down(
            room,
            room.claim_requested(context, seat, request, claim),
            context.connection_id,
            context.request_id,
            code,
        ),
{
    if let Err(error) = room.window_submission(
        seat,
        context.action_window_id,
        pass.source_event_seq,
        "pass source_event_seq does not match the active claim window"@,
    ) {
        lemma_rejected_in(room, context, error);
    }
    if let Err(error) = room.window_submission(
        seat,
        context.action_window_id,
        claim.source_event_seq,
        "claim source_event_seq does not match the active claim window"@,
    ) {
        lemma_rejected_in(room, context, error);
    }
}

/// Where the rule engine calls an action illegal, or does not answer, nothing at the table changes.
pub proof fn law_illegal_actions_change_nothing(
    room: RoomStateModel,
    context: RequestContextModel,
    seat: Seat,
    purpose: ValidationPurposeModel,
    reply: Result<engine::ValidateActionResponseModel, Seq<char>>,
    now_ms: u64,
)
    requires
        !(purpose is ClaimWindow),
        reply matches Ok(response) ==> !response.is_legal,
    ensures
        exists|code: RejectCode| #[trigger]
            turned_down(
                room,
                room.judged(context, seat, purpose, reply, now_ms),
                context.connection_id,
                context.request_id,
                code,
            ) && (reply is Err ==> code == RejectCode::InternalError),
{
    let error = verdict(reply)->Err_0;
    lemma_rejected_in(room, context, error);
    assert(room.judged(context, seat, purpose, reply, now_ms) == (
        room.rejected_in(context, error),
        None::<PendingCallModel>,
    ));
    assert(turned_down(
        room,
        room.judged(context, seat, purpose, reply, now_ms),
        context.connection_id,
        context.request_id,
        error.reject_code,
    ));
}

/// Whether some options hold a kind of claim with some tiles, in whatever order they are named.
pub open spec fn options_hold(
    options: Seq<PromptOptionModel>,
    kind: ClaimKind,
    consume: Seq<Tile>,
) -> bool {
    exists|i: int|
        0 <= i < options.len() && (#[trigger] options[i]).claim_kind == kind.code() && (
        options[i].action_kind == ActionKind::Unspecified.code() || options[i].action_kind
            == claim_action(kind).code()) && option_tiles(options[i]).to_multiset()
            == consume.to_multiset()
}

/// Whether a claim is one that the open window offers its seat: for its tile, from its source, of a
/// kind and with tiles that are among the seat's options.
pub open spec fn is_offered(room: RoomStateModel, seat: Seat, claim: ClaimActionModel) -> bool {
    match room.window() {
        None => false,
        Some(window) => {
            &&& Tile::decode(claim.target_tile) == Some(window.target_tile)
            &&& Seat::decode(claim.source_seat) == Some(window.source_seat)
            &&& match (
                ClaimKind::decode(claim.claim_kind),
                parsed_tiles(claim.consume_tiles),
                window.options_by_seat.at(seat),
            ) {
                (Some(kind), Ok(consume), Some(options)) => options_hold(options, kind, consume),
                _ => false,
            }
        },
    }
}

/// A claim that the rule engine allows is taken as an answer just where the open window offers it;
/// otherwise it is turned down.
pub proof fn law_claims_must_be_offered(
    room: RoomStateModel,
    context: RequestContextModel,
    seat: Seat,
    claim: ClaimActionModel,
    response: engine::ValidateActionResponseModel,
    now_ms: u64,
)
    requires
        response.is_legal,
    ensures
        ({
            let step = room.claim_judged(context, seat, claim, Ok(response), now_ms);
            &&& is_offered(room, seat, claim) ==> step == room.answered(
                seat,
                ClaimResponseModel::Claim(claim),
                now_ms,
            )
            &&& !is_offered(room, seat, claim) ==> exists|code: RejectCode| #[trigger]
                turned_down(room, step, context.connection_id, context.request_id, code)
        }),
{
    lemma_offered(room, seat, claim);
    if let Err(error) = room.claim_choice(seat, claim) {
        lemma_rejected_in(room, context, error);
        assert(turned_down(
            room,
            room.claim_judged(context, seat, claim, Ok(response), now_ms),
            context.connection_id,
            context.request_id,
            error.reject_code,
        ));
    }
}

proof fn lemma_offered(room: RoomStateModel, seat: Seat, claim: ClaimActionModel)
    ensures
        room.claim_choice(seat, claim) is Ok <==> is_offered(room, seat, claim),
{
    if let (Some(window), Some(kind), Ok(consume)) = (
        room.window(),
        ClaimKind::decode(claim.claim_kind),
        parsed_tiles(claim.consume_tiles),
    ) {
        if let Some(options) = window.options_by_seat.at(seat) {
            assert forall|i: int| 0 <= i < options.len() implies option_matches(
                #[trigger] options[i],
                kind,
                consume,
            ) == (options[i].claim_kind == kind.code() && (options[i].action_kind
                == ActionKind::Unspecified.code() || options[i].action_kind == claim_action(
                kind,
            ).code()) && option_tiles(options[i]).to_multiset() == consume.to_multiset()) by {
                lemma_same_tiles_laid_out(option_tiles(options[i]), consume);
            }
            assert(offered(options, kind, consume) <==> options_hold(options, kind, consume));
        }
    }
}

// ---------------------------------------------------------------------------
// Kongs and wins
// ---------------------------------------------------------------------------

/// Whether a hand has a triplet that a tile can be added to.
pub open spec fn has_triplet(hand: PlayerRoundStateModel, tile: Tile) -> bool {
    exists|i: int|
        0 <= i < hand.melds.len() && (#[trigger] hand.melds[i]).kind
            == MeldKind::Peng.code() && hand.melds[i].claimed_tile
            == tile.code()
}

proof fn lemma_triplet(hand: PlayerRoundStateModel, tile: Tile)
    ensures
        has_triplet(hand, tile) <==> peng_place(hand.melds, tile) is Some,
    decreases hand.melds.len(),
{
    if hand.melds.len() > 0 {
        let rest = PlayerRoundStateModel { melds: hand.melds.drop_first(), ..hand };
        lemma_triplet(rest, tile);
        if has_triplet(hand, tile) {
            let i = choose|i: int|
                0 <= i < hand.melds.len() && (#[trigger] hand.melds[i]).kind
                    == MeldKind::Peng.code() && hand.melds[i].claimed_tile
                    == tile.code();
            if i > 0 {
                assert(rest.melds[i - 1] == hand.melds[i]);
            }
        }
        if has_triplet(rest, tile) {
            let i = choose|i: int|
                0 <= i < rest.melds.len() && (#[trigger] rest.melds[i]).kind
                    == MeldKind::Peng.code() && rest.melds[i].claimed_tile
                    == tile.code();
            assert(hand.melds[i + 1] == rest.melds[i]);
        }
    }
}

/// Whether a question is whether a seat may add a tile to a triplet.
pub open spec fn asks_about_kong(call: PendingCallModel, seat: Seat, tile: Tile) -> bool {
    match call {
        PendingCallModel::Validation(pending) => pending.purpose
            == ValidationPurposeModel::SupplementalKong(tile) && pending.seat == seat,
        _ => false,
    }
}

/// A fourth tile is added only by the player whose turn it is, when a discard is awaited, to a triplet
/// of that tile of their own, and if they hold it; everything else is turned down. What passes goes
/// to the rule engine first, and the table waits.
pub proof fn law_kongs_need_a_turn_a_triplet_and_a_tile(
    room: RoomStateModel,
    context: RequestContextModel,
    seat: Seat,
    request: PlayerActionRequestModel,
    kong: SupplementalKongAction,
)
    requires
        room.player_round_state.at(seat) is Some,
    ensures
        ({
            let step = room.kong_requested(context, seat, request, kong);
            let hand = room.player_round_state.at(seat)->0;
            &&& room.phase != GamePhase::WaitingDiscard ==> turned_down(
                room,
                step,
                context.connection_id,
                context.request_id,
                RejectCode::PhaseMismatch,
            )
            &&& room.phase == GamePhase::WaitingDiscard && seat != room.current_turn_seat
                ==> turned_down(
                room,
                step,
                context.connection_id,
                context.request_id,
                RejectCode::NotYourTurn,
            )
            &&& room.phase == GamePhase::WaitingDiscard && seat == room.current_turn_seat ==> (
            match Tile::decode(kong.tile) {
                None => turned_down(
                    room,
                    step,
                    context.connection_id,
                    context.request_id,
                    RejectCode::InvalidTile,
                ),
                Some(tile) => {
                    &&& !has_triplet(hand, tile) ==> turned_down(
                        room,
                        step,
                        context.connection_id,
                        context.request_id,
                        RejectCode::ActionNotAvailable,
                    )
                    &&& has_triplet(hand, tile) && hand.drawn_tile != Some(tile)
                        && !hand.concealed_tiles.contains(tile) ==> turned_down(
                        room,
                        step,
                        context.connection_id,
                        context.request_id,
                        RejectCode::InvalidTile,
                    )
                    &&& step.1 matches Some(call) ==> step.0 == room && asks_about_kong(
                        call,
                        seat,
                        tile,
                    )
                },
            })
            &&& room.phase != GamePhase::WaitingDiscard || seat != room.current_turn_seat ==> step.1
                is None
        }),
{
    let hand = room.player_round_state.at(seat)->0;
    lemma_rejected_in(
        room,
        context,
        failure(RejectCode::PhaseMismatch, "supplemental kong is only available during WaitingDiscard"@),
    );
    lemma_rejected_in(
        room,
        context,
        failure(RejectCode::NotYourTurn, "only the current turn seat may declare a supplemental kong"@),
    );
    match parsed_tile(kong.tile) {
        Err(error) => {
            lemma_rejected_in(room, context, error);
        },
        Ok(tile) => {
            lemma_triplet(hand, tile);
            if let Err(error) = room.kong_choice(seat, tile) {
                lemma_rejected_in(room, context, error);
            }
        },
    }
}

/// Whether a declared win fits the table, and who is to pay for its tile. On a tile drawn it is the
/// player whose turn it is who wins, on the very tile drawn, and nobody pays in particular. On a
/// claimed tile it answers the open window, from a seat that may answer it, for its tile, source and
/// event; and the source pays.
pub open spec fn win_fits(
    room: RoomStateModel,
    seat: Seat,
    action_window_id: u64,
    win: DeclareWinAction,
    payer: Option<Seat>,
) -> bool {
    let win_type = WinType::decode(win.win_type);
    let tile = Tile::decode(win.winning_tile);
    match payer {
        None => {
            &&& win_type == Some(WinType::SelfDraw) || win_type == Some(WinType::KongDraw)
            &&& room.phase == GamePhase::WaitingDiscard
            &&& seat == room.current_turn_seat
            &&& room.player_round_state.at(seat) matches Some(hand) && hand.drawn_tile is Some
                && hand.drawn_tile == tile
        },
        Some(source) => {
            &&& win_type == Some(WinType::Discard) || win_type == Some(WinType::RobKong)
            &&& room.window() matches Some(window) && {
                &&& window.action_window_id == action_window_id
                &&& window.eligible_seats.contains(seat)
                &&& tile == Some(window.target_tile)
                &&& Seat::decode(win.source_seat) == Some(window.source_seat)
                &&& win.source_event_seq == window.source_event_seq
                &&& window.source_seat == source
            }
        },
    }
}

/// A win that the rule engine allows is taken just where it fits the table. One on a drawn tile is
/// sent to be scored, with nobody to pay in particular; one on a claimed tile is an answer to the
/// window. One that does not fit is turned down.
pub proof fn law_wins_must_fit_the_table(
    room: RoomStateModel,
    context: RequestContextModel,
    seat: Seat,
    win: DeclareWinAction,
    response: engine::ValidateActionResponseModel,
    now_ms: u64,
)
    requires
        response.is_legal,
    ensures
        ({
            let step = room.win_judged(context, seat, win, Ok(response), now_ms);
            &&& win_fits(room, seat, context.action_window_id, win, None) ==> step.0
                == room.numbered() && (match step.1 {
                Some(PendingCallModel::Score(pending)) => pending.win.winner_seat == seat
                    && pending.win.discarder_seat is None && Some(pending.win.winning_tile)
                    == Tile::decode(win.winning_tile) && Some(pending.win.win_type)
                    == WinType::decode(win.win_type),
                _ => false,
            })
            &&& forall|source: Seat| #[trigger]
                win_fits(room, seat, context.action_window_id, win, Some(source)) ==> step
                    == room.answered(seat, ClaimResponseModel::DeclareWin(win), now_ms)
            &&& !win_fits(room, seat, context.action_window_id, win, None) && (forall|source: Seat|
                !#[trigger] win_fits(room, seat, context.action_window_id, win, Some(source)))
                ==> exists|code: RejectCode| #[trigger]
                turned_down(room, step, context.connection_id, context.request_id, code)
        }),
{
    match parsed_win_type(win.win_type) {
        Err(error) => {
            lemma_rejected_in(room, context, error);
        },
        Ok(win_type) => match parsed_tile(win.winning_tile) {
            Err(error) => {
                lemma_rejected_in(room, context, error);
            },
            Ok(winning_tile) => match room.win_context(
                seat,
                context.action_window_id,
                win,
                win_type,
                winning_tile,
            ) {
                Err(error) => {
                    lemma_rejected_in(room, context, error);
                },
                Ok(None) => {
                    assert(win_fits(room, seat, context.action_window_id, win, None));
                },
                Ok(Some(source)) => {
                    assert(win_fits(room, seat, context.action_window_id, win, Some(source)));
                },
            },
        },
    }
}

} // verus!
