//! What actions leave behind: marks on discards, fourth tiles, flowers, and the latest action.

use vstd::prelude::*;

use crate::collections::group_seat_map;
use crate::db::models::ReplayEventKind;
use crate::proto::client::{
    ActionKind, ClaimKind, GamePhase, MeldKind, RejectCode, Seat, Tile, WinType,
};
use crate::proto::engine;
use crate::room::actions::verdict;
use crate::room::basics::group_announcing_keeps;
use crate::room::convert::validation_reject_code;
use crate::room::engine_view::engine_flag_codes;
use crate::room::flow::lemma_first_claimed;
use crate::room::hand::PlayerRoundStateModel;
use crate::room::records::{is_recorded, law_draws_are_recorded, retells_draw};
use crate::room::state::{ResolvedActionRecord, RoomStateModel};
use crate::room::steps::WindowProbeModel;
use crate::tiles::{lemma_sorted_codes_keeps_codes, lemma_sorted_tiles_keeps_tiles};

verus! {

broadcast use {group_announcing_keeps, group_seat_map};

/// Whether the latest action of a hand is one by a seat, of a kind, with a tile, under a number.
pub open spec fn is_latest(
    room: RoomStateModel,
    event_seq: u64,
    seat: Seat,
    kind: ActionKind,
    tile: Tile,
    replacement_draw: bool,
) -> bool {
    room.round_runtime matches Some(runtime) ==> (runtime.last_resolved_action matches Some(action)
        && action.event_seq == event_seq && action.actor_seat == seat && action.action_kind == kind
        && action.tile == Some(tile) && action.replacement_draw == replacement_draw
        && !action.rob_kong_candidate)
}

/// A claimed discard stays in its row and is marked as taken; the other discards of the row are left
/// alone. The claim is the latest action, and it is the claimer's turn to discard.
pub proof fn law_claimed_discards_are_marked(
    room: RoomStateModel,
    seat: Seat,
    kind: ClaimKind,
    target: Tile,
    source_seat: Seat,
    consume: Seq<Tile>,
    source_event_seq: u64,
    at: int,
)
    requires
        source_seat != seat,
        kind == ClaimKind::Chi || kind == ClaimKind::Peng || kind == ClaimKind::ExposedKong,
        room.player_round_state.at(source_seat) is Some,
        0 <= at < room.player_round_state.at(source_seat)->0.discards.len(),
        room.player_round_state.at(source_seat)->0.discards[at].source_event_seq == source_event_seq,
        forall|i: int|
            0 <= i < at ==> (
            #[trigger] room.player_round_state.at(source_seat)->0.discards[i]).source_event_seq
                != source_event_seq,
    ensures
        ({
            let after = room.claim_laid(
                seat,
                kind,
                target,
                source_seat,
                consume,
                source_event_seq,
            );
            let row = room.player_round_state.at(source_seat)->0.discards;
            let new_row = after.player_round_state.at(source_seat)->0.discards;
            &&& after.player_round_state.at(source_seat) is Some
            &&& new_row.len() == row.len()
            &&& new_row[at].claimed && new_row[at].tile == row[at].tile
            &&& forall|i: int| 0 <= i < row.len() && i != at ==> #[trigger] new_row[i] == row[i]
            &&& after.current_turn_seat == seat
            &&& after.phase == GamePhase::WaitingDiscard
            &&& is_latest(
                after,
                room.next_event_seq,
                seat,
                if kind == ClaimKind::Chi {
                    ActionKind::Chi
                } else if kind == ClaimKind::Peng {
                    ActionKind::Peng
                } else {
                    ActionKind::ExposedKong
                },
                target,
                false,
            )
        }),
{
    reveal(RoomStateModel::claim_laid);
    let row = room.player_round_state.at(source_seat)->0.discards;
    lemma_first_claimed(row, source_event_seq, at);
}

/// A supplemental kong adds its tile to a triplet, which keeps the tile and the seat that it was claimed
/// from and is bound to the event of the kong. The other melds are left alone.
pub proof fn law_fourth_tiles_join_their_triplet(
    room: RoomStateModel,
    seat: Seat,
    tile: Tile,
    source_event_seq: u64,
    hand: PlayerRoundStateModel,
    place: int,
)
    requires
        0 <= place < hand.melds.len(),
    ensures
        ({
            let after = room.kong_laid(seat, tile, source_event_seq, hand, place);
            let melds = after.player_round_state.at(seat)->0.melds;
            let triplet = hand.melds[place];
            &&& after.player_round_state.at(seat) is Some
            &&& melds.len() == hand.melds.len()
            &&& melds[place].kind == MeldKind::SupplementalKong.code()
            &&& melds[place].tiles.to_multiset() == triplet.tiles.to_multiset().insert(tile.code())
            &&& melds[place].source_event_seq == source_event_seq
            &&& melds[place].from_seat == triplet.from_seat
            &&& melds[place].claimed_tile == triplet.claimed_tile
            &&& melds[place].concealed == triplet.concealed
            &&& forall|i: int|
                0 <= i < melds.len() && i != place ==> #[trigger] melds[i] == hand.melds[i]
            &&& after.player_round_state.at(seat)->0.concealed_tiles == hand.concealed_tiles
            &&& after.player_round_state.at(seat)->0.drawn_tile == hand.drawn_tile
            &&& after.current_turn_seat == seat
            &&& is_latest(
                after,
                source_event_seq,
                seat,
                ActionKind::SupplementalKong,
                tile,
                false,
            )
        }),
{
    broadcast use vstd::seq_lib::group_to_multiset_ensures;

    reveal(RoomStateModel::kong_laid);
    lemma_sorted_codes_keeps_codes(hand.melds[place].tiles.push(tile.code()));
}

/// A replacement that was drawn is the latest action, marked as a replacement, and goes on record as
/// one.
pub proof fn law_replacements_are_told_as_such(room: RoomStateModel, seat: Seat, tile: Tile)
    ensures
        is_latest(
            room.replacement_recorded(seat, tile),
            room.next_event_seq,
            seat,
            ActionKind::Draw,
            tile,
            true,
        ),
        is_recorded(
            room,
            room.replacement_recorded(seat, tile),
            room.next_event_seq,
            Some(seat),
            ReplayEventKind::ActionBroadcast,
            retells_draw(tile, true, room.wall_tiles_remaining),
        ),
{
    reveal(RoomStateModel::replacement_recorded);
    let event_seq = room.next_event_seq;
    let remembered = room.numbered().with_last_action(
        ResolvedActionRecord {
            event_seq,
            actor_seat: seat,
            action_kind: ActionKind::Draw,
            tile: Some(tile),
            replacement_draw: true,
            rob_kong_candidate: false,
        },
    );
    law_draws_are_recorded(remembered, seat, event_seq, tile, true);
}

/// A flower that is laid aside joins the seat's flowers and counts as one more replacement; the rest of
/// the hand is left alone.
pub proof fn law_flowers_are_laid_aside(room: RoomStateModel, seat: Seat, tile: Tile)
    requires
        room.player_round_state.at(seat) matches Some(hand) && hand.replacement_draw_count < u32::MAX,
    ensures
        ({
            let hand = room.player_round_state.at(seat)->0;
            let after = room.with_flower(seat, tile).player_round_state.at(seat)->0;
            &&& room.with_flower(seat, tile).player_round_state.at(seat) is Some
            &&& after.flowers.to_multiset() == hand.flowers.to_multiset().insert(tile)
            &&& after.replacement_draw_count == hand.replacement_draw_count + 1
            &&& after.concealed_tiles == hand.concealed_tiles
            &&& after.drawn_tile == hand.drawn_tile
            &&& after.melds == hand.melds
            &&& after.discards == hand.discards
        }),
{
    broadcast use vstd::seq_lib::group_to_multiset_ensures;

    lemma_sorted_tiles_keeps_tiles(room.player_round_state.at(seat)->0.flowers.push(tile));
}

/// Whether the rule engine is told of a circumstance of a win.
pub open spec fn is_told_flag(request: engine::CalculateScoreRequestModel, flag: engine::SettlementFlag) -> bool {
    request.settlement_flags.contains(flag.code())
}

/// The rule engine is told how a hand was won, and whether it was won on the last tile: drawn, or
/// claimed.
pub proof fn law_wins_are_scored_by_their_circumstances(
    room: RoomStateModel,
    winner_seat: Seat,
    discarder_seat: Option<Seat>,
    win_type: WinType,
    winning_tile: Tile,
    terminal_action: ResolvedActionRecord,
)
    requires
        win_type != WinType::Unspecified,
    ensures
        ({
            let request = room.scoring_request(
                winner_seat,
                discarder_seat,
                win_type,
                winning_tile,
                terminal_action,
            );
            let last = room.wall_tiles_remaining <= 1;
            let drawn = win_type == WinType::SelfDraw || win_type == WinType::KongDraw;
            &&& is_told_flag(request, engine::SettlementFlag::SelfDraw) <==> win_type
                == WinType::SelfDraw
            &&& is_told_flag(request, engine::SettlementFlag::DiscardWin) <==> win_type
                == WinType::Discard
            &&& is_told_flag(request, engine::SettlementFlag::RobKongWin) <==> win_type
                == WinType::RobKong
            &&& is_told_flag(request, engine::SettlementFlag::KongDrawWin) <==> win_type
                == WinType::KongDraw
            &&& is_told_flag(request, engine::SettlementFlag::LastTileDraw) <==> last && drawn
            &&& is_told_flag(request, engine::SettlementFlag::LastTileClaim) <==> last && !drawn
        }),
{
    let flags = room.win_flags(win_type);
    let codes = engine_flag_codes(flags);
    assert(codes.len() == flags.len());
    assert(codes[0] == flags[0].code());
    if flags.len() > 1 {
        assert(codes[1] == flags[1].code());
    }
    assert forall|flag: engine::SettlementFlag| codes.contains(#[trigger] flag.code())
        == flags.contains(flag) by {
        if flags.contains(flag) {
            let i = choose|i: int| 0 <= i < flags.len() && flags[i] == flag;
            assert(codes[i] == flag.code());
        }
        if codes.contains(flag.code()) {
            let i = choose|i: int| 0 <= i < codes.len() && codes[i] == flag.code();
            engine::law_settlement_flag_codes(flag, flag.code());
            engine::law_settlement_flag_codes(flags[i], flag.code());
        }
    }
    assert(flags.contains(flags[0]));
    if flags.len() > 1 {
        assert(flags.contains(flags[1]));
    }
}

/// Who may rob a kong is asked as if the kong were the latest action, and could be robbed; who may win
/// on a discard is asked with the latest action as it is. Either way the question is a win on the tile
/// of the window, from the seat that it came from.
pub proof fn law_windows_ask_about_their_tile(room: RoomStateModel, probe: WindowProbeModel, seat: Seat)
    requires
        room.player_round_state.at(seat) is Some,
    ensures
        ({
            let robbing = probe.trigger == ActionKind::SupplementalKong;
            match room.probe_request(probe, seat) {
                Ok(request) => {
                    &&& robbing ==> (request.recent_action matches Some(action)
                        && action.rob_kong_candidate && action.source_event_seq
                        == probe.source_event_seq && !action.replacement_draw)
                    &&& !robbing ==> request.recent_action == room.recent_action()
                    &&& request.candidate_action matches Some(
                        engine::CandidateActionModel::DeclareWin(win),
                    ) && win.source_event_seq == probe.source_event_seq && engine::WinType::decode(
                        win.win_type,
                    ) == Some(
                        if robbing {
                            engine::WinType::RobKong
                        } else {
                            engine::WinType::Discard
                        },
                    )
                },
                Err(_) => false,
            }
        }),
{
    crate::proto::client::law_tile_codes(probe.tile, probe.tile.code());
    crate::proto::client::law_seat_codes(probe.source_seat, probe.source_seat.code());
    crate::proto::client::law_win_type_codes(WinType::RobKong, WinType::RobKong.code());
    crate::proto::client::law_win_type_codes(WinType::Discard, WinType::Discard.code());
    engine::law_win_type_codes(engine::WinType::RobKong, engine::WinType::RobKong.code());
    engine::law_win_type_codes(engine::WinType::Discard, engine::WinType::Discard.code());
}

/// A verdict of the rule engine is passed on as it is: a legal action meets no objection, an illegal one
/// meets the engine's, in its words, and an engine that does not answer is an internal error.
pub proof fn law_verdicts_are_passed_on(
    reply: Result<engine::ValidateActionResponseModel, Seq<char>>,
)
    ensures
        match (reply, verdict(reply)) {
            (Ok(response), Ok(_)) => response.is_legal,
            (Ok(response), Err(error)) => !response.is_legal && error.message
                == response.explanation && error.reject_code == validation_reject_code(
                response.reject_code,
            ),
            (Err(_), Ok(_)) => false,
            (Err(_), Err(error)) => error.reject_code == RejectCode::InternalError,
        },
{
}

} // verus!
