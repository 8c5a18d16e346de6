//! What a claim window offers is there to be taken.

use vstd::prelude::*;

use crate::collections::{group_seat_map, SeatMap};
use crate::proto::client::{
    law_claim_kind_codes, law_tile_codes, ActionKind, ClaimActionModel, ClaimKind,
    PromptOptionModel, Seat, Tile,
};
use crate::room::claims::{chi_option, discard_options, gang_option, peng_option};
use crate::room::conservation::is_feasible;
use crate::room::convert::{parsed_claim_kind, parsed_seat, parsed_tile, parsed_tiles};
use crate::room::hand::{
    after_taking, chi_pattern, chi_patterns, copies, lemma_first_place,
    lemma_taking_prefix_conserves, suit_and_rank, suited_tile,
};
use crate::room::plays::{offered, option_matches};
use crate::room::state::{ActiveClaimWindowStateModel, ClaimResponseModel, RoomStateModel};
use crate::room::table::lies;
use crate::tiles::{lemma_sorted_tiles_keeps_tiles, sorted_tiles, tile_codes};

verus! {

broadcast use group_seat_map;

/// Whether a hand holds some tiles, each as often as it is named.
pub open spec fn within(tiles: Seq<Tile>, hand: Seq<Tile>) -> bool {
    forall|tile: Tile| #[trigger]
        tiles.to_multiset().count(tile) <= hand.to_multiset().count(tile)
}

/// Tiles that a hand holds can be taken out of it one by one.
proof fn lemma_taking_completes(hand: Seq<Tile>, consume: Seq<Tile>, upto: int)
    requires
        0 <= upto <= consume.len(),
        within(consume, hand),
    ensures
        after_taking(hand, consume, upto).1,
    decreases upto,
{
    broadcast use vstd::seq_lib::group_to_multiset_ensures;
    if upto > 0 {
        lemma_taking_completes(hand, consume, upto - 1);
        lemma_taking_prefix_conserves(hand, consume, upto - 1);
        let left = after_taking(hand, consume, upto - 1).0;
        let tile = consume[upto - 1];
        let taken = consume.take(upto - 1);
        assert(left.to_multiset().add(taken.to_multiset()).count(tile)
            == hand.to_multiset().count(tile));
        let later = consume.skip(upto);
        assert(consume =~= taken.push(tile) + later);
        vstd::seq_lib::lemma_multiset_commutative(taken.push(tile), later);
        assert(consume.to_multiset().count(tile) >= taken.to_multiset().count(tile) + 1);
        assert(left.to_multiset().count(tile) > 0);
        assert(left.contains(tile));
        lemma_first_place(left, tile);
    }
}

/// Tiles that are written as numbers are read back.
proof fn lemma_parsed_codes(tiles: Seq<Tile>)
    ensures
        parsed_tiles(tile_codes(tiles)) is Ok,
        parsed_tiles(tile_codes(tiles))->Ok_0 == tiles,
    decreases tiles.len(),
{
    if tiles.len() == 0 {
        assert(tile_codes(tiles).len() == 0);
        assert(tiles =~= Seq::<Tile>::empty());
    } else {
        lemma_parsed_codes(tiles.drop_last());
        assert(tile_codes(tiles).drop_last() =~= tile_codes(tiles.drop_last()));
        law_tile_codes(tiles.last(), tiles.last().code());
        assert(tiles =~= tiles.drop_last().push(tiles.last()));
    }
}

/// The tiles of the hand that an option takes.
pub open spec fn option_tiles(option: PromptOptionModel) -> Seq<Tile> {
    match parsed_tiles(option.consume_tiles) {
        Ok(tiles) => tiles,
        Err(_) => Seq::empty(),
    }
}

/// Whether a seat that takes part in the hand can do what some options offer; and of a kong, nothing
/// is offered but to rob it.
pub open spec fn options_held(
    room: RoomStateModel,
    seat: Seat,
    options: Seq<PromptOptionModel>,
    trigger: ActionKind,
) -> bool {
    forall|i: int|
        0 <= i < options.len() ==> option_held(room, seat, #[trigger] options[i], trigger)
}

/// Whether a seat that takes part in the hand can do what an option offers.
pub open spec fn option_held(
    room: RoomStateModel,
    seat: Seat,
    option: PromptOptionModel,
    trigger: ActionKind,
) -> bool {
    &&& room.player_round_state.at(seat) matches Some(hand) ==> within(
        option_tiles(option),
        hand.concealed_tiles,
    )
    &&& trigger != ActionKind::Discard ==> option.claim_kind == ClaimKind::RobKongWin.code()
}

/// Whether every seat can do what it is offered.
pub open spec fn offers_held(
    room: RoomStateModel,
    options_by_seat: SeatMap<Seq<PromptOptionModel>>,
    trigger: ActionKind,
) -> bool {
    forall|seat: Seat|
        #[trigger] options_by_seat.at(seat) matches Some(options) ==> options_held(
            room,
            seat,
            options,
            trigger,
        )
}

/// Whether a claim is about the tile of a window, and the seat holds the tiles that it names.
pub open spec fn claim_fits(
    room: RoomStateModel,
    window: ActiveClaimWindowStateModel,
    seat: Seat,
    claim: ClaimActionModel,
) -> bool {
    &&& window.trigger_action_kind == ActionKind::Discard
    &&& claim.source_event_seq == window.source_event_seq
    &&& parsed_claim_kind(claim.claim_kind) is Ok
    &&& parsed_tile(claim.target_tile) matches Ok(tile) && tile == window.target_tile
    &&& parsed_seat(claim.source_seat) matches Ok(source) && source == window.source_seat
    &&& parsed_tiles(claim.consume_tiles) is Ok
    &&& room.player_round_state.at(seat) matches Some(hand) ==> within(
        parsed_tiles(claim.consume_tiles)->Ok_0,
        hand.concealed_tiles,
    )
}

/// Whether a window fits the table: the discard that it is about lies there, every seat can do what
/// it is offered, and every claim so far can be carried out.
pub open spec fn window_fits(room: RoomStateModel, window: ActiveClaimWindowStateModel) -> bool {
    &&& window.trigger_action_kind == ActionKind::Discard || window.trigger_action_kind
        == ActionKind::SupplementalKong
    &&& window.trigger_action_kind == ActionKind::Discard ==> lies(
        room,
        window.source_seat,
        window.target_tile,
        window.source_event_seq,
    )
    &&& offers_held(room, window.options_by_seat, window.trigger_action_kind)
    &&& forall|seat: Seat|
        (#[trigger] window.responded_seats.at(seat)) matches Some(ClaimResponseModel::Claim(claim))
            ==> claim_fits(room, window, seat, claim)
}

/// Two tiles of a hand that differ are both in it.
proof fn lemma_pair_within(hand: Seq<Tile>, a: Tile, b: Tile)
    requires
        a != b,
        copies(hand, a) >= 1,
        copies(hand, b) >= 1,
    ensures
        within(sorted_tiles(seq![a, b]), hand),
{
    broadcast use vstd::seq_lib::group_to_multiset_ensures;
    lemma_sorted_tiles_keeps_tiles(seq![a, b]);
    assert(seq![a, b] =~= Seq::<Tile>::empty().push(a).push(b));
}

proof fn lemma_chi_pattern_within(hand: Seq<Tile>, target: Tile, left: int, right: int)
    requires
        left != right,
    ensures
        forall|i: int|
            0 <= i < chi_pattern(hand, target, left, right).len() ==> within(
                #[trigger] chi_pattern(hand, target, left, right)[i],
                hand,
            ),
{
    if let Some((suit, rank)) = suit_and_rank(target) {
        let a = suited_tile(suit, rank + left);
        let b = suited_tile(suit, rank + right);
        if 1 <= rank + left <= 9 && 1 <= rank + right <= 9 && copies(hand, a) >= 1 && copies(hand, b)
            >= 1 {
            assert(0 <= suit <= 2);
            assert(a.code() == suit * 9 + rank + left);
            assert(b.code() == suit * 9 + rank + right);
            lemma_pair_within(hand, a, b);
        }
    }
}

/// What is offered on a discard, short of winning, can be done.
pub proof fn lemma_discard_options_held(
    room: RoomStateModel,
    seat: Seat,
    source_seat: Seat,
    target: Tile,
    source_event_seq: u64,
)
    ensures
        options_held(
            room,
            seat,
            room.discard_options_at(seat, source_seat, target, source_event_seq),
            ActionKind::Discard,
        ),
{
    broadcast use vstd::seq_lib::group_to_multiset_ensures;
    if let Some(hand) = room.player_round_state.at(seat) {
        let tiles = hand.concealed_tiles;
        let options = discard_options(tiles, seat, source_seat, target, source_event_seq);
        let two = Seq::<Tile>::empty().push(target).push(target);
        let three = two.push(target);
        lemma_parsed_codes(two);
        lemma_parsed_codes(three);
        assert(peng_option(seat, target, source_event_seq).consume_tiles =~= tile_codes(two));
        assert(gang_option(seat, target, source_event_seq).consume_tiles =~= tile_codes(three));
        let patterns = chi_patterns(tiles, target);
        lemma_chi_pattern_within(tiles, target, -2, -1);
        lemma_chi_pattern_within(tiles, target, -1, 1);
        lemma_chi_pattern_within(tiles, target, 1, 2);
        assert forall|i: int| 0 <= i < options.len() implies within(
            option_tiles(#[trigger] options[i]),
            tiles,
        ) by {
            if options[i] == peng_option(seat, target, source_event_seq) && copies(tiles, target)
                >= 2 {
            } else if options[i] == gang_option(seat, target, source_event_seq) && copies(
                tiles,
                target,
            ) >= 3 {
            } else {
                let first = options.len() - patterns.len();
                assert(options[i] == chi_option(
                    seat,
                    target,
                    source_event_seq,
                    patterns[i - first],
                ));
                lemma_parsed_codes(patterns[i - first]);
                assert(within(patterns[i - first], tiles));
            }
        }
    }
}

/// A claim that fits can be carried out, or changes nothing.
pub proof fn lemma_fitting_claim(
    room: RoomStateModel,
    window: ActiveClaimWindowStateModel,
    seat: Seat,
    claim: ClaimActionModel,
)
    requires
        claim_fits(room, window, seat, claim),
    ensures
        is_feasible(room, seat, claim) || room.claim_applied(seat, claim).0 == room,
{
    reveal(RoomStateModel::claim_applied);
    if let Some(hand) = room.player_round_state.at(seat) {
        let named = parsed_tiles(claim.consume_tiles)->Ok_0;
        lemma_sorted_tiles_keeps_tiles(named);
        lemma_taking_completes(
            hand.concealed_tiles,
            sorted_tiles(named),
            sorted_tiles(named).len() as int,
        );
    }
}

/// A claim of the discard of a window that was offered fits it; one of a kong can only be to rob it.
pub proof fn lemma_offered_claim_fits(
    room: RoomStateModel,
    window: ActiveClaimWindowStateModel,
    seat: Seat,
    claim: ClaimActionModel,
)
    requires
        room.window() == Some(window),
        window_fits(room, window),
        room.claim_choice(seat, claim) is Ok,
        claim.source_event_seq == window.source_event_seq,
        parsed_claim_kind(claim.claim_kind) matches Ok(kind) ==> kind != ClaimKind::RobKongWin,
    ensures
        claim_fits(room, window, seat, claim),
{
    let kind = parsed_claim_kind(claim.claim_kind)->Ok_0;
    let consume = parsed_tiles(claim.consume_tiles)->Ok_0;
    let options = window.options_by_seat.at(seat)->0;
    assert(offered(options, kind, consume));
    let i = choose|i: int|
        0 <= i < options.len() && option_matches(#[trigger] options[i], kind, consume);
    assert(options_held(room, seat, options, window.trigger_action_kind));
    assert(option_held(room, seat, options[i], window.trigger_action_kind));
    law_claim_kind_codes(kind, kind.code());
    law_claim_kind_codes(ClaimKind::RobKongWin, ClaimKind::RobKongWin.code());
    lemma_sorted_tiles_keeps_tiles(option_tiles(options[i]));
    lemma_sorted_tiles_keeps_tiles(consume);
    if let Some(hand) = room.player_round_state.at(seat) {
        assert forall|tile: Tile| #[trigger]
            consume.to_multiset().count(tile) <= hand.concealed_tiles.to_multiset().count(tile) by {
            assert(option_tiles(options[i]).to_multiset().count(tile)
                <= hand.concealed_tiles.to_multiset().count(tile));
        }
    }
}

} // verus!
