//! What the rules of play come to: who wins a window, what is offered, who pays, who deals.

use vstd::prelude::*;

use crate::collections::{group_seat_map, SeatMap};
use crate::proto::client::{
    law_claim_kind_codes, ActionKind, ClaimKind, PromptOptionModel, Seat, Tile, WinType,
};
use crate::room::claims::{chi_option, law_window_winner, response_weight, winning_seat};
use crate::room::hand::{chi_patterns, copies, seat_after, suit_and_rank, suited_tile, turns_until};
use crate::room::state::{ClaimResponseModel, RoomStateModel};
use crate::tiles::{sorted_tiles, tile_codes};

verus! {

broadcast use group_seat_map;

// ---------------------------------------------------------------------------
// The order of play
// ---------------------------------------------------------------------------

/// The seat whose turn comes so many turns after that of another.
pub open spec fn after_turns(source: Seat, turns: nat) -> Seat
    decreases turns,
{
    if turns == 0 {
        source
    } else {
        seat_after(after_turns(source, (turns - 1) as nat))
    }
}

/// Play goes from wind to wind, East, South, West, North, and from North back to East; so that the
/// turn comes to every seat within four turns, and only in the fourth to the one that it started
/// from.
pub proof fn law_play_goes_round(seat: Seat, other: Seat)
    requires
        seat != Seat::Unspecified,
        other != Seat::Unspecified,
    ensures
        seat_after(seat).code() == (if seat == Seat::North {
            Seat::East.code()
        } else {
            (seat.code() + 1) as i32
        }),
        after_turns(seat, 4) == seat,
        exists|turns: nat| 1 <= turns <= 4 && #[trigger] after_turns(seat, turns) == other,
        forall|turns: nat| 1 <= turns < 4 ==> #[trigger] after_turns(seat, turns) != seat,
{
    reveal_with_fuel(after_turns, 5);
    assert(after_turns(seat, 1) == other || after_turns(seat, 2) == other || after_turns(seat, 3)
        == other || after_turns(seat, 4) == other);
    assert forall|turns: nat| 1 <= turns < 4 implies #[trigger] after_turns(seat, turns) != seat by {
        assert(turns == 1 || turns == 2 || turns == 3);
    }
}

/// Whether, counted from the turn after that of `source`, the turn of a seat comes before that of
/// another.
pub open spec fn comes_sooner(source: Seat, seat: Seat, other: Seat) -> bool {
    exists|turns: nat|
        1 <= turns <= 4 && #[trigger] after_turns(source, turns) == seat && forall|earlier: nat|
            1 <= earlier <= turns ==> #[trigger] after_turns(source, earlier) != other
}

// ---------------------------------------------------------------------------
// Who wins a window
// ---------------------------------------------------------------------------

/// Whether an answer to a window asks for a win.
pub open spec fn wants_win(response: Option<ClaimResponseModel>) -> bool {
    match response {
        Some(ClaimResponseModel::DeclareWin(_)) => true,
        Some(ClaimResponseModel::Claim(claim)) => claim.claim_kind == ClaimKind::DiscardWin.code()
            || claim.claim_kind == ClaimKind::RobKongWin.code(),
        _ => false,
    }
}

/// Whether an answer to a window asks for a triplet or a kong.
pub open spec fn wants_set(response: Option<ClaimResponseModel>) -> bool {
    response matches Some(ClaimResponseModel::Claim(claim)) && (claim.claim_kind
        == ClaimKind::Peng.code() || claim.claim_kind == ClaimKind::ExposedKong.code())
}

/// Whether an answer to a window asks for a run.
pub open spec fn wants_run(response: Option<ClaimResponseModel>) -> bool {
    response matches Some(ClaimResponseModel::Claim(claim)) && claim.claim_kind
        == ClaimKind::Chi.code()
}

/// Whether an answer to a window asks for the tile at all.
pub open spec fn wants_tile(response: Option<ClaimResponseModel>) -> bool {
    wants_win(response) || wants_set(response) || wants_run(response)
}

/// Whoever wants to win gets the tile before whoever wants a triplet or a kong, and these before
/// whoever wants a run, whatever the order of play. Of several who want the same it goes to the one
/// whose turn comes soonest after the source. It goes to somebody just where somebody wants it, and
/// only to somebody who does.
pub proof fn law_wins_before_sets_before_runs(
    responses: SeatMap<ClaimResponseModel>,
    source_seat: Seat,
    other: Seat,
)
    ensures
        match winning_seat(responses, source_seat) {
            Some(winner) => {
                &&& wants_tile(responses.at(winner))
                &&& wants_win(responses.at(other)) ==> wants_win(responses.at(winner))
                &&& wants_set(responses.at(other)) ==> wants_win(responses.at(winner)) || wants_set(
                    responses.at(winner),
                )
                &&& other != winner && source_seat != Seat::Unspecified && winner
                    != Seat::Unspecified && other != Seat::Unspecified && (wants_win(
                    responses.at(winner),
                ) && wants_win(responses.at(other)) || wants_set(responses.at(winner)) && wants_set(
                    responses.at(other),
                ) || wants_run(responses.at(winner)) && wants_run(responses.at(other)))
                    ==> comes_sooner(source_seat, winner, other)
            },
            None => !wants_tile(responses.at(other)),
        },
{
    law_window_winner(responses, source_seat, other);
    lemma_weight(responses.at(other));
    if let Some(winner) = winning_seat(responses, source_seat) {
        lemma_weight(responses.at(winner));
        if other != winner && source_seat != Seat::Unspecified && winner != Seat::Unspecified
            && other != Seat::Unspecified && turns_until(source_seat, winner) < turns_until(
            source_seat,
            other,
        ) {
            lemma_comes_sooner(source_seat, winner, other);
        }
    }
}

proof fn lemma_comes_sooner(source_seat: Seat, seat: Seat, other: Seat)
    requires
        source_seat != Seat::Unspecified,
        seat != Seat::Unspecified,
        other != Seat::Unspecified,
        turns_until(source_seat, seat) < turns_until(source_seat, other),
    ensures
        comes_sooner(source_seat, seat, other),
{
    reveal_with_fuel(after_turns, 5);
    let turns = turns_until(source_seat, seat);
    assert(after_turns(source_seat, turns) == seat);
    assert forall|earlier: nat| 1 <= earlier <= turns implies #[trigger] after_turns(
        source_seat,
        earlier,
    ) != other by {
        assert(earlier == 1 || earlier == 2 || earlier == 3 || earlier == 4);
    }
}

/// The weight of an answer tells what it wants.
proof fn lemma_weight(response: Option<ClaimResponseModel>)
    ensures
        ({
            let weight = match response {
                Some(response) => response_weight(response),
                None => None,
            };
            &&& wants_win(response) <==> weight == Some(3nat)
            &&& wants_set(response) <==> weight == Some(2nat)
            &&& wants_run(response) <==> weight == Some(1nat)
            &&& weight is Some <==> wants_tile(response)
        }),
{
    lemma_kind_of(response);
}

/// The number of a kind of claim tells the kind.
proof fn lemma_kind_of(response: Option<ClaimResponseModel>)
    ensures
        response matches Some(ClaimResponseModel::Claim(claim)) ==> {
            &&& claim.claim_kind == ClaimKind::Chi.code() <==> ClaimKind::decode(claim.claim_kind)
                == Some(ClaimKind::Chi)
            &&& claim.claim_kind == ClaimKind::Peng.code() <==> ClaimKind::decode(claim.claim_kind)
                == Some(ClaimKind::Peng)
            &&& claim.claim_kind == ClaimKind::ExposedKong.code() <==> ClaimKind::decode(
                claim.claim_kind,
            ) == Some(ClaimKind::ExposedKong)
            &&& claim.claim_kind == ClaimKind::DiscardWin.code() <==> ClaimKind::decode(
                claim.claim_kind,
            ) == Some(ClaimKind::DiscardWin)
            &&& claim.claim_kind == ClaimKind::RobKongWin.code() <==> ClaimKind::decode(
                claim.claim_kind,
            ) == Some(ClaimKind::RobKongWin)
        },
{
    if let Some(ClaimResponseModel::Claim(claim)) = response {
        law_claim_kind_codes(ClaimKind::Chi, claim.claim_kind);
        law_claim_kind_codes(ClaimKind::Peng, claim.claim_kind);
        law_claim_kind_codes(ClaimKind::ExposedKong, claim.claim_kind);
        law_claim_kind_codes(ClaimKind::DiscardWin, claim.claim_kind);
        law_claim_kind_codes(ClaimKind::RobKongWin, claim.claim_kind);
    }
}

// ---------------------------------------------------------------------------
// What is offered on a discard
// ---------------------------------------------------------------------------

/// Whether two tiles of one suit make a run of three with another: three ranks in a row.
pub open spec fn makes_run(a: Tile, b: Tile, target: Tile) -> bool {
    match (suit_and_rank(a), suit_and_rank(b), suit_and_rank(target)) {
        (Some((suit_a, a)), Some((suit_b, b)), Some((suit, rank))) => {
            &&& suit_a == suit && suit_b == suit
            &&& exists|lowest: int| {
                &&& #[trigger] is_low_rank(lowest)
                &&& lowest <= a <= lowest + 2
                &&& lowest <= b <= lowest + 2
                &&& lowest <= rank <= lowest + 2
            }
            &&& a != b && a != rank && b != rank
        },
        _ => false,
    }
}

/// Whether a run can start at a rank.
pub open spec fn is_low_rank(rank: int) -> bool {
    1 <= rank <= 7
}

/// Whether a kind of claim with some tiles of the hand is among some options.
pub open spec fn offers_claim(options: Seq<PromptOptionModel>, kind: ClaimKind, consume: Seq<Tile>) -> bool {
    exists|i: int|
        0 <= i < options.len() && (#[trigger] options[i]).claim_kind == kind.code()
            && options[i].consume_tiles == tile_codes(consume)
}

proof fn lemma_suited(tile: Tile)
    ensures
        suit_and_rank(tile) matches Some((suit, rank)) ==> 0 <= suit <= 2 && 1 <= rank <= 9
            && suited_tile(suit, rank) == tile,
{
    crate::proto::client::law_tile_codes(tile, tile.code());
    if let Some((suit, rank)) = suit_and_rank(tile) {
        assert(suit * 9 + rank == tile.code());
    }
}

/// Tiles in ascending order are laid out already.
proof fn lemma_pair_sorted(a: Tile, b: Tile)
    requires
        a.code() <= b.code(),
    ensures
        sorted_tiles(seq![a, b]) == seq![a, b],
{
    crate::tiles::lemma_sorted_tiles(seq![a, b], seq![a, b]);
}

/// Just those pairs of a hand are patterns for a run that are in the hand and make one.
proof fn lemma_patterns_are_runs(hand: Seq<Tile>, target: Tile, a: Tile, b: Tile)
    requires
        a.code() <= b.code(),
    ensures
        chi_patterns(hand, target).contains(seq![a, b]) <==> copies(hand, a) >= 1 && copies(hand, b)
            >= 1 && makes_run(a, b, target),
{
    let patterns = chi_patterns(hand, target);
    lemma_suited(a);
    lemma_suited(b);
    lemma_suited(target);
    if let Some((suit, rank)) = suit_and_rank(target) {
        lemma_steps(hand, target, suit, rank, -2, -1);
        lemma_steps(hand, target, suit, rank, -1, 1);
        lemma_steps(hand, target, suit, rank, 1, 2);
        let first = crate::room::hand::chi_pattern(hand, target, -2, -1);
        let second = crate::room::hand::chi_pattern(hand, target, -1, 1);
        let third = crate::room::hand::chi_pattern(hand, target, 1, 2);
        assert(patterns == first + second + third);
        if patterns.contains(seq![a, b]) {
            let i = choose|i: int| 0 <= i < patterns.len() && patterns[i] == seq![a, b];
            assert(seq![a, b][0] == a && seq![a, b][1] == b);
            if i < first.len() {
                assert(first[i] == seq![a, b]);
                assert(first[0][0] == a && first[0][1] == b);
                assert(is_low_rank(rank - 2));
            } else if i < first.len() + second.len() {
                assert(second[i - first.len()] == seq![a, b]);
                assert(second[0][0] == a && second[0][1] == b);
                assert(is_low_rank(rank - 1));
            } else {
                assert(third[i - first.len() - second.len()] == seq![a, b]);
                assert(third[0][0] == a && third[0][1] == b);
                assert(is_low_rank(rank));
            }
        }
        if copies(hand, a) >= 1 && copies(hand, b) >= 1 && makes_run(a, b, target) {
            let (suit_a, rank_a) = suit_and_rank(a)->0;
            let (suit_b, rank_b) = suit_and_rank(b)->0;
            assert(rank_a < rank_b);
            if rank_b < rank {
                assert(rank_a == rank - 2 && rank_b == rank - 1);
                assert(first =~= seq![seq![a, b]]);
                assert(patterns[0] == seq![a, b]);
            } else if rank_a < rank {
                assert(rank_a == rank - 1 && rank_b == rank + 1);
                assert(second =~= seq![seq![a, b]]);
                assert(patterns[first.len() as int] == seq![a, b]);
            } else {
                assert(rank_a == rank + 1 && rank_b == rank + 2);
                assert(third =~= seq![seq![a, b]]);
                assert(patterns[(first.len() + second.len()) as int] == seq![a, b]);
            }
        }
    }
}

proof fn lemma_steps(hand: Seq<Tile>, target: Tile, suit: int, rank: int, left: int, right: int)
    requires
        suit_and_rank(target) == Some((suit, rank)),
        0 <= suit <= 2,
        1 <= rank <= 9,
        -2 <= left < right <= 2,
    ensures
        ({
            let pattern = crate::room::hand::chi_pattern(hand, target, left, right);
            let a = suited_tile(suit, rank + left);
            let b = suited_tile(suit, rank + right);
            if 1 <= rank + left && rank + right <= 9 {
                &&& suit_and_rank(a) == Some((suit, rank + left))
                &&& suit_and_rank(b) == Some((suit, rank + right))
                &&& pattern == (if copies(hand, a) >= 1 && copies(hand, b) >= 1 {
                    seq![seq![a, b]]
                } else {
                    Seq::empty()
                })
            } else {
                pattern.len() == 0
            }
        }),
{
    if 1 <= rank + left && rank + right <= 9 {
        let a = suited_tile(suit, rank + left);
        let b = suited_tile(suit, rank + right);
        assert(a.code() == suit * 9 + rank + left);
        assert(b.code() == suit * 9 + rank + right);
        assert((suit * 9 + rank + left - 1) / 9 == suit);
        assert((suit * 9 + rank + right - 1) / 9 == suit);
        lemma_pair_sorted(a, b);
    }
}

/// On a discard the seat that comes next is offered a run with two tiles if and only if its hand
/// holds both and the three are of one suit with ranks in a row; nobody else is offered one. Every
/// seat is offered a triplet if and only if it holds two copies of the discard, and a kong if and
/// only if it holds three. Nothing else is offered.
pub proof fn law_offers_on_a_discard(
    room: RoomStateModel,
    seat: Seat,
    source_seat: Seat,
    target: Tile,
    source_event_seq: u64,
    a: Tile,
    b: Tile,
)
    requires
        room.player_round_state.at(seat) is Some,
        a.code() <= b.code(),
    ensures
        ({
            let hand = room.player_round_state.at(seat)->0.concealed_tiles;
            let options = room.discard_options_at(seat, source_seat, target, source_event_seq);
            &&& offers_claim(options, ClaimKind::Chi, seq![a, b]) <==> seat == seat_after(
                source_seat,
            ) && hand.contains(a) && hand.contains(b) && makes_run(a, b, target)
            &&& offers_claim(options, ClaimKind::Peng, seq![target, target])
                <==> hand.to_multiset().count(target) >= 2
            &&& offers_claim(options, ClaimKind::ExposedKong, seq![target, target, target])
                <==> hand.to_multiset().count(target) >= 3
            &&& forall|i: int|
                0 <= i < options.len() ==> {
                    let option = #[trigger] options[i];
                    &&& option.win_type == WinType::Unspecified.code()
                    &&& option.claim_kind == ClaimKind::Peng.code() && option.action_kind
                        == ActionKind::Peng.code() && option.consume_tiles == tile_codes(
                        seq![target, target],
                    ) || option.claim_kind == ClaimKind::ExposedKong.code() && option.action_kind
                        == ActionKind::ExposedKong.code() && option.consume_tiles == tile_codes(
                        seq![target, target, target],
                    ) || option.claim_kind == ClaimKind::Chi.code() && option.action_kind
                        == ActionKind::Chi.code() && option.consume_tiles.len() == 2
                }
        }),
{
    broadcast use vstd::seq_lib::group_to_multiset_ensures;
    let hand = room.player_round_state.at(seat)->0.concealed_tiles;
    let options = room.discard_options_at(seat, source_seat, target, source_event_seq);
    let patterns = chi_patterns(hand, target);
    lemma_patterns_are_runs(hand, target, a, b);
    assert(hand.contains(a) <==> hand.to_multiset().count(a) > 0);
    assert(hand.contains(b) <==> hand.to_multiset().count(b) > 0);
    let pengs = if copies(hand, target) >= 2 {
        1int
    } else {
        0
    };
    let kongs = if copies(hand, target) >= 3 {
        1int
    } else {
        0
    };
    let before = pengs + kongs;
    let runs = if seat_after(source_seat) == seat {
        patterns.len()
    } else {
        0
    };
    assert(options.len() == before + runs);
    let two = seq![target, target];
    let three = seq![target, target, target];
    let peng = crate::room::claims::peng_option(seat, target, source_event_seq);
    let kong = crate::room::claims::gang_option(seat, target, source_event_seq);
    assert(peng.consume_tiles =~= tile_codes(two));
    assert(kong.consume_tiles =~= tile_codes(three));
    assert(pengs == 1 ==> options[0] == peng);
    assert(kongs == 1 ==> options[1] == kong);
    assert forall|i: int| before <= i < options.len() implies #[trigger] options[i] == chi_option(
        seat,
        target,
        source_event_seq,
        patterns[i - before],
    ) by {}
    lemma_patterns_have_two(hand, target);
    if offers_claim(options, ClaimKind::Chi, seq![a, b]) {
        let i = choose|i: int|
            0 <= i < options.len() && (#[trigger] options[i]).claim_kind == ClaimKind::Chi.code()
                && options[i].consume_tiles == tile_codes(seq![a, b]);
        assert(i >= before);
        lemma_codes_tell_tiles(patterns[i - before], seq![a, b]);
        assert(patterns.contains(seq![a, b]));
    }
    if seat == seat_after(source_seat) && patterns.contains(seq![a, b]) {
        let i = choose|i: int| 0 <= i < patterns.len() && patterns[i] == seq![a, b];
        assert(options[before + i].consume_tiles == tile_codes(seq![a, b]));
    }
}

proof fn lemma_patterns_have_two(hand: Seq<Tile>, target: Tile)
    ensures
        forall|i: int|
            0 <= i < chi_patterns(hand, target).len() ==> (#[trigger] chi_patterns(
                hand,
                target,
            )[i]).len() == 2,
{
    if let Some((suit, rank)) = suit_and_rank(target) {
        lemma_suited(target);
        lemma_steps(hand, target, suit, rank, -2, -1);
        lemma_steps(hand, target, suit, rank, -1, 1);
        lemma_steps(hand, target, suit, rank, 1, 2);
    }
}

/// Tiles are told by their numbers.
proof fn lemma_codes_tell_tiles(a: Seq<Tile>, b: Seq<Tile>)
    requires
        tile_codes(a) == tile_codes(b),
    ensures
        a == b,
{
    assert(tile_codes(a).len() == a.len() && tile_codes(b).len() == b.len());
    assert(a.len() == b.len());
    assert forall|i: int| 0 <= i < a.len() implies a[i] == b[i] by {
        assert(tile_codes(a)[i] == a[i].code() && tile_codes(b)[i] == b[i].code());
        crate::proto::client::law_tile_codes(a[i], a[i].code());
        crate::proto::client::law_tile_codes(b[i], b[i].code());
    }
    assert(a =~= b);
}

} // verus!
