//! Seats, hands and what can be taken out of them.

use vstd::prelude::*;

use crate::collections::{lemma_views_empty, views};
use crate::proto::client::{DiscardTile, Meld, MeldModel, RejectCode, Seat, Tile};
use crate::room::convert::{failure, ActionValidationError, ActionValidationErrorModel};
use crate::text::same_text;
use crate::tiles::{copy_tiles, sort_tiles, sorted_tiles};

verus! {

/// The seats in the order of play.
pub open spec fn seat_order() -> Seq<Seat> {
    seq![Seat::East, Seat::South, Seat::West, Seat::North]
}

/// The seat whose turn comes after `seat`.
pub open spec fn seat_after(seat: Seat) -> Seat {
    match seat {
        Seat::East => Seat::South,
        Seat::South => Seat::West,
        Seat::West => Seat::North,
        Seat::North => Seat::East,
        Seat::Unspecified => Seat::East,
    }
}

pub fn next_seat(seat: Seat) -> (r: Seat)
    ensures
        r == seat_after(seat),
{
    match seat {
        Seat::East => Seat::South,
        Seat::South => Seat::West,
        Seat::West => Seat::North,
        Seat::North => Seat::East,
        Seat::Unspecified => Seat::East,
    }
}

/// The seat at a place in the order of play.
pub fn seat_at(index: usize) -> (r: Seat)
    requires
        index < 4,
    ensures
        r == seat_order()[index as int],
{
    if index == 0 {
        Seat::East
    } else if index == 1 {
        Seat::South
    } else if index == 2 {
        Seat::West
    } else {
        Seat::North
    }
}

/// How many turns after `source` the turn of `candidate` comes; five where it never comes.
pub open spec fn turns_until(source: Seat, candidate: Seat) -> nat {
    if candidate == seat_after(source) {
        1
    } else if candidate == seat_after(seat_after(source)) {
        2
    } else if candidate == seat_after(seat_after(seat_after(source))) {
        3
    } else if candidate == seat_after(seat_after(seat_after(seat_after(source)))) {
        4
    } else {
        5
    }
}

pub fn claim_priority_distance(source_seat: Seat, candidate_seat: Seat) -> (r: usize)
    ensures
        r == turns_until(source_seat, candidate_seat),
{
    let first = next_seat(source_seat);
    if first == candidate_seat {
        return 1;
    }
    let second = next_seat(first);
    if second == candidate_seat {
        return 2;
    }
    let third = next_seat(second);
    if third == candidate_seat {
        return 3;
    }
    if next_seat(third) == candidate_seat {
        return 4;
    }
    5
}

/// A seat's place in the order of play, or four where it has none.
pub open spec fn seat_rank(seat: Seat) -> nat {
    match seat {
        Seat::East => 0,
        Seat::South => 1,
        Seat::West => 2,
        Seat::North => 3,
        Seat::Unspecified => 4,
    }
}

pub fn seat_sort_key(seat: Seat) -> (r: usize)
    ensures
        r == seat_rank(seat),
{
    match seat {
        Seat::East => 0,
        Seat::South => 1,
        Seat::West => 2,
        Seat::North => 3,
        Seat::Unspecified => 4,
    }
}

/// The tiles and melds of one player during a hand. The tile drawn last is kept apart from the
/// rest, so that discarding it can be told from discarding another one.
#[derive(Debug, PartialEq, Eq)]
pub struct PlayerRoundState {
    pub concealed_tiles: Vec<Tile>,
    pub drawn_tile: Option<Tile>,
    pub melds: Vec<Meld>,
    pub discards: Vec<DiscardTile>,
    pub flowers: Vec<Tile>,
    pub replacement_draw_count: u32,
}

/// The contents of a [`PlayerRoundState`].
#[verifier::ext_equal]
pub struct PlayerRoundStateModel {
    pub concealed_tiles: Seq<Tile>,
    pub drawn_tile: Option<Tile>,
    pub melds: Seq<MeldModel>,
    pub discards: Seq<DiscardTile>,
    pub flowers: Seq<Tile>,
    pub replacement_draw_count: u32,
}

impl View for PlayerRoundState {
    type V = PlayerRoundStateModel;

    open spec fn view(&self) -> PlayerRoundStateModel {
        PlayerRoundStateModel {
            concealed_tiles: self.concealed_tiles@,
            drawn_tile: self.drawn_tile,
            melds: views(self.melds@),
            discards: self.discards@,
            flowers: self.flowers@,
            replacement_draw_count: self.replacement_draw_count,
        }
    }
}

/// The state of a player who holds nothing.
pub open spec fn empty_hand() -> PlayerRoundStateModel {
    PlayerRoundStateModel {
        concealed_tiles: Seq::empty(),
        drawn_tile: None,
        melds: Seq::empty(),
        discards: Seq::empty(),
        flowers: Seq::empty(),
        replacement_draw_count: 0,
    }
}

impl PlayerRoundState {
    pub fn new() -> (r: PlayerRoundState)
        ensures
            r@ == empty_hand(),
    {
        broadcast use lemma_views_empty;

        PlayerRoundState {
            concealed_tiles: Vec::new(),
            drawn_tile: None,
            melds: Vec::new(),
            discards: Vec::new(),
            flowers: Vec::new(),
            replacement_draw_count: 0,
        }
    }
}

/// Whether a tile is a flower or a season.
pub open spec fn is_flower(tile: Tile) -> bool {
    35 <= tile.code() <= 42
}

pub fn is_flower_tile(tile: Tile) -> (r: bool)
    ensures
        r == is_flower(tile),
{
    match tile {
        Tile::FlowerPlum => true,
        Tile::FlowerOrchid => true,
        Tile::FlowerBamboo => true,
        Tile::FlowerChrysanthemum => true,
        Tile::SeasonSpring => true,
        Tile::SeasonSummer => true,
        Tile::SeasonAutumn => true,
        Tile::SeasonWinter => true,
        _ => false,
    }
}

/// How many tiles a player holds out of sight.
pub open spec fn private_count(hand: PlayerRoundStateModel) -> nat {
    hand.concealed_tiles.len() + (if hand.drawn_tile is Some {
        1nat
    } else {
        0nat
    })
}

/// All tiles that a player holds out of sight, in order.
pub open spec fn private_tiles(hand: PlayerRoundStateModel) -> Seq<Tile> {
    sorted_tiles(
        match hand.drawn_tile {
            Some(tile) => hand.concealed_tiles.push(tile),
            None => hand.concealed_tiles,
        },
    )
}

pub fn private_tile_count(round_state: &PlayerRoundState) -> (r: usize)
    requires
        private_count(round_state@) <= usize::MAX,
    ensures
        r == private_count(round_state@),
{
    if round_state.drawn_tile.is_some() {
        round_state.concealed_tiles.len() + 1
    } else {
        round_state.concealed_tiles.len()
    }
}

pub fn merged_private_tiles(round_state: &PlayerRoundState) -> (r: Vec<Tile>)
    ensures
        r@ == private_tiles(round_state@),
{
    let mut tiles = copy_tiles(&round_state.concealed_tiles);
    if let Some(drawn_tile) = round_state.drawn_tile {
        tiles.push(drawn_tile);
    }
    sort_tiles(&mut tiles);
    tiles
}

/// How many times a tile occurs.
pub open spec fn copies(tiles: Seq<Tile>, tile: Tile) -> nat {
    tiles.to_multiset().count(tile)
}

pub fn has_n_tiles(tiles: &Vec<Tile>, target_tile: Tile, required_count: usize) -> (r: bool)
    ensures
        r == (copies(tiles@, target_tile) >= required_count),
{
    broadcast use vstd::seq_lib::group_to_multiset_ensures;

    let mut count: usize = 0;
    let mut i: usize = 0;
    assert(tiles@.take(0) =~= Seq::<Tile>::empty());
    while i < tiles.len()
        invariant
            count <= i <= tiles.len(),
            count == copies(tiles@.take(i as int), target_tile),
        decreases tiles.len() - i,
    {
        broadcast use vstd::seq_lib::group_to_multiset_ensures;

        assert(tiles@.take(i + 1) =~= tiles@.take(i as int).push(tiles@[i as int]));
        if tiles[i] == target_tile {
            count = count + 1;
        }
        i = i + 1;
    }
    assert(tiles@.take(i as int) =~= tiles@);
    count >= required_count
}

/// The place of the first copy of a tile, if there is one.
pub open spec fn first_place(tiles: Seq<Tile>, tile: Tile) -> Option<int>
    decreases tiles.len(),
{
    if tiles.len() == 0 {
        None
    } else if tiles[0] == tile {
        Some(0)
    } else {
        match first_place(tiles.drop_first(), tile) {
            Some(place) => Some(place + 1),
            None => None,
        }
    }
}

/// The first place of a tile is where it first occurs.
pub proof fn lemma_first_place(tiles: Seq<Tile>, tile: Tile)
    ensures
        match first_place(tiles, tile) {
            Some(place) => 0 <= place < tiles.len() && tiles[place] == tile && forall|i: int|
                0 <= i < place ==> tiles[i] != tile,
            None => forall|i: int| 0 <= i < tiles.len() ==> tiles[i] != tile,
        },
    decreases tiles.len(),
{
    if tiles.len() > 0 && tiles[0] != tile {
        let rest = tiles.drop_first();
        lemma_first_place(rest, tile);
        assert forall|i: int| 0 < i < tiles.len() implies tiles[i] == rest[i - 1] by {}
    }
}

fn position_of(tiles: &Vec<Tile>, tile: Tile) -> (r: Option<usize>)
    ensures
        match r {
            Some(place) => first_place(tiles@, tile) == Some(place as int) && place < tiles.len(),
            None => first_place(tiles@, tile) is None,
        },
{
    let mut i: usize = 0;
    while i < tiles.len()
        invariant
            i <= tiles.len(),
            forall|j: int| 0 <= j < i ==> tiles@[j] != tile,
        decreases tiles.len() - i,
    {
        if tiles[i] == tile {
            proof {
                lemma_first_place(tiles@, tile);
            }
            return Some(i);
        }
        i = i + 1;
    }
    proof {
        lemma_first_place(tiles@, tile);
    }
    None
}

/// Whether a tile occurs.
pub fn holds_tile(tiles: &Vec<Tile>, tile: Tile) -> (r: bool)
    ensures
        r == tiles@.contains(tile),
{
    proof {
        lemma_first_place(tiles@, tile);
    }
    match position_of(tiles, tile) {
        Some(place) => {
            assert(tiles@[place as int] == tile);
            true
        },
        None => false,
    }
}

/// The suit of a suited tile, by its number, and its rank.
pub open spec fn suit_and_rank(tile: Tile) -> Option<(int, int)> {
    if 1 <= tile.code() <= 27 {
        Some(((tile.code() - 1) / 9, (tile.code() - 1) % 9 + 1))
    } else {
        None
    }
}

/// The tile of a suit, by its number, and a rank; unspecified where there is no such suit or rank.
pub open spec fn suited_tile(suit: int, rank: int) -> Tile {
    if 0 <= suit <= 2 && 1 <= rank <= 9 {
        crate::tiles::tile_numbered(suit * 9 + rank)
    } else {
        Tile::Unspecified
    }
}

/// The name of a suit.
pub open spec fn suit_name(suit: int) -> Seq<char> {
    if suit == 0 {
        "character"@
    } else if suit == 1 {
        "bamboo"@
    } else {
        "dot"@
    }
}

/// The suit with a name, by its number.
pub open spec fn suit_number(name: Seq<char>) -> Option<int> {
    if name == "character"@ {
        Some(0)
    } else if name == "bamboo"@ {
        Some(1)
    } else if name == "dot"@ {
        Some(2)
    } else {
        None
    }
}

/// The name of the suit of a suited tile, and its rank.
pub open spec fn named_suit_and_rank(tile: Tile) -> Option<(Seq<char>, int)> {
    match suit_and_rank(tile) {
        Some((suit, rank)) => Some((suit_name(suit), rank)),
        None => None,
    }
}

/// The tile of a suit, by its name, and a rank; unspecified where there is no such suit or rank.
pub open spec fn named_tile(suit: Seq<char>, rank: int) -> Tile {
    match suit_number(suit) {
        Some(suit) => suited_tile(suit, rank),
        None => Tile::Unspecified,
    }
}

/// The suits have different names, and each name stands for its suit.
proof fn lemma_suit_names(suit: int)
    requires
        0 <= suit <= 2,
    ensures
        suit_number(suit_name(suit)) == Some(suit),
{
    reveal_strlit("character");
    reveal_strlit("bamboo");
    reveal_strlit("dot");
    assert("character"@.len() != "bamboo"@.len());
    assert("character"@.len() != "dot"@.len());
    assert("bamboo"@.len() != "dot"@.len());
}

/// Making a tile of a suit and a rank undoes reading them off a tile, and the other way round; and
/// there is no tile just where the suit has another name than the three or the rank is not one from
/// one to nine.
pub proof fn law_suits_and_ranks_name_tiles(tile: Tile, suit: Seq<char>, rank: int)
    ensures
        named_suit_and_rank(tile) matches Some((own_suit, own_rank)) ==> named_tile(
            own_suit,
            own_rank,
        ) == tile,
        named_tile(suit, rank) == Tile::Unspecified <==> suit_number(suit) is None || !(1 <= rank
            <= 9),
        suit_number(suit) is Some && 1 <= rank <= 9 ==> named_suit_and_rank(named_tile(suit, rank))
            == Some((suit, rank)),
{
    if let Some((number, own_rank)) = suit_and_rank(tile) {
        assert(0 <= number <= 2);
        lemma_suit_names(number);
        assert(number * 9 + own_rank == tile.code());
        crate::proto::client::law_tile_codes(tile, tile.code());
    }
    if let Some(number) = suit_number(suit) {
        if 1 <= rank <= 9 {
            let made = named_tile(suit, rank);
            assert(1 <= number * 9 + rank <= 27);
            assert(made.code() == number * 9 + rank);
            assert((number * 9 + rank - 1) / 9 == number);
            assert((number * 9 + rank - 1) % 9 + 1 == rank);
        }
    }
}

/// The name of the suit of a suited tile, and its rank.
pub fn tile_suit_and_rank(tile: Tile) -> (r: Option<(&'static str, i32)>)
    ensures
        named_suit_and_rank(tile) == match r {
            Some((suit, rank)) => Some((suit@, rank as int)),
            None => None,
        },
{
    let code: i32 = tile.as_i32();
    if 1 <= code && code <= 9 {
        Some(("character", code))
    } else if 10 <= code && code <= 18 {
        Some(("bamboo", code - 9))
    } else if 19 <= code && code <= 27 {
        Some(("dot", code - 18))
    } else {
        None
    }
}

/// The tile of a suit, by its name, and a rank; unspecified where there is no such suit or rank.
pub fn tile_from_suit_and_rank(suit: &str, rank: i32) -> (r: Tile)
    ensures
        r == named_tile(suit@, rank as int),
{
    if rank < 1 || rank > 9 {
        return Tile::Unspecified;
    }
    let before: i32 = if same_text(suit, "character") {
        0
    } else if same_text(suit, "bamboo") {
        9
    } else if same_text(suit, "dot") {
        18
    } else {
        return Tile::Unspecified;
    };
    match Tile::from_i32(before + rank) {
        Some(tile) => tile,
        None => Tile::Unspecified,
    }
}

/// The run that `target` completes with the two tiles at the given distances, if the hand holds
/// both.
pub open spec fn chi_pattern(hand: Seq<Tile>, target: Tile, left: int, right: int) -> Seq<
    Seq<Tile>,
> {
    match suit_and_rank(target) {
        None => Seq::empty(),
        Some((suit, rank)) => {
            let left_tile = suited_tile(suit, rank + left);
            let right_tile = suited_tile(suit, rank + right);
            if 1 <= rank + left <= 9 && 1 <= rank + right <= 9 && copies(hand, left_tile) >= 1
                && copies(hand, right_tile) >= 1 {
                seq![sorted_tiles(seq![left_tile, right_tile])]
            } else {
                Seq::empty()
            }
        },
    }
}

/// The pairs of tiles of a hand with which a run around `target` can be made, lowest first.
pub open spec fn chi_patterns(hand: Seq<Tile>, target: Tile) -> Seq<Seq<Tile>> {
    chi_pattern(hand, target, -2, -1) + chi_pattern(hand, target, -1, 1) + chi_pattern(
        hand,
        target,
        1,
        2,
    )
}

fn push_chi_pattern(
    patterns: &mut Vec<Vec<Tile>>,
    hand: &Vec<Tile>,
    target: Tile,
    left: i32,
    right: i32,
)
    requires
        -2 <= left <= 2,
        -2 <= right <= 2,
    ensures
        views(final(patterns)@) == views(old(patterns)@) + chi_pattern(
            hand@,
            target,
            left as int,
            right as int,
        ),
{
    let ghost before = patterns@;
    if let Some((suit, rank)) = tile_suit_and_rank(target) {
        assert(1 <= rank <= 9);
        let left_rank: i32 = rank + left;
        let right_rank: i32 = rank + right;
        if 1 <= left_rank && left_rank <= 9 && 1 <= right_rank && right_rank <= 9 {
            proof {
                let (number, _) = suit_and_rank(target)->Some_0;
                lemma_suit_names(number);
            }
            let left_tile = tile_from_suit_and_rank(suit, left_rank);
            let right_tile = tile_from_suit_and_rank(suit, right_rank);
            if has_n_tiles(hand, left_tile, 1) && has_n_tiles(hand, right_tile, 1) {
                let mut consume_tiles: Vec<Tile> = Vec::new();
                consume_tiles.push(left_tile);
                consume_tiles.push(right_tile);
                assert(consume_tiles@ =~= seq![left_tile, right_tile]);
                sort_tiles(&mut consume_tiles);
                patterns.push(consume_tiles);
            }
        }
    }
    assert(views(patterns@) =~= views(before) + chi_pattern(
        hand@,
        target,
        left as int,
        right as int,
    ));
}

pub fn build_chi_consume_patterns(concealed_tiles: &Vec<Tile>, target_tile: Tile) -> (r: Vec<
    Vec<Tile>,
>)
    ensures
        views(r@) == chi_patterns(concealed_tiles@, target_tile),
{
    let mut patterns: Vec<Vec<Tile>> = Vec::new();
    push_chi_pattern(&mut patterns, concealed_tiles, target_tile, -2, -1);
    push_chi_pattern(&mut patterns, concealed_tiles, target_tile, -1, 1);
    push_chi_pattern(&mut patterns, concealed_tiles, target_tile, 1, 2);
    assert(views(patterns@) =~= chi_patterns(concealed_tiles@, target_tile));
    patterns
}

/// What is left of a hand after the first `upto` of `consume` were taken out of it one by one, and
/// whether all of them were there. Taking stops at the first tile that is missing.
pub open spec fn after_taking(hand: Seq<Tile>, consume: Seq<Tile>, upto: int) -> (Seq<Tile>, bool)
    decreases upto,
{
    if upto <= 0 {
        (hand, true)
    } else {
        let (left, complete) = after_taking(hand, consume, upto - 1);
        if !complete {
            (left, false)
        } else {
            match first_place(left, consume[upto - 1]) {
                Some(place) => (left.remove(place), true),
                None => (left, false),
            }
        }
    }
}

/// What a hand becomes when tiles are taken out of it for a meld.
pub open spec fn hand_after_taking(hand: Seq<Tile>, consume: Seq<Tile>) -> Seq<Tile> {
    let (left, complete) = after_taking(hand, consume, consume.len() as int);
    if complete {
        sorted_tiles(left)
    } else {
        left
    }
}

proof fn lemma_taking_stops(hand: Seq<Tile>, consume: Seq<Tile>, from: int, upto: int)
    requires
        0 <= from <= upto,
        !after_taking(hand, consume, from).1,
    ensures
        after_taking(hand, consume, upto) == after_taking(hand, consume, from),
    decreases upto,
{
    if from < upto {
        lemma_taking_stops(hand, consume, from, upto - 1);
    }
}

/// The error for tiles that a claim names and the hand does not hold.
pub open spec fn missing_tiles_error() -> ActionValidationErrorModel {
    failure(
        RejectCode::InvalidTile,
        "claim consume_tiles are not all present in the player's concealed hand"@,
    )
}

/// Takes the named tiles out of a hand. Where one is missing, those before it stay out.
pub fn remove_tiles_from_concealed(
    concealed_tiles: &mut Vec<Tile>,
    consume_tiles: &Vec<Tile>,
) -> (r: Result<(), ActionValidationError>)
    ensures
        final(concealed_tiles)@ == hand_after_taking(old(concealed_tiles)@, consume_tiles@),
        match r {
            Ok(_) => after_taking(
                old(concealed_tiles)@,
                consume_tiles@,
                consume_tiles@.len() as int,
            ).1,
            Err(error) => error@ == missing_tiles_error() && !after_taking(
                old(concealed_tiles)@,
                consume_tiles@,
                consume_tiles@.len() as int,
            ).1,
        },
{
    let ghost hand = concealed_tiles@;
    let mut i: usize = 0;
    while i < consume_tiles.len()
        invariant
            i <= consume_tiles.len(),
            hand == old(concealed_tiles)@,
            after_taking(hand, consume_tiles@, i as int) == (concealed_tiles@, true),
        decreases consume_tiles.len() - i,
    {
        let found = position_of(concealed_tiles, consume_tiles[i]);
        match found {
            Some(place) => {
                concealed_tiles.remove(place);
            },
            None => {
                proof {
                    lemma_taking_stops(hand, consume_tiles@, i + 1, consume_tiles@.len() as int);
                }
                return Err(
                    ActionValidationError::new(
                        RejectCode::InvalidTile,
                        "claim consume_tiles are not all present in the player's concealed hand",
                    ),
                );
            },
        }
        i = i + 1;
    }
    sort_tiles(concealed_tiles);
    Ok(())
}

/// Taking tiles out of a hand that holds them all leaves exactly the others.
pub proof fn law_taking_conserves_tiles(hand: Seq<Tile>, consume: Seq<Tile>)
    requires
        after_taking(hand, consume, consume.len() as int).1,
    ensures
        hand_after_taking(hand, consume).to_multiset().add(consume.to_multiset())
            == hand.to_multiset(),
{
    lemma_taking_prefix_conserves(hand, consume, consume.len() as int);
    assert(consume.take(consume.len() as int) =~= consume);
    crate::tiles::lemma_sorted_tiles_keeps_tiles(
        after_taking(hand, consume, consume.len() as int).0,
    );
}

pub proof fn lemma_taking_prefix_conserves(hand: Seq<Tile>, consume: Seq<Tile>, upto: int)
    requires
        0 <= upto <= consume.len(),
        after_taking(hand, consume, upto).1,
    ensures
        after_taking(hand, consume, upto).0.to_multiset().add(consume.take(upto).to_multiset())
            == hand.to_multiset(),
    decreases upto,
{
    broadcast use vstd::seq_lib::group_to_multiset_ensures;

    if upto > 0 {
        lemma_taking_prefix_conserves(hand, consume, upto - 1);
        let left = after_taking(hand, consume, upto - 1).0;
        let tile = consume[upto - 1];
        lemma_first_place(left, tile);
        let place = first_place(left, tile)->0;
        assert(consume.take(upto) =~= consume.take(upto - 1).push(tile));
        assert(left.remove(place).to_multiset() =~= left.to_multiset().remove(tile));
        assert(after_taking(hand, consume, upto).0.to_multiset().add(
            consume.take(upto).to_multiset(),
        ) =~= hand.to_multiset());
    } else {
        assert(consume.take(0) =~= Seq::<Tile>::empty());
        assert(hand.to_multiset().add(Seq::<Tile>::empty().to_multiset()) =~= hand.to_multiset());
    }
}

/// A hand from which the tile of a supplemental kong was taken; the drawn tile goes first. None
/// where the tile is not there.
pub open spec fn after_kong_tile(hand: PlayerRoundStateModel, tile: Tile) -> Option<
    PlayerRoundStateModel,
> {
    if hand.drawn_tile == Some(tile) {
        Some(PlayerRoundStateModel { drawn_tile: None, ..hand })
    } else {
        match first_place(hand.concealed_tiles, tile) {
            None => None,
            Some(place) => {
                let rest = hand.concealed_tiles.remove(place);
                match hand.drawn_tile {
                    Some(drawn) => Some(
                        PlayerRoundStateModel {
                            drawn_tile: None,
                            concealed_tiles: sorted_tiles(rest.push(drawn)),
                            ..hand
                        },
                    ),
                    None => Some(PlayerRoundStateModel { concealed_tiles: rest, ..hand }),
                }
            },
        }
    }
}

/// The error for a supplemental kong whose tile is not in the hand.
pub open spec fn missing_kong_tile_error() -> ActionValidationErrorModel {
    failure(
        RejectCode::InvalidTile,
        "supplemental kong tile is not present in concealed tiles or drawn tile"@,
    )
}

pub fn consume_tile_for_supplemental_kong(round_state: &mut PlayerRoundState, tile: Tile) -> (r:
    Result<(), ActionValidationError>)
    ensures
        match after_kong_tile(old(round_state)@, tile) {
            Some(hand) => r is Ok && final(round_state)@ == hand,
            None => r matches Err(error) && error@ == missing_kong_tile_error() && final(round_state)@ == old(round_state)@,
        },
{
    if round_state.drawn_tile == Some(tile) {
        round_state.drawn_tile = None;
        return Ok(());
    }
    match position_of(&round_state.concealed_tiles, tile) {
        None => {
            return Err(
                ActionValidationError::new(
                    RejectCode::InvalidTile,
                    "supplemental kong tile is not present in concealed tiles or drawn tile",
                ),
            );
        },
        Some(place) => {
            round_state.concealed_tiles.remove(place);
            if let Some(drawn_tile) = round_state.drawn_tile {
                round_state.drawn_tile = None;
                round_state.concealed_tiles.push(drawn_tile);
                sort_tiles(&mut round_state.concealed_tiles);
            }
            Ok(())
        },
    }
}

/// What discarding a tile makes of a hand, apart from the discard row, and whether the tile was the
/// one just drawn; or why it cannot be discarded.
pub open spec fn hand_after_discard(hand: PlayerRoundStateModel, tile: Tile, tsumogiri: bool) -> Result<
    (PlayerRoundStateModel, bool),
    ActionValidationErrorModel,
> {
    if tsumogiri {
        if hand.drawn_tile != Some(tile) {
            Err(
                failure(
                    RejectCode::InvalidTile,
                    "tsumogiri requires the pending drawn tile to match the discarded tile"@,
                ),
            )
        } else {
            Ok((PlayerRoundStateModel { drawn_tile: None, ..hand }, true))
        }
    } else {
        match first_place(hand.concealed_tiles, tile) {
            Some(place) => {
                let rest = hand.concealed_tiles.remove(place);
                match hand.drawn_tile {
                    Some(drawn) => Ok(
                        (
                            PlayerRoundStateModel {
                                drawn_tile: None,
                                concealed_tiles: sorted_tiles(rest.push(drawn)),
                                ..hand
                            },
                            false,
                        ),
                    ),
                    None => Ok((PlayerRoundStateModel { concealed_tiles: rest, ..hand }, false)),
                }
            },
            None => if hand.drawn_tile == Some(tile) {
                Ok((PlayerRoundStateModel { drawn_tile: None, ..hand }, true))
            } else {
                Err(
                    failure(
                        RejectCode::InvalidTile,
                        "discard tile is not present in the player's private hand"@,
                    ),
                )
            },
        }
    }
}

/// Takes a discard out of a hand; tells whether it was the tile just drawn.
pub fn take_discard(round_state: &mut PlayerRoundState, tile: Tile, tsumogiri: bool) -> (r: Result<
    bool,
    ActionValidationError,
>)
    ensures
        match hand_after_discard(old(round_state)@, tile, tsumogiri) {
            Ok((hand, drawn_and_discarded)) => r matches Ok(drawn) && drawn == drawn_and_discarded
                && final(round_state)@ == hand,
            Err(failed) => r matches Err(error) && error@ == failed && final(round_state)@ == old(round_state)@,
        },
{
    if tsumogiri {
        if round_state.drawn_tile != Some(tile) {
            return Err(
                ActionValidationError::new(
                    RejectCode::InvalidTile,
                    "tsumogiri requires the pending drawn tile to match the discarded tile",
                ),
            );
        }
        round_state.drawn_tile = None;
        return Ok(true);
    }
    match position_of(&round_state.concealed_tiles, tile) {
        Some(place) => {
            round_state.concealed_tiles.remove(place);
            if let Some(drawn_tile) = round_state.drawn_tile {
                round_state.drawn_tile = None;
                round_state.concealed_tiles.push(drawn_tile);
                sort_tiles(&mut round_state.concealed_tiles);
            }
            Ok(false)
        },
        None => {
            if round_state.drawn_tile == Some(tile) {
                round_state.drawn_tile = None;
                Ok(true)
            } else {
                Err(
                    ActionValidationError::new(
                        RejectCode::InvalidTile,
                        "discard tile is not present in the player's private hand",
                    ),
                )
            }
        },
    }
}

} // verus!
