//! Tiles, hands and walls.

use vstd::prelude::*;
use vstd::relations::{sorted_by, total_ordering};
use vstd::seq_lib::lemma_sorted_unique;

use crate::proto::client::Tile;

verus! {

/// The order in which tiles are laid out: by their number on the wire.
pub open spec fn tile_order() -> spec_fn(Tile, Tile) -> bool {
    |a: Tile, b: Tile| a.code() <= b.code()
}

/// The tiles of a hand, laid out in order.
pub open spec fn sorted_tiles(tiles: Seq<Tile>) -> Seq<Tile> {
    tiles.sort_by(tile_order())
}

/// The order of wire numbers.
pub open spec fn code_order() -> spec_fn(i32, i32) -> bool {
    |a: i32, b: i32| a <= b
}

/// Wire numbers in ascending order.
pub open spec fn sorted_codes(codes: Seq<i32>) -> Seq<i32> {
    codes.sort_by(code_order())
}

/// The wire numbers of a sequence of tiles.
pub open spec fn tile_codes(tiles: Seq<Tile>) -> Seq<i32> {
    Seq::new(tiles.len(), |i: int| tiles[i].code())
}

proof fn lemma_tile_order_total()
    ensures
        total_ordering(tile_order()),
{
    assert forall|a: Tile, b: Tile| a.code() == b.code() implies a == b by {
        crate::proto::client::law_tile_codes(a, a.code());
        crate::proto::client::law_tile_codes(b, b.code());
    }
}

/// A sorted rearrangement of a sequence is the sorted sequence.
pub proof fn lemma_sorted_tiles(original: Seq<Tile>, result: Seq<Tile>)
    requires
        result.to_multiset() == original.to_multiset(),
        forall|i: int, j: int| 0 <= i < j < result.len() ==> result[i].code() <= result[j].code(),
    ensures
        result == sorted_tiles(original),
{
    lemma_tile_order_total();
    original.lemma_sort_by_ensures(tile_order());
    assert(sorted_by(result, tile_order()));
    lemma_sorted_unique(result, sorted_tiles(original), tile_order());
}

/// Sorting loses no tile and adds none.
pub proof fn lemma_sorted_tiles_keeps_tiles(tiles: Seq<Tile>)
    ensures
        sorted_tiles(tiles).to_multiset() == tiles.to_multiset(),
        sorted_tiles(tiles).len() == tiles.len(),
{
    lemma_tile_order_total();
    tiles.lemma_sort_by_ensures(tile_order());
    broadcast use vstd::seq_lib::group_to_multiset_ensures;
    assert(sorted_tiles(tiles).len() == sorted_tiles(tiles).to_multiset().len());
    assert(tiles.len() == tiles.to_multiset().len());
}

/// The same tiles are laid out the same way, in whatever order they come.
pub proof fn lemma_same_tiles_laid_out(a: Seq<Tile>, b: Seq<Tile>)
    ensures
        sorted_tiles(a) == sorted_tiles(b) <==> a.to_multiset() == b.to_multiset(),
{
    lemma_tile_order_total();
    a.lemma_sort_by_ensures(tile_order());
    b.lemma_sort_by_ensures(tile_order());
    if a.to_multiset() == b.to_multiset() {
        lemma_sorted_unique(sorted_tiles(a), sorted_tiles(b), tile_order());
    }
}

/// Ordering wire numbers keeps them.
pub proof fn lemma_sorted_codes_keeps_codes(codes: Seq<i32>)
    ensures
        sorted_codes(codes).to_multiset() == codes.to_multiset(),
{
    codes.lemma_sort_by_ensures(code_order());
}

/// Swapping two places of a sequence keeps its contents.
pub proof fn lemma_swap_keeps_contents<T>(items: Seq<T>, i: int, j: int)
    requires
        0 <= i < items.len(),
        0 <= j < items.len(),
    ensures
        items.update(i, items[j]).update(j, items[i]).to_multiset() == items.to_multiset(),
{
    broadcast use vstd::seq_lib::group_to_multiset_ensures;
    let swapped = items.update(i, items[j]).update(j, items[i]);
    assert(items.update(i, items[j]).to_multiset() =~= items.to_multiset().insert(items[j]).remove(
        items[i],
    ));
    assert(swapped.to_multiset() =~= items.to_multiset());
}

/// Sorts tiles into the order in which hands are shown.
pub fn sort_tiles(tiles: &mut Vec<Tile>)
    ensures
        final(tiles)@ == sorted_tiles(old(tiles)@),
{
    let ghost original = tiles@;
    let mut done: usize = 0;
    while done < tiles.len()
        invariant
            done <= tiles.len(),
            tiles.len() == original.len(),
            tiles@.to_multiset() == original.to_multiset(),
            forall|i: int, j: int| 0 <= i < j < done ==> tiles@[i].code() <= tiles@[j].code(),
        decreases tiles.len() - done,
    {
        let mut at: usize = done;
        while at > 0 && tiles[at].as_i32() < tiles[at - 1].as_i32()
            invariant
                at <= done < tiles.len(),
                tiles.len() == original.len(),
                tiles@.to_multiset() == original.to_multiset(),
                forall|i: int, j: int|
                    0 <= i < j <= done && j != at ==> tiles@[i].code() <= tiles@[j].code(),
            decreases at,
        {
            proof {
                lemma_swap_keeps_contents(tiles@, at as int, at as int - 1);
            }
            let left = tiles[at - 1];
            let right = tiles[at];
            tiles.set(at, left);
            tiles.set(at - 1, right);
            at = at - 1;
        }
        done = done + 1;
    }
    proof {
        lemma_sorted_tiles(original, tiles@);
    }
}

/// Sorts wire numbers into ascending order.
pub fn sort_codes(codes: &mut Vec<i32>)
    ensures
        final(codes)@ == sorted_codes(old(codes)@),
{
    let ghost original = codes@;
    let mut done: usize = 0;
    while done < codes.len()
        invariant
            done <= codes.len(),
            codes.len() == original.len(),
            codes@.to_multiset() == original.to_multiset(),
            forall|i: int, j: int| 0 <= i < j < done ==> codes@[i] <= codes@[j],
        decreases codes.len() - done,
    {
        let mut at: usize = done;
        while at > 0 && codes[at] < codes[at - 1]
            invariant
                at <= done < codes.len(),
                codes.len() == original.len(),
                codes@.to_multiset() == original.to_multiset(),
                forall|i: int, j: int| 0 <= i < j <= done && j != at ==> codes@[i] <= codes@[j],
            decreases at,
        {
            proof {
                lemma_swap_keeps_contents(codes@, at as int, at as int - 1);
            }
            let left: i32 = codes[at - 1];
            let right: i32 = codes[at];
            codes.set(at, left);
            codes.set(at - 1, right);
            at = at - 1;
        }
        done = done + 1;
    }
    proof {
        original.lemma_sort_by_ensures(code_order());
        assert(sorted_by(codes@, code_order()));
        lemma_sorted_unique(codes@, sorted_codes(original), code_order());
    }
}

/// The wire numbers of some tiles.
pub fn codes_of(tiles: &Vec<Tile>) -> (r: Vec<i32>)
    ensures
        r@ == tile_codes(tiles@),
{
    let mut codes: Vec<i32> = Vec::new();
    let mut i: usize = 0;
    while i < tiles.len()
        invariant
            i <= tiles.len(),
            codes@ == tile_codes(tiles@.take(i as int)),
        decreases tiles.len() - i,
    {
        codes.push(tiles[i].as_i32());
        i = i + 1;
        assert(codes@ =~= tile_codes(tiles@.take(i as int)));
    }
    assert(tiles@.take(i as int) =~= tiles@);
    codes
}

/// A copy of some tiles.
pub fn copy_tiles(tiles: &Vec<Tile>) -> (r: Vec<Tile>)
    ensures
        r@ == tiles@,
{
    let mut copy: Vec<Tile> = Vec::new();
    let mut i: usize = 0;
    while i < tiles.len()
        invariant
            i <= tiles.len(),
            copy@ == tiles@.take(i as int),
        decreases tiles.len() - i,
    {
        copy.push(tiles[i]);
        i = i + 1;
        assert(copy@ =~= tiles@.take(i as int));
    }
    assert(tiles@.take(i as int) =~= tiles@);
    copy
}


// ---------------------------------------------------------------------------
// Walls
// ---------------------------------------------------------------------------

/// How many tiles a wall holds without flowers.
pub const PLAIN_WALL_LEN: usize = 136;

/// How many flower and season tiles there are.
pub const FLOWER_LEN: usize = 8;

/// The tile with the given number.
pub open spec fn tile_numbered(code: int) -> Tile {
    match Tile::decode(code as i32) {
        Some(tile) => tile,
        None => Tile::Unspecified,
    }
}

/// The unshuffled wall: four of each suited and honour tile, in order, then one of each flower.
pub open spec fn standard_wall(enable_flower_tiles: bool) -> Seq<Tile> {
    let len: nat = if enable_flower_tiles {
        (PLAIN_WALL_LEN + FLOWER_LEN) as nat
    } else {
        PLAIN_WALL_LEN as nat
    };
    Seq::new(
        len,
        |i: int|
            if i < PLAIN_WALL_LEN {
                tile_numbered(i / 4 + 1)
            } else {
                tile_numbered(i - PLAIN_WALL_LEN + 35)
            },
    )
}

fn tile_by_number(code: i32) -> (r: Tile)
    ensures
        r == tile_numbered(code as int),
{
    match Tile::from_i32(code) {
        Some(tile) => tile,
        None => Tile::Unspecified,
    }
}

pub fn build_standard_wall(enable_flower_tiles: bool) -> (wall: Vec<Tile>)
    ensures
        wall@ == standard_wall(enable_flower_tiles),
{
    let mut wall: Vec<Tile> = Vec::new();
    let ghost target = standard_wall(enable_flower_tiles);
    while wall.len() < PLAIN_WALL_LEN
        invariant
            wall.len() <= PLAIN_WALL_LEN,
            target == standard_wall(enable_flower_tiles),
            wall@ == target.take(wall.len() as int),
        decreases PLAIN_WALL_LEN - wall.len(),
    {
        let code: i32 = (wall.len() / 4 + 1) as i32;
        let ghost before = wall@;
        wall.push(tile_by_number(code));
        assert(wall@ =~= target.take(before.len() as int + 1));
    }
    if enable_flower_tiles {
        while wall.len() < PLAIN_WALL_LEN + FLOWER_LEN
            invariant
                enable_flower_tiles,
                PLAIN_WALL_LEN <= wall.len() <= PLAIN_WALL_LEN + FLOWER_LEN,
                target == standard_wall(enable_flower_tiles),
                wall@ == target.take(wall.len() as int),
            decreases PLAIN_WALL_LEN + FLOWER_LEN - wall.len(),
        {
            let code: i32 = (wall.len() - PLAIN_WALL_LEN + 35) as i32;
            let ghost before = wall@;
            wall.push(tile_by_number(code));
            assert(wall@ =~= target.take(before.len() as int + 1));
        }
    }
    assert(target.take(target.len() as int) =~= target);
    wall
}

/// One step of the generator that drives the shuffle.
pub open spec fn xorshift(state: u64) -> u64 {
    let s0: u64 = if state == 0 {
        0x9e37_79b9_7f4a_7c15
    } else {
        state
    };
    let s1: u64 = s0 ^ (s0 << 13);
    let s2: u64 = s1 ^ (s1 >> 7);
    s2 ^ (s2 << 17)
}

pub fn xorshift64(state: u64) -> (r: u64)
    ensures
        r == xorshift(state),
{
    let s0: u64 = if state == 0 {
        0x9e37_79b9_7f4a_7c15
    } else {
        state
    };
    let s1: u64 = s0 ^ (s0 << 13);
    let s2: u64 = s1 ^ (s1 >> 7);
    s2 ^ (s2 << 17)
}

/// The hash of a room's name after its first `upto` bytes.
pub open spec fn name_hash(bytes: Seq<u8>, upto: nat) -> u64
    decreases upto,
{
    if upto == 0 {
        1469598103934665603
    } else {
        (((name_hash(bytes, (upto - 1) as nat) ^ bytes[upto - 1] as u64) * 1099511628211)
            % 0x1_0000_0000_0000_0000) as u64
    }
}

/// The number from which a wall is shuffled: the room's name, the hand and the salt mixed.
pub open spec fn wall_seed(room_id: Seq<char>, hand_number: u32, salt: u64) -> u64 {
    let bytes = vstd::utf8::encode_utf8(room_id);
    name_hash(bytes, bytes.len()) ^ ((hand_number as u64) << 32) ^ salt
}

/// The wall seed of a room's hand. `salt` is the clock, or a fixed number where the same walls
/// are wanted again.
pub fn stable_wall_seed(room_id: &str, hand_number: u32, salt: u64) -> (r: u64)
    ensures
        r == wall_seed(room_id@, hand_number, salt),
{
    let bytes = room_id.as_bytes();
    let mut hash: u64 = 1469598103934665603;
    let mut i: usize = 0;
    while i < bytes.len()
        invariant
            i <= bytes.len(),
            hash == name_hash(bytes@, i as nat),
        decreases bytes.len() - i,
    {
        let mixed: u64 = hash ^ (bytes[i] as u64);
        hash = mixed.wrapping_mul(1099511628211);
        i = i + 1;
    }
    hash ^ ((hand_number as u64) << 32) ^ salt
}

/// The wall after the places above and including `index` have been exchanged, from the top down.
pub open spec fn shuffled_down_to(wall: Seq<Tile>, seed: u64, index: int) -> Seq<Tile>
    decreases index,
{
    if index < 1 {
        wall
    } else {
        let next = xorshift(seed);
        let other = (next as usize) as int % (index + 1);
        shuffled_down_to(
            wall.update(index, wall[other]).update(other, wall[index]),
            next,
            index - 1,
        )
    }
}

/// The shuffled wall of a room's hand.
pub open spec fn shuffled_wall(
    enable_flower_tiles: bool,
    room_id: Seq<char>,
    hand_number: u32,
    salt: u64,
) -> Seq<Tile> {
    let wall = standard_wall(enable_flower_tiles);
    shuffled_down_to(wall, wall_seed(room_id, hand_number, salt), wall.len() - 1)
}

pub fn build_shuffled_wall(
    enable_flower_tiles: bool,
    room_id: &str,
    hand_number: u32,
    salt: u64,
) -> (wall: Vec<Tile>)
    ensures
        wall@ == shuffled_wall(enable_flower_tiles, room_id@, hand_number, salt),
{
    let mut wall = build_standard_wall(enable_flower_tiles);
    let mut seed: u64 = stable_wall_seed(room_id, hand_number, salt);
    let mut index: usize = wall.len() - 1;
    let ghost goal = shuffled_wall(enable_flower_tiles, room_id@, hand_number, salt);
    while index > 0
        invariant
            index < wall.len(),
            goal == shuffled_down_to(wall@, seed, index as int),
        decreases index,
    {
        seed = xorshift64(seed);
        let other: usize = (#[verifier::truncate] (seed as usize)) % (index + 1);
        let upper = wall[index];
        let lower = wall[other];
        wall.set(index, lower);
        wall.set(other, upper);
        index = index - 1;
    }
    wall
}

proof fn lemma_shuffle_keeps_tiles(wall: Seq<Tile>, seed: u64, index: int)
    requires
        index < wall.len(),
    ensures
        shuffled_down_to(wall, seed, index).to_multiset() == wall.to_multiset(),
        shuffled_down_to(wall, seed, index).len() == wall.len(),
    decreases index,
{
    if index >= 1 {
        let next = xorshift(seed);
        let other = (next as usize) as int % (index + 1);
        let swapped = wall.update(index, wall[other]).update(other, wall[index]);
        lemma_swap_keeps_contents(wall, index, other);
        lemma_shuffle_keeps_tiles(swapped, next, index - 1);
    }
}

/// A shuffled wall holds exactly the tiles of the standard wall, whatever the room, the hand and
/// the salt.
pub proof fn law_shuffled_wall_is_permutation(
    enable_flower_tiles: bool,
    room_id: Seq<char>,
    hand_number: u32,
    salt: u64,
)
    ensures
        shuffled_wall(enable_flower_tiles, room_id, hand_number, salt).to_multiset()
            == standard_wall(enable_flower_tiles).to_multiset(),
        shuffled_wall(enable_flower_tiles, room_id, hand_number, salt).len() == standard_wall(
            enable_flower_tiles,
        ).len(),
{
    let wall = standard_wall(enable_flower_tiles);
    lemma_shuffle_keeps_tiles(wall, wall_seed(room_id, hand_number, salt), wall.len() - 1);
}

/// The standard wall holds each suited and honour tile four times, each flower and season once
/// where flowers are in play, and nothing else.
pub proof fn law_standard_wall_contents(enable_flower_tiles: bool, tile: Tile)
    ensures
        standard_wall(enable_flower_tiles).to_multiset().count(tile) == if 1 <= tile.code() <= 34 {
            4nat
        } else if 35 <= tile.code() && enable_flower_tiles {
            1nat
        } else {
            0nat
        },
{
    let wall = standard_wall(enable_flower_tiles);
    lemma_wall_prefix_count(enable_flower_tiles, wall.len() as int, tile);
    assert(wall.take(wall.len() as int) =~= wall);
}

/// How often a number occurs among the first `upto` places of the standard wall.
spec fn prefix_count(code: int, upto: int) -> nat {
    if 1 <= code <= 34 {
        if upto <= 4 * (code - 1) {
            0
        } else if upto <= 4 * code {
            (upto - 4 * (code - 1)) as nat
        } else {
            4
        }
    } else if 35 <= code {
        if upto > PLAIN_WALL_LEN + (code - 35) {
            1
        } else {
            0
        }
    } else {
        0
    }
}

proof fn lemma_wall_prefix_count(enable_flower_tiles: bool, upto: int, tile: Tile)
    requires
        0 <= upto <= standard_wall(enable_flower_tiles).len(),
    ensures
        standard_wall(enable_flower_tiles).take(upto).to_multiset().count(tile) == prefix_count(
            tile.code() as int,
            upto,
        ),
    decreases upto,
{
    broadcast use vstd::seq_lib::group_to_multiset_ensures;
    let wall = standard_wall(enable_flower_tiles);
    if upto > 0 {
        lemma_wall_prefix_count(enable_flower_tiles, upto - 1, tile);
        assert(wall.take(upto) =~= wall.take(upto - 1).push(wall[upto - 1]));
        let code: int = if upto - 1 < PLAIN_WALL_LEN {
            (upto - 1) / 4 + 1
        } else {
            upto - 1 - PLAIN_WALL_LEN + 35
        };
        assert(1 <= code <= 42);
        assert(wall[upto - 1].code() == code);
        crate::proto::client::law_tile_codes(wall[upto - 1], wall[upto - 1].code());
        crate::proto::client::law_tile_codes(tile, tile.code());
        assert(wall[upto - 1] == tile <==> code == tile.code());
    }
}

} // verus!
