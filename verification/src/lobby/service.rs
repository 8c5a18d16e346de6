//! What the lobby does.

use vstd::prelude::*;
use vstd::string::*;

use crate::collections::{views, StrMap};
use crate::db::models::{RoomMemberRecord, RoomMemberRecordModel};
use crate::lobby::{
    by_arrival, default_lobby_room_config, everybody_ready, fresh_room, free_seat, lobby_optional,
    lobby_plain, lobby_result, member_place, member_record, member_view, new_member, placed_member,
    room_view, seat_taken, without_members, LobbyError, LobbyErrorModel, LobbyJoinAccess,
    LobbyMember, LobbyMemberModel, LobbyMemberView, LobbyModel, LobbyRoom, LobbyRoomStatus,
    LobbyRoomView, LobbyRoomViewModel, LobbyService, ROOM_CODE_LEN,
};
use crate::proto::client::Seat;
use crate::text::{concat, same_text, to_upper, upper_char, upper_text};
use crate::tokens::{is_hex_char, is_random_id, random_id};

verus! {

/// A place that is found lies within the members, and the member there is the one wanted.
pub proof fn lemma_member_place(members: Seq<LobbyMemberModel>, user_id: Seq<char>)
    ensures
        match member_place(members, user_id) {
            Some(place) => 0 <= place < members.len() && members[place].user_id == user_id,
            None => forall|i: int| 0 <= i < members.len() ==> #[trigger] members[i].user_id != user_id,
        },
    decreases members.len(),
{
    if members.len() > 0 {
        let rest = members.drop_first();
        lemma_member_place(rest, user_id);
        if member_place(members, user_id) is None {
            assert forall|i: int| 0 <= i < members.len() implies #[trigger] members[i].user_id
                != user_id by {
                if i > 0 {
                    assert(rest[i - 1] == members[i]);
                }
            }
        }
    }
}

/// A place counted from another start.
pub open spec fn shifted(place: Option<int>, by: int) -> Option<int> {
    match place {
        Some(place) => Some(place + by),
        None => None,
    }
}

fn find_member(members: &Vec<LobbyMember>, user_id: &str) -> (r: Option<usize>)
    ensures
        member_place(views(members@), user_id@) == match r {
            Some(place) => Some(place as int),
            None => None,
        },
        r matches Some(place) ==> place < members@.len() && members@[place as int].user_id@ == user_id@,
{
    let ghost all = views(members@);
    let mut i: usize = 0;
    assert(all.skip(0) =~= all);
    while i < members.len()
        invariant
            i <= members.len(),
            all == views(members@),
            member_place(all, user_id@) == shifted(member_place(all.skip(i as int), user_id@), i as int),
        decreases members.len() - i,
    {
        assert(all.skip(i as int)[0] == members@[i as int]@);
        if same_text(members[i].user_id.as_str(), user_id) {
            return Some(i);
        }
        assert(all.skip(i as int).drop_first() =~= all.skip(i + 1));
        i = i + 1;
    }
    None
}

fn is_seat_taken(members: &Vec<LobbyMember>, seat: Seat) -> (r: bool)
    ensures
        r == seat_taken(views(members@), seat),
{
    let mut i: usize = 0;
    while i < members.len()
        invariant
            i <= members.len(),
            forall|j: int| 0 <= j < i ==> #[trigger] views(members@)[j].seat != seat,
        decreases members.len() - i,
    {
        assert(views(members@)[i as int].seat == members@[i as int].seat);
        if members[i].seat == seat {
            return true;
        }
        i = i + 1;
    }
    false
}

/// The first seat in the order of play that nobody has.
pub fn next_free_seat(members: &Vec<LobbyMember>) -> (r: Option<Seat>)
    ensures
        r == free_seat(views(members@)),
{
    if !is_seat_taken(members, Seat::East) {
        Some(Seat::East)
    } else if !is_seat_taken(members, Seat::South) {
        Some(Seat::South)
    } else if !is_seat_taken(members, Seat::West) {
        Some(Seat::West)
    } else if !is_seat_taken(members, Seat::North) {
        Some(Seat::North)
    } else {
        None
    }
}

fn are_all_ready(members: &Vec<LobbyMember>) -> (r: bool)
    ensures
        r == (forall|i: int| 0 <= i < views(members@).len() ==> #[trigger] views(members@)[i].ready),
{
    let mut i: usize = 0;
    while i < members.len()
        invariant
            i <= members.len(),
            forall|j: int| 0 <= j < i ==> #[trigger] views(members@)[j].ready,
        decreases members.len() - i,
    {
        assert(views(members@)[i as int].ready == members@[i as int].ready);
        if !members[i].ready {
            return false;
        }
        i = i + 1;
    }
    true
}

/// Puts a member behind everybody who was there before.
fn place_member(members: &mut Vec<LobbyMember>, member: LobbyMember)
    ensures
        views(final(members)@) == placed_member(views(old(members)@), member@),
    decreases old(members)@.len(),
{
    let ghost before = views(members@);
    let len: usize = members.len();
    if len == 0 || members[len - 1].joined_at_unix_ms <= member.joined_at_unix_ms {
        assert(len > 0 ==> before.last().joined_at_unix_ms == members@.last().joined_at_unix_ms);
        members.push(member);
        assert(views(members@) =~= before.push(member@));
    } else {
        let last = members.pop();
        assert(views(members@) =~= before.drop_last());
        if let Some(last) = last {
            place_member(members, member);
            let ghost middle = views(members@);
            members.push(last);
            assert(views(members@) =~= middle.push(last@));
        }
    }
}

fn sort_members(members: &Vec<LobbyMember>) -> (r: Vec<LobbyMember>)
    ensures
        views(r@) == by_arrival(views(members@)),
{
    let ghost all = views(members@);
    let mut sorted: Vec<LobbyMember> = Vec::new();
    let mut i: usize = 0;
    assert(views(sorted@) =~= all.take(0));
    while i < members.len()
        invariant
            i <= members.len(),
            all == views(members@),
            views(sorted@) == by_arrival(all.take(i as int)),
        decreases members.len() - i,
    {
        place_member(&mut sorted, members[i].clone());
        assert(all.take(i + 1).drop_last() =~= all.take(i as int));
        i = i + 1;
    }
    assert(all.take(i as int) =~= all);
    sorted
}

proof fn lemma_placed_member_len(members: Seq<LobbyMemberModel>, member: LobbyMemberModel)
    ensures
        placed_member(members, member).len() == members.len() + 1,
    decreases members.len(),
{
    if members.len() > 0 && members.last().joined_at_unix_ms > member.joined_at_unix_ms {
        lemma_placed_member_len(members.drop_last(), member);
    }
}

/// Sorting keeps the number of members.
pub proof fn lemma_by_arrival_len(members: Seq<LobbyMemberModel>)
    ensures
        by_arrival(members).len() == members.len(),
    decreases members.len(),
{
    if members.len() > 0 {
        lemma_by_arrival_len(members.drop_last());
        lemma_placed_member_len(by_arrival(members.drop_last()), members.last());
    }
}

fn to_member_view(member: &LobbyMember, owner_user_id: &str) -> (r: LobbyMemberView)
    ensures
        r@ == member_view(member@, owner_user_id@),
{
    LobbyMemberView {
        user_id: member.user_id.clone(),
        display_name: member.display_name.clone(),
        seat: String::from_str(member.seat.as_str_name()),
        ready: member.ready,
        is_owner: same_text(member.user_id.as_str(), owner_user_id),
    }
}

/// What is told of a room.
pub fn to_room_view(room: &LobbyRoom) -> (r: LobbyRoomView)
    ensures
        r@ == room_view(room@),
{
    let mut members: Vec<LobbyMemberView> = Vec::new();
    let ghost wanted = room_view(room@).members;
    let mut i: usize = 0;
    while i < room.members.len()
        invariant
            i <= room.members.len(),
            wanted == room_view(room@).members,
            wanted.len() == room.members@.len(),
            views(members@) == wanted.take(i as int),
        decreases room.members.len() - i,
    {
        let ghost before = members@;
        members.push(to_member_view(&room.members[i], room.owner_user_id.as_str()));
        assert(views(members@) =~= views(before).push(wanted[i as int]));
        assert(wanted.take(i + 1) =~= wanted.take(i as int).push(wanted[i as int]));
        i = i + 1;
    }
    assert(wanted.take(i as int) =~= wanted);
    LobbyRoomView {
        room_id: room.room_id.clone(),
        room_code: room.room_code.clone(),
        owner_user_id: room.owner_user_id.clone(),
        status: String::from_str(room.status.as_str()),
        current_match_id: room.current_match_id.clone(),
        config: room.config.clone(),
        members,
    }
}

fn to_member_record(member: &LobbyMember, room_id: &str) -> (r: RoomMemberRecord)
    ensures
        r@ == member_record(member@, room_id@),
{
    RoomMemberRecord {
        room_id: String::from_str(room_id),
        user_id: member.user_id.clone(),
        display_name: member.display_name.clone(),
        seat: String::from_str(member.seat.as_str_name()),
        joined_at_unix_ms: member.joined_at_unix_ms,
        ready: member.ready,
        kicked_at_unix_ms: member.kicked_at_unix_ms,
        left_at_unix_ms: member.left_at_unix_ms,
    }
}

fn member_to_seat(user_id: &str, display_name: &str, seat: Seat, now: u64) -> (r: LobbyMember)
    ensures
        r@ == new_member(user_id@, display_name@, seat, now),
{
    LobbyMember {
        user_id: String::from_str(user_id),
        display_name: String::from_str(display_name),
        seat,
        joined_at_unix_ms: now,
        ready: false,
        kicked_at_unix_ms: None,
        left_at_unix_ms: None,
    }
}

/// Whether a character is a hexadecimal digit in upper case.
pub open spec fn is_code_char(c: char) -> bool {
    '0' <= c <= '9' || 'A' <= c <= 'F'
}

/// Whether a text is a room code: six hexadecimal digits in upper case.
pub open spec fn is_room_code(code: Seq<char>) -> bool {
    code.len() == ROOM_CODE_LEN && forall|i: int|
        0 <= i < ROOM_CODE_LEN ==> is_code_char(#[trigger] code[i])
}

/// The room code that a random id gives: its first digits, in upper case.
pub open spec fn room_code_of(id: Seq<char>) -> Seq<char> {
    upper_text(id.take(ROOM_CODE_LEN as int))
}

/// Every random id gives a room code.
proof fn lemma_ids_give_codes(id: Seq<char>)
    requires
        is_random_id(id),
    ensures
        is_room_code(room_code_of(id)),
{
    let code = room_code_of(id);
    assert forall|i: int| 0 <= i < ROOM_CODE_LEN implies is_code_char(#[trigger] code[i]) by {
        assert(is_hex_char(id[i]));
        assert(code[i] == upper_char(id[i]));
    }
}

/// The room code that a random id gives, unless it is in use.
pub fn room_code_from(existing: &StrMap<String>, id: &str) -> (r: Option<String>)
    requires
        is_random_id(id@),
    ensures
        match r {
            Some(code) => code@ == room_code_of(id@) && !existing@.contains_key(room_code_of(id@)),
            None => existing@.contains_key(room_code_of(id@)),
        },
{
    let candidate = to_upper(id.substring_char(0, ROOM_CODE_LEN));
    assert(id@.subrange(0, ROOM_CODE_LEN as int) =~= id@.take(ROOM_CODE_LEN as int));
    if existing.contains_key(candidate.as_str()) {
        None
    } else {
        Some(candidate)
    }
}

/// Whether some ids are random ones whose room codes are all in use.
pub open spec fn all_refused(codes: Map<Seq<char>, Seq<char>>, ids: Seq<Seq<char>>) -> bool {
    forall|i: int|
        0 <= i < ids.len() ==> is_random_id(#[trigger] ids[i]) && codes.contains_key(
            room_code_of(ids[i]),
        )
}

/// Whether an id is a random one whose room code is the given one and is not in use.
pub open spec fn is_accepted(codes: Map<Seq<char>, Seq<char>>, id: Seq<char>, code: Seq<char>) -> bool {
    is_random_id(id) && code == room_code_of(id) && !codes.contains_key(code)
}

/// Whether a room code can be the first that is not in use of at most so many draws.
pub open spec fn was_drawn(codes: Map<Seq<char>, Seq<char>>, draws: u64, code: Seq<char>) -> bool {
    exists|refused: Seq<Seq<char>>, id: Seq<char>|
        refused.len() < draws && #[trigger] all_refused(codes, refused) && #[trigger] is_accepted(
            codes,
            id,
            code,
        )
}

/// Whether so many draws can all have been in use.
pub open spec fn were_refused(codes: Map<Seq<char>, Seq<char>>, draws: u64) -> bool {
    exists|refused: Seq<Seq<char>>|
        refused.len() == draws && #[trigger] all_refused(codes, refused)
}

/// Draws room codes until one is not in use, at most so many. Every draw before the one that is
/// taken was in use, and where none is taken all of them were.
pub fn draw_room_code(existing: &StrMap<String>, draws: u64) -> (r: Option<String>)
    ensures
        match r {
            Some(code) => was_drawn(existing@, draws, code@),
            None => were_refused(existing@, draws),
        },
        r matches Some(code) ==> is_room_code(code@) && !existing@.contains_key(code@),
{
    let ghost mut refused: Seq<Seq<char>> = Seq::empty();
    let mut left: u64 = draws;
    while left > 0
        invariant
            left <= draws,
            refused.len() == draws - left,
            all_refused(existing@, refused),
        decreases left,
    {
        let id = random_id();
        let drawn = room_code_from(existing, id.as_str());
        if let Some(code) = drawn {
            proof {
                lemma_ids_give_codes(id@);
                assert(all_refused(existing@, refused) && is_accepted(existing@, id@, code@));
            }
            return Some(code);
        }
        proof {
            let before = refused;
            refused = refused.push(id@);
            assert forall|i: int| 0 <= i < refused.len() implies is_random_id(
                #[trigger] refused[i],
            ) && existing@.contains_key(room_code_of(refused[i])) by {
                if i < before.len() {
                    assert(refused[i] == before[i]);
                }
            }
        }
        left = left - 1;
    }
    None
}

/// The digit of a room code for a number below sixteen.
pub open spec fn code_digit(n: int) -> char {
    if n < 10 {
        ((48 + n) as u32) as char
    } else {
        ((55 + n) as u32) as char
    }
}

/// The number for a digit of a room code.
pub open spec fn digit_number(c: char) -> int {
    if '0' <= c <= '9' {
        c as u32 - 48
    } else {
        c as u32 - 55
    }
}

/// How many room codes there are.
pub const ROOM_CODE_COUNT: u32 = 0x100_0000;

/// The room code at a place in their order.
pub open spec fn code_numbered(n: int) -> Seq<char> {
    seq![
        code_digit(n / 0x10_0000 % 16),
        code_digit(n / 0x1_0000 % 16),
        code_digit(n / 0x1000 % 16),
        code_digit(n / 0x100 % 16),
        code_digit(n / 0x10 % 16),
        code_digit(n % 16),
    ]
}

proof fn lemma_code_digit(n: int)
    requires
        0 <= n < 16,
    ensures
        is_code_char(code_digit(n)),
{
}

proof fn lemma_digit_number(c: char)
    requires
        is_code_char(c),
    ensures
        0 <= digit_number(c) < 16,
        code_digit(digit_number(c)) == c,
{
}

proof fn lemma_numbered_is_code(n: int)
    requires
        0 <= n < ROOM_CODE_COUNT,
    ensures
        is_room_code(code_numbered(n)),
{
    lemma_code_digit(n / 0x10_0000 % 16);
    lemma_code_digit(n / 0x1_0000 % 16);
    lemma_code_digit(n / 0x1000 % 16);
    lemma_code_digit(n / 0x100 % 16);
    lemma_code_digit(n / 0x10 % 16);
    lemma_code_digit(n % 16);
}

/// Six digits to the base sixteen are read back off their number.
proof fn lemma_digits_of(n: int, a: int, b: int, c: int, d: int, e: int, f: int)
    requires
        0 <= a < 16,
        0 <= b < 16,
        0 <= c < 16,
        0 <= d < 16,
        0 <= e < 16,
        0 <= f < 16,
        n == a * 0x10_0000 + b * 0x1_0000 + c * 0x1000 + d * 0x100 + e * 0x10 + f,
    ensures
        0 <= n < ROOM_CODE_COUNT,
        n / 0x10_0000 % 16 == a,
        n / 0x1_0000 % 16 == b,
        n / 0x1000 % 16 == c,
        n / 0x100 % 16 == d,
        n / 0x10 % 16 == e,
        n % 16 == f,
{
    assert(n / 0x10 == a * 0x1_0000 + b * 0x1000 + c * 0x100 + d * 0x10 + e);
    assert(n / 0x100 == a * 0x1000 + b * 0x100 + c * 0x10 + d);
    assert(n / 0x1000 == a * 0x100 + b * 0x10 + c);
    assert(n / 0x1_0000 == a * 0x10 + b);
    assert(n / 0x10_0000 == a);
}

/// Every room code has its place in their order.
proof fn lemma_code_has_number(code: Seq<char>) -> (n: int)
    requires
        is_room_code(code),
    ensures
        0 <= n < ROOM_CODE_COUNT,
        code == code_numbered(n),
{
    let a = digit_number(code[0]);
    let b = digit_number(code[1]);
    let c = digit_number(code[2]);
    let d = digit_number(code[3]);
    let e = digit_number(code[4]);
    let f = digit_number(code[5]);
    lemma_digit_number(code[0]);
    lemma_digit_number(code[1]);
    lemma_digit_number(code[2]);
    lemma_digit_number(code[3]);
    lemma_digit_number(code[4]);
    lemma_digit_number(code[5]);
    let n = a * 0x10_0000 + b * 0x1_0000 + c * 0x1000 + d * 0x100 + e * 0x10 + f;
    lemma_digits_of(n, a, b, c, d, e, f);
    assert(code =~= code_numbered(n));
    n
}

fn code_digit_text(n: u32) -> (r: &'static str)
    requires
        n < 16,
    ensures
        r@ == seq![code_digit(n as int)],
{
    proof {
        reveal_strlit("0123456789ABCDEF");
    }
    let digit: &'static str = "0123456789ABCDEF".substring_char(n as usize, n as usize + 1);
    assert(digit@ =~= seq![code_digit(n as int)]);
    digit
}

fn code_text(n: u32) -> (r: String)
    requires
        n < ROOM_CODE_COUNT,
    ensures
        r@ == code_numbered(n as int),
{
    let mut code = String::from_str(code_digit_text(n / 0x10_0000 % 16));
    code.append(code_digit_text(n / 0x1_0000 % 16));
    code.append(code_digit_text(n / 0x1000 % 16));
    code.append(code_digit_text(n / 0x100 % 16));
    code.append(code_digit_text(n / 0x10 % 16));
    code.append(code_digit_text(n % 16));
    assert(code@ =~= code_numbered(n as int));
    code
}

/// Whether the room codes before a place in their order are all in use.
pub open spec fn used_before(codes: Map<Seq<char>, Seq<char>>, n: int) -> bool {
    forall|m: int| 0 <= m < n ==> codes.contains_key(#[trigger] code_numbered(m))
}

/// Whether a room code is the first in their order that is not in use.
pub open spec fn is_first_free(codes: Map<Seq<char>, Seq<char>>, code: Seq<char>) -> bool {
    exists|n: int|
        0 <= n < ROOM_CODE_COUNT && code == #[trigger] code_numbered(n) && !codes.contains_key(code)
            && used_before(codes, n)
}

/// The first room code in their order that is not in use.
pub fn first_free_room_code(existing: &StrMap<String>) -> (r: Option<String>)
    ensures
        match r {
            Some(code) => is_first_free(existing@, code@),
            None => used_before(existing@, ROOM_CODE_COUNT as int),
        },
{
    let mut n: u32 = 0;
    while n < ROOM_CODE_COUNT
        invariant
            n <= ROOM_CODE_COUNT,
            used_before(existing@, n as int),
        decreases ROOM_CODE_COUNT - n,
    {
        let code = code_text(n);
        if !existing.contains_key(code.as_str()) {
            assert(code@ == code_numbered(n as int));
            return Some(code);
        }
        n = n + 1;
    }
    None
}

/// How often a room code is drawn before the codes are gone through one by one: sixteen times as
/// often as there are codes, so that one that is free hardly ever escapes.
pub const ROOM_CODE_DRAWS: u64 = 0x1000_0000;

/// Whether every room code is in use.
pub open spec fn no_code_is_free(codes: Map<Seq<char>, Seq<char>>) -> bool {
    forall|code: Seq<char>| #[trigger] is_room_code(code) ==> codes.contains_key(code)
}

/// A room code that is not in use: one that is drawn, or the first in their order where every draw
/// was in use. There is none just where every room code is in use.
pub fn next_room_code(existing: &StrMap<String>) -> (r: Option<String>)
    ensures
        match r {
            Some(code) => is_room_code(code@) && !existing@.contains_key(code@) && (was_drawn(
                existing@,
                ROOM_CODE_DRAWS,
                code@,
            ) || (were_refused(existing@, ROOM_CODE_DRAWS) && is_first_free(existing@, code@))),
            None => no_code_is_free(existing@),
        },
{
    let drawn = draw_room_code(existing, ROOM_CODE_DRAWS);
    if drawn.is_some() {
        return drawn;
    }
    let found = first_free_room_code(existing);
    proof {
        match &found {
            Some(code) => {
                let n = choose|n: int|
                    0 <= n < ROOM_CODE_COUNT && code@ == #[trigger] code_numbered(n)
                        && !existing@.contains_key(code@) && used_before(existing@, n);
                lemma_numbered_is_code(n);
            },
            None => {
                assert forall|code: Seq<char>| #[trigger]
                    is_room_code(code) implies existing@.contains_key(code) by {
                    let n = lemma_code_has_number(code);
                    assert(existing@.contains_key(code_numbered(n)));
                }
            },
        }
    }
    found
}

impl Default for LobbyService {
    fn default() -> (r: Self)
        ensures
            r@ == (LobbyModel { rooms: Map::empty(), codes: Map::empty(), users: Map::empty() }),
    {
        LobbyService {
            rooms_by_id: StrMap::new(),
            room_id_by_code: StrMap::new(),
            room_id_by_user: StrMap::new(),
        }
    }
}

impl LobbyService {
    /// Opens a room with a given id and code.
    pub fn create_room_as(
        &mut self,
        user_id: &str,
        display_name: &str,
        room_id: String,
        room_code: String,
        now: u64,
    ) -> (r: Result<LobbyRoomView, LobbyError>)
        ensures
            (final(self)@, lobby_result(r)) == old(self)@.created(
                user_id@,
                display_name@,
                room_id@,
                room_code@,
                now,
            ),
    {
        if self.room_id_by_user.contains_key(user_id) {
            return Err(LobbyError::AlreadyInRoom);
        }
        let owner = member_to_seat(user_id, display_name, Seat::East, now);
        let mut members: Vec<LobbyMember> = Vec::new();
        members.push(owner);
        assert(views(members@) =~= seq![owner@]);
        let room = LobbyRoom {
            room_id: room_id.clone(),
            room_code: room_code.clone(),
            owner_user_id: String::from_str(user_id),
            status: LobbyRoomStatus::Waiting,
            config: default_lobby_room_config(),
            current_match_id: None,
            members,
            created_at_unix_ms: now,
        };
        assert(room@ =~= fresh_room(user_id@, display_name@, room_id@, room_code@, now));
        let view = to_room_view(&room);
        self.room_id_by_user.insert(String::from_str(user_id), room_id.clone());
        self.room_id_by_code.insert(room_code, room_id.clone());
        self.rooms_by_id.insert(room_id, room);
        Ok(view)
    }

    /// Opens a room with a random id and a room code that is not in use. A user who is in no room gets
    /// one, unless every room code is in use.
    pub fn create_room(&mut self, user_id: &str, display_name: &str, now: u64) -> (r: Result<
        LobbyRoomView,
        LobbyError,
    >)
        ensures
            old(self)@.users.contains_key(user_id@) ==> lobby_result(r) == Err::<
                LobbyRoomViewModel,
                LobbyErrorModel,
            >(LobbyErrorModel::AlreadyInRoom) && *final(self) == *old(self),
            !old(self)@.users.contains_key(user_id@) && no_code_is_free(old(self)@.codes)
                ==> lobby_result(r) == Err::<LobbyRoomViewModel, LobbyErrorModel>(
                LobbyErrorModel::Storage("no unused room code was found"@),
            ) && *final(self) == *old(self),
            !old(self)@.users.contains_key(user_id@) && !no_code_is_free(old(self)@.codes)
                ==> r is Ok && exists|id: Seq<char>, room_code: Seq<char>|
                {
                    &&& #[trigger] is_random_id(id)
                    &&& #[trigger] is_room_code(room_code)
                    &&& !old(self)@.codes.contains_key(room_code)
                    &&& (final(self)@, lobby_result(r)) == old(self)@.created(
                        user_id@,
                        display_name@,
                        "room_"@ + id,
                        room_code,
                        now,
                    )
                },
    {
        if self.room_id_by_user.contains_key(user_id) {
            return Err(LobbyError::AlreadyInRoom);
        }
        let id = random_id();
        match next_room_code(&self.room_id_by_code) {
            None => Err(
                LobbyError::Storage(String::from_str("no unused room code was found")),
            ),
            Some(room_code) => {
                assert(is_random_id(id@) && is_room_code(room_code@));
                self.create_room_as(
                    user_id,
                    display_name,
                    concat("room_", id.as_str()),
                    room_code,
                    now,
                )
            },
        }
    }

    /// Lets a user into the room with a code, on the first seat that is free.
    pub fn join_room(&mut self, user_id: &str, display_name: &str, room_code: &str, now: u64) -> (r:
        Result<LobbyRoomView, LobbyError>)
        ensures
            (final(self)@, lobby_result(r)) == old(self)@.joined(
                user_id@,
                display_name@,
                room_code@,
                now,
            ),
    {
        if self.room_id_by_user.contains_key(user_id) {
            return Err(LobbyError::AlreadyInRoom);
        }
        let code = to_upper(room_code);
        let room_id: String = match self.room_id_by_code.get(code.as_str()) {
            None => {
                return Err(LobbyError::InvalidRoomCode);
            },
            Some(room_id) => room_id.clone(),
        };
        let mut room: LobbyRoom = match self.rooms_by_id.get(room_id.as_str()) {
            None => {
                return Err(LobbyError::RoomNotFound);
            },
            Some(room) => room.clone(),
        };
        if room.status != LobbyRoomStatus::Waiting {
            return Err(LobbyError::RoomAlreadyActive);
        }
        if room.members.len() >= room.config.seat_count as usize {
            return Err(LobbyError::RoomFull);
        }
        let seat = match next_free_seat(&room.members) {
            None => {
                return Err(LobbyError::RoomFull);
            },
            Some(seat) => seat,
        };
        let ghost before = room@;
        let member = member_to_seat(user_id, display_name, seat, now);
        room.members.push(member);
        assert(views(room.members@) =~= before.members.push(member@));
        let view = to_room_view(&room);
        self.rooms_by_id.insert(room_id.clone(), room);
        self.room_id_by_user.insert(String::from_str(user_id), room_id);
        Ok(view)
    }

    /// What a member is told of the room.
    pub fn get_room_for_user(&self, user_id: &str, room_id: &str) -> (r: Result<
        LobbyRoomView,
        LobbyError,
    >)
        ensures
            lobby_result(r) == self@.told(user_id@, room_id@),
    {
        match self.rooms_by_id.get(room_id) {
            None => Err(LobbyError::RoomNotFound),
            Some(room) => match find_member(&room.members, user_id) {
                None => Err(LobbyError::NotRoomMember),
                Some(_) => Ok(to_room_view(room)),
            },
        }
    }

    /// The room that waits, where there is one.
    fn waiting_room(&self, room_id: &str) -> (r: Result<LobbyRoom, LobbyError>)
        ensures
            lobby_result(r) == if !self@.rooms.contains_key(room_id@) {
                Err(LobbyErrorModel::RoomNotFound)
            } else if self@.rooms[room_id@].status != LobbyRoomStatus::Waiting {
                Err(LobbyErrorModel::RoomAlreadyActive)
            } else {
                Ok(self@.rooms[room_id@])
            },
    {
        match self.rooms_by_id.get(room_id) {
            None => Err(LobbyError::RoomNotFound),
            Some(room) => if room.status != LobbyRoomStatus::Waiting {
                Err(LobbyError::RoomAlreadyActive)
            } else {
                Ok(room.clone())
            },
        }
    }

    /// Lets a member go; returns what is left of the room.
    pub fn leave_room(&mut self, user_id: &str, room_id: &str) -> (r: Result<
        Option<LobbyRoomView>,
        LobbyError,
    >)
        ensures
            (final(self)@, lobby_optional(r)) == old(self)@.left(user_id@, room_id@),
    {
        let mut room = match self.waiting_room(room_id) {
            Err(error) => {
                return Err(error);
            },
            Ok(room) => room,
        };
        let place: usize = match find_member(&room.members, user_id) {
            None => {
                return Err(LobbyError::NotRoomMember);
            },
            Some(place) => place,
        };
        let was_owner: bool = same_text(room.owner_user_id.as_str(), user_id);
        let ghost before = room@;
        room.members.remove(place);
        assert(views(room.members@) =~= before.members.remove(place as int));
        self.room_id_by_user.remove(user_id);
        if room.members.len() == 0 {
            self.rooms_by_id.remove(room_id);
            self.room_id_by_code.remove(room.room_code.as_str());
            return Ok(None);
        }
        if was_owner {
            proof {
                lemma_by_arrival_len(views(room.members@));
            }
            let members = sort_members(&room.members);
            assert(members@.len() == views(members@).len());
            room.owner_user_id = members[0].user_id.clone();
            room.members = members;
        }
        let view = to_room_view(&room);
        self.rooms_by_id.insert(String::from_str(room_id), room);
        Ok(Some(view))
    }

    /// Makes a member go, as the owner wishes.
    pub fn kick_member(&mut self, owner_user_id: &str, room_id: &str, target_user_id: &str) -> (r:
        Result<LobbyRoomView, LobbyError>)
        ensures
            (final(self)@, lobby_result(r)) == old(self)@.kicked(
                owner_user_id@,
                room_id@,
                target_user_id@,
            ),
    {
        if same_text(owner_user_id, target_user_id) {
            return Err(LobbyError::CannotKickSelf);
        }
        let mut room = match self.waiting_room(room_id) {
            Err(error) => {
                return Err(error);
            },
            Ok(room) => room,
        };
        if !same_text(room.owner_user_id.as_str(), owner_user_id) {
            return Err(LobbyError::NotRoomOwner);
        }
        let place: usize = match find_member(&room.members, target_user_id) {
            None => {
                return Err(LobbyError::NotRoomMember);
            },
            Some(place) => place,
        };
        let ghost before = room@;
        room.members.remove(place);
        assert(views(room.members@) =~= before.members.remove(place as int));
        let view = to_room_view(&room);
        self.room_id_by_user.remove(target_user_id);
        self.rooms_by_id.insert(String::from_str(room_id), room);
        Ok(view)
    }

    fn forget_members(&mut self, members: &Vec<LobbyMember>)
        ensures
            final(self)@ == (LobbyModel {
                users: without_members(old(self)@.users, views(members@)),
                ..old(self)@
            }),
    {
        let ghost before = self@;
        let ghost all = views(members@);
        let mut i: usize = 0;
        while i < members.len()
            invariant
                i <= members.len(),
                all == views(members@),
                self@ == (LobbyModel {
                    users: without_members(before.users, all.take(i as int)),
                    ..before
                }),
            decreases members.len() - i,
        {
            self.room_id_by_user.remove(members[i].user_id.as_str());
            assert(all.take(i + 1).drop_last() =~= all.take(i as int));
            i = i + 1;
        }
        assert(all.take(i as int) =~= all);
    }

    /// Closes a room, as the owner wishes.
    pub fn disband_room(&mut self, owner_user_id: &str, room_id: &str) -> (r: Result<(), LobbyError>)
        ensures
            (final(self)@, lobby_plain(r)) == old(self)@.disbanded(owner_user_id@, room_id@),
    {
        let room = match self.waiting_room(room_id) {
            Err(error) => {
                return Err(error);
            },
            Ok(room) => room,
        };
        if !same_text(room.owner_user_id.as_str(), owner_user_id) {
            return Err(LobbyError::NotRoomOwner);
        }
        self.forget_members(&room.members);
        self.room_id_by_code.remove(room.room_code.as_str());
        self.rooms_by_id.remove(room_id);
        Ok(())
    }

    /// Whether a user may enter a room, and at which seat.
    pub fn authorize_room_entry(&self, room_id: &str, user_id: &str) -> (r: Result<
        LobbyJoinAccess,
        LobbyError,
    >)
        ensures
            lobby_result(r) == self@.access(room_id@, user_id@),
    {
        match self.rooms_by_id.get(room_id) {
            None => Err(LobbyError::RoomNotFound),
            Some(room) => match find_member(&room.members, user_id) {
                None => Err(LobbyError::NotRoomMember),
                Some(place) => {
                    assert(room@.members[place as int] == room.members@[place as int]@);
                    Ok(
                        LobbyJoinAccess {
                            user_id: room.members[place].user_id.clone(),
                            seat: room.members[place].seat,
                        },
                    )
                },
            },
        }
    }

    /// Sets the ready mark of a member; tells whether the match starts with that.
    pub fn set_member_ready(&mut self, room_id: &str, user_id: &str, ready: bool) -> (r: Result<
        bool,
        LobbyError,
    >)
        ensures
            (final(self)@, lobby_plain(r)) == old(self)@.marked_ready(room_id@, user_id@, ready),
    {
        let mut room = match self.waiting_room(room_id) {
            Err(LobbyError::RoomAlreadyActive) => {
                return Ok(false);
            },
            Err(error) => {
                return Err(error);
            },
            Ok(room) => room,
        };
        let place: usize = match find_member(&room.members, user_id) {
            None => {
                return Err(LobbyError::NotRoomMember);
            },
            Some(place) => place,
        };
        let ghost before = room@;
        let mut member = room.members[place].clone();
        member.ready = ready;
        room.members.set(place, member);
        assert(views(room.members@) =~= before.members.update(place as int, member@));
        let all_ready: bool = room.members.len() == room.config.seat_count as usize
            && are_all_ready(&room.members);
        assert(all_ready == everybody_ready(room@));
        if all_ready {
            room.status = LobbyRoomStatus::Active;
            room.current_match_id = Some(concat("match-", room.room_id.as_str()));
        }
        self.rooms_by_id.insert(String::from_str(room_id), room);
        Ok(all_ready)
    }

    /// The members of a room, as stored; none where there is no such room.
    pub fn snapshot_room_member_records(&self, room_id: &str) -> (r: Vec<RoomMemberRecord>)
        ensures
            views(r@) == self@.member_records(room_id@),
    {
        let mut records: Vec<RoomMemberRecord> = Vec::new();
        assert(views(records@) =~= Seq::<RoomMemberRecordModel>::empty());
        match self.rooms_by_id.get(room_id) {
            None => records,
            Some(room) => {
                let ghost wanted = self@.member_records(room_id@);
                let mut i: usize = 0;
                assert(wanted.take(0) =~= Seq::<RoomMemberRecordModel>::empty());
                while i < room.members.len()
                    invariant
                        i <= room.members.len(),
                        wanted.len() == room.members@.len(),
                        forall|j: int|
                            0 <= j < wanted.len() ==> #[trigger] wanted[j] == member_record(
                                room.members@[j]@,
                                room.room_id@,
                            ),
                        views(records@) == wanted.take(i as int),
                    decreases room.members.len() - i,
                {
                    let ghost before = records@;
                    records.push(to_member_record(&room.members[i], room.room_id.as_str()));
                    assert(views(records@) =~= views(before).push(wanted[i as int]));
                    assert(wanted.take(i + 1) =~= wanted.take(i as int).push(wanted[i as int]));
                    i = i + 1;
                }
                assert(wanted.take(i as int) =~= wanted);
                records
            },
        }
    }
}

} // verus!
