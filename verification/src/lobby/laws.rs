//! What the lobby promises.

use vstd::prelude::*;

use crate::lobby::service::lemma_member_place;
use crate::lobby::{
    by_arrival, everybody_ready, fresh_room, free_seat, member_place, new_member, placed_member,
    seat_taken, without_members, LobbyMemberModel, LobbyModel, LobbyRoomModel, LobbyRoomStatus,
};
use crate::proto::client::Seat;
use crate::text::upper_text;

verus! {

/// Whether two members are different users on different seats.
pub open spec fn unlike(first: LobbyMemberModel, second: LobbyMemberModel) -> bool {
    first.user_id != second.user_id && first.seat != second.seat
}

/// Whether no two members are the same user or have the same seat, and every seat is a real one.
pub open spec fn well_seated(members: Seq<LobbyMemberModel>) -> bool {
    &&& forall|i: int|
        0 <= i < members.len() ==> (#[trigger] members[i]).seat != Seat::Unspecified
    &&& forall|i: int, j: int|
        0 <= i < j < members.len() ==> unlike(
            #[trigger] members[i],
            #[trigger] members[j],
        )
}

impl LobbyModel {
    /// Whether a room is what its id, its code and its members lead to.
    pub open spec fn room_consistent(self, id: Seq<char>) -> bool {
        let room = self.rooms[id];
        &&& room.room_id == id
        &&& self.codes.contains_key(room.room_code)
        &&& self.codes[room.room_code] == id
        &&& well_seated(room.members)
        &&& member_place(room.members, room.owner_user_id) is Some
        &&& forall|i: int|
            0 <= i < room.members.len() ==> self.users.contains_key(
                (#[trigger] room.members[i]).user_id,
            ) && self.users[room.members[i].user_id] == id
    }

    /// Whether the rooms, the codes and the users lead to each other.
    pub open spec fn consistent(self) -> bool {
        &&& forall|id: Seq<char>| #[trigger]
            self.rooms.contains_key(id) ==> self.room_consistent(id)
        &&& forall|user: Seq<char>| #[trigger]
            self.users.contains_key(user) ==> self.rooms.contains_key(self.users[user])
                && member_place(self.rooms[self.users[user]].members, user) is Some
        &&& forall|code: Seq<char>| #[trigger]
            self.codes.contains_key(code) ==> self.rooms.contains_key(self.codes[code])
                && self.rooms[self.codes[code]].room_code == code
    }
}

/// A place exists where somebody among the members is the user.
proof fn lemma_member_found(members: Seq<LobbyMemberModel>, at: int)
    requires
        0 <= at < members.len(),
    ensures
        member_place(members, members[at].user_id) is Some,
{
    lemma_member_place(members, members[at].user_id);
}

/// Nobody is in two rooms.
pub proof fn law_one_room_per_user(lobby: LobbyModel, user: Seq<char>, first: Seq<char>, second: Seq<char>)
    requires
        lobby.consistent(),
        lobby.rooms.contains_key(first),
        lobby.rooms.contains_key(second),
        member_place(lobby.rooms[first].members, user) is Some,
        member_place(lobby.rooms[second].members, user) is Some,
    ensures
        first == second,
{
    lemma_member_place(lobby.rooms[first].members, user);
    lemma_member_place(lobby.rooms[second].members, user);
    assert(lobby.room_consistent(first) && lobby.room_consistent(second));
}

/// The empty lobby is consistent.
pub proof fn law_empty_lobby_is_consistent()
    ensures
        (LobbyModel { rooms: Map::empty(), codes: Map::empty(), users: Map::empty() }).consistent(),
{
}

/// Opening a room under an id and a code that are not in use keeps the lobby consistent.
pub proof fn law_creating_keeps_consistency(
    lobby: LobbyModel,
    user_id: Seq<char>,
    display_name: Seq<char>,
    room_id: Seq<char>,
    room_code: Seq<char>,
    now: u64,
)
    requires
        lobby.consistent(),
        !lobby.rooms.contains_key(room_id),
        !lobby.codes.contains_key(room_code),
    ensures
        lobby.created(user_id, display_name, room_id, room_code, now).0.consistent(),
{
    let after = lobby.created(user_id, display_name, room_id, room_code, now).0;
    if !lobby.users.contains_key(user_id) {
        let room = fresh_room(user_id, display_name, room_id, room_code, now);
        lemma_member_found(room.members, 0);
        assert forall|id: Seq<char>| #[trigger] after.rooms.contains_key(id) implies after.room_consistent(
            id,
        ) by {
            if id != room_id {
                assert(lobby.room_consistent(id));
            }
        }
    }
}

proof fn lemma_pushed_member(members: Seq<LobbyMemberModel>, member: LobbyMemberModel, user: Seq<char>)
    ensures
        member_place(members, user) is Some ==> member_place(members.push(member), user) is Some,
        member_place(members.push(member), member.user_id) is Some,
{
    lemma_member_place(members, user);
    lemma_member_place(members.push(member), user);
    lemma_member_place(members.push(member), member.user_id);
    let more = members.push(member);
    assert(more[members.len() as int].user_id == member.user_id);
    if let Some(place) = member_place(members, user) {
        assert(more[place].user_id == user);
    }
}

/// Joining keeps the lobby consistent.
pub proof fn law_joining_keeps_consistency(
    lobby: LobbyModel,
    user_id: Seq<char>,
    display_name: Seq<char>,
    room_code: Seq<char>,
    now: u64,
)
    requires
        lobby.consistent(),
    ensures
        lobby.joined(user_id, display_name, room_code, now).0.consistent(),
{
    let (after, result) = lobby.joined(user_id, display_name, room_code, now);
    if result is Ok {
        let room_id = lobby.codes[upper_text(room_code)];
        let room = lobby.rooms[room_id];
        let seat = free_seat(room.members)->0;
        let member = new_member(user_id, display_name, seat, now);
        let more = room.members.push(member);
        assert(lobby.room_consistent(room_id));
        lemma_pushed_member(room.members, member, room.owner_user_id);
        assert(!seat_taken(room.members, seat));
        assert forall|i: int, j: int| 0 <= i < j < more.len() implies unlike(
            #[trigger] more[i],
            #[trigger] more[j],
        ) by {
            assert(room.members[i].seat != seat);
            assert(lobby.users.contains_key(room.members[i].user_id));
        }
        assert forall|id: Seq<char>| #[trigger] after.rooms.contains_key(id) implies after.room_consistent(
            id,
        ) by {
            assert(lobby.room_consistent(id));
            if id == room_id {
                assert forall|i: int| 0 <= i < more.len() implies after.users.contains_key(
                    (#[trigger] more[i]).user_id,
                ) && after.users[more[i].user_id] == id by {
                    if i < room.members.len() {
                        assert(more[i] == room.members[i]);
                    }
                }
            } else {
                let other = lobby.rooms[id];
                assert forall|i: int| 0 <= i < other.members.len() implies after.users.contains_key(
                    (#[trigger] other.members[i]).user_id,
                ) && after.users[other.members[i].user_id] == id by {
                    assert(lobby.users.contains_key(other.members[i].user_id));
                }
            }
        }
        assert forall|user: Seq<char>| #[trigger] after.users.contains_key(user) implies after.rooms.contains_key(
            after.users[user],
        ) && member_place(after.rooms[after.users[user]].members, user) is Some by {
            lemma_pushed_member(room.members, member, user);
        }
    }
}

/// Taking somebody out leaves everybody else, and nobody else.
proof fn lemma_removed_member(members: Seq<LobbyMemberModel>, place: int, user: Seq<char>)
    requires
        well_seated(members),
        0 <= place < members.len(),
    ensures
        well_seated(members.remove(place)),
        user != members[place].user_id ==> (member_place(members.remove(place), user) is Some
            <==> member_place(members, user) is Some),
        member_place(members.remove(place), members[place].user_id) is None,
{
    let rest = members.remove(place);
    assert forall|i: int| 0 <= i < rest.len() implies #[trigger] rest[i] == members[if i < place {
        i
    } else {
        i + 1
    }] by {}
    lemma_member_place(members, user);
    lemma_member_place(rest, user);
    lemma_member_place(rest, members[place].user_id);
    if let Some(at) = member_place(members, user) {
        if at != place {
            assert(rest[if at < place {
                at
            } else {
                at - 1
            }] == members[at]);
        }
    }
    if let Some(at) = member_place(rest, members[place].user_id) {
        let from = if at < place {
            at
        } else {
            at + 1
        };
        assert(rest[at] == members[from]);
    }
    if let Some(at) = member_place(rest, user) {
        let from = if at < place {
            at
        } else {
            at + 1
        };
        assert(rest[at] == members[from]);
    }
}

/// What holds after a member went, and the rest of the room has a new owner or a new order.
proof fn lemma_member_gone(
    lobby: LobbyModel,
    room_id: Seq<char>,
    place: int,
    after_room: LobbyRoomModel,
    user_id: Seq<char>,
)
    requires
        lobby.consistent(),
        lobby.rooms.contains_key(room_id),
        0 <= place < lobby.rooms[room_id].members.len(),
        lobby.rooms[room_id].members[place].user_id == user_id,
        after_room.room_id == room_id,
        after_room.room_code == lobby.rooms[room_id].room_code,
        well_seated(after_room.members),
        member_place(after_room.members, after_room.owner_user_id) is Some,
        forall|x: LobbyMemberModel|
            after_room.members.contains(x) <==> lobby.rooms[room_id].members.remove(place).contains(x),
    ensures
        (LobbyModel {
            rooms: lobby.rooms.insert(room_id, after_room),
            users: lobby.users.remove(user_id),
            ..lobby
        }).consistent(),
{
    let room = lobby.rooms[room_id];
    let rest = room.members.remove(place);
    let after = LobbyModel {
        rooms: lobby.rooms.insert(room_id, after_room),
        users: lobby.users.remove(user_id),
        ..lobby
    };
    assert(lobby.room_consistent(room_id));
    lemma_removed_member(room.members, place, user_id);
    lemma_member_place(rest, user_id);
    assert forall|id: Seq<char>| #[trigger] after.rooms.contains_key(id) implies after.room_consistent(
        id,
    ) by {
        assert(lobby.room_consistent(id));
        if id == room_id {
            assert forall|i: int| 0 <= i < after_room.members.len() implies after.users.contains_key(
                (#[trigger] after_room.members[i]).user_id,
            ) && after.users[after_room.members[i].user_id] == id by {
                assert(after_room.members.contains(after_room.members[i]));
                assert(rest.contains(after_room.members[i]));
                let k = choose|k: int| 0 <= k < rest.len() && rest[k] == after_room.members[i];
                assert(rest[k].user_id != user_id);
                assert(rest[k] == room.members[if k < place {
                    k
                } else {
                    k + 1
                }]);
            }
        } else {
            let other = lobby.rooms[id];
            assert forall|i: int| 0 <= i < other.members.len() implies after.users.contains_key(
                (#[trigger] other.members[i]).user_id,
            ) && after.users[other.members[i].user_id] == id by {
                assert(lobby.users[other.members[i].user_id] == id);
                assert(lobby.users[room.members[place].user_id] == room_id);
            }
        }
    }
    assert forall|user: Seq<char>| #[trigger] after.users.contains_key(user) implies after.rooms.contains_key(
        after.users[user],
    ) && member_place(after.rooms[after.users[user]].members, user) is Some by {
        assert(lobby.users.contains_key(user));
        if after.users[user] == room_id {
            lemma_removed_member(room.members, place, user);
            lemma_member_place(rest, user);
            let k = member_place(rest, user)->0;
            assert(rest.contains(rest[k]));
            assert(after_room.members.contains(rest[k]));
            let at = choose|at: int|
                0 <= at < after_room.members.len() && after_room.members[at] == rest[k];
            lemma_member_found(after_room.members, at);
        }
    }
}

proof fn lemma_placed_member(members: Seq<LobbyMemberModel>, member: LobbyMemberModel)
    ensures
        placed_member(members, member).len() == members.len() + 1,
        forall|x: LobbyMemberModel| #[trigger]
            placed_member(members, member).contains(x) <==> members.contains(x) || x == member,
        well_seated(members.push(member)) ==> well_seated(placed_member(members, member)),
    decreases members.len(),
{
    let placed = placed_member(members, member);
    if members.len() == 0 || members.last().joined_at_unix_ms <= member.joined_at_unix_ms {
        assert forall|x: LobbyMemberModel| #[trigger] placed.contains(x) <==> members.contains(x) || x
            == member by {
            if members.contains(x) {
                let i = choose|i: int| 0 <= i < members.len() && members[i] == x;
                assert(placed[i] == x);
            }
            if x == member {
                assert(placed[members.len() as int] == x);
            }
        }
    } else {
        let rest = members.drop_last();
        let last = members.last();
        lemma_placed_member(rest, member);
        let inner = placed_member(rest, member);
        assert forall|x: LobbyMemberModel| #[trigger] placed.contains(x) <==> members.contains(x) || x
            == member by {
            if placed.contains(x) {
                let i = choose|i: int| 0 <= i < placed.len() && placed[i] == x;
                if i < inner.len() {
                    assert(inner[i] == x);
                    assert(inner.contains(x));
                    if rest.contains(x) {
                        let k = choose|k: int| 0 <= k < rest.len() && rest[k] == x;
                        assert(members[k] == x);
                    }
                } else {
                    assert(members[members.len() - 1] == x);
                }
            }
            if members.contains(x) || x == member {
                if members.contains(x) {
                    let k = choose|k: int| 0 <= k < members.len() && members[k] == x;
                    if k < rest.len() {
                        assert(rest[k] == x);
                        assert(rest.contains(x));
                    } else {
                        assert(placed[inner.len() as int] == x);
                    }
                }
                if inner.contains(x) {
                    let k = choose|k: int| 0 <= k < inner.len() && inner[k] == x;
                    assert(placed[k] == x);
                }
            }
        }
        if well_seated(members.push(member)) {
            let more = members.push(member);
            let less = rest.push(member);
            assert forall|i: int| 0 <= i < less.len() implies #[trigger] less[i] == more[if i
                < rest.len() {
                i
            } else {
                i + 1
            }] by {}
            assert(well_seated(less));
            assert forall|i: int, j: int| 0 <= i < j < placed.len() implies unlike(
            #[trigger] placed[i],
            #[trigger] placed[j],
        ) by {
                if j == inner.len() {
                    assert(inner.contains(inner[i]));
                    if rest.contains(inner[i]) {
                        let k = choose|k: int| 0 <= k < rest.len() && rest[k] == inner[i];
                        assert(more[k] == inner[i]);
                        assert(unlike(more[k], more[members.len() - 1]));
                    } else {
                        assert(unlike(more[members.len() - 1], more[members.len() as int]));
                    }
                } else {
                    assert(placed[i] == inner[i] && placed[j] == inner[j]);
                }
            }
            assert forall|i: int| 0 <= i < placed.len() implies (#[trigger] placed[i]).seat
                != Seat::Unspecified by {
                if i < inner.len() {
                    assert(inner[i].seat != Seat::Unspecified);
                } else {
                    assert(more[members.len() - 1].seat != Seat::Unspecified);
                }
            }
        }
    }
}

/// Sorting members by arrival keeps exactly the same members.
pub proof fn law_by_arrival_keeps_members(members: Seq<LobbyMemberModel>)
    ensures
        by_arrival(members).len() == members.len(),
        forall|x: LobbyMemberModel| #[trigger]
            by_arrival(members).contains(x) <==> members.contains(x),
        well_seated(members) ==> well_seated(by_arrival(members)),
    decreases members.len(),
{
    if members.len() > 0 {
        let rest = members.drop_last();
        let last = members.last();
        law_by_arrival_keeps_members(rest);
        let sorted = by_arrival(rest);
        lemma_placed_member(sorted, last);
        assert forall|x: LobbyMemberModel| #[trigger] by_arrival(members).contains(x)
            <==> members.contains(x) by {
            if members.contains(x) {
                let k = choose|k: int| 0 <= k < members.len() && members[k] == x;
                if k < rest.len() {
                    assert(rest[k] == x);
                    assert(rest.contains(x));
                    assert(sorted.contains(x));
                }
            }
            if by_arrival(members).contains(x) {
                if sorted.contains(x) {
                    assert(rest.contains(x));
                    let k = choose|k: int| 0 <= k < rest.len() && rest[k] == x;
                    assert(members[k] == x);
                } else {
                    assert(members[members.len() - 1] == x);
                }
            }
        }
        if well_seated(members) {
            assert forall|i: int| 0 <= i < rest.len() implies #[trigger] rest[i] == members[i] by {}
            assert(well_seated(rest));
            let more = sorted.push(last);
            assert forall|i: int, j: int| 0 <= i < j < more.len() implies unlike(
            #[trigger] more[i],
            #[trigger] more[j],
        ) by {
                if j == sorted.len() {
                    assert(sorted.contains(sorted[i]));
                    assert(rest.contains(sorted[i]));
                    let k = choose|k: int| 0 <= k < rest.len() && rest[k] == sorted[i];
                    assert(unlike(members[k], members[members.len() - 1]));
                } else {
                    assert(more[i] == sorted[i] && more[j] == sorted[j]);
                }
            }
            assert forall|i: int| 0 <= i < more.len() implies (#[trigger] more[i]).seat
                != Seat::Unspecified by {
                if i < sorted.len() {
                    assert(more[i] == sorted[i]);
                } else {
                    assert(members[members.len() - 1].seat != Seat::Unspecified);
                }
            }
            assert(well_seated(more));
        }
    }
}

proof fn lemma_placed_in_order(members: Seq<LobbyMemberModel>, member: LobbyMemberModel)
    requires
        forall|i: int, j: int|
            0 <= i <= j < members.len() ==> (#[trigger] members[i]).joined_at_unix_ms
                <= (#[trigger] members[j]).joined_at_unix_ms,
    ensures
        forall|i: int, j: int|
            0 <= i <= j < placed_member(members, member).len() ==> (#[trigger] placed_member(
                members,
                member,
            )[i]).joined_at_unix_ms <= (#[trigger] placed_member(members, member)[j]).joined_at_unix_ms,
    decreases members.len(),
{
    let placed = placed_member(members, member);
    if members.len() == 0 || members.last().joined_at_unix_ms <= member.joined_at_unix_ms {
        assert forall|i: int, j: int| 0 <= i <= j < placed.len() implies (
        #[trigger] placed[i]).joined_at_unix_ms <= (#[trigger] placed[j]).joined_at_unix_ms by {
            if j == members.len() && i < members.len() {
                assert(members[i].joined_at_unix_ms <= members[members.len() - 1].joined_at_unix_ms);
            }
        }
    } else {
        let rest = members.drop_last();
        lemma_placed_in_order(rest, member);
        lemma_placed_member(rest, member);
        let inner = placed_member(rest, member);
        assert forall|i: int, j: int| 0 <= i <= j < placed.len() implies (
        #[trigger] placed[i]).joined_at_unix_ms <= (#[trigger] placed[j]).joined_at_unix_ms by {
            if j == inner.len() && i < inner.len() {
                assert(inner.contains(inner[i]));
                if rest.contains(inner[i]) {
                    let k = choose|k: int| 0 <= k < rest.len() && rest[k] == inner[i];
                    assert(members[k].joined_at_unix_ms <= members[members.len()
                        - 1].joined_at_unix_ms);
                }
            } else if i < inner.len() {
                assert(placed[i] == inner[i] && placed[j] == inner[j]);
            }
        }
    }
}

/// Members sorted by arrival stand in the order in which they came.
pub proof fn law_by_arrival_is_in_order(members: Seq<LobbyMemberModel>)
    ensures
        forall|i: int, j: int|
            0 <= i <= j < by_arrival(members).len() ==> (#[trigger] by_arrival(
                members,
            )[i]).joined_at_unix_ms <= (#[trigger] by_arrival(members)[j]).joined_at_unix_ms,
    decreases members.len(),
{
    if members.len() > 0 {
        law_by_arrival_is_in_order(members.drop_last());
        lemma_placed_in_order(by_arrival(members.drop_last()), members.last());
    }
}

/// Whether a lobby is consistent once an empty room and its code are gone.
proof fn lemma_room_gone(lobby: LobbyModel, room_id: Seq<char>, users: Map<Seq<char>, Seq<char>>)
    requires
        lobby.consistent(),
        lobby.rooms.contains_key(room_id),
        forall|user: Seq<char>| #[trigger]
            users.contains_key(user) <==> lobby.users.contains_key(user) && lobby.users[user] != room_id,
        forall|user: Seq<char>| #[trigger] users.contains_key(user) ==> users[user] == lobby.users[user],
    ensures
        (LobbyModel {
            rooms: lobby.rooms.remove(room_id),
            codes: lobby.codes.remove(lobby.rooms[room_id].room_code),
            users,
        }).consistent(),
{
    let room = lobby.rooms[room_id];
    let after = LobbyModel {
        rooms: lobby.rooms.remove(room_id),
        codes: lobby.codes.remove(room.room_code),
        users,
    };
    assert(lobby.room_consistent(room_id));
    assert forall|id: Seq<char>| #[trigger] after.rooms.contains_key(id) implies after.room_consistent(
        id,
    ) by {
        assert(lobby.room_consistent(id));
        let other = lobby.rooms[id];
        assert forall|i: int| 0 <= i < other.members.len() implies after.users.contains_key(
            (#[trigger] other.members[i]).user_id,
        ) && after.users[other.members[i].user_id] == id by {
            assert(lobby.users.contains_key(other.members[i].user_id));
        }
    }
}

/// Leaving keeps the lobby consistent, whoever leaves; and one who has left is in no room.
pub proof fn law_leaving_keeps_consistency(lobby: LobbyModel, user_id: Seq<char>, room_id: Seq<char>)
    requires
        lobby.consistent(),
    ensures
        lobby.left(user_id, room_id).0.consistent(),
        lobby.left(user_id, room_id).1 is Ok ==> !lobby.left(user_id, room_id).0.users.contains_key(
            user_id,
        ),
        lobby.left(user_id, room_id).1 is Err ==> lobby.left(user_id, room_id).0 == lobby,
{
    let (after, result) = lobby.left(user_id, room_id);
    if result is Ok {
        let room = lobby.rooms[room_id];
        lemma_member_place(room.members, user_id);
        let place = member_place(room.members, user_id)->0;
        let rest = room.members.remove(place);
        assert(lobby.room_consistent(room_id));
        lemma_removed_member(room.members, place, room.owner_user_id);
        if rest.len() == 0 {
            let users = lobby.users.remove(user_id);
            assert forall|user: Seq<char>| #[trigger] users.contains_key(user)
                <==> lobby.users.contains_key(user) && lobby.users[user] != room_id by {
                if lobby.users.contains_key(user) && lobby.users[user] == room_id {
                    lemma_member_place(room.members, user);
                    assert(member_place(room.members, user) is Some);
                }
                if user == user_id {
                    assert(lobby.users[room.members[place].user_id] == room_id);
                }
            }
            lemma_room_gone(lobby, room_id, users);
        } else {
            let after_room = after.rooms[room_id];
            law_by_arrival_keeps_members(rest);
            if room.owner_user_id == user_id {
                lemma_member_found(after_room.members, 0);
            }
            lemma_member_gone(lobby, room_id, place, after_room, user_id);
        }
    }
}

/// Kicking keeps the lobby consistent, and the owner stays.
pub proof fn law_kicking_keeps_consistency(
    lobby: LobbyModel,
    owner_user_id: Seq<char>,
    room_id: Seq<char>,
    target: Seq<char>,
)
    requires
        lobby.consistent(),
    ensures
        lobby.kicked(owner_user_id, room_id, target).0.consistent(),
        lobby.kicked(owner_user_id, room_id, target).1 is Ok ==> !lobby.kicked(
            owner_user_id,
            room_id,
            target,
        ).0.users.contains_key(target),
        lobby.kicked(owner_user_id, room_id, target).1 is Err ==> lobby.kicked(
            owner_user_id,
            room_id,
            target,
        ).0 == lobby,
{
    let (after, result) = lobby.kicked(owner_user_id, room_id, target);
    if result is Ok {
        let room = lobby.rooms[room_id];
        lemma_member_place(room.members, target);
        let place = member_place(room.members, target)->0;
        assert(lobby.room_consistent(room_id));
        lemma_removed_member(room.members, place, room.owner_user_id);
        lemma_member_gone(lobby, room_id, place, after.rooms[room_id], target);
    }
}

proof fn lemma_without_members(
    users: Map<Seq<char>, Seq<char>>,
    members: Seq<LobbyMemberModel>,
    user: Seq<char>,
)
    ensures
        without_members(users, members).contains_key(user) <==> users.contains_key(user)
            && member_place(members, user) is None,
        without_members(users, members).contains_key(user) ==> without_members(users, members)[user]
            == users[user],
    decreases members.len(),
{
    lemma_member_place(members, user);
    if members.len() > 0 {
        let rest = members.drop_last();
        lemma_without_members(users, rest, user);
        lemma_member_place(rest, user);
        if let Some(place) = member_place(rest, user) {
            assert(members[place].user_id == user);
        }
        if let Some(place) = member_place(members, user) {
            if place < rest.len() {
                assert(rest[place].user_id == user);
            }
        } else {
            assert(members[members.len() - 1].user_id != user);
        }
    }
}

/// Closing a room keeps the lobby consistent, and frees everybody who was in it.
pub proof fn law_disbanding_keeps_consistency(lobby: LobbyModel, owner_user_id: Seq<char>, room_id: Seq<char>)
    requires
        lobby.consistent(),
    ensures
        lobby.disbanded(owner_user_id, room_id).0.consistent(),
        lobby.disbanded(owner_user_id, room_id).1 is Ok ==> forall|user: Seq<char>|
            member_place(lobby.rooms[room_id].members, user) is Some
                ==> !(#[trigger] lobby.disbanded(owner_user_id, room_id).0.users.contains_key(user)),
{
    let (after, result) = lobby.disbanded(owner_user_id, room_id);
    if result is Ok {
        let room = lobby.rooms[room_id];
        assert(lobby.room_consistent(room_id));
        assert forall|user: Seq<char>| #[trigger] after.users.contains_key(user)
            <==> lobby.users.contains_key(user) && lobby.users[user] != room_id by {
            lemma_without_members(lobby.users, room.members, user);
            lemma_member_place(room.members, user);
            if let Some(place) = member_place(room.members, user) {
                assert(lobby.users[room.members[place].user_id] == room_id);
            }
        }
        assert forall|user: Seq<char>| #[trigger] after.users.contains_key(user) implies after.users[user]
            == lobby.users[user] by {
            lemma_without_members(lobby.users, room.members, user);
        }
        lemma_room_gone(lobby, room_id, after.users);
        assert forall|user: Seq<char>| member_place(room.members, user) is Some implies !(
        #[trigger] after.users.contains_key(user)) by {
            lemma_without_members(lobby.users, room.members, user);
        }
    }
}

/// A ready mark keeps the lobby consistent. A room is taken exactly when its last seat is filled and
/// everybody in it is ready, and stays so.
pub proof fn law_readiness_keeps_consistency(
    lobby: LobbyModel,
    room_id: Seq<char>,
    user_id: Seq<char>,
    ready: bool,
)
    requires
        lobby.consistent(),
    ensures
        lobby.marked_ready(room_id, user_id, ready).0.consistent(),
        lobby.marked_ready(room_id, user_id, ready).1 == Ok::<bool, crate::lobby::LobbyErrorModel>(true)
            ==> lobby.marked_ready(room_id, user_id, ready).0.rooms[room_id].status
            == LobbyRoomStatus::Active && everybody_ready(
            lobby.marked_ready(room_id, user_id, ready).0.rooms[room_id],
        ),
        lobby.rooms.contains_key(room_id) && lobby.rooms[room_id].status != LobbyRoomStatus::Waiting
            ==> lobby.marked_ready(room_id, user_id, ready).0 == lobby,
{
    let (after, result) = lobby.marked_ready(room_id, user_id, ready);
    if after != lobby {
        let room = lobby.rooms[room_id];
        lemma_member_place(room.members, user_id);
        assert(lobby.room_consistent(room_id));
        let after_room = after.rooms[room_id];
        assert forall|user: Seq<char>| member_place(room.members, user) is Some implies #[trigger] member_place(
            after_room.members,
            user,
        ) is Some by {
            lemma_member_place(room.members, user);
            let place = member_place(room.members, user)->0;
            assert(after_room.members[place].user_id == user);
            lemma_member_found(after_room.members, place);
        }
        assert(well_seated(after_room.members)) by {
            assert forall|i: int, j: int| 0 <= i < j < after_room.members.len() implies unlike(
            #[trigger] after_room.members[i],
            #[trigger] after_room.members[j],
        ) by {
                assert(unlike(room.members[i], room.members[j]));
            }
            assert forall|i: int| 0 <= i < after_room.members.len() implies (
            #[trigger] after_room.members[i]).seat != Seat::Unspecified by {
                assert(room.members[i].seat != Seat::Unspecified);
            }
        }
        assert forall|id: Seq<char>| #[trigger] after.rooms.contains_key(id) implies after.room_consistent(
            id,
        ) by {
            assert(lobby.room_consistent(id));
            if id == room_id {
                assert forall|i: int| 0 <= i < after_room.members.len() implies after.users.contains_key(
                    (#[trigger] after_room.members[i]).user_id,
                ) && after.users[after_room.members[i].user_id] == id by {
                    assert(lobby.users.contains_key(room.members[i].user_id));
                }
            }
        }
    }
}

} // verus!
