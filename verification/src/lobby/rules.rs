//! What the lobby promises its users.

use vstd::prelude::*;

use crate::lobby::laws::{law_by_arrival_is_in_order, law_by_arrival_keeps_members};
use crate::lobby::service::lemma_member_place;
use crate::lobby::{
    by_arrival, free_seat, member_place, room_view, seat_taken, LobbyMemberModel, LobbyModel,
    LobbyRoomModel, LobbyRoomStatus, LobbyRoomViewModel,
};
use crate::proto::client::Seat;
use crate::text::{upper_char, upper_text};

verus! {

/// Whether a user is among some members.
pub open spec fn is_among(members: Seq<LobbyMemberModel>, user_id: Seq<char>) -> bool {
    exists|i: int| 0 <= i < members.len() && #[trigger] members[i].user_id == user_id
}

proof fn lemma_among(members: Seq<LobbyMemberModel>, user_id: Seq<char>)
    ensures
        is_among(members, user_id) <==> member_place(members, user_id) is Some,
        member_place(members, user_id) matches Some(place) ==> 0 <= place < members.len()
            && members[place].user_id == user_id,
{
    lemma_member_place(members, user_id);
}

// ---------------------------------------------------------------------------
// Coming in
// ---------------------------------------------------------------------------

/// A user who is in no room can open one, and owns it: they wait at East, alone and not ready, and
/// the room's code leads to it. Whoever is in a room already cannot, and nothing changes.
pub proof fn law_opening_a_room(
    lobby: LobbyModel,
    user_id: Seq<char>,
    display_name: Seq<char>,
    room_id: Seq<char>,
    room_code: Seq<char>,
    now: u64,
)
    ensures
        ({
            let (after, reply) = lobby.created(user_id, display_name, room_id, room_code, now);
            &&& reply is Ok <==> !lobby.users.contains_key(user_id)
            &&& reply matches Err(error) ==> error is AlreadyInRoom && after == lobby
            &&& reply matches Ok(told) ==> {
                let room = after.rooms[room_id];
                let owner = room.members[0];
                &&& after.rooms.contains_key(room_id)
                &&& after.codes.contains_key(room_code) && after.codes[room_code] == room_id
                &&& after.users.contains_key(user_id) && after.users[user_id] == room_id
                &&& room.room_id == room_id && room.room_code == room_code
                &&& room.owner_user_id == user_id
                &&& room.status is Waiting && room.current_match_id is None
                &&& room.config.seat_count == 4
                &&& room.members.len() == 1
                &&& owner.user_id == user_id && owner.display_name == display_name
                &&& owner.seat == Seat::East && !owner.ready && owner.joined_at_unix_ms == now
                &&& forall|other: Seq<char>|
                    other != room_id ==> (#[trigger] after.rooms.contains_key(other)
                        == lobby.rooms.contains_key(other)) && (lobby.rooms.contains_key(other)
                        ==> after.rooms[other] == lobby.rooms[other])
                &&& shows_room(told, room)
            }
        }),
{
    if !lobby.users.contains_key(user_id) {
        lemma_shows(lobby.created(user_id, display_name, room_id, room_code, now).0.rooms[room_id]);
    }
}

/// Whether what is told of a room is how it is: its id, code, owner, status, match and settings, and
/// every member in order, by name and seat, ready or not, the owner marked.
pub open spec fn shows_room(told: LobbyRoomViewModel, room: LobbyRoomModel) -> bool {
    &&& told.room_id == room.room_id
    &&& told.room_code == room.room_code
    &&& told.owner_user_id == room.owner_user_id
    &&& told.status == (match room.status {
        LobbyRoomStatus::Waiting => "waiting"@,
        LobbyRoomStatus::Active => "active"@,
        LobbyRoomStatus::Closed => "closed"@,
    })
    &&& told.current_match_id == room.current_match_id
    &&& told.config == room.config
    &&& told.members.len() == room.members.len()
    &&& forall|i: int|
        0 <= i < room.members.len() ==> {
            let member = #[trigger] told.members[i];
            &&& member.user_id == room.members[i].user_id
            &&& member.display_name == room.members[i].display_name
            &&& member.seat == room.members[i].seat.name()
            &&& member.ready == room.members[i].ready
            &&& member.is_owner <==> room.members[i].user_id == room.owner_user_id
        }
}

proof fn lemma_shows(room: LobbyRoomModel)
    ensures
        shows_room(room_view(room), room),
{
}

/// A room code may be typed in any case.
pub proof fn law_codes_ignore_case(
    lobby: LobbyModel,
    user_id: Seq<char>,
    display_name: Seq<char>,
    room_code: Seq<char>,
    typed: Seq<char>,
    now: u64,
)
    requires
        upper_text(typed) == upper_text(room_code),
    ensures
        lobby.joined(user_id, display_name, typed, now) == lobby.joined(
            user_id,
            display_name,
            room_code,
            now,
        ),
        lobby.joined(user_id, display_name, typed, now) == lobby.joined(
            user_id,
            display_name,
            upper_text(room_code),
            now,
        ),
{
    assert forall|c: char| #[trigger] upper_char(upper_char(c)) == upper_char(c) by {}
    assert(upper_text(upper_text(room_code)) =~= upper_text(room_code));
}

/// Whether a user may come into a room: it waits for players and has a seat to spare.
pub open spec fn has_room_for_one(room: LobbyRoomModel) -> bool {
    &&& room.status is Waiting
    &&& room.members.len() < room.config.seat_count
    &&& exists|seat: Seat| seat != Seat::Unspecified && !#[trigger] seat_taken(room.members, seat)
}

/// A user who is in no room and names the code of a room that waits and has a seat to spare comes
/// in, and nobody else does. They come last, not ready, and get the first seat in the order of play
/// that nobody has; everybody else stays as they are. Whoever is refused changes nothing.
pub proof fn law_joining_a_room(
    lobby: LobbyModel,
    user_id: Seq<char>,
    display_name: Seq<char>,
    room_code: Seq<char>,
    now: u64,
)
    ensures
        ({
            let code = upper_text(room_code);
            let room_id = lobby.codes[code];
            let before = lobby.rooms[room_id];
            let (after, reply) = lobby.joined(user_id, display_name, room_code, now);
            &&& reply is Ok <==> !lobby.users.contains_key(user_id) && lobby.codes.contains_key(code)
                && lobby.rooms.contains_key(room_id) && has_room_for_one(before)
            &&& reply matches Err(error) ==> {
                &&& after == lobby
                &&& error is AlreadyInRoom <==> lobby.users.contains_key(user_id)
                &&& error is InvalidRoomCode ==> !lobby.codes.contains_key(code)
                &&& error is RoomAlreadyActive ==> !(before.status is Waiting)
                &&& error is RoomFull ==> !has_room_for_one(before)
                &&& error is AlreadyInRoom || error is InvalidRoomCode || error is RoomNotFound
                    || error is RoomAlreadyActive || error is RoomFull
            }
            &&& reply matches Ok(told) ==> {
                let room = after.rooms[room_id];
                let member = room.members.last();
                &&& after.rooms.contains_key(room_id)
                &&& after.users.contains_key(user_id) && after.users[user_id] == room_id
                &&& after.codes == lobby.codes
                &&& room.members.len() == before.members.len() + 1
                &&& room.members.drop_last() == before.members
                &&& room.owner_user_id == before.owner_user_id && room.status is Waiting
                    && room.room_id == before.room_id && room.room_code == before.room_code
                &&& member.user_id == user_id && member.display_name == display_name
                    && !member.ready && member.joined_at_unix_ms == now
                &&& member.seat != Seat::Unspecified && !seat_taken(before.members, member.seat)
                &&& forall|seat: Seat|
                    seat != Seat::Unspecified && seat.code() < member.seat.code() ==> #[trigger]
                        seat_taken(before.members, seat)
                &&& shows_room(told, room)
            }
        }),
{
    let code = upper_text(room_code);
    let room_id = lobby.codes[code];
    let before = lobby.rooms[room_id];
    let (after, reply) = lobby.joined(user_id, display_name, room_code, now);
    assert(has_room_for_one(before) ==> free_seat(before.members) is Some);
    if free_seat(before.members) is Some {
        let seat = free_seat(before.members)->0;
        assert(seat != Seat::Unspecified && !seat_taken(before.members, seat));
    }
    if reply is Ok {
        let room = after.rooms[room_id];
        assert(room.members.drop_last() =~= before.members);
        lemma_shows(room);
    }
}

// ---------------------------------------------------------------------------
// Going
// ---------------------------------------------------------------------------

/// Whether one list of members is another without a user: everybody else is there, as they were.
pub open spec fn all_but(
    before: Seq<LobbyMemberModel>,
    after: Seq<LobbyMemberModel>,
    user_id: Seq<char>,
) -> bool {
    &&& after.len() == before.len() - 1
    &&& forall|member: LobbyMemberModel| #[trigger]
        before.contains(member) && member.user_id != user_id ==> after.contains(member)
    &&& forall|member: LobbyMemberModel| #[trigger] after.contains(member) ==> before.contains(member)
}

proof fn lemma_removed(members: Seq<LobbyMemberModel>, place: int)
    requires
        0 <= place < members.len(),
    ensures
        all_but(members, members.remove(place), members[place].user_id),
{
    let rest = members.remove(place);
    let user_id = members[place].user_id;
    assert forall|member: LobbyMemberModel| #[trigger]
        members.contains(member) && member.user_id != user_id implies rest.contains(member) by {
        let i = choose|i: int| 0 <= i < members.len() && members[i] == member;
        if i < place {
            assert(rest[i] == member);
        } else {
            assert(rest[i - 1] == member);
        }
    }
    assert forall|member: LobbyMemberModel| #[trigger] rest.contains(member) implies members.contains(
        member,
    ) by {
        let i = choose|i: int| 0 <= i < rest.len() && rest[i] == member;
        if i < place {
            assert(members[i] == member);
        } else {
            assert(members[i + 1] == member);
        }
    }
}

/// A member of a waiting room can leave it, and nobody else can. The others stay as they were. An
/// owner who leaves is followed by whoever of the others came first, anybody else who leaves changes
/// no owner, and a room that nobody is left in is gone together with its code. Whoever is refused
/// changes nothing.
pub proof fn law_leaving_a_room(lobby: LobbyModel, user_id: Seq<char>, room_id: Seq<char>)
    ensures
        ({
            let before = lobby.rooms[room_id];
            let (after, reply) = lobby.left(user_id, room_id);
            &&& reply is Ok <==> lobby.rooms.contains_key(room_id) && before.status is Waiting
                && is_among(before.members, user_id)
            &&& reply matches Err(error) ==> after == lobby && (error is RoomNotFound
                <==> !lobby.rooms.contains_key(room_id))
            &&& reply is Ok ==> !after.users.contains_key(user_id)
            &&& reply matches Ok(None) ==> {
                &&& before.members.len() == 1
                &&& !after.rooms.contains_key(room_id)
                &&& !after.codes.contains_key(before.room_code)
            }
            &&& reply matches Ok(Some(told)) ==> {
                let room = after.rooms[room_id];
                &&& before.members.len() > 1
                &&& after.rooms.contains_key(room_id)
                &&& after.codes == lobby.codes
                &&& all_but(before.members, room.members, user_id)
                &&& room.status is Waiting && room.room_code == before.room_code && room.config
                    == before.config
                &&& before.owner_user_id != user_id ==> room.owner_user_id == before.owner_user_id
                &&& before.owner_user_id == user_id ==> exists|i: int| {
                    &&& 0 <= i < room.members.len()
                    &&& (#[trigger] room.members[i]).user_id == room.owner_user_id
                    &&& forall|j: int|
                        0 <= j < room.members.len() ==> room.members[i].joined_at_unix_ms <= (
                        #[trigger] room.members[j]).joined_at_unix_ms
                }
                &&& shows_room(told, room)
            }
        }),
{
    let before = lobby.rooms[room_id];
    let (after, reply) = lobby.left(user_id, room_id);
    lemma_among(before.members, user_id);
    if reply is Ok {
        let place = member_place(before.members, user_id)->0;
        let rest = before.members.remove(place);
        lemma_removed(before.members, place);
        if rest.len() > 0 {
            let room = after.rooms[room_id];
            lemma_shows(room);
            if before.owner_user_id == user_id {
                law_by_arrival_keeps_members(rest);
                law_by_arrival_is_in_order(rest);
                assert(room.members == by_arrival(rest));
                assert(room.members[0].user_id == room.owner_user_id);
                assert(all_but(before.members, room.members, user_id));
            }
        }
    }
}

/// The owner of a waiting room can make another member go, and nobody else can make anybody go. The
/// others stay as they were, and so does the owner. Whoever is refused changes nothing.
pub proof fn law_kicking_a_member(
    lobby: LobbyModel,
    owner_user_id: Seq<char>,
    room_id: Seq<char>,
    target: Seq<char>,
)
    ensures
        ({
            let before = lobby.rooms[room_id];
            let (after, reply) = lobby.kicked(owner_user_id, room_id, target);
            &&& reply is Ok <==> owner_user_id != target && lobby.rooms.contains_key(room_id)
                && before.status is Waiting && before.owner_user_id == owner_user_id && is_among(
                before.members,
                target,
            )
            &&& reply matches Err(error) ==> after == lobby && (error is CannotKickSelf
                <==> owner_user_id == target)
            &&& reply matches Ok(told) ==> {
                let room = after.rooms[room_id];
                &&& after.rooms.contains_key(room_id)
                &&& after.codes == lobby.codes
                &&& !after.users.contains_key(target)
                &&& after.users == lobby.users.remove(target)
                &&& all_but(before.members, room.members, target)
                &&& room == (LobbyRoomModel { members: room.members, ..before })
                &&& shows_room(told, room)
            }
        }),
{
    let before = lobby.rooms[room_id];
    let (after, reply) = lobby.kicked(owner_user_id, room_id, target);
    lemma_among(before.members, target);
    if reply is Ok {
        lemma_removed(before.members, member_place(before.members, target)->0);
        lemma_shows(after.rooms[room_id]);
    }
}

/// The owner of a waiting room can close it, and nobody else can. The room and its code are gone,
/// its members are in no room, and nobody else is touched. Whoever is refused changes nothing.
pub proof fn law_closing_a_room(
    lobby: LobbyModel,
    owner_user_id: Seq<char>,
    room_id: Seq<char>,
    user: Seq<char>,
)
    ensures
        ({
            let before = lobby.rooms[room_id];
            let (after, reply) = lobby.disbanded(owner_user_id, room_id);
            &&& reply is Ok <==> lobby.rooms.contains_key(room_id) && before.status is Waiting
                && before.owner_user_id == owner_user_id
            &&& reply is Err ==> after == lobby
            &&& reply is Ok ==> {
                &&& after.rooms == lobby.rooms.remove(room_id)
                &&& after.codes == lobby.codes.remove(before.room_code)
                &&& is_among(before.members, user) ==> !after.users.contains_key(user)
                &&& !is_among(before.members, user) ==> after.users.contains_key(user)
                    == lobby.users.contains_key(user) && (lobby.users.contains_key(user)
                    ==> after.users[user] == lobby.users[user])
            }
        }),
{
    let before = lobby.rooms[room_id];
    lemma_without(lobby.users, before.members, user);
}

proof fn lemma_without(
    users: Map<Seq<char>, Seq<char>>,
    members: Seq<LobbyMemberModel>,
    user: Seq<char>,
)
    ensures
        ({
            let after = crate::lobby::without_members(users, members);
            &&& is_among(members, user) ==> !after.contains_key(user)
            &&& !is_among(members, user) ==> after.contains_key(user) == users.contains_key(user)
                && (users.contains_key(user) ==> after[user] == users[user])
        }),
    decreases members.len(),
{
    if members.len() > 0 {
        let fewer = members.drop_last();
        lemma_without(users, fewer, user);
        if is_among(members, user) {
            let i = choose|i: int| 0 <= i < members.len() && #[trigger] members[i].user_id == user;
            if i < fewer.len() {
                assert(fewer[i].user_id == user);
            }
        }
        if is_among(fewer, user) {
            let i = choose|i: int| 0 <= i < fewer.len() && #[trigger] fewer[i].user_id == user;
            assert(members[i].user_id == user);
        }
        if members.last().user_id == user {
            assert(members[members.len() - 1].user_id == user);
        }
    }
}

// ---------------------------------------------------------------------------
// Ready
// ---------------------------------------------------------------------------

/// A member of a waiting room can say whether they are ready, which changes nobody else's mark. The
/// room is taken, and its match named, just when as many members as it has seats are there and all
/// of them are ready; that is also what the answer says. In a room that does not wait a mark has no
/// effect, and nobody but a member can set one.
pub proof fn law_getting_ready(lobby: LobbyModel, room_id: Seq<char>, user_id: Seq<char>, ready: bool)
    ensures
        ({
            let before = lobby.rooms[room_id];
            let (after, reply) = lobby.marked_ready(room_id, user_id, ready);
            &&& after.users == lobby.users && after.codes == lobby.codes
            &&& reply is Err ==> after == lobby
            &&& reply matches Err(error) ==> error is RoomNotFound || error is NotRoomMember
            &&& reply is Err <==> !lobby.rooms.contains_key(room_id) || (before.status is Waiting
                && !is_among(before.members, user_id))
            &&& reply is Ok && !(before.status is Waiting) ==> after == lobby && reply->Ok_0 == false
            &&& reply is Ok && before.status is Waiting ==> {
                let room = after.rooms[room_id];
                &&& after.rooms.contains_key(room_id)
                &&& room.members.len() == before.members.len()
                &&& room.owner_user_id == before.owner_user_id && room.room_id == before.room_id
                    && room.room_code == before.room_code
                &&& forall|i: int|
                    0 <= i < before.members.len() ==> {
                        let member = #[trigger] room.members[i];
                        &&& member == (LobbyMemberModel { ready: member.ready, ..before.members[i] })
                        &&& before.members[i].user_id != user_id ==> member.ready
                            == before.members[i].ready
                    }
                &&& exists|i: int|
                    0 <= i < room.members.len() && (#[trigger] room.members[i]).user_id == user_id
                        && room.members[i].ready == ready
                &&& reply->Ok_0 <==> room.members.len() == room.config.seat_count && forall|i: int|
                    0 <= i < room.members.len() ==> (#[trigger] room.members[i]).ready
                &&& reply->Ok_0 ==> room.status is Active && room.current_match_id == Some(
                    "match-"@ + before.room_id,
                )
                &&& !reply->Ok_0 ==> room.status is Waiting && room.current_match_id
                    == before.current_match_id
            }
        }),
{
    let before = lobby.rooms[room_id];
    let (after, reply) = lobby.marked_ready(room_id, user_id, ready);
    lemma_among(before.members, user_id);
    if reply is Ok && before.status is Waiting {
        let place = member_place(before.members, user_id)->0;
        let room = after.rooms[room_id];
        assert(room.members[place].user_id == user_id && room.members[place].ready == ready);
    }
}

/// A member may enter the room at their own seat, and is told of it; nobody else may or is.
pub proof fn law_members_have_access(lobby: LobbyModel, room_id: Seq<char>, user_id: Seq<char>)
    ensures
        ({
            let room = lobby.rooms[room_id];
            &&& lobby.access(room_id, user_id) is Ok <==> lobby.rooms.contains_key(room_id)
                && is_among(room.members, user_id)
            &&& lobby.access(room_id, user_id) matches Ok(access) ==> access.user_id == user_id
                && exists|i: int|
                0 <= i < room.members.len() && (#[trigger] room.members[i]).user_id == user_id
                    && room.members[i].seat == access.seat
            &&& lobby.told(user_id, room_id) is Ok <==> lobby.rooms.contains_key(room_id)
                && is_among(room.members, user_id)
            &&& lobby.told(user_id, room_id) matches Ok(told) ==> shows_room(told, room)
            &&& lobby.access(room_id, user_id) matches Err(error) ==> (error is RoomNotFound
                <==> !lobby.rooms.contains_key(room_id)) && (error is NotRoomMember
                <==> lobby.rooms.contains_key(room_id))
        }),
{
    let room = lobby.rooms[room_id];
    lemma_among(room.members, user_id);
    lemma_shows(room);
}

} // verus!
