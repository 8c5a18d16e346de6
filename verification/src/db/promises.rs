//! What is stored stands for what it was made of, and obeys the rules of the lobby.

use vstd::prelude::*;

use crate::db::digest::{payload_number, payload_text, replay_kind};
use crate::db::models::{
    MatchRecordModel, MatchStatusRecord, NewMatchEventRecordModel, ReplayEventKind,
    RoomMemberRecordModel, RoomSnapshotRecordModel, RoomStatusRecord,
};
use crate::db::queries::{may_replay, seated_in, shown_match, takes_part};
use crate::db::rooms::{
    aggregate_of, disbanding_allowed, is_stored_member, kicking_allowed, leaving_allowed,
    marking_allowed, members_of, room_of, seating_members, seating_payload, stored_all_ready,
    stored_free_seat, stored_seat, with_member, with_names,
};
use crate::json::{lemma_member_added, JsonModel};
use crate::lobby::rules::is_among;
use crate::lobby::service::lemma_member_place;
use crate::lobby::{
    free_seat, member_record, LobbyErrorModel, LobbyMemberModel, LobbyModel, LobbyRoomModel,
};
use crate::proto::client::Seat;

verus! {

// ---------------------------------------------------------------------------
// Reading back
// ---------------------------------------------------------------------------

/// A seat that was stored by its name is read back.
pub proof fn law_seats_survive_storage(seat: Seat)
    requires
        seat != Seat::Unspecified,
    ensures
        stored_seat(seat.name()) is Ok,
        stored_seat(seat.name())->Ok_0 == seat,
{
    reveal_strlit("SEAT_EAST");
    reveal_strlit("SEAT_SOUTH");
    reveal_strlit("SEAT_WEST");
    reveal_strlit("SEAT_NORTH");
    assert("SEAT_EAST"@[5] == 'E');
    assert("SEAT_SOUTH"@[5] == 'S');
    assert("SEAT_WEST"@[5] == 'W');
    assert("SEAT_NORTH"@[5] == 'N');
}

/// The members of a room that were stored are read back, in order and unchanged.
pub proof fn law_members_survive_storage(members: Seq<LobbyMemberModel>, room_id: Seq<char>)
    requires
        forall|i: int| 0 <= i < members.len() ==> (#[trigger] members[i]).seat != Seat::Unspecified,
    ensures
        members_of(Seq::new(members.len(), |i: int| member_record(members[i], room_id))) is Ok,
        members_of(
            Seq::new(members.len(), |i: int| member_record(members[i], room_id)),
        )->Ok_0 == members,
    decreases members.len(),
{
    let records = Seq::new(members.len(), |i: int| member_record(members[i], room_id));
    if members.len() > 0 {
        let fewer = members.drop_last();
        assert forall|i: int| 0 <= i < fewer.len() implies (#[trigger] fewer[i]).seat
            != Seat::Unspecified by {
            assert(members[i].seat != Seat::Unspecified);
        }
        law_members_survive_storage(fewer, room_id);
        assert(records.drop_last() =~= Seq::new(
            fewer.len(),
            |i: int| member_record(fewer[i], room_id),
        ));
        assert(members[members.len() - 1].seat != Seat::Unspecified);
        law_seats_survive_storage(members.last().seat);
        assert(members =~= fewer.push(members.last()));
    } else {
        assert(members =~= Seq::<LobbyMemberModel>::empty());
    }
}

// ---------------------------------------------------------------------------
// Stored rooms and the lobby
// ---------------------------------------------------------------------------

proof fn lemma_members_of(records: Seq<RoomMemberRecordModel>, i: int)
    requires
        members_of(records) is Ok,
    ensures
        members_of(records)->Ok_0.len() == records.len(),
        0 <= i < records.len() ==> {
            let member = members_of(records)->Ok_0[i];
            &&& member.user_id == records[i].user_id
            &&& member.display_name == records[i].display_name
            &&& member.ready == records[i].ready
            &&& member.joined_at_unix_ms == records[i].joined_at_unix_ms
            &&& stored_seat(records[i].seat) is Ok && member.seat == stored_seat(
                records[i].seat,
            )->Ok_0
        },
    decreases records.len(),
{
    if records.len() > 0 {
        lemma_members_of(records.drop_last(), i);
    }
}

proof fn lemma_stored_member(records: Seq<RoomMemberRecordModel>, user_id: Seq<char>)
    requires
        members_of(records) is Ok,
    ensures
        is_stored_member(records, user_id) <==> is_among(members_of(records)->Ok_0, user_id),
{
    let members = members_of(records)->Ok_0;
    lemma_members_of(records, 0);
    if is_stored_member(records, user_id) {
        let i = choose|i: int| 0 <= i < records.len() && (#[trigger] records[i]).user_id == user_id;
        lemma_members_of(records, i);
        assert(members[i].user_id == user_id);
    }
    if is_among(members, user_id) {
        let i = choose|i: int| 0 <= i < members.len() && #[trigger] members[i].user_id == user_id;
        lemma_members_of(records, i);
        assert(records[i].user_id == user_id);
    }
}

/// A stored room lets its members leave, be made to go, close it and get ready just where the lobby
/// would do so with that room, and refuses for the same reasons.
pub proof fn law_stored_rooms_follow_the_lobby(
    lobby: LobbyModel,
    snapshot: RoomSnapshotRecordModel,
    user_id: Seq<char>,
    target: Seq<char>,
    ready: bool,
)
    requires
        lobby.rooms.contains_key(snapshot.room.room_id),
        room_of(snapshot) is Ok,
        room_of(snapshot)->Ok_0 == lobby.rooms[snapshot.room.room_id],
    ensures
        ({
            let id = snapshot.room.room_id;
            let left = lobby.left(user_id, id).1;
            let kicked = lobby.kicked(user_id, id, target).1;
            let closed = lobby.disbanded(user_id, id).1;
            let marked = lobby.marked_ready(id, user_id, ready).1;
            &&& leaving_allowed(snapshot, user_id) is Ok <==> left is Ok
            &&& leaving_allowed(snapshot, user_id) matches Err(error) ==> left == Err::<
                Option<crate::lobby::LobbyRoomViewModel>,
                LobbyErrorModel,
            >(error)
            &&& kicking_allowed(snapshot, user_id, target) is Ok <==> kicked is Ok
            &&& kicking_allowed(snapshot, user_id, target) matches Err(error) ==> kicked == Err::<
                crate::lobby::LobbyRoomViewModel,
                LobbyErrorModel,
            >(error)
            &&& disbanding_allowed(snapshot, user_id) == closed
            &&& marking_allowed(snapshot, user_id) is Ok <==> marked is Ok
            &&& marking_allowed(snapshot, user_id) matches Err(error) ==> marked == Err::<
                bool,
                LobbyErrorModel,
            >(error)
            &&& marking_allowed(snapshot, user_id) == Ok::<bool, LobbyErrorModel>(false)
                ==> lobby.marked_ready(id, user_id, ready).0 == lobby
        }),
{
    let room = lobby.rooms[snapshot.room.room_id];
    lemma_stored_member(snapshot.members, user_id);
    lemma_stored_member(snapshot.members, target);
    lemma_member_place(room.members, user_id);
    lemma_member_place(room.members, target);
    if is_among(room.members, user_id) {
        let i = choose|i: int|
            0 <= i < room.members.len() && #[trigger] room.members[i].user_id == user_id;
    }
    if is_among(room.members, target) {
        let i = choose|i: int|
            0 <= i < room.members.len() && #[trigger] room.members[i].user_id == target;
    }
}

/// A stored room gives whoever joins it the seat that the lobby would, and refuses for the same
/// reasons; and it is full of ready members just where the lobby's room is.
pub proof fn law_stored_rooms_seat_like_the_lobby(snapshot: RoomSnapshotRecordModel)
    requires
        room_of(snapshot) is Ok,
    ensures
        ({
            let room = room_of(snapshot)->Ok_0;
            let seat = stored_free_seat(room.status, room.config.seat_count, snapshot.members);
            &&& seat is Ok <==> crate::lobby::rules::has_room_for_one(room)
            &&& seat matches Ok(seat) ==> seat != Seat::Unspecified && !crate::lobby::seat_taken(
                room.members,
                seat,
            ) && forall|earlier: Seat|
                earlier != Seat::Unspecified && earlier.code() < seat.code() ==> #[trigger]
                    crate::lobby::seat_taken(room.members, earlier)
            &&& stored_all_ready(snapshot.members, room.config.seat_count)
                <==> crate::lobby::everybody_ready(room)
        }),
{
    let room = room_of(snapshot)->Ok_0;
    lemma_members_of(snapshot.members, 0);
    if free_seat(room.members) is Some {
        let seat = free_seat(room.members)->0;
        assert(seat != Seat::Unspecified && !crate::lobby::seat_taken(room.members, seat));
    }
    if stored_all_ready(snapshot.members, room.config.seat_count) {
        assert forall|i: int| 0 <= i < room.members.len() implies #[trigger] room.members[i].ready by {
            lemma_members_of(snapshot.members, i);
        }
    }
    if crate::lobby::everybody_ready(room) {
        assert forall|i: int| 0 <= i < snapshot.members.len() implies (
        #[trigger] snapshot.members[i]).ready by {
            lemma_members_of(snapshot.members, i);
            assert(room.members[i].ready);
        }
    }
}

// ---------------------------------------------------------------------------
// Who sees a match
// ---------------------------------------------------------------------------

proof fn lemma_appended(
    members: Seq<(Seq<char>, JsonModel)>,
    key: Seq<char>,
    value: JsonModel,
)
    requires
        forall|i: int| 0 <= i < members.len() ==> (#[trigger] members[i]).0 != key,
    ensures
        with_member(members, key, value).len() == members.len() + 1,
        with_member(members, key, value).contains((key, value)),
        forall|i: int|
            0 <= i < members.len() ==> with_member(members, key, value).contains(
                #[trigger] members[i],
            ),
        forall|entry: (Seq<char>, JsonModel)| #[trigger]
            with_member(members, key, value).contains(entry) ==> members.contains(entry) || entry == (
                key,
                value,
            ),
    decreases members.len(),
{
    let after = with_member(members, key, value);
    if members.len() == 0 {
        assert(after[0] == (key, value));
    } else {
        let fewer = members.drop_last();
        assert(members[members.len() - 1].0 != key);
        assert forall|i: int| 0 <= i < fewer.len() implies (#[trigger] fewer[i]).0 != key by {
            assert(members[i].0 != key);
        }
        lemma_appended(fewer, key, value);
        let inner = with_member(fewer, key, value);
        assert(after == inner.push(members.last()));
        let at = choose|at: int| 0 <= at < inner.len() && inner[at] == (key, value);
        assert(after[at] == (key, value));
        assert(after[after.len() - 1] == members.last());
        assert forall|i: int| 0 <= i < members.len() implies after.contains(#[trigger] members[i]) by {
            if i < fewer.len() {
                assert(inner.contains(fewer[i]));
                let j = choose|j: int| 0 <= j < inner.len() && inner[j] == fewer[i];
                assert(after[j] == members[i]);
            }
        }
        assert forall|entry: (Seq<char>, JsonModel)| #[trigger]
            after.contains(entry) implies members.contains(entry) || entry == (key, value) by {
            let j = choose|j: int| 0 <= j < after.len() && after[j] == entry;
            if j < inner.len() {
                assert(inner.contains(entry));
                if fewer.contains(entry) {
                    let k = choose|k: int| 0 <= k < fewer.len() && fewer[k] == entry;
                    assert(members[k] == entry);
                }
            } else {
                assert(members[members.len() - 1] == entry);
            }
        }
    }
}

/// Whether an entry of a seating is that of a stored member.
spec fn is_seating_of(members: Seq<RoomMemberRecordModel>, entry: (Seq<char>, JsonModel)) -> bool {
    exists|i: int|
        0 <= i < members.len() && entry == (
            (#[trigger] members[i]).seat,
            seating_payload(members[i]),
        )
}

proof fn lemma_seating(members: Seq<RoomMemberRecordModel>)
    requires
        forall|i: int, j: int|
            0 <= i < j < members.len() ==> (#[trigger] members[i]).seat != (
            #[trigger] members[j]).seat,
    ensures
        forall|i: int|
            0 <= i < members.len() ==> seating_members(members).contains(
                ((#[trigger] members[i]).seat, seating_payload(members[i])),
            ),
        forall|entry: (Seq<char>, JsonModel)| #[trigger]
            seating_members(members).contains(entry) ==> is_seating_of(members, entry),
    decreases members.len(),
{
    if members.len() > 0 {
        let fewer = members.drop_last();
        let last = members.last();
        assert(members[members.len() - 1] == last);
        assert forall|i: int, j: int| 0 <= i < j < fewer.len() implies (#[trigger] fewer[i]).seat != (
        #[trigger] fewer[j]).seat by {
            assert(members[i].seat != members[j].seat);
        }
        lemma_seating(fewer);
        let before = seating_members(fewer);
        assert forall|i: int| 0 <= i < before.len() implies (#[trigger] before[i]).0 != last.seat by {
            assert(before.contains(before[i]));
            assert(is_seating_of(fewer, before[i]));
            let j = choose|j: int|
                0 <= j < fewer.len() && before[i] == (
                    (#[trigger] fewer[j]).seat,
                    seating_payload(fewer[j]),
                );
            assert(members[j].seat != members[members.len() - 1].seat);
        }
        lemma_appended(before, last.seat, seating_payload(last));
        let after = seating_members(members);
        assert forall|i: int| 0 <= i < members.len() implies after.contains(
            ((#[trigger] members[i]).seat, seating_payload(members[i])),
        ) by {
            if i < fewer.len() {
                let entry = (fewer[i].seat, seating_payload(fewer[i]));
                assert(before.contains(entry));
                let j = choose|j: int| 0 <= j < before.len() && before[j] == entry;
                assert(after.contains(before[j]));
            }
        }
        assert forall|entry: (Seq<char>, JsonModel)| #[trigger]
            after.contains(entry) implies is_seating_of(members, entry) by {
            if before.contains(entry) {
                assert(is_seating_of(fewer, entry));
                let j = choose|j: int|
                    0 <= j < fewer.len() && entry == (
                        (#[trigger] fewer[j]).seat,
                        seating_payload(fewer[j]),
                    );
                assert(members[j] == fewer[j]);
            } else {
                assert(members[members.len() - 1] == last);
            }
        }
    }
}

/// Just those who sat in a room when its match started have a part in the match, besides whoever
/// started it.
pub proof fn law_members_have_a_part_in_their_match(
    record: MatchRecordModel,
    members: Seq<RoomMemberRecordModel>,
    user_id: Seq<char>,
)
    requires
        record.seating_snapshot == JsonModel::Object(seating_members(members)),
        forall|i: int, j: int|
            0 <= i < j < members.len() ==> (#[trigger] members[i]).seat != (
            #[trigger] members[j]).seat,
    ensures
        takes_part(record, user_id) <==> record.created_by_user_id == Some(user_id)
            || is_stored_member(members, user_id),
{
    let seats = seating_members(members);
    lemma_seating(members);
    assert forall|i: int| 0 <= i < members.len() implies crate::db::digest::payload_text(
        seating_payload(#[trigger] members[i]),
        "user_id"@,
    ) == Some(members[i].user_id) by {
        let payload = seating_payload(members[i])->Object_0;
        assert(payload[0] == ("user_id"@, crate::json::json_text(members[i].user_id)));
    }
    if is_stored_member(members, user_id) {
        let i = choose|i: int| 0 <= i < members.len() && (#[trigger] members[i]).user_id == user_id;
        let entry = (members[i].seat, seating_payload(members[i]));
        assert(seats.contains(entry));
        let j = choose|j: int| 0 <= j < seats.len() && seats[j] == entry;
        assert(crate::db::digest::payload_text(seats[j].1, "user_id"@) == Some(user_id));
    }
    if seated_in(record.seating_snapshot, user_id) {
        let j = choose|j: int|
            0 <= j < seats.len() && crate::db::digest::payload_text(
                (#[trigger] seats[j]).1,
                "user_id"@,
            ) == Some(user_id);
        assert(seats.contains(seats[j]));
        assert(is_seating_of(members, seats[j]));
        let i = choose|i: int|
            0 <= i < members.len() && seats[j] == (
                (#[trigger] members[i]).seat,
                seating_payload(members[i]),
            );
        assert(members[i].user_id == user_id);
    }
}

/// A match is shown to those who have a part in it and to nobody else, and its replay only once it is
/// over.
pub proof fn law_matches_are_shown_to_their_players(record: MatchRecordModel, user_id: Seq<char>)
    ensures
        shown_match(Ok(Some(record)), user_id) == Ok::<Option<MatchRecordModel>, Seq<char>>(
            if takes_part(record, user_id) {
                Some(record)
            } else {
                None
            },
        ),
        may_replay(record, user_id) ==> takes_part(record, user_id) && record.status is Finished,
        takes_part(record, user_id) && record.status is Finished ==> may_replay(record, user_id),
{
}

// ---------------------------------------------------------------------------
// Marks, names, seats and statuses
// ---------------------------------------------------------------------------

/// A ready mark counts for the members of a room that still waits, and for nobody else; in a room that
/// is taken or closed it counts for nothing.
pub proof fn law_marks_count_while_a_room_waits(snapshot: RoomSnapshotRecordModel, user_id: Seq<char>)
    ensures
        ({
            let waits = snapshot.room.status == RoomStatusRecord::Waiting;
            let member = exists|i: int|
                0 <= i < snapshot.members.len() && (#[trigger] snapshot.members[i]).user_id
                    == user_id;
            let allowed = marking_allowed(snapshot, user_id);
            &&& allowed matches Ok(counts) ==> counts == waits
            &&& allowed is Ok <==> !waits || member
        }),
{
}

/// A member who has a name keeps it, and one who has none is given one; nothing else of the room
/// changes.
pub proof fn law_nobody_goes_without_a_name(room: LobbyRoomModel, fallback: Seq<char>, i: int)
    requires
        0 <= i < room.members.len(),
        fallback.len() > 0,
    ensures
        ({
            let named = with_names(room, fallback);
            let before = room.members[i];
            let after = named.members[i];
            &&& named.members.len() == room.members.len()
            &&& after.display_name.len() > 0
            &&& before.display_name.len() > 0 ==> after == before
            &&& before.display_name.len() == 0 ==> after.display_name == fallback
            &&& after.user_id == before.user_id && after.seat == before.seat && after.ready
                == before.ready && after.joined_at_unix_ms == before.joined_at_unix_ms
            &&& named.room_id == room.room_id && named.owner_user_id == room.owner_user_id
                && named.status == room.status
        }),
{
}

/// Who sits at a seat is stored with their id, their name and the starting score.
pub proof fn law_seats_are_stored_with_their_player(member: RoomMemberRecordModel)
    ensures
        payload_text(seating_payload(member), "user_id"@) == Some(member.user_id),
        payload_text(seating_payload(member), "display_name"@) == Some(member.display_name),
        payload_number(seating_payload(member), "initial_score"@) == Some(25_000u64),
{
    broadcast use lemma_member_added;

    reveal_strlit("user_id");
    reveal_strlit("display_name");
    reveal_strlit("initial_score");
    assert("user_id"@.len() == 7 && "display_name"@.len() == 12 && "initial_score"@.len() == 13);
}

/// An event that settles a hand finishes its match, with what it says as the result. Any other event
/// means that the match goes on, and brings no result.
pub proof fn law_matches_follow_their_events(event: NewMatchEventRecordModel)
    ensures
        aggregate_of(event).0 == MatchStatusRecord::Finished || aggregate_of(event).0
            == MatchStatusRecord::Active,
        aggregate_of(event).0 == MatchStatusRecord::Finished <==> replay_kind(event.event_type)
            == ReplayEventKind::RoundSettlement,
        aggregate_of(event).1 is Some <==> aggregate_of(event).0 == MatchStatusRecord::Finished,
        aggregate_of(event).1 matches Some(result) ==> result == event.event_payload,
{
    reveal_strlit("round_started");
    reveal_strlit("action_broadcast");
    reveal_strlit("claim_window_opened");
    reveal_strlit("claim_window_resolved");
    reveal_strlit("round_settlement");
    assert("round_started"@.len() == 13);
    assert("action_broadcast"@.len() == 16 && "action_broadcast"@[0] == 'a');
    assert("claim_window_opened"@.len() == 19);
    assert("claim_window_resolved"@.len() == 21);
    assert("round_settlement"@.len() == 16 && "round_settlement"@[0] == 'r');
}

} // verus!
