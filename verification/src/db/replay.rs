//! Replays of finished matches, and who may see what of a match.

use vstd::multiset::Multiset;
use vstd::prelude::*;

use crate::collections::{opt_view, views};
use crate::db::digest::{
    build_replay_summary, digest_of, map_replay_event_kind, payload_small, payload_text,
    replay_kind, ReplayRoundMetadata, ReplayRoundMetadataModel,
};
use crate::db::models::{
    MatchEventRecord, MatchEventRecordModel, MatchRecord, MatchRecordModel, MatchReplayRecord,
    MatchReplayRecordModel, ReplayEntryRecord, ReplayEntryRecordModel, ReplayEventKind,
    ReplayRoundRecord, ReplayRoundRecordModel, ReplayWarningRecord, ReplayWarningRecordModel,
};
use crate::text::{concat, i64_to_text, same_text, signed_decimal};

verus! {

// ---------------------------------------------------------------------------
// What a replay is
// ---------------------------------------------------------------------------

/// The events with one more, which comes behind every event with a number that is not larger.
pub open spec fn placed_event(events: Seq<MatchEventRecordModel>, event: MatchEventRecordModel) -> Seq<
    MatchEventRecordModel,
>
    decreases events.len(),
{
    if events.len() == 0 || events.last().event_seq <= event.event_seq {
        events.push(event)
    } else {
        placed_event(events.drop_last(), event).push(events.last())
    }
}

/// The events by their numbers; those with the same number stay in order.
pub open spec fn by_number(events: Seq<MatchEventRecordModel>) -> Seq<MatchEventRecordModel>
    decreases events.len(),
{
    if events.len() == 0 {
        events
    } else {
        placed_event(by_number(events.drop_last()), events.last())
    }
}

/// The entry of an event.
pub open spec fn entry_of(event: MatchEventRecordModel) -> ReplayEntryRecordModel {
    ReplayEntryRecordModel {
        event_seq: event.event_seq,
        round_id: event.round_id,
        event_type: event.event_type,
        event_kind: replay_kind(event.event_type),
        actor_user_id: event.actor_user_id,
        actor_seat: event.actor_seat,
        created_at_unix_ms: event.created_at_unix_ms,
        invalid_payload: digest_of(event).invalid_payload,
        summary: digest_of(event).summary,
        raw_event_payload: event.event_payload,
    }
}

/// The hand that an event belongs to. An event that names none gets one of its own.
pub open spec fn round_of(event: MatchEventRecordModel) -> Seq<char> {
    match event.round_id {
        Some(round_id) => round_id,
        None => "orphan-round-"@ + signed_decimal(event.event_seq as int),
    }
}

/// The place of a hand.
pub open spec fn round_place(rounds: Seq<ReplayRoundRecordModel>, round_id: Seq<char>) -> Option<int>
    decreases rounds.len(),
{
    if rounds.len() == 0 {
        None
    } else if rounds[0].round_id == round_id {
        Some(0)
    } else {
        match round_place(rounds.drop_first(), round_id) {
            Some(place) => Some(place + 1),
            None => None,
        }
    }
}

/// A hand that nothing is known of yet.
pub open spec fn blank_round(round_id: Seq<char>) -> ReplayRoundRecordModel {
    ReplayRoundRecordModel {
        round_id,
        hand_number: None,
        prevailing_wind: None,
        dealer_seat: None,
        start_event_seq: None,
        settlement_event_seq: None,
        entries: Seq::empty(),
    }
}

/// The first of two values that is there.
pub open spec fn first_of<T>(first: Option<T>, second: Option<T>) -> Option<T> {
    if first is Some {
        first
    } else {
        second
    }
}

/// A hand with what its start says of it, as far as that was not known.
pub open spec fn described_round(
    round: ReplayRoundRecordModel,
    metadata: Option<ReplayRoundMetadataModel>,
    event_seq: i64,
) -> ReplayRoundRecordModel {
    match metadata {
        Some(metadata) => ReplayRoundRecordModel {
            hand_number: first_of(round.hand_number, metadata.hand_number),
            prevailing_wind: first_of(round.prevailing_wind, metadata.prevailing_wind),
            dealer_seat: first_of(round.dealer_seat, metadata.dealer_seat),
            start_event_seq: first_of(round.start_event_seq, Some(event_seq)),
            ..round
        },
        None => round,
    }
}

/// A hand with one more event.
pub open spec fn noted_round(round: ReplayRoundRecordModel, event: MatchEventRecordModel) -> ReplayRoundRecordModel {
    let described = described_round(round, digest_of(event).round_metadata, event.event_seq);
    let kind = replay_kind(event.event_type);
    ReplayRoundRecordModel {
        start_event_seq: if kind is RoundStarted {
            first_of(described.start_event_seq, Some(event.event_seq))
        } else {
            described.start_event_seq
        },
        settlement_event_seq: if kind is RoundSettlement {
            Some(event.event_seq)
        } else {
            described.settlement_event_seq
        },
        entries: described.entries.push(entry_of(event)),
        ..described
    }
}

/// The hands with one more event.
pub open spec fn noted_rounds(rounds: Seq<ReplayRoundRecordModel>, event: MatchEventRecordModel) -> Seq<
    ReplayRoundRecordModel,
> {
    match round_place(rounds, round_of(event)) {
        Some(place) => rounds.update(place, noted_round(rounds[place], event)),
        None => rounds.push(noted_round(blank_round(round_of(event)), event)),
    }
}

/// The remarks on an event.
pub open spec fn warnings_on(event: MatchEventRecordModel) -> Seq<ReplayWarningRecordModel> {
    let on_payload = match digest_of(event).warning {
        Some(warning) => seq![warning],
        None => Seq::empty(),
    };
    if replay_kind(event.event_type) is MatchSettlement || event.round_id is Some {
        on_payload
    } else {
        on_payload.push(
            ReplayWarningRecordModel {
                event_seq: Some(event.event_seq),
                event_type: event.event_type,
                message: "event did not carry round_id and was grouped into "@ + round_of(event),
            },
        )
    }
}

/// A replay with one more event.
pub open spec fn with_event(replay: MatchReplayRecordModel, event: MatchEventRecordModel) -> MatchReplayRecordModel {
    let warnings = replay.warnings + warnings_on(event);
    if replay_kind(event.event_type) is MatchSettlement {
        MatchReplayRecordModel { terminal_entry: Some(entry_of(event)), warnings, ..replay }
    } else {
        MatchReplayRecordModel { rounds: noted_rounds(replay.rounds, event), warnings, ..replay }
    }
}

/// The replay of some events, in the order given.
pub open spec fn replay_in_order(match_record: MatchRecordModel, events: Seq<MatchEventRecordModel>) -> MatchReplayRecordModel
    decreases events.len(),
{
    if events.len() == 0 {
        MatchReplayRecordModel {
            match_record,
            rounds: Seq::empty(),
            terminal_entry: None,
            warnings: Seq::empty(),
        }
    } else {
        with_event(replay_in_order(match_record, events.drop_last()), events.last())
    }
}

/// The replay of a match: its events by their numbers, hand by hand, with the end of the match
/// apart.
pub open spec fn replay_of(match_record: MatchRecordModel, events: Seq<MatchEventRecordModel>) -> MatchReplayRecordModel {
    replay_in_order(match_record, by_number(events))
}

// ---------------------------------------------------------------------------
// Building it
// ---------------------------------------------------------------------------

fn place_event(events: &mut Vec<MatchEventRecord>, event: MatchEventRecord)
    ensures
        views(final(events)@) == placed_event(views(old(events)@), event@),
    decreases old(events)@.len(),
{
    let ghost before = views(events@);
    let len: usize = events.len();
    if len == 0 || events[len - 1].event_seq <= event.event_seq {
        assert(len > 0 ==> before.last().event_seq == events@.last().event_seq);
        events.push(event);
        assert(views(events@) =~= before.push(event@));
    } else {
        let last = events.pop();
        assert(views(events@) =~= before.drop_last());
        if let Some(last) = last {
            place_event(events, event);
            let ghost middle = views(events@);
            events.push(last);
            assert(views(events@) =~= middle.push(last@));
        }
    }
}

fn sort_events(events: &Vec<MatchEventRecord>) -> (r: Vec<MatchEventRecord>)
    ensures
        views(r@) == by_number(views(events@)),
{
    let ghost all = views(events@);
    let mut sorted: Vec<MatchEventRecord> = Vec::new();
    let mut i: usize = 0;
    assert(views(sorted@) =~= all.take(0));
    while i < events.len()
        invariant
            i <= events.len(),
            all == views(events@),
            views(sorted@) == by_number(all.take(i as int)),
        decreases events.len() - i,
    {
        place_event(&mut sorted, events[i].clone());
        assert(all.take(i + 1).drop_last() =~= all.take(i as int));
        i = i + 1;
    }
    assert(all.take(i as int) =~= all);
    sorted
}

/// A place counted from another start.
pub open spec fn shifted_round(place: Option<int>, by: int) -> Option<int> {
    match place {
        Some(place) => Some(place + by),
        None => None,
    }
}

fn find_round(rounds: &Vec<ReplayRoundRecord>, round_id: &str) -> (r: Option<usize>)
    ensures
        round_place(views(rounds@), round_id@) == match r {
            Some(place) => Some(place as int),
            None => None,
        },
        r matches Some(place) ==> place < rounds@.len(),
{
    let ghost all = views(rounds@);
    let mut i: usize = 0;
    assert(all.skip(0) =~= all);
    while i < rounds.len()
        invariant
            i <= rounds.len(),
            all == views(rounds@),
            round_place(all, round_id@) == shifted_round(
                round_place(all.skip(i as int), round_id@),
                i as int,
            ),
        decreases rounds.len() - i,
    {
        assert(all.skip(i as int)[0] == rounds@[i as int]@);
        if same_text(rounds[i].round_id.as_str(), round_id) {
            return Some(i);
        }
        assert(all.skip(i as int).drop_first() =~= all.skip(i + 1));
        i = i + 1;
    }
    None
}

fn round_id_of(event: &MatchEventRecord) -> (r: String)
    ensures
        r@ == round_of(event@),
{
    match event.round_id.as_ref() {
        Some(round_id) => round_id.clone(),
        None => concat("orphan-round-", i64_to_text(event.event_seq).as_str()),
    }
}

fn new_round(round_id: String) -> (r: ReplayRoundRecord)
    ensures
        r@ == blank_round(round_id@),
{
    let entries: Vec<ReplayEntryRecord> = Vec::new();
    assert(views(entries@) =~= Seq::<ReplayEntryRecordModel>::empty());
    ReplayRoundRecord {
        round_id,
        hand_number: None,
        prevailing_wind: None,
        dealer_seat: None,
        start_event_seq: None,
        settlement_event_seq: None,
        entries,
    }
}

fn describe_round(round: ReplayRoundRecord, metadata: Option<ReplayRoundMetadata>, event_seq: i64) -> (r:
    ReplayRoundRecord)
    ensures
        r@ == described_round(round@, opt_view(metadata), event_seq),
{
    match metadata {
        None => round,
        Some(metadata) => ReplayRoundRecord {
            round_id: round.round_id,
            hand_number: if round.hand_number.is_some() {
                round.hand_number
            } else {
                metadata.hand_number
            },
            prevailing_wind: if round.prevailing_wind.is_some() {
                round.prevailing_wind
            } else {
                metadata.prevailing_wind
            },
            dealer_seat: if round.dealer_seat.is_some() {
                round.dealer_seat
            } else {
                metadata.dealer_seat
            },
            start_event_seq: if round.start_event_seq.is_some() {
                round.start_event_seq
            } else {
                Some(event_seq)
            },
            settlement_event_seq: round.settlement_event_seq,
            entries: round.entries,
        },
    }
}

fn note_in_round(
    round: ReplayRoundRecord,
    entry: ReplayEntryRecord,
    metadata: Option<ReplayRoundMetadata>,
    Ghost(event): Ghost<MatchEventRecordModel>,
) -> (r: ReplayRoundRecord)
    requires
        entry@ == entry_of(event),
        opt_view(metadata) == digest_of(event).round_metadata,
    ensures
        r@ == noted_round(round@, event),
{
    let mut described = describe_round(round, metadata, entry.event_seq);
    let ghost before = described@;
    if entry.event_kind == ReplayEventKind::RoundStarted && described.start_event_seq.is_none() {
        described.start_event_seq = Some(entry.event_seq);
    }
    if entry.event_kind == ReplayEventKind::RoundSettlement {
        described.settlement_event_seq = Some(entry.event_seq);
    }
    described.entries.push(entry);
    assert(views(described.entries@) =~= before.entries.push(entry@));
    described
}

fn note_in_rounds(
    rounds: &mut Vec<ReplayRoundRecord>,
    round_id: String,
    entry: ReplayEntryRecord,
    metadata: Option<ReplayRoundMetadata>,
    Ghost(event): Ghost<MatchEventRecordModel>,
)
    requires
        round_id@ == round_of(event),
        entry@ == entry_of(event),
        opt_view(metadata) == digest_of(event).round_metadata,
    ensures
        views(final(rounds)@) == noted_rounds(views(old(rounds)@), event),
{
    let ghost before = views(rounds@);
    match find_round(rounds, round_id.as_str()) {
        Some(place) => {
            let round = rounds[place].clone();
            assert(round@ == before[place as int]);
            let noted = note_in_round(round, entry, metadata, Ghost(event));
            rounds.set(place, noted);
            assert(views(rounds@) =~= before.update(place as int, noted@));
        },
        None => {
            let noted = note_in_round(new_round(round_id), entry, metadata, Ghost(event));
            rounds.push(noted);
            assert(views(rounds@) =~= before.push(noted@));
        },
    }
}

fn note_event(replay: &mut MatchReplayRecord, event: &MatchEventRecord)
    ensures
        final(replay)@ == with_event(old(replay)@, event@),
{
    let ghost before = replay@;
    let digest = build_replay_summary(event);
    let event_kind = map_replay_event_kind(event.event_type.as_str());
    let entry = ReplayEntryRecord {
        event_seq: event.event_seq,
        round_id: event.round_id.clone(),
        event_type: event.event_type.clone(),
        event_kind,
        actor_user_id: event.actor_user_id.clone(),
        actor_seat: event.actor_seat.clone(),
        created_at_unix_ms: event.created_at_unix_ms,
        invalid_payload: digest.invalid_payload,
        summary: digest.summary,
        raw_event_payload: event.event_payload.clone(),
    };
    assert(entry@ =~= entry_of(event@));
    let ghost noted: Seq<ReplayWarningRecordModel> = Seq::empty();
    assert(views(replay.warnings@) =~= before.warnings + noted);
    if let Some(warning) = digest.warning {
        let ghost earlier = replay.warnings@;
        proof {
            noted = seq![warning@];
        }
        replay.warnings.push(warning);
        assert(views(replay.warnings@) =~= views(earlier).push(warning@));
        assert(views(replay.warnings@) =~= before.warnings + noted);
    }
    if event_kind == ReplayEventKind::MatchSettlement {
        replay.terminal_entry = Some(entry);
        return;
    }
    let round_id = round_id_of(event);
    if event.round_id.is_none() {
        let warning = ReplayWarningRecord {
            event_seq: Some(event.event_seq),
            event_type: event.event_type.clone(),
            message: concat(
                "event did not carry round_id and was grouped into ",
                round_id.as_str(),
            ),
        };
        let ghost earlier = replay.warnings@;
        replay.warnings.push(warning);
        assert(views(replay.warnings@) =~= views(earlier).push(warning@));
        assert(views(replay.warnings@) =~= before.warnings + noted.push(warning@));
        assert(noted.push(warning@) =~= warnings_on(event@));
    }
    note_in_rounds(&mut replay.rounds, round_id, entry, digest.round_metadata, Ghost(event@));
}

/// Builds the replay of a match.
pub fn build_match_replay(match_record: MatchRecord, events: Vec<MatchEventRecord>) -> (r:
    MatchReplayRecord)
    ensures
        r@ == replay_of(match_record@, views(events@)),
{
    let sorted = sort_events(&events);
    let ghost all = views(sorted@);
    let mut replay = MatchReplayRecord {
        match_record,
        rounds: Vec::new(),
        terminal_entry: None,
        warnings: Vec::new(),
    };
    assert(replay@ =~= replay_in_order(match_record@, all.take(0)));
    let mut i: usize = 0;
    while i < sorted.len()
        invariant
            i <= sorted.len(),
            all == views(sorted@),
            replay@ == replay_in_order(match_record@, all.take(i as int)),
        decreases sorted.len() - i,
    {
        assert(all.take(i + 1).drop_last() =~= all.take(i as int));
        note_event(&mut replay, &sorted[i]);
        i = i + 1;
    }
    assert(all.take(i as int) =~= all);
    replay
}

// ---------------------------------------------------------------------------
// What a replay promises
// ---------------------------------------------------------------------------

/// Whether events stand in the order of their numbers.
pub open spec fn in_order(events: Seq<MatchEventRecordModel>) -> bool {
    forall|i: int, j: int|
        0 <= i <= j < events.len() ==> (#[trigger] events[i]).event_seq <= (
        #[trigger] events[j]).event_seq
}

/// Whether no event has a larger number than this.
pub open spec fn numbered_up_to(events: Seq<MatchEventRecordModel>, number: i64) -> bool {
    forall|i: int| 0 <= i < events.len() ==> (#[trigger] events[i]).event_seq <= number
}

proof fn lemma_placed_event(events: Seq<MatchEventRecordModel>, event: MatchEventRecordModel)
    requires
        in_order(events),
    ensures
        in_order(placed_event(events, event)),
        placed_event(events, event).to_multiset() == events.to_multiset().insert(event),
        forall|number: i64|
            numbered_up_to(events, number) && event.event_seq <= number
                ==> #[trigger] numbered_up_to(placed_event(events, event), number),
    decreases events.len(),
{
    broadcast use vstd::seq_lib::group_to_multiset_ensures;
    let placed = placed_event(events, event);
    if events.len() == 0 || events.last().event_seq <= event.event_seq {
        assert forall|i: int, j: int| 0 <= i <= j < placed.len() implies (
        #[trigger] placed[i]).event_seq <= (#[trigger] placed[j]).event_seq by {
            if j == events.len() && i < events.len() {
                assert(events[i].event_seq <= events[events.len() - 1].event_seq);
            }
        }
    } else {
        let rest = events.drop_last();
        let last = events.last();
        lemma_placed_event(rest, event);
        let inner = placed_event(rest, event);
        assert(rest.push(last) =~= events);
        assert(placed.to_multiset() =~= events.to_multiset().insert(event));
        assert(numbered_up_to(rest, last.event_seq)) by {
            assert forall|i: int| 0 <= i < rest.len() implies (#[trigger] rest[i]).event_seq
                <= last.event_seq by {
                assert(events[i].event_seq <= events[events.len() - 1].event_seq);
            }
        }
        assert(numbered_up_to(inner, last.event_seq));
        assert forall|i: int, j: int| 0 <= i <= j < placed.len() implies (
        #[trigger] placed[i]).event_seq <= (#[trigger] placed[j]).event_seq by {
            if i < inner.len() {
                assert(placed[i] == inner[i]);
                if j < inner.len() {
                    assert(placed[j] == inner[j]);
                }
            }
        }
        assert forall|number: i64|
            numbered_up_to(events, number) && event.event_seq <= number implies #[trigger] numbered_up_to(
            placed,
            number,
        ) by {
            assert forall|i: int| 0 <= i < rest.len() implies (#[trigger] rest[i]).event_seq
                <= number by {
                assert(events[i].event_seq <= number);
            }
            assert(numbered_up_to(rest, number));
            assert(numbered_up_to(inner, number));
            assert(events[events.len() - 1].event_seq <= number);
            assert forall|i: int| 0 <= i < placed.len() implies (#[trigger] placed[i]).event_seq
                <= number by {
                if i < inner.len() {
                    assert(placed[i] == inner[i]);
                }
            }
        }
    }
}

/// Sorting by number keeps exactly the same events, and puts them in order.
pub proof fn law_by_number_sorts(events: Seq<MatchEventRecordModel>)
    ensures
        in_order(by_number(events)),
        by_number(events).to_multiset() == events.to_multiset(),
    decreases events.len(),
{
    broadcast use vstd::seq_lib::group_to_multiset_ensures;
    if events.len() > 0 {
        law_by_number_sorts(events.drop_last());
        lemma_placed_event(by_number(events.drop_last()), events.last());
        assert(events.drop_last().push(events.last()) =~= events);
        assert(by_number(events).to_multiset() =~= events.to_multiset());
    }
}

/// Whether the entries of a hand stand in order, belong to it, and have numbers up to this.
pub open spec fn round_in_order(round: ReplayRoundRecordModel, number: int) -> bool {
    &&& forall|i: int, j: int|
        0 <= i <= j < round.entries.len() ==> (#[trigger] round.entries[i]).event_seq <= (
        #[trigger] round.entries[j]).event_seq
    &&& forall|i: int|
        0 <= i < round.entries.len() ==> (#[trigger] round.entries[i]).event_seq <= number
    &&& forall|i: int|
        0 <= i < round.entries.len() ==> ((#[trigger] round.entries[i]).round_id matches Some(
            round_id,
        ) ==> round_id == round.round_id)
}

/// Whether the hands of a replay have different names, and each is in order.
pub open spec fn rounds_in_order(rounds: Seq<ReplayRoundRecordModel>, number: int) -> bool {
    &&& forall|i: int| 0 <= i < rounds.len() ==> round_in_order(#[trigger] rounds[i], number)
    &&& forall|i: int, j: int|
        0 <= i < j < rounds.len() ==> (#[trigger] rounds[i]).round_id != (
        #[trigger] rounds[j]).round_id
}

proof fn lemma_round_place(rounds: Seq<ReplayRoundRecordModel>, round_id: Seq<char>)
    ensures
        match round_place(rounds, round_id) {
            Some(place) => 0 <= place < rounds.len() && rounds[place].round_id == round_id,
            None => forall|i: int| 0 <= i < rounds.len() ==> (#[trigger] rounds[i]).round_id != round_id,
        },
    decreases rounds.len(),
{
    if rounds.len() > 0 {
        let rest = rounds.drop_first();
        lemma_round_place(rest, round_id);
        if round_place(rounds, round_id) is None {
            assert forall|i: int| 0 <= i < rounds.len() implies (#[trigger] rounds[i]).round_id
                != round_id by {
                if i > 0 {
                    assert(rest[i - 1] == rounds[i]);
                }
            }
        }
    }
}

proof fn lemma_noted_round(round: ReplayRoundRecordModel, event: MatchEventRecordModel, number: int)
    requires
        round_in_order(round, number),
        number <= event.event_seq,
        round.round_id == round_of(event),
    ensures
        round_in_order(noted_round(round, event), event.event_seq as int),
        noted_round(round, event).round_id == round.round_id,
{
    let noted = noted_round(round, event);
    assert(noted.entries == round.entries.push(entry_of(event)));
    assert forall|i: int, j: int| 0 <= i <= j < noted.entries.len() implies (
    #[trigger] noted.entries[i]).event_seq <= (#[trigger] noted.entries[j]).event_seq by {
        if i < round.entries.len() {
            assert(round.entries[i].event_seq <= number);
            if j < round.entries.len() {
                assert(round.entries[i].event_seq <= round.entries[j].event_seq);
            }
        }
    }
    assert forall|i: int| 0 <= i < noted.entries.len() implies (#[trigger] noted.entries[i]).event_seq
        <= event.event_seq && (noted.entries[i].round_id matches Some(round_id) ==> round_id
        == noted.round_id) by {
        if i < round.entries.len() {
            assert(round.entries[i].event_seq <= number);
        }
    }
}

proof fn lemma_noted_rounds(rounds: Seq<ReplayRoundRecordModel>, event: MatchEventRecordModel, number: int)
    requires
        rounds_in_order(rounds, number),
        number <= event.event_seq,
    ensures
        rounds_in_order(noted_rounds(rounds, event), event.event_seq as int),
{
    let noted = noted_rounds(rounds, event);
    lemma_round_place(rounds, round_of(event));
    match round_place(rounds, round_of(event)) {
        Some(place) => {
            lemma_noted_round(rounds[place], event, number);
            assert forall|i: int| 0 <= i < noted.len() implies round_in_order(
                #[trigger] noted[i],
                event.event_seq as int,
            ) by {
                if i != place {
                    assert(round_in_order(rounds[i], number));
                }
            }
            assert forall|i: int, j: int| 0 <= i < j < noted.len() implies (
            #[trigger] noted[i]).round_id != (#[trigger] noted[j]).round_id by {
                assert(rounds[i].round_id != rounds[j].round_id);
            }
        },
        None => {
            lemma_noted_round(blank_round(round_of(event)), event, number);
            assert forall|i: int| 0 <= i < noted.len() implies round_in_order(
                #[trigger] noted[i],
                event.event_seq as int,
            ) by {
                if i < rounds.len() {
                    assert(round_in_order(rounds[i], number));
                }
            }
            assert forall|i: int, j: int| 0 <= i < j < noted.len() implies (
            #[trigger] noted[i]).round_id != (#[trigger] noted[j]).round_id by {
                assert(rounds[i].round_id != round_of(event));
                if j < rounds.len() {
                    assert(rounds[i].round_id != rounds[j].round_id);
                }
            }
        },
    }
}

proof fn lemma_replay_in_order(
    match_record: MatchRecordModel,
    events: Seq<MatchEventRecordModel>,
    number: int,
)
    requires
        in_order(events),
        forall|i: int| 0 <= i < events.len() ==> (#[trigger] events[i]).event_seq <= number,
    ensures
        rounds_in_order(replay_in_order(match_record, events).rounds, number),
    decreases events.len(),
{
    if events.len() > 0 {
        let rest = events.drop_last();
        let last = events.last();
        assert forall|i: int| 0 <= i < rest.len() implies (#[trigger] rest[i]).event_seq
            <= last.event_seq by {
            assert(events[i].event_seq <= events[events.len() - 1].event_seq);
        }
        assert forall|i: int, j: int| 0 <= i <= j < rest.len() implies (
        #[trigger] rest[i]).event_seq <= (#[trigger] rest[j]).event_seq by {
            assert(events[i].event_seq <= events[j].event_seq);
        }
        lemma_replay_in_order(match_record, rest, last.event_seq as int);
        let before = replay_in_order(match_record, rest).rounds;
        let after = replay_in_order(match_record, events).rounds;
        assert(events[events.len() - 1].event_seq <= number);
        if !(replay_kind(last.event_type) is MatchSettlement) {
            lemma_noted_rounds(before, last, last.event_seq as int);
        }
        assert(rounds_in_order(after, last.event_seq as int));
        assert forall|i: int| 0 <= i < after.len() implies round_in_order(
            #[trigger] after[i],
            number,
        ) by {
            assert(round_in_order(after[i], last.event_seq as int));
        }
    }
}

/// In whatever order the events come, a replay shows the events of each hand in the order of
/// their numbers, and no hand twice.
pub proof fn law_replay_is_in_order(match_record: MatchRecordModel, events: Seq<MatchEventRecordModel>)
    ensures
        rounds_in_order(replay_of(match_record, events).rounds, i64::MAX as int),
{
    law_by_number_sorts(events);
    lemma_replay_in_order(match_record, by_number(events), i64::MAX as int);
}

/// The entries of some hands.
pub open spec fn all_entries(rounds: Seq<ReplayRoundRecordModel>) -> Multiset<ReplayEntryRecordModel>
    decreases rounds.len(),
{
    if rounds.len() == 0 {
        Multiset::empty()
    } else {
        all_entries(rounds.drop_last()).add(rounds.last().entries.to_multiset())
    }
}

/// Whether an event settles the match.
pub open spec fn settles_match(event: MatchEventRecordModel) -> bool {
    replay_kind(event.event_type) is MatchSettlement
}

/// The entries of those events that do not settle the match.
pub open spec fn hand_entries(events: Seq<MatchEventRecordModel>) -> Multiset<ReplayEntryRecordModel>
    decreases events.len(),
{
    if events.len() == 0 {
        Multiset::empty()
    } else if settles_match(events.last()) {
        hand_entries(events.drop_last())
    } else {
        hand_entries(events.drop_last()).insert(entry_of(events.last()))
    }
}

proof fn lemma_all_entries_update(
    rounds: Seq<ReplayRoundRecordModel>,
    place: int,
    round: ReplayRoundRecordModel,
    entry: ReplayEntryRecordModel,
)
    requires
        0 <= place < rounds.len(),
        round.entries == rounds[place].entries.push(entry),
    ensures
        all_entries(rounds.update(place, round)) == all_entries(rounds).insert(entry),
    decreases rounds.len(),
{
    broadcast use vstd::seq_lib::group_to_multiset_ensures;
    let after = rounds.update(place, round);
    if place == rounds.len() - 1 {
        assert(after.drop_last() =~= rounds.drop_last());
    } else {
        assert(after.drop_last() =~= rounds.drop_last().update(place, round));
        assert(after.last() == rounds.last());
        lemma_all_entries_update(rounds.drop_last(), place, round, entry);
    }
    assert(all_entries(after) =~= all_entries(rounds).insert(entry));
}

proof fn lemma_replay_entries(match_record: MatchRecordModel, events: Seq<MatchEventRecordModel>)
    ensures
        all_entries(replay_in_order(match_record, events).rounds) == hand_entries(events),
    decreases events.len(),
{
    broadcast use vstd::seq_lib::group_to_multiset_ensures;
    if events.len() > 0 {
        let rest = events.drop_last();
        let last = events.last();
        lemma_replay_entries(match_record, rest);
        let rounds = replay_in_order(match_record, rest).rounds;
        if !settles_match(last) {
            lemma_round_place(rounds, round_of(last));
            match round_place(rounds, round_of(last)) {
                Some(place) => {
                    lemma_all_entries_update(
                        rounds,
                        place,
                        noted_round(rounds[place], last),
                        entry_of(last),
                    );
                },
                None => {
                    let noted = noted_round(blank_round(round_of(last)), last);
                    assert(rounds.push(noted).drop_last() =~= rounds);
                    assert(noted.entries =~= Seq::<ReplayEntryRecordModel>::empty().push(
                        entry_of(last),
                    ));
                    assert(all_entries(rounds.push(noted)) =~= all_entries(rounds).insert(
                        entry_of(last),
                    ));
                },
            }
        }
    }
}

proof fn lemma_placed_entries(events: Seq<MatchEventRecordModel>, event: MatchEventRecordModel)
    ensures
        hand_entries(placed_event(events, event)) == hand_entries(events.push(event)),
    decreases events.len(),
{
    assert(events.push(event).drop_last() =~= events);
    if events.len() > 0 && events.last().event_seq > event.event_seq {
        let fewer = events.drop_last();
        lemma_placed_entries(fewer, event);
        assert(fewer.push(event).drop_last() =~= fewer);
        let placed = placed_event(fewer, event);
        let moved = placed.push(events.last());
        assert(moved.drop_last() =~= placed);
        assert(moved.last() == events.last());
        assert(hand_entries(moved) == if settles_match(events.last()) {
            hand_entries(placed)
        } else {
            hand_entries(placed).insert(entry_of(events.last()))
        });
        assert(hand_entries(events) == if settles_match(events.last()) {
            hand_entries(fewer)
        } else {
            hand_entries(fewer).insert(entry_of(events.last()))
        });
        assert(hand_entries(fewer.push(event)) == if settles_match(event) {
            hand_entries(fewer)
        } else {
            hand_entries(fewer).insert(entry_of(event))
        });
        assert(hand_entries(placed_event(events, event)) =~= hand_entries(events.push(event)));
    }
}

proof fn lemma_by_number_entries(events: Seq<MatchEventRecordModel>)
    ensures
        hand_entries(by_number(events)) == hand_entries(events),
    decreases events.len(),
{
    if events.len() > 0 {
        let fewer = events.drop_last();
        lemma_by_number_entries(fewer);
        lemma_placed_entries(by_number(fewer), events.last());
        assert(by_number(fewer).push(events.last()).drop_last() =~= by_number(fewer));
    }
}

/// The entries of a replay's hands are those of the events that do not settle the match, each once,
/// with the payload that was stored; none is lost and none is made up.
pub proof fn law_replay_keeps_every_event(match_record: MatchRecordModel, events: Seq<MatchEventRecordModel>)
    ensures
        all_entries(replay_of(match_record, events).rounds) == hand_entries(events),
        forall|event: MatchEventRecordModel| #[trigger]
            entry_of(event).raw_event_payload == event.event_payload,
{
    lemma_replay_entries(match_record, by_number(events));
    lemma_by_number_entries(events);
}

/// Whether no two events have the same number.
pub open spec fn distinct_numbers(events: Seq<MatchEventRecordModel>) -> bool {
    forall|i: int, j: int|
        0 <= i < j < events.len() ==> (#[trigger] events[i]).event_seq != (
        #[trigger] events[j]).event_seq
}

/// Events in order are determined by which they are, where their numbers differ.
proof fn lemma_order_is_unique(a: Seq<MatchEventRecordModel>, b: Seq<MatchEventRecordModel>)
    requires
        in_order(a),
        in_order(b),
        distinct_numbers(a),
        a.to_multiset() == b.to_multiset(),
    ensures
        a == b,
    decreases a.len(),
{
    broadcast use vstd::seq_lib::group_to_multiset_ensures;
    assert(a.len() == a.to_multiset().len());
    assert(b.len() == b.to_multiset().len());
    if a.len() == 0 {
        assert(a =~= b);
    } else {
        let n = a.len() - 1;
        assert(a[n] == a.last() && b[n] == b.last());
        assert(a.contains(a.last()));
        assert(b.contains(b.last()));
        assert(b.to_multiset().count(a.last()) > 0);
        assert(a.to_multiset().count(b.last()) > 0);
        assert(b.contains(a.last()) && a.contains(b.last()));
        let in_b = choose|i: int| 0 <= i < b.len() && b[i] == a.last();
        let in_a = choose|i: int| 0 <= i < a.len() && a[i] == b.last();
        assert(b[in_b].event_seq <= b[n].event_seq);
        assert(a[in_a].event_seq <= a[n].event_seq);
        assert(in_a == n);
        let a_rest = a.drop_last();
        let b_rest = b.drop_last();
        assert(a =~= a_rest.push(a.last()));
        assert(b =~= b_rest.push(b.last()));
        assert(a_rest.to_multiset() =~= a.to_multiset().remove(a.last()));
        assert(b_rest.to_multiset() =~= b.to_multiset().remove(b.last()));
        assert forall|i: int, j: int| 0 <= i <= j < a_rest.len() implies (
        #[trigger] a_rest[i]).event_seq <= (#[trigger] a_rest[j]).event_seq by {
            assert(a[i].event_seq <= a[j].event_seq);
        }
        assert forall|i: int, j: int| 0 <= i <= j < b_rest.len() implies (
        #[trigger] b_rest[i]).event_seq <= (#[trigger] b_rest[j]).event_seq by {
            assert(b[i].event_seq <= b[j].event_seq);
        }
        assert forall|i: int, j: int| 0 <= i < j < a_rest.len() implies (
        #[trigger] a_rest[i]).event_seq != (#[trigger] a_rest[j]).event_seq by {
            assert(a[i].event_seq != a[j].event_seq);
        }
        lemma_order_is_unique(a_rest, b_rest);
    }
}

/// Numbers that differ still differ in another order.
proof fn lemma_distinct_in_any_order(a: Seq<MatchEventRecordModel>, b: Seq<MatchEventRecordModel>)
    requires
        distinct_numbers(a),
        a.to_multiset() == b.to_multiset(),
    ensures
        distinct_numbers(b),
{
    broadcast use vstd::seq_lib::group_to_multiset_ensures;
    assert forall|i: int, j: int| 0 <= i < j < b.len() implies (#[trigger] b[i]).event_seq != (
    #[trigger] b[j]).event_seq by {
        assert(b.contains(b[i]) && b.contains(b[j]));
        assert(b.to_multiset().count(b[i]) > 0 && b.to_multiset().count(b[j]) > 0);
        assert(a.to_multiset().count(b[i]) > 0 && a.to_multiset().count(b[j]) > 0);
        assert(a.contains(b[i]) && a.contains(b[j]));
        let x = choose|x: int| 0 <= x < a.len() && a[x] == b[i];
        let y = choose|y: int| 0 <= y < a.len() && a[y] == b[j];
        if x < y {
            assert(a[x].event_seq != a[y].event_seq);
        } else if y < x {
            assert(a[y].event_seq != a[x].event_seq);
        } else {
            lemma_twice(b, i, j);
            lemma_once(a, x);
        }
    }
}

/// Two places with the same event make it count twice.
proof fn lemma_twice(events: Seq<MatchEventRecordModel>, i: int, j: int)
    requires
        0 <= i < j < events.len(),
        events[i] == events[j],
    ensures
        events.to_multiset().count(events[i]) >= 2,
{
    broadcast use vstd::seq_lib::group_to_multiset_ensures;
    let fewer = events.remove(j);
    assert(fewer[i] == events[i]);
    assert(fewer.contains(events[i]));
    assert(fewer.to_multiset() =~= events.to_multiset().remove(events[j]));
    assert(fewer.to_multiset().count(events[i]) > 0);
}

/// An event that is in one place only counts once.
proof fn lemma_once(events: Seq<MatchEventRecordModel>, at: int)
    requires
        0 <= at < events.len(),
        distinct_numbers(events),
    ensures
        events.to_multiset().count(events[at]) == 1,
{
    broadcast use vstd::seq_lib::group_to_multiset_ensures;
    let fewer = events.remove(at);
    assert(fewer.to_multiset() =~= events.to_multiset().remove(events[at]));
    assert(events.contains(events[at]));
    assert(events.to_multiset().count(events[at]) > 0);
    if fewer.to_multiset().count(events[at]) > 0 {
        assert(fewer.contains(events[at]));
        let i = choose|i: int| 0 <= i < fewer.len() && fewer[i] == events[at];
        if i < at {
            assert(events[i].event_seq != events[at].event_seq);
        } else {
            assert(events[at].event_seq != events[i + 1].event_seq);
        }
    }
}

/// Where no two events have the same number, the order in which they are handed in makes no
/// difference to the replay.
pub proof fn law_replay_ignores_the_order_of_events(
    match_record: MatchRecordModel,
    events: Seq<MatchEventRecordModel>,
    shuffled: Seq<MatchEventRecordModel>,
)
    requires
        distinct_numbers(events),
        shuffled.to_multiset() == events.to_multiset(),
    ensures
        replay_of(match_record, shuffled) == replay_of(match_record, events),
{
    law_by_number_sorts(events);
    law_by_number_sorts(shuffled);
    lemma_distinct_in_any_order(events, by_number(events));
    lemma_order_is_unique(by_number(events), by_number(shuffled));
}

/// Whether the entries of a hand have numbers that grow from one to the next, none above a bound.
pub open spec fn entries_ascend(round: ReplayRoundRecordModel, bound: int) -> bool {
    &&& forall|i: int, j: int|
        0 <= i < j < round.entries.len() ==> (#[trigger] round.entries[i]).event_seq < (
        #[trigger] round.entries[j]).event_seq
    &&& forall|i: int| 0 <= i < round.entries.len() ==> (#[trigger] round.entries[i]).event_seq <= bound
}

proof fn lemma_entries_ascend(match_record: MatchRecordModel, events: Seq<MatchEventRecordModel>, bound: int)
    requires
        in_order(events),
        distinct_numbers(events),
        forall|i: int| 0 <= i < events.len() ==> (#[trigger] events[i]).event_seq <= bound,
    ensures
        forall|i: int|
            0 <= i < replay_in_order(match_record, events).rounds.len() ==> entries_ascend(
                #[trigger] replay_in_order(match_record, events).rounds[i],
                bound,
            ),
    decreases events.len(),
{
    if events.len() > 0 {
        let rest = events.drop_last();
        let last = events.last();
        assert(events[events.len() - 1] == last);
        assert forall|i: int| 0 <= i < rest.len() implies (#[trigger] rest[i]).event_seq
            <= last.event_seq - 1 by {
            assert(events[i].event_seq <= events[events.len() - 1].event_seq);
            assert(events[i].event_seq != events[events.len() - 1].event_seq);
        }
        assert forall|i: int, j: int| 0 <= i <= j < rest.len() implies (
        #[trigger] rest[i]).event_seq <= (#[trigger] rest[j]).event_seq by {
            assert(events[i].event_seq <= events[j].event_seq);
        }
        assert forall|i: int, j: int| 0 <= i < j < rest.len() implies (
        #[trigger] rest[i]).event_seq != (#[trigger] rest[j]).event_seq by {
            assert(events[i].event_seq != events[j].event_seq);
        }
        lemma_entries_ascend(match_record, rest, last.event_seq - 1);
        let before = replay_in_order(match_record, rest).rounds;
        let after = replay_in_order(match_record, events).rounds;
        lemma_round_place(before, round_of(last));
        assert forall|i: int| 0 <= i < after.len() implies entries_ascend(
            #[trigger] after[i],
            bound,
        ) by {
            if i < before.len() {
                assert(entries_ascend(before[i], last.event_seq - 1));
                let entries = before[i].entries;
                assert(after[i].entries == entries || after[i].entries == entries.push(
                    entry_of(last),
                ));
                assert forall|k: int| 0 <= k < after[i].entries.len() implies (
                #[trigger] after[i].entries[k]).event_seq <= bound by {
                    if k < entries.len() {
                        assert(entries[k].event_seq <= last.event_seq - 1);
                    }
                }
                assert forall|x: int, y: int| 0 <= x < y < after[i].entries.len() implies (
                #[trigger] after[i].entries[x]).event_seq < (
                #[trigger] after[i].entries[y]).event_seq by {
                    assert(entries[x].event_seq <= last.event_seq - 1);
                    if y < entries.len() {
                        assert(entries[x].event_seq < entries[y].event_seq);
                    }
                }
            } else {
                assert(after[i].entries =~= Seq::<ReplayEntryRecordModel>::empty().push(
                    entry_of(last),
                ));
            }
        }
    }
}

/// Where no two events have the same number, the numbers in each hand of a replay grow from one
/// entry to the next.
pub proof fn law_replay_entries_ascend(match_record: MatchRecordModel, events: Seq<MatchEventRecordModel>)
    requires
        distinct_numbers(events),
    ensures
        forall|i: int|
            0 <= i < replay_of(match_record, events).rounds.len() ==> entries_ascend(
                #[trigger] replay_of(match_record, events).rounds[i],
                i64::MAX as int,
            ),
{
    law_by_number_sorts(events);
    lemma_distinct_in_any_order(events, by_number(events));
    lemma_entries_ascend(match_record, by_number(events), i64::MAX as int);
}

/// Whether an entry is that of a settlement of the match among some events, and none of them has a
/// larger number.
pub open spec fn is_last_settlement(events: Seq<MatchEventRecordModel>, entry: ReplayEntryRecordModel) -> bool {
    &&& exists|event: MatchEventRecordModel| #[trigger]
        events.contains(event) && settles_match(event) && entry == entry_of(event)
    &&& forall|event: MatchEventRecordModel| #[trigger]
        events.contains(event) && settles_match(event) ==> event.event_seq <= entry.event_seq
}

proof fn lemma_terminal_entry(match_record: MatchRecordModel, events: Seq<MatchEventRecordModel>)
    requires
        in_order(events),
    ensures
        match replay_in_order(match_record, events).terminal_entry {
            Some(entry) => is_last_settlement(events, entry),
            None => forall|event: MatchEventRecordModel| #[trigger]
                events.contains(event) ==> !settles_match(event),
        },
    decreases events.len(),
{
    if events.len() > 0 {
        let rest = events.drop_last();
        let last = events.last();
        assert(events[events.len() - 1] == last);
        assert(events.contains(last));
        assert forall|i: int, j: int| 0 <= i <= j < rest.len() implies (
        #[trigger] rest[i]).event_seq <= (#[trigger] rest[j]).event_seq by {
            assert(events[i].event_seq <= events[j].event_seq);
        }
        lemma_terminal_entry(match_record, rest);
        assert forall|event: MatchEventRecordModel| #[trigger]
            events.contains(event) implies event == last || rest.contains(event) by {
            let i = choose|i: int| 0 <= i < events.len() && events[i] == event;
            if i < rest.len() {
                assert(rest[i] == event);
            }
        }
        assert forall|event: MatchEventRecordModel| #[trigger] rest.contains(event) implies (
        events.contains(event) && event.event_seq <= last.event_seq) by {
            let i = choose|i: int| 0 <= i < rest.len() && rest[i] == event;
            assert(events[i] == event);
            assert(events[i].event_seq <= events[events.len() - 1].event_seq);
        }
        let before = replay_in_order(match_record, rest).terminal_entry;
        if settles_match(last) {
            assert(is_last_settlement(events, entry_of(last)));
        } else if let Some(entry) = before {
            let event = choose|event: MatchEventRecordModel| #[trigger]
                rest.contains(event) && settles_match(event) && entry == entry_of(event);
            assert(events.contains(event));
            assert(is_last_settlement(events, entry));
        }
    }
}

/// A replay ends with the settlement of the match that has the largest number, and has no end just
/// where no event settles the match.
pub proof fn law_replay_ends_with_the_last_settlement(
    match_record: MatchRecordModel,
    events: Seq<MatchEventRecordModel>,
)
    ensures
        match replay_of(match_record, events).terminal_entry {
            Some(entry) => is_last_settlement(events, entry),
            None => forall|event: MatchEventRecordModel| #[trigger]
                events.contains(event) ==> !settles_match(event),
        },
{
    broadcast use vstd::seq_lib::group_to_multiset_ensures;
    law_by_number_sorts(events);
    let sorted = by_number(events);
    lemma_terminal_entry(match_record, sorted);
    assert forall|event: MatchEventRecordModel| #[trigger]
        events.contains(event) == sorted.contains(event) by {
        assert(events.contains(event) <==> events.to_multiset().count(event) > 0);
        assert(sorted.contains(event) <==> sorted.to_multiset().count(event) > 0);
    }
    if let Some(entry) = replay_of(match_record, events).terminal_entry {
        let event = choose|event: MatchEventRecordModel| #[trigger]
            sorted.contains(event) && settles_match(event) && entry == entry_of(event);
        assert(events.contains(event));
    }
}

// ---------------------------------------------------------------------------
// What a replay says of a hand
// ---------------------------------------------------------------------------

/// Whether a hand was settled last by the entry at a place.
pub open spec fn settles_hand(entries: Seq<ReplayEntryRecordModel>, at: int, event_seq: i64) -> bool {
    &&& 0 <= at < entries.len()
    &&& entries[at].event_kind is RoundSettlement
    &&& entries[at].event_seq == event_seq
    &&& forall|i: int| at < i < entries.len() ==> !((#[trigger] entries[i]).event_kind is RoundSettlement)
}

/// Whether a hand was started first by the entry at a place.
pub open spec fn starts_hand(entries: Seq<ReplayEntryRecordModel>, at: int, event_seq: i64) -> bool {
    &&& 0 <= at < entries.len()
    &&& entries[at].event_kind is RoundStarted
    &&& entries[at].event_seq == event_seq
    &&& forall|i: int| 0 <= i < at ==> !((#[trigger] entries[i]).event_kind is RoundStarted)
}

/// What the start of a hand says under a key that stands for a small number; no other entry says
/// anything.
pub open spec fn started_with_number(entry: ReplayEntryRecordModel, key: Seq<char>) -> Option<u32> {
    if entry.event_kind is RoundStarted {
        payload_small(entry.raw_event_payload, key)
    } else {
        None
    }
}

/// What the start of a hand says under a key that stands for a text; no other entry says anything.
pub open spec fn started_with_text(entry: ReplayEntryRecordModel, key: Seq<char>) -> Option<Seq<char>> {
    if entry.event_kind is RoundStarted {
        payload_text(entry.raw_event_payload, key)
    } else {
        None
    }
}

/// Whether a value is the first that a start of the hand gives for a number; none where no start gives
/// one.
pub open spec fn is_first_number(
    entries: Seq<ReplayEntryRecordModel>,
    key: Seq<char>,
    value: Option<u32>,
) -> bool {
    if value is Some {
        exists|at: int|
            0 <= at < entries.len() && started_with_number(#[trigger] entries[at], key) == value
                && forall|i: int|
                0 <= i < at ==> started_with_number(#[trigger] entries[i], key) is None
    } else {
        forall|i: int|
            0 <= i < entries.len() ==> started_with_number(#[trigger] entries[i], key) is None
    }
}

/// Whether a value is the first that a start of the hand gives for a text; none where no start gives
/// one.
pub open spec fn is_first_text(
    entries: Seq<ReplayEntryRecordModel>,
    key: Seq<char>,
    value: Option<Seq<char>>,
) -> bool {
    if value is Some {
        exists|at: int|
            0 <= at < entries.len() && started_with_text(#[trigger] entries[at], key) == value
                && forall|i: int|
                0 <= i < at ==> started_with_text(#[trigger] entries[i], key) is None
    } else {
        forall|i: int|
            0 <= i < entries.len() ==> started_with_text(#[trigger] entries[i], key) is None
    }
}

/// Whether a hand is said to be settled by its last settlement, or not at all where it has none.
pub open spec fn is_settled_truly(entries: Seq<ReplayEntryRecordModel>, told: Option<i64>) -> bool {
    match told {
        Some(event_seq) => exists|at: int| #[trigger] settles_hand(entries, at, event_seq),
        None => forall|i: int|
            0 <= i < entries.len() ==> !((#[trigger] entries[i]).event_kind is RoundSettlement),
    }
}

/// Whether a hand is said to start with its first start, or not at all where it has none.
pub open spec fn is_started_truly(entries: Seq<ReplayEntryRecordModel>, told: Option<i64>) -> bool {
    match told {
        Some(event_seq) => exists|at: int| #[trigger] starts_hand(entries, at, event_seq),
        None => forall|i: int|
            0 <= i < entries.len() ==> !((#[trigger] entries[i]).event_kind is RoundStarted),
    }
}

/// Whether entries that name a hand name this one.
pub open spec fn are_of_hand(entries: Seq<ReplayEntryRecordModel>, round_id: Seq<char>) -> bool {
    forall|i: int|
        0 <= i < entries.len() ==> ((#[trigger] entries[i]).round_id is Some ==> entries[i].round_id
            == Some(round_id))
}

/// Whether what is said of a hand is what its entries say: when it started and was settled, which hand
/// it was, and who dealt.
pub open spec fn is_told_truly(round: ReplayRoundRecordModel) -> bool {
    &&& are_of_hand(round.entries, round.round_id)
    &&& is_settled_truly(round.entries, round.settlement_event_seq)
    &&& is_started_truly(round.entries, round.start_event_seq)
    &&& is_first_number(round.entries, "hand_number"@, round.hand_number)
    &&& is_first_text(round.entries, "prevailing_wind"@, round.prevailing_wind)
    &&& is_first_text(round.entries, "dealer_seat"@, round.dealer_seat)
}

proof fn lemma_first_number(
    entries: Seq<ReplayEntryRecordModel>,
    entry: ReplayEntryRecordModel,
    key: Seq<char>,
    value: Option<u32>,
)
    requires
        is_first_number(entries, key, value),
    ensures
        is_first_number(
            entries.push(entry),
            key,
            first_of(value, started_with_number(entry, key)),
        ),
{
    let all = entries.push(entry);
    assert forall|i: int| 0 <= i < entries.len() implies #[trigger] all[i] == entries[i] by {}
    assert(all[entries.len() as int] == entry);
    if value is Some {
        let at = choose|at: int|
            0 <= at < entries.len() && started_with_number(#[trigger] entries[at], key) == value
                && forall|i: int|
                0 <= i < at ==> started_with_number(#[trigger] entries[i], key) is None;
        assert(started_with_number(all[at], key) == value);
    }
}

proof fn lemma_first_text(
    entries: Seq<ReplayEntryRecordModel>,
    entry: ReplayEntryRecordModel,
    key: Seq<char>,
    value: Option<Seq<char>>,
)
    requires
        is_first_text(entries, key, value),
    ensures
        is_first_text(entries.push(entry), key, first_of(value, started_with_text(entry, key))),
{
    let all = entries.push(entry);
    assert forall|i: int| 0 <= i < entries.len() implies #[trigger] all[i] == entries[i] by {}
    assert(all[entries.len() as int] == entry);
    if value is Some {
        let at = choose|at: int|
            0 <= at < entries.len() && started_with_text(#[trigger] entries[at], key) == value
                && forall|i: int|
                0 <= i < at ==> started_with_text(#[trigger] entries[i], key) is None;
        assert(started_with_text(all[at], key) == value);
    }
}

proof fn lemma_settled_truly(
    entries: Seq<ReplayEntryRecordModel>,
    entry: ReplayEntryRecordModel,
    told: Option<i64>,
)
    requires
        is_settled_truly(entries, told),
    ensures
        is_settled_truly(
            entries.push(entry),
            if entry.event_kind is RoundSettlement {
                Some(entry.event_seq)
            } else {
                told
            },
        ),
{
    let all = entries.push(entry);
    let last = entries.len() as int;
    assert forall|i: int| 0 <= i < last implies #[trigger] all[i] == entries[i] by {}
    assert(all[last] == entry);
    if entry.event_kind is RoundSettlement {
        let now = Some(entry.event_seq);
        assert(now->0 == all[last].event_seq);
        assert(settles_hand(all, last, now->0));
        assert(is_settled_truly(all, now));
    } else if let Some(event_seq) = told {
        let at = choose|at: int| #[trigger] settles_hand(entries, at, event_seq);
        assert(all[at] == entries[at]);
        assert(settles_hand(all, at, event_seq));
        assert(is_settled_truly(all, told));
    } else {
        assert(is_settled_truly(all, None));
    }
}

proof fn lemma_started_truly(
    entries: Seq<ReplayEntryRecordModel>,
    entry: ReplayEntryRecordModel,
    told: Option<i64>,
)
    requires
        is_started_truly(entries, told),
    ensures
        is_started_truly(
            entries.push(entry),
            if told is None && entry.event_kind is RoundStarted {
                Some(entry.event_seq)
            } else {
                told
            },
        ),
{
    let all = entries.push(entry);
    let last = entries.len() as int;
    assert forall|i: int| 0 <= i < last implies #[trigger] all[i] == entries[i] by {}
    assert(all[last] == entry);
    if let Some(event_seq) = told {
        let at = choose|at: int| #[trigger] starts_hand(entries, at, event_seq);
        assert(all[at] == entries[at]);
        assert(starts_hand(all, at, event_seq));
        assert(is_started_truly(all, told));
    } else if entry.event_kind is RoundStarted {
        let now = Some(entry.event_seq);
        assert(now->0 == all[last].event_seq);
        assert(starts_hand(all, last, now->0));
        assert(is_started_truly(all, now));
    } else {
        assert(is_started_truly(all, None));
    }
}

proof fn lemma_noted_truly(round: ReplayRoundRecordModel, event: MatchEventRecordModel)
    requires
        is_told_truly(round),
        round.round_id == round_of(event),
    ensures
        is_told_truly(noted_round(round, event)),
{
    let entry = entry_of(event);
    lemma_first_number(round.entries, entry, "hand_number"@, round.hand_number);
    lemma_first_text(round.entries, entry, "prevailing_wind"@, round.prevailing_wind);
    lemma_first_text(round.entries, entry, "dealer_seat"@, round.dealer_seat);
    lemma_settled_truly(round.entries, entry, round.settlement_event_seq);
    lemma_started_truly(round.entries, entry, round.start_event_seq);
    assert(are_of_hand(round.entries.push(entry), round.round_id));
}

proof fn lemma_hands_told_truly(
    match_record: MatchRecordModel,
    events: Seq<MatchEventRecordModel>,
)
    ensures
        forall|i: int|
            0 <= i < replay_in_order(match_record, events).rounds.len() ==> is_told_truly(
                #[trigger] replay_in_order(match_record, events).rounds[i],
            ),
    decreases events.len(),
{
    if events.len() > 0 {
        let event = events.last();
        let before = replay_in_order(match_record, events.drop_last());
        let after = replay_in_order(match_record, events);
        lemma_hands_told_truly(match_record, events.drop_last());
        lemma_round_place(before.rounds, round_of(event));
        let blank = blank_round(round_of(event));
        assert(is_told_truly(blank));
        lemma_noted_truly(blank, event);
        match round_place(before.rounds, round_of(event)) {
            Some(place) => {
                assert(is_told_truly(before.rounds[place]));
                lemma_noted_truly(before.rounds[place], event);
            },
            None => {},
        }
        assert forall|i: int| 0 <= i < after.rounds.len() implies is_told_truly(
            #[trigger] after.rounds[i],
        ) by {
            if i < before.rounds.len() {
                assert(is_told_truly(before.rounds[i]));
            }
        }
    }
}

/// An entry shows its event: its number, its kind, its hand, whoever brought it about, and when it was
/// stored.
pub proof fn law_entries_show_their_events(event: MatchEventRecordModel)
    ensures
        ({
            let entry = entry_of(event);
            &&& entry.event_seq == event.event_seq
            &&& entry.round_id == event.round_id
            &&& entry.event_type == event.event_type
            &&& entry.event_kind == replay_kind(event.event_type)
            &&& entry.actor_user_id == event.actor_user_id
            &&& entry.actor_seat == event.actor_seat
            &&& entry.created_at_unix_ms == event.created_at_unix_ms
            &&& entry.summary == digest_of(event).summary
            &&& entry.invalid_payload == digest_of(event).invalid_payload
        }),
{
}

/// What a replay says of a hand is what the events of the hand say: it started with the first start on
/// record and was settled by the last settlement, and its number, its wind and its dealer are the
/// first that a start gives.
pub proof fn law_hands_are_told_truly(
    match_record: MatchRecordModel,
    events: Seq<MatchEventRecordModel>,
    i: int,
)
    requires
        0 <= i < replay_of(match_record, events).rounds.len(),
    ensures
        is_told_truly(replay_of(match_record, events).rounds[i]),
{
    lemma_hands_told_truly(match_record, by_number(events));
}

/// An event of no known kind, or one that names no hand, is remarked upon; so is one whose payload is
/// incomplete. Nothing else is.
pub proof fn law_remarks(event: MatchEventRecordModel)
    ensures
        ({
            let kind = replay_kind(event.event_type);
            let incomplete = digest_of(event).invalid_payload;
            let homeless = event.round_id is None && !(kind is MatchSettlement);
            let remarks = warnings_on(event);
            &&& remarks.len() == (if kind is Unknown || incomplete {
                1int
            } else {
                0
            }) + (if homeless {
                1int
            } else {
                0
            })
            &&& forall|i: int|
                0 <= i < remarks.len() ==> (#[trigger] remarks[i]).event_seq == Some(
                    event.event_seq,
                ) && remarks[i].event_type == event.event_type
        }),
{
}

} // verus!
