//! Who may read what of a match.

use vstd::prelude::*;

use crate::collections::{opt_view, views};
use crate::db::digest::{payload_string, payload_text};
use crate::db::models::{
    MatchEventRecord, MatchEventRecordModel, MatchRecord, MatchRecordModel, MatchReplayRecord,
    MatchReplayRecordModel, MatchStatusRecord, NewMatchEventRecord, NewMatchEventRecordModel,
};
use crate::db::replay::{build_match_replay, replay_of};
use crate::json::{json_members, lemma_object_model, Json, JsonModel};
use crate::text::same_text;

verus! {

/// Whether one of the seats in a snapshot of the seating belongs to a user.
pub open spec fn seated_in(seating: JsonModel, user_id: Seq<char>) -> bool {
    seating matches JsonModel::Object(seats) && exists|i: int|
        0 <= i < seats.len() && payload_text((#[trigger] seats[i]).1, "user_id"@) == Some(user_id)
}

/// Whether a user has a part in a match: as the one who opened it or at one of its seats.
pub open spec fn takes_part(record: MatchRecordModel, user_id: Seq<char>) -> bool {
    record.created_by_user_id == Some(user_id) || seated_in(record.seating_snapshot, user_id)
}

/// Whether a user may see the replay of a match: only who took part, and only once it is over.
pub open spec fn may_replay(record: MatchRecordModel, user_id: Seq<char>) -> bool {
    takes_part(record, user_id) && record.status == MatchStatusRecord::Finished
}

pub fn match_contains_user(record: &MatchRecord, user_id: &str) -> (r: bool)
    ensures
        r == takes_part(record@, user_id@),
{
    if let Some(creator) = record.created_by_user_id.as_ref() {
        if same_text(creator.as_str(), user_id) {
            return true;
        }
    }
    match &record.seating_snapshot {
        Json::Object(members) => {
            proof {
                lemma_object_model(*members);
            }
            let ghost seats = json_members(members@);
            let mut i: usize = 0;
            while i < members.len()
                invariant
                    i <= members.len(),
                    seats == json_members(members@),
                    record@.seating_snapshot == JsonModel::Object(seats),
                    forall|j: int|
                        0 <= j < i ==> payload_text((#[trigger] seats[j]).1, "user_id"@) != Some(
                            user_id@,
                        ),
                decreases members.len() - i,
            {
                assert(seats[i as int].1 == members@[i as int].value@);
                if let Some(value) = payload_string(&members[i].value, "user_id") {
                    if same_text(value.as_str(), user_id) {
                        return true;
                    }
                }
                i = i + 1;
            }
            false
        },
        _ => false,
    }
}

pub fn may_replay_match(record: &MatchRecord, user_id: &str) -> (r: bool)
    ensures
        r == may_replay(record@, user_id@),
{
    match_contains_user(record, user_id) && record.status == MatchStatusRecord::Finished
}

/// The view of a reply about a match.
pub open spec fn found_view(reply: Result<Option<MatchRecord>, String>) -> Result<
    Option<MatchRecordModel>,
    Seq<char>,
> {
    match reply {
        Ok(record) => Ok(opt_view(record)),
        Err(reason) => Err(reason@),
    }
}

/// The view of a reply about events.
pub open spec fn listed_view(reply: Result<Vec<MatchEventRecord>, String>) -> Result<
    Seq<MatchEventRecordModel>,
    Seq<char>,
> {
    match reply {
        Ok(events) => Ok(views(events@)),
        Err(reason) => Err(reason@),
    }
}

/// The view of a reply that is nothing but success.
pub open spec fn stored_view(reply: Result<(), String>) -> Result<(), Seq<char>> {
    match reply {
        Ok(_) => Ok(()),
        Err(reason) => Err(reason@),
    }
}

/// Where matches and their events are kept. Each repository says of itself which replies it may
/// give, and what becomes of it; one that says nothing may give any.
pub trait MatchEventRepository: Sized {
    /// Whether a repository may take an event so, and be such afterwards.
    open spec fn appends(
        before: Self,
        event: NewMatchEventRecordModel,
        reply: Result<(), Seq<char>>,
        after: Self,
    ) -> bool {
        true
    }

    /// Whether a repository may list the events of a match so.
    open spec fn lists(
        self,
        match_id: Seq<char>,
        reply: Result<Seq<MatchEventRecordModel>, Seq<char>>,
    ) -> bool {
        true
    }

    /// Whether a repository may find a match so.
    open spec fn finds(self, match_id: Seq<char>, reply: Result<Option<MatchRecordModel>, Seq<char>>) -> bool {
        true
    }

    fn append_event(&mut self, event: NewMatchEventRecord) -> (r: Result<(), String>)
        ensures
            Self::appends(*old(self), event@, stored_view(r), *final(self)),
    ;

    fn list_events(&self, match_id: &str) -> (r: Result<Vec<MatchEventRecord>, String>)
        ensures
            self.lists(match_id@, listed_view(r)),
    ;

    fn get_match(&self, match_id: &str) -> (r: Result<Option<MatchRecord>, String>)
        ensures
            self.finds(match_id@, found_view(r)),
    ;
}

/// A repository that keeps nothing.
#[derive(Clone, Copy, Debug, PartialEq, Eq, Structural)]
pub struct NoopMatchEventRepository;

impl Default for NoopMatchEventRepository {
    fn default() -> (r: Self)
        ensures
            r == NoopMatchEventRepository,
    {
        NoopMatchEventRepository
    }
}

impl MatchEventRepository for NoopMatchEventRepository {
    open spec fn appends(
        before: Self,
        event: NewMatchEventRecordModel,
        reply: Result<(), Seq<char>>,
        after: Self,
    ) -> bool {
        reply is Ok
    }

    open spec fn lists(
        self,
        match_id: Seq<char>,
        reply: Result<Seq<MatchEventRecordModel>, Seq<char>>,
    ) -> bool {
        reply == Ok::<Seq<MatchEventRecordModel>, Seq<char>>(Seq::empty())
    }

    open spec fn finds(self, match_id: Seq<char>, reply: Result<Option<MatchRecordModel>, Seq<char>>) -> bool {
        reply == Ok::<Option<MatchRecordModel>, Seq<char>>(None)
    }

    fn append_event(&mut self, event: NewMatchEventRecord) -> (r: Result<(), String>) {
        Ok(())
    }

    fn list_events(&self, match_id: &str) -> (r: Result<Vec<MatchEventRecord>, String>) {
        let none: Vec<MatchEventRecord> = Vec::new();
        assert(views(none@) =~= Seq::<MatchEventRecordModel>::empty());
        Ok(none)
    }

    fn get_match(&self, match_id: &str) -> (r: Result<Option<MatchRecord>, String>) {
        Ok(None)
    }
}

/// What a user is shown of what was found: the match, where the user has a part in it.
pub open spec fn shown_match(
    found: Result<Option<MatchRecordModel>, Seq<char>>,
    user_id: Seq<char>,
) -> Result<Option<MatchRecordModel>, Seq<char>> {
    match found {
        Ok(Some(record)) => if takes_part(record, user_id) {
            Ok(Some(record))
        } else {
            Ok(None)
        },
        _ => found,
    }
}

/// The view of a reply that may be nothing.
pub open spec fn optional_view<T: View>(reply: Result<Option<T>, String>) -> Result<
    Option<T::V>,
    Seq<char>,
> {
    match reply {
        Ok(value) => Ok(opt_view(value)),
        Err(reason) => Err(reason@),
    }
}

/// The view of a reply that may be no list.
pub open spec fn optional_list_view(reply: Result<Option<Vec<MatchEventRecord>>, String>) -> Result<
    Option<Seq<MatchEventRecordModel>>,
    Seq<char>,
> {
    match reply {
        Ok(Some(events)) => Ok(Some(views(events@))),
        Ok(None) => Ok(None),
        Err(reason) => Err(reason@),
    }
}

/// Answers questions about matches, to those who have a part in them.
pub struct MatchQueryService<R> {
    pub repo: R,
}

impl Default for MatchQueryService<NoopMatchEventRepository> {
    fn default() -> (r: Self)
        ensures
            r.repo == NoopMatchEventRepository,
    {
        MatchQueryService::new(NoopMatchEventRepository)
    }
}

impl<R: MatchEventRepository> MatchQueryService<R> {
    pub fn new(repo: R) -> (r: MatchQueryService<R>)
        ensures
            r.repo == repo,
    {
        MatchQueryService { repo }
    }

    /// A match, where the user has a part in it.
    pub fn get_match_for_user(&self, user_id: &str, match_id: &str) -> (r: Result<
        Option<MatchRecord>,
        String,
    >)
        ensures
            exists|found: Result<Option<MatchRecordModel>, Seq<char>>|
                #[trigger] self.repo.finds(match_id@, found) && found_view(r) == shown_match(
                    found,
                    user_id@,
                ),
    {
        let found = self.repo.get_match(match_id);
        assert(self.repo.finds(match_id@, found_view(found)));
        match found {
            Err(reason) => Err(reason),
            Ok(None) => Ok(None),
            Ok(Some(record)) => if match_contains_user(&record, user_id) {
                Ok(Some(record))
            } else {
                Ok(None)
            },
        }
    }

    /// The events of a match, where the user has a part in it.
    pub fn list_events_for_user(&self, user_id: &str, match_id: &str) -> (r: Result<
        Option<Vec<MatchEventRecord>>,
        String,
    >)
        ensures
            exists|found: Result<Option<MatchRecordModel>, Seq<char>>|
                #[trigger] self.repo.finds(match_id@, found) && match shown_match(found, user_id@) {
                    Err(reason) => optional_list_view(r) == Err::<
                        Option<Seq<MatchEventRecordModel>>,
                        Seq<char>,
                    >(reason),
                    Ok(None) => optional_list_view(r) == Ok::<
                        Option<Seq<MatchEventRecordModel>>,
                        Seq<char>,
                    >(None),
                    Ok(Some(_)) => exists|listed: Result<Seq<MatchEventRecordModel>, Seq<char>>|
                        #[trigger] self.repo.lists(match_id@, listed) && optional_list_view(r)
                            == match listed {
                            Ok(events) => Ok(Some(events)),
                            Err(reason) => Err(reason),
                        },
                },
    {
        let found = self.repo.get_match(match_id);
        assert(self.repo.finds(match_id@, found_view(found)));
        match found {
            Err(reason) => Err(reason),
            Ok(None) => Ok(None),
            Ok(Some(record)) => if match_contains_user(&record, user_id) {
                let listed = self.repo.list_events(match_id);
                assert(self.repo.lists(match_id@, listed_view(listed)));
                match listed {
                    Err(reason) => Err(reason),
                    Ok(events) => Ok(Some(events)),
                }
            } else {
                Ok(None)
            },
        }
    }

    /// The replay of a match, where it is over and the user had a part in it. Nobody else sees
    /// the hands that were dealt.
    pub fn build_replay_for_user(&self, user_id: &str, match_id: &str) -> (r: Result<
        Option<MatchReplayRecord>,
        String,
    >)
        ensures
            exists|found: Result<Option<MatchRecordModel>, Seq<char>>|
                #[trigger] self.repo.finds(match_id@, found) && match found {
                    Err(reason) => optional_view(r) == Err::<
                        Option<MatchReplayRecordModel>,
                        Seq<char>,
                    >(reason),
                    Ok(None) => optional_view(r) == Ok::<Option<MatchReplayRecordModel>, Seq<char>>(
                        None,
                    ),
                    Ok(Some(record)) => if may_replay(record, user_id@) {
                        exists|listed: Result<Seq<MatchEventRecordModel>, Seq<char>>|
                            #[trigger] self.repo.lists(match_id@, listed) && optional_view(r)
                                == match listed {
                                Ok(events) => Ok(Some(replay_of(record, events))),
                                Err(reason) => Err(reason),
                            }
                    } else {
                        optional_view(r) == Ok::<Option<MatchReplayRecordModel>, Seq<char>>(None)
                    },
                },
    {
        let found = self.repo.get_match(match_id);
        assert(self.repo.finds(match_id@, found_view(found)));
        match found {
            Err(reason) => Err(reason),
            Ok(None) => Ok(None),
            Ok(Some(record)) => if may_replay_match(&record, user_id) {
                let listed = self.repo.list_events(match_id);
                assert(self.repo.lists(match_id@, listed_view(listed)));
                match listed {
                    Err(reason) => Err(reason),
                    Ok(events) => Ok(Some(build_match_replay(record, events))),
                }
            } else {
                Ok(None)
            },
        }
    }
}

} // verus!
